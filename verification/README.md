# Escrow

A Soroban smart contract, verified with Verus, that locks an amount of a token
for a recipient until a given time.

## Entry points

| Function | What it does |
|---|---|
| `initialize(sender, recipient, token, amount, unlock_time)` | Stores the terms and takes the funds in. Works once, with at least 10,000,000 units of the token and an unlock time more than an hour away. The sender has to authorize it. |
| `claim()` | Pays the funds out. Works once, from the unlock time on. The recipient has to authorize it. |
| `extend_ttl()` | Keeps the contract instance alive. Anyone can call it. |
| `get_state()` | Answers `(recipient, amount, unlock_time, claimed)`. |

## Errors

| Variant | Code | When |
|---|---|---|
| `AlreadyInitialized` | 1 | `initialize` on an escrow that is set up |
| `AlreadyClaimed` | 2 | `claim` on an escrow that is paid out |
| `StillLocked` | 3 | `claim` before the unlock time |
| `NotInitialized` | 4 | any other call on an escrow that is not set up |
| `Unauthorized` | 5 | reserved |
| `AlreadyCancelled` | 6 | reserved |
| `InvalidAmount` | 7 | `initialize` with too small an amount |
| `InvalidUnlockTime` | 8 | `initialize` with too early an unlock time |

## Time to live

The network archives an instance whose time to live, counted in ledgers of about
5 seconds, runs out. An escrow needs

    ceil((unlock_time - now) / 5) + 518,400

ledgers: those up to the unlock time, and 30 days. `initialize` and `extend_ttl`
ask the host for these, `claim` for 120,960 (7 days). The host grants the
extension, up to the network's limit, where no more than 120,960 ledgers are
left, so it does not shorten a life that another contract has lengthened, nor
lengthen it further. A daily call of `extend_ttl` keeps an escrow alive.

## Calls that cannot run

The host ends an invocation and undoes it where the call comes to one of these:

- it reads an entry of a type that the contract does not write;
- it asks the contract itself to authorize the call, as the sender or the recipient;
- it extends the instance's life, counted from the current ledger, past the last
  ledger that 32 bits can number;
- it transfers a token that is an account or the contract itself.

The library's entry points rule these out by what they require. Its `try_`
functions require nothing and answer `None` there.

## Layout

- `src/`: the verified library. `contract` holds the entry points, `model` what
  they do, `laws` what follows over several calls, `ttl` the ledger arithmetic,
  and `host` the calls into `soroban_sdk` together with all that is believed
  without proof.
- `tests/`: the library on a test host.
- `app/`: the deployable contract around the library.

The rest is decided by others: where an address has not authorized an invocation,
or a token contract does not exist or fails, the host ends the invocation and
undoes it.
