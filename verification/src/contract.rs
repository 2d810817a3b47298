//! The entry points of the contract.

use soroban_sdk::{Address, Env};
use vstd::prelude::*;
use crate::error::EscrowError;
use crate::host::{
    address_string, address_text, current_contract_address, extend_instance_ttl, has_entry,
    host_state, is_contract_text, ledger_sequence, ledger_timestamp, publish_opening,
    publish_payout, read_address, read_bool, read_i128, read_u64, require_auth, same_address,
    transfer, write_address, write_bool, write_i128, write_u64, Entry, HostState, HostValue,
};
use crate::key::DataKey;
use crate::model::{
    before_extension, claim_effect, claim_runs, extend_ttl_effect, extend_ttl_runs,
    get_state_runs, initialize_effect, initialize_runs, lemma_opened_entries,
    lemma_paid_out_entries, opened, paid_out, reading, Reading, Terms, MIN_AMOUNT,
    MIN_LOCK_DURATION,
};
use crate::ttl::{required_ttl_ledgers_at, MIN_TTL_THRESHOLD, POST_CLAIM_TTL_LEDGERS};

verus! {

/// The escrow contract.
///
/// Its state is the instance storage of the contract that runs. A call of an
/// entry point is one invocation of the contract.
pub struct EscrowContract;

impl EscrowContract {
    /// Sets the escrow up at the close time of the current ledger, and takes the
    /// funds in. See [`EscrowContract::initialize_at`].
    pub fn initialize(
        env: &mut Env,
        sender: Address,
        recipient: Address,
        token: Address,
        amount: i128,
        unlock_time: u64,
    ) -> (result: Result<(), EscrowError>)
        requires
            initialize_runs(
                host_state(*old(env)),
                host_state(*old(env)).timestamp,
                terms(sender, recipient, token, amount, unlock_time),
            ),
        ensures
            initialize_effect(
                host_state(*old(env)),
                host_state(*old(env)).timestamp,
                terms(sender, recipient, token, amount, unlock_time),
                result,
                host_state(*final(env)),
            ),
            result is Ok || host_state(*old(env)).is_typed() ==> host_state(
                *final(env),
            ).is_typed(),
    {
        let now: u64 = ledger_timestamp(env);
        Self::initialize_at(env, now, sender, recipient, token, amount, unlock_time)
    }

    /// Sets the escrow up at `now`, and takes the funds in.
    ///
    /// This works once, with an amount of at least [`MIN_AMOUNT`] and an unlock
    /// time that is more than [`MIN_LOCK_DURATION`] seconds away, and where the
    /// sender authorizes it.
    pub fn initialize_at(
        env: &mut Env,
        now: u64,
        sender: Address,
        recipient: Address,
        token: Address,
        amount: i128,
        unlock_time: u64,
    ) -> (result: Result<(), EscrowError>)
        requires
            initialize_runs(
                host_state(*old(env)),
                now,
                terms(sender, recipient, token, amount, unlock_time),
            ),
        ensures
            initialize_effect(
                host_state(*old(env)),
                now,
                terms(sender, recipient, token, amount, unlock_time),
                result,
                host_state(*final(env)),
            ),
            result is Ok || host_state(*old(env)).is_typed() ==> host_state(
                *final(env),
            ).is_typed(),
    {
        if has_entry(env, DataKey::Sender.symbol()) {
            return Err(EscrowError::AlreadyInitialized);
        }
        if amount < MIN_AMOUNT {
            return Err(EscrowError::InvalidAmount);
        }
        if unlock_time <= now.saturating_add(MIN_LOCK_DURATION) {
            return Err(EscrowError::InvalidUnlockTime);
        }
        require_auth(env, &sender);
        let ghost asked = HostState { ttl: host_state(*env).ttl, ..host_state(*old(env)) };

        write_address(env, DataKey::Sender.symbol(), &sender);
        write_address(env, DataKey::Recipient.symbol(), &recipient);
        write_address(env, DataKey::Token.symbol(), &token);
        write_i128(env, DataKey::Amount.symbol(), amount);
        write_u64(env, DataKey::UnlockTime.symbol(), unlock_time);
        write_bool(env, DataKey::Claimed.symbol(), false);

        // The instance must not be archived before the recipient can claim.
        let ledgers: u32 = required_ttl_ledgers_at(now, unlock_time);
        extend_instance_ttl(env, MIN_TTL_THRESHOLD, ledgers);

        let contract = current_contract_address(env);
        transfer(env, &token, &sender, &contract, amount);

        proof {
            reveal_strlit("initialized");
        }
        publish_opening(env, "initialized", sender, recipient, amount, unlock_time);
        proof {
            let terms = terms(sender, recipient, token, amount, unlock_time);
            assert(host_state(*env).requests == opened(asked, now, terms).requests);
            assert(before_extension(host_state(*old(env)), host_state(*env)) == asked);
            assert(opened(asked, now, terms).up_to_longer_life(host_state(*env)));
            lemma_opened_entries(asked, now, terms, host_state(*env));
        }
        Ok(())
    }

    /// Pays the funds out to the recipient at the close time of the current
    /// ledger. See [`EscrowContract::claim_at`].
    pub fn claim(env: &mut Env) -> (result: Result<(), EscrowError>)
        requires
            claim_runs(host_state(*old(env)), host_state(*old(env)).timestamp),
        ensures
            claim_effect(
                host_state(*old(env)),
                host_state(*old(env)).timestamp,
                result,
                host_state(*final(env)),
            ),
            host_state(*old(env)).is_typed() ==> host_state(*final(env)).is_typed(),
    {
        let now: u64 = ledger_timestamp(env);
        Self::claim_at(env, now)
    }

    /// Pays the funds out to the recipient at `now`.
    ///
    /// This works once, from the unlock time on, and where the recipient
    /// authorizes it.
    pub fn claim_at(env: &mut Env, now: u64) -> (result: Result<(), EscrowError>)
        requires
            claim_runs(host_state(*old(env)), now),
        ensures
            claim_effect(host_state(*old(env)), now, result, host_state(*final(env))),
            host_state(*old(env)).is_typed() ==> host_state(*final(env)).is_typed(),
    {
        let recipient = match stored_address(env, DataKey::Recipient) {
            Some(recipient) => recipient,
            None => return Err(EscrowError::NotInitialized),
        };
        require_auth(env, &recipient);
        let ghost asked = HostState { ttl: host_state(*env).ttl, ..host_state(*old(env)) };

        if stored_claimed(env) {
            return Err(EscrowError::AlreadyClaimed);
        }
        let unlock_time: u64 = match stored_unlock_time(env) {
            Some(unlock_time) => unlock_time,
            None => return Err(EscrowError::NotInitialized),
        };
        if now < unlock_time {
            return Err(EscrowError::StillLocked);
        }
        let token = match stored_address(env, DataKey::Token) {
            Some(token) => token,
            None => return Err(EscrowError::NotInitialized),
        };
        let amount: i128 = match stored_amount(env) {
            Some(amount) => amount,
            None => return Err(EscrowError::NotInitialized),
        };

        write_bool(env, DataKey::Claimed.symbol(), true);

        // The instance has to stay readable for reconciliation.
        extend_instance_ttl(env, MIN_TTL_THRESHOLD, POST_CLAIM_TTL_LEDGERS);

        let contract = current_contract_address(env);
        transfer(env, &token, &contract, &recipient, amount);

        proof {
            reveal_strlit("claimed");
        }
        publish_payout(env, "claimed", recipient, amount);
        proof {
            assert(host_state(*env).requests == paid_out(asked).requests);
            assert(before_extension(host_state(*old(env)), host_state(*env)) == asked);
            assert(paid_out(asked).up_to_longer_life(host_state(*env)));
            lemma_paid_out_entries(asked, host_state(*env));
        }
        Ok(())
    }

    /// Keeps the instance alive, as seen from the close time of the current
    /// ledger. See [`EscrowContract::extend_ttl_at`].
    pub fn extend_ttl(env: &mut Env) -> (result: Result<(), EscrowError>)
        requires
            extend_ttl_runs(host_state(*old(env)), host_state(*old(env)).timestamp),
        ensures
            extend_ttl_effect(
                host_state(*old(env)),
                host_state(*old(env)).timestamp,
                result,
                host_state(*final(env)),
            ),
    {
        let now: u64 = ledger_timestamp(env);
        Self::extend_ttl_at(env, now)
    }

    /// Keeps the instance alive until 30 days after the unlock time, as seen from
    /// `now`. Nobody has to authorize it.
    pub fn extend_ttl_at(env: &mut Env, now: u64) -> (result: Result<(), EscrowError>)
        requires
            extend_ttl_runs(host_state(*old(env)), now),
        ensures
            extend_ttl_effect(host_state(*old(env)), now, result, host_state(*final(env))),
    {
        let unlock_time: u64 = match stored_unlock_time(env) {
            Some(unlock_time) => unlock_time,
            None => return Err(EscrowError::NotInitialized),
        };
        let ledgers: u32 = required_ttl_ledgers_at(now, unlock_time);
        extend_instance_ttl(env, MIN_TTL_THRESHOLD, ledgers);
        Ok(())
    }

    /// The recipient, the amount, the unlock time and whether the funds have been
    /// claimed.
    pub fn get_state(env: &Env) -> (result: Result<(Address, i128, u64, bool), EscrowError>)
        requires
            get_state_runs(host_state(*env)),
        ensures
            read_as(result) == reading(host_state(*env)),
    {
        let recipient = match stored_address(env, DataKey::Recipient) {
            Some(recipient) => recipient,
            None => return Err(EscrowError::NotInitialized),
        };
        let amount: i128 = match stored_amount(env) {
            Some(amount) => amount,
            None => return Err(EscrowError::NotInitialized),
        };
        let unlock_time: u64 = match stored_unlock_time(env) {
            Some(unlock_time) => unlock_time,
            None => return Err(EscrowError::NotInitialized),
        };
        let claimed = stored_claimed(env);
        Ok((recipient, amount, unlock_time, claimed))
    }

    /// [`EscrowContract::initialize`], or `None` where it is not refused but the
    /// sender is the contract itself, the instance's life cannot be extended as it
    /// asks, or the token is an account or the contract itself.
    pub fn try_initialize(
        env: &mut Env,
        sender: Address,
        recipient: Address,
        token: Address,
        amount: i128,
        unlock_time: u64,
    ) -> (result: Option<Result<(), EscrowError>>)
        ensures
            result is Some <==> initialize_runs(
                host_state(*old(env)),
                host_state(*old(env)).timestamp,
                terms(sender, recipient, token, amount, unlock_time),
            ),
            result is None ==> host_state(*final(env)) == host_state(*old(env)),
            result matches Some(result) ==> initialize_effect(
                host_state(*old(env)),
                host_state(*old(env)).timestamp,
                terms(sender, recipient, token, amount, unlock_time),
                result,
                host_state(*final(env)),
            ),
    {
        let now: u64 = ledger_timestamp(env);
        if can_initialize(env, now, &sender, &recipient, &token, amount, unlock_time) {
            Some(Self::initialize(env, sender, recipient, token, amount, unlock_time))
        } else {
            None
        }
    }

    /// [`EscrowContract::claim`], or `None` where an entry that it reads is of a
    /// wrong type or the recipient is the contract itself, or where it is not
    /// refused but the instance's life cannot be extended as it asks or the token is
    /// an account or the contract itself.
    pub fn try_claim(env: &mut Env) -> (result: Option<Result<(), EscrowError>>)
        ensures
            result is Some <==> claim_runs(host_state(*old(env)), host_state(*old(env)).timestamp),
            result is None ==> host_state(*final(env)) == host_state(*old(env)),
            result matches Some(result) ==> claim_effect(
                host_state(*old(env)),
                host_state(*old(env)).timestamp,
                result,
                host_state(*final(env)),
            ),
    {
        let now: u64 = ledger_timestamp(env);
        if can_claim(env, now) {
            Some(Self::claim(env))
        } else {
            None
        }
    }

    /// [`EscrowContract::extend_ttl`], or `None` where the entry that it reads is
    /// of a wrong type or the instance's life cannot be extended as it asks.
    pub fn try_extend_ttl(env: &mut Env) -> (result: Option<Result<(), EscrowError>>)
        ensures
            result is Some <==> extend_ttl_runs(
                host_state(*old(env)),
                host_state(*old(env)).timestamp,
            ),
            result is None ==> host_state(*final(env)) == host_state(*old(env)),
            result matches Some(result) ==> extend_ttl_effect(
                host_state(*old(env)),
                host_state(*old(env)).timestamp,
                result,
                host_state(*final(env)),
            ),
    {
        let now: u64 = ledger_timestamp(env);
        if can_extend_ttl(env, now) {
            Some(Self::extend_ttl(env))
        } else {
            None
        }
    }

    /// [`EscrowContract::get_state`], or `None` where an entry that it reads is of
    /// a wrong type.
    pub fn try_get_state(
        env: &Env,
    ) -> (result: Option<Result<(Address, i128, u64, bool), EscrowError>>)
        ensures
            result is Some <==> get_state_runs(host_state(*env)),
            result matches Some(result) ==> read_as(result) == reading(host_state(*env)),
    {
        if can_get_state(env) {
            Some(Self::get_state(env))
        } else {
            None
        }
    }
}

/// The terms that the arguments of `initialize` stand for.
pub open spec fn terms(
    sender: Address,
    recipient: Address,
    token: Address,
    amount: i128,
    unlock_time: u64,
) -> Terms {
    Terms {
        sender: address_text(sender),
        recipient: address_text(recipient),
        token: address_text(token),
        amount,
        unlock_time,
    }
}

/// What an answer of `get_state` says.
pub open spec fn read_as(
    result: Result<(Address, i128, u64, bool), EscrowError>,
) -> Result<Reading, EscrowError> {
    match result {
        Ok((recipient, amount, unlock_time, claimed)) => Ok(
            Reading { recipient: address_text(recipient), amount, unlock_time, claimed },
        ),
        Err(error) => Err(error),
    }
}

/// The address under the key.
fn stored_address(env: &Env, key: DataKey) -> (address: Option<Address>)
    requires
        host_state(*env).has(key) ==> host_state(*env).at(key) is Address,
    ensures
        address is Some <==> host_state(*env).has(key),
        address matches Some(address) ==> host_state(*env).at(key) == HostValue::Address(
            address_text(address),
        ),
{
    match read_address(env, key.symbol()) {
        Entry::Present(address) => Some(address),
        _ => None,
    }
}

/// The amount that is locked.
fn stored_amount(env: &Env) -> (amount: Option<i128>)
    requires
        host_state(*env).is_typed_at(DataKey::Amount),
    ensures
        amount is Some <==> host_state(*env).has(DataKey::Amount),
        amount matches Some(amount) ==> host_state(*env).amount() == amount,
{
    match read_i128(env, DataKey::Amount.symbol()) {
        Entry::Present(amount) => Some(amount),
        _ => None,
    }
}

/// When the funds can be claimed.
fn stored_unlock_time(env: &Env) -> (unlock_time: Option<u64>)
    requires
        host_state(*env).is_typed_at(DataKey::UnlockTime),
    ensures
        unlock_time is Some <==> host_state(*env).has(DataKey::UnlockTime),
        unlock_time matches Some(unlock_time) ==> host_state(*env).unlock_time() == unlock_time,
{
    match read_u64(env, DataKey::UnlockTime.symbol()) {
        Entry::Present(unlock_time) => Some(unlock_time),
        _ => None,
    }
}

/// Whether the funds have been claimed.
fn stored_claimed(env: &Env) -> (claimed: bool)
    requires
        host_state(*env).is_typed_at(DataKey::Claimed),
    ensures
        claimed == host_state(*env).is_claimed(),
{
    match read_bool(env, DataKey::Claimed.symbol()) {
        Entry::Present(claimed) => claimed,
        _ => false,
    }
}

/// Whether the instance's life can be extended by so many ledgers.
fn can_extend_to(env: &Env, ledgers: u32) -> (can: bool)
    ensures
        can == host_state(*env).can_extend_to(ledgers),
{
    ledger_sequence(env) <= u32::MAX - ledgers
}

/// Whether the contract can ask the address for its authorization.
fn can_ask(env: &Env, address: &Address) -> (can: bool)
    ensures
        can == host_state(*env).can_ask(address_text(*address)),
{
    !same_address(address, &current_contract_address(env))
}

/// Whether the contract can call the address.
fn can_call(env: &Env, address: &Address) -> (can: bool)
    ensures
        can == host_state(*env).can_call(address_text(*address)),
{
    is_contract(address) && !same_address(address, &current_contract_address(env))
}

/// Whether the address is that of a contract.
fn is_contract(address: &Address) -> (is: bool)
    ensures
        is == is_contract_text(address_text(*address)),
{
    let text = address_string(address);
    !text.as_str().is_empty() && text.as_str().get_char(0) == 'C'
}

/// Whether `initialize` at `now` runs to its end.
fn can_initialize(
    env: &Env,
    now: u64,
    sender: &Address,
    recipient: &Address,
    token: &Address,
    amount: i128,
    unlock_time: u64,
) -> (can: bool)
    ensures
        can == initialize_runs(
            host_state(*env),
            now,
            terms(*sender, *recipient, *token, amount, unlock_time),
        ),
{
    if has_entry(env, DataKey::Sender.symbol()) || amount < MIN_AMOUNT || unlock_time
        <= now.saturating_add(MIN_LOCK_DURATION) {
        return true;
    }
    can_ask(env, sender) && can_extend_to(env, required_ttl_ledgers_at(now, unlock_time))
        && can_call(env, token)
}

/// Whether `claim` at `now` runs to its end.
fn can_claim(env: &Env, now: u64) -> (can: bool)
    ensures
        can == claim_runs(host_state(*env), now),
{
    match read_address(env, DataKey::Recipient.symbol()) {
        Entry::Missing => return true,
        Entry::Mistyped => return false,
        Entry::Present(recipient) => {
            if !can_ask(env, &recipient) {
                return false;
            }
        },
    }
    match read_bool(env, DataKey::Claimed.symbol()) {
        Entry::Mistyped => return false,
        Entry::Present(true) => return true,
        _ => {},
    }
    match read_u64(env, DataKey::UnlockTime.symbol()) {
        Entry::Missing => return true,
        Entry::Mistyped => return false,
        Entry::Present(unlock_time) => {
            if now < unlock_time {
                return true;
            }
        },
    }
    let token = match read_address(env, DataKey::Token.symbol()) {
        Entry::Missing => return true,
        Entry::Mistyped => return false,
        Entry::Present(token) => token,
    };
    match read_i128(env, DataKey::Amount.symbol()) {
        Entry::Missing => true,
        Entry::Mistyped => false,
        Entry::Present(_) => can_extend_to(env, POST_CLAIM_TTL_LEDGERS) && can_call(env, &token),
    }
}

/// Whether `extend_ttl` at `now` runs to its end.
fn can_extend_ttl(env: &Env, now: u64) -> (can: bool)
    ensures
        can == extend_ttl_runs(host_state(*env), now),
{
    match read_u64(env, DataKey::UnlockTime.symbol()) {
        Entry::Missing => true,
        Entry::Mistyped => false,
        Entry::Present(unlock_time) => can_extend_to(
            env,
            required_ttl_ledgers_at(now, unlock_time),
        ),
    }
}

/// Whether `get_state` runs to its end.
fn can_get_state(env: &Env) -> (can: bool)
    ensures
        can == get_state_runs(host_state(*env)),
{
    match read_address(env, DataKey::Recipient.symbol()) {
        Entry::Missing => return true,
        Entry::Mistyped => return false,
        Entry::Present(_) => {},
    }
    match read_i128(env, DataKey::Amount.symbol()) {
        Entry::Missing => return true,
        Entry::Mistyped => return false,
        Entry::Present(_) => {},
    }
    match read_u64(env, DataKey::UnlockTime.symbol()) {
        Entry::Missing => return true,
        Entry::Mistyped => return false,
        Entry::Present(_) => {},
    }
    !matches!(read_bool(env, DataKey::Claimed.symbol()), Entry::Mistyped)
}

} // verus!
