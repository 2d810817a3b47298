//! What each entry point does for those who use it, told by the entries of the
//! instance storage, the requests to the host and plain numbers.

use soroban_sdk::Address;
use vstd::prelude::*;
use crate::contract::{read_as, terms};
use crate::error::EscrowError;
use crate::host::{
    address_text, extended_ttl, is_contract_text, ContractEvent, HostState, HostValue, Request,
    TokenTransfer,
};
use crate::key::DataKey;
use crate::laws::{net_inflow, resumes};
use crate::model::{
    claim_effect, claim_runs, extend_ttl_effect, extend_ttl_runs, get_state_runs,
    initialize_effect, initialize_runs, reading, transfers_in, Terms,
};
use crate::ttl::required_ledgers;

verus! {

/// The entries are stored under their names, and these are six different ones.
pub proof fn entries_are_stored_under_their_names()
    ensures
        DataKey::Sender.text() == "Sender"@,
        DataKey::Recipient.text() == "Recipient"@,
        DataKey::Token.text() == "Token"@,
        DataKey::Amount.text() == "Amount"@,
        DataKey::UnlockTime.text() == "UnlockTime"@,
        DataKey::Claimed.text() == "Claimed"@,
        Set::empty().insert("Sender"@).insert("Recipient"@).insert("Token"@).insert(
            "Amount"@,
        ).insert("UnlockTime"@).insert("Claimed"@).len() == 6,
{
    lemma_names_differ();
}

/// The names of the entries differ.
proof fn lemma_names_differ()
    ensures
        "Sender"@ != "Recipient"@,
        "Sender"@ != "Token"@,
        "Sender"@ != "Amount"@,
        "Sender"@ != "UnlockTime"@,
        "Sender"@ != "Claimed"@,
        "Recipient"@ != "Token"@,
        "Recipient"@ != "Amount"@,
        "Recipient"@ != "UnlockTime"@,
        "Recipient"@ != "Claimed"@,
        "Token"@ != "Amount"@,
        "Token"@ != "UnlockTime"@,
        "Token"@ != "Claimed"@,
        "Amount"@ != "UnlockTime"@,
        "Amount"@ != "Claimed"@,
        "UnlockTime"@ != "Claimed"@,
{
    reveal_strlit("Sender");
    reveal_strlit("Recipient");
    reveal_strlit("Token");
    reveal_strlit("Amount");
    reveal_strlit("UnlockTime");
    reveal_strlit("Claimed");
    assert("Sender"@[0] == 'S' && "Recipient"@[0] == 'R' && "Token"@[0] == 'T');
    assert("Amount"@[0] == 'A' && "UnlockTime"@[0] == 'U' && "Claimed"@[0] == 'C');
}

/// The errors have the numbers from 1 to 8.
pub proof fn errors_are_numbered()
    ensures
        EscrowError::AlreadyInitialized.number() == 1,
        EscrowError::AlreadyClaimed.number() == 2,
        EscrowError::StillLocked.number() == 3,
        EscrowError::NotInitialized.number() == 4,
        EscrowError::Unauthorized.number() == 5,
        EscrowError::AlreadyCancelled.number() == 6,
        EscrowError::InvalidAmount.number() == 7,
        EscrowError::InvalidUnlockTime.number() == 8,
{
}

/// The terms of a setup are its arguments, each in its place.
pub proof fn terms_are_the_arguments(
    sender: Address,
    recipient: Address,
    token: Address,
    amount: i128,
    unlock_time: u64,
)
    ensures
        terms(sender, recipient, token, amount, unlock_time).sender == address_text(sender),
        terms(sender, recipient, token, amount, unlock_time).recipient == address_text(recipient),
        terms(sender, recipient, token, amount, unlock_time).token == address_text(token),
        terms(sender, recipient, token, amount, unlock_time).amount == amount,
        terms(sender, recipient, token, amount, unlock_time).unlock_time == unlock_time,
{
}

/// Any address but the contract's own can be asked for its authorization.
pub proof fn others_can_be_asked(state: HostState, address: Seq<char>)
    ensures
        state.can_ask(address) <==> address != state.contract,
{
}

/// Any contract but this one can be called, and no account.
pub proof fn other_contracts_can_be_called(state: HostState, address: Seq<char>)
    ensures
        is_contract_text(address) <==> address.len() > 0 && address[0] == 'C',
        state.can_call(address) <==> address.len() > 0 && address[0] == 'C' && address
            != state.contract,
{
}

/// The instance's life can be extended by so many ledgers exactly where the last of
/// them still has a number of 32 bits.
pub proof fn extensions_end_at_the_last_ledger(state: HostState, ledgers: u32)
    ensures
        state.can_extend_to(ledgers) <==> state.sequence + ledgers <= 0xffff_ffff,
{
}

/// An extension takes place where no more ledgers than the threshold are left and
/// the instance does not live as long already, and then gives it what was asked for
/// or as much as the network allows. A life is never shortened.
pub proof fn extensions_only_lengthen(ttl: nat, limit: nat, threshold: nat, extend_to: nat)
    ensures
        extended_ttl(ttl, limit, threshold, extend_to) >= ttl,
        ttl > threshold ==> extended_ttl(ttl, limit, threshold, extend_to) == ttl,
        ttl <= threshold && ttl <= extend_to <= limit ==> extended_ttl(
            ttl,
            limit,
            threshold,
            extend_to,
        ) == extend_to,
        ttl <= threshold && ttl <= limit <= extend_to ==> extended_ttl(
            ttl,
            limit,
            threshold,
            extend_to,
        ) == limit,
        ttl >= extend_to || ttl >= limit ==> extended_ttl(ttl, limit, threshold, extend_to) == ttl,
{
}

/// Entries are typed exactly where each of the six that is stored is of its own type:
/// three addresses, a signed and an unsigned integer, and a truth value.
pub proof fn entries_have_their_types(state: HostState)
    ensures
        state.is_typed() <==> {
            &&& state.entries.contains_key("Sender"@) ==> state.entries["Sender"@] is Address
            &&& state.entries.contains_key("Recipient"@) ==> state.entries["Recipient"@] is Address
            &&& state.entries.contains_key("Token"@) ==> state.entries["Token"@] is Address
            &&& state.entries.contains_key("Amount"@) ==> state.entries["Amount"@] is I128
            &&& state.entries.contains_key("UnlockTime"@) ==> state.entries["UnlockTime"@] is U64
            &&& state.entries.contains_key("Claimed"@) ==> state.entries["Claimed"@] is Bool
        },
{
}

/// The ledgers that an escrow requires are the seconds to its unlock time at 5 to a
/// ledger, rounded up, and 518,400 more, or the most that 32 bits can count.
pub proof fn required_ledgers_cover_the_lock(now: u64, unlock_time: u64)
    ensures
        unlock_time <= now ==> required_ledgers(now, unlock_time) == 518_400,
        unlock_time > now && (unlock_time - now + 4) / 5 + 518_400 <= 0xffff_ffff
            ==> required_ledgers(now, unlock_time) == (unlock_time - now + 4) / 5 + 518_400,
        unlock_time > now && (unlock_time - now + 4) / 5 + 518_400 > 0xffff_ffff
            ==> required_ledgers(now, unlock_time) == 0xffff_ffff,
{
}

/// A lock that is longer never requires fewer ledgers, and as time passes an escrow
/// never requires more.
pub proof fn required_ledgers_follow_the_lock(now: u64, later: u64, unlock_time: u64, longer: u64)
    requires
        now <= later,
        unlock_time <= longer,
    ensures
        required_ledgers(later, unlock_time) <= required_ledgers(now, unlock_time),
        required_ledgers(now, unlock_time) <= required_ledgers(now, longer),
{
}

/// `initialize` runs to its end exactly where it is refused, or where the sender is
/// not the contract, the token is another contract, and the ledgers that the lock
/// requires still have numbers of 32 bits.
pub proof fn setup_runs_exactly(pre: HostState, now: u64, terms: Terms)
    ensures
        initialize_runs(pre, now, terms) <==> {
            ||| pre.entries.contains_key("Sender"@)
            ||| terms.amount < 10_000_000
            ||| terms.unlock_time <= now + 3_600
            ||| {
                &&& terms.sender != pre.contract
                &&& terms.token.len() > 0 && terms.token[0] == 'C'
                &&& terms.token != pre.contract
                &&& pre.sequence == 0 || pre.sequence + (terms.unlock_time - now + 4) / 5 + 518_400
                    <= 0xffff_ffff
            }
        },
{
}

/// `initialize` answers with an error exactly where the escrow is set up, the amount
/// is too small or the unlock time too close, in this order, and then nothing
/// changes.
pub proof fn setup_answers_exactly(
    pre: HostState,
    now: u64,
    terms: Terms,
    result: Result<(), EscrowError>,
    post: HostState,
)
    requires
        initialize_effect(pre, now, terms, result, post),
    ensures
        result == Err::<(), EscrowError>(EscrowError::AlreadyInitialized)
            <==> pre.entries.contains_key("Sender"@),
        result == Err::<(), EscrowError>(EscrowError::InvalidAmount)
            <==> !pre.entries.contains_key("Sender"@) && terms.amount < 10_000_000,
        result == Err::<(), EscrowError>(EscrowError::InvalidUnlockTime)
            <==> !pre.entries.contains_key("Sender"@) && terms.amount >= 10_000_000
            && terms.unlock_time <= now + 3_600,
        result is Ok <==> !pre.entries.contains_key("Sender"@) && terms.amount >= 10_000_000
            && terms.unlock_time > now + 3_600,
        result is Err ==> post == pre,
{
}

/// A successful setup stores the terms, marks the escrow as not claimed, and leaves
/// every other entry as it was.
pub proof fn setup_stores_exactly(
    pre: HostState,
    now: u64,
    terms: Terms,
    result: Result<(), EscrowError>,
    post: HostState,
    name: Seq<char>,
)
    requires
        initialize_effect(pre, now, terms, result, post),
        result is Ok,
    ensures
        post.entries.contains_key("Sender"@),
        post.entries["Sender"@] == HostValue::Address(terms.sender),
        post.entries.contains_key("Recipient"@),
        post.entries["Recipient"@] == HostValue::Address(terms.recipient),
        post.entries.contains_key("Token"@),
        post.entries["Token"@] == HostValue::Address(terms.token),
        post.entries.contains_key("Amount"@),
        post.entries["Amount"@] == HostValue::I128(terms.amount),
        post.entries.contains_key("UnlockTime"@),
        post.entries["UnlockTime"@] == HostValue::U64(terms.unlock_time),
        post.entries.contains_key("Claimed"@),
        post.entries["Claimed"@] == HostValue::Bool(false),
        name != "Sender"@ && name != "Recipient"@ && name != "Token"@ && name != "Amount"@ && name
            != "UnlockTime"@ && name != "Claimed"@ ==> {
            &&& post.entries.contains_key(name) == pre.entries.contains_key(name)
            &&& post.entries[name] == pre.entries[name]
        },
        post.contract == pre.contract,
        post.timestamp == pre.timestamp,
        post.sequence == pre.sequence,
        post.ttl_limit == pre.ttl_limit,
{
    lemma_names_differ();
}

/// A successful setup asks the host for four things more, in this order: the
/// sender's authorization; the extension of the instance's life over the lock and
/// 518,400 ledgers, where no more than 120,960 are left; the transfer of the amount
/// of the token from the sender to the contract; and one event.
pub proof fn setup_asks_exactly(
    pre: HostState,
    now: u64,
    terms: Terms,
    result: Result<(), EscrowError>,
    post: HostState,
)
    requires
        initialize_effect(pre, now, terms, result, post),
        result is Ok,
    ensures
        ({
            let first = pre.requests.len() as int;
            &&& post.requests.len() == first + 4
            &&& post.requests.take(first) == pre.requests
            &&& post.requests[first] == Request::Authorization(terms.sender)
            &&& post.requests[first + 1] matches Request::Extension { threshold, extend_to, left }
            &&& threshold == 120_960
            &&& extend_to == if (terms.unlock_time - now + 4) / 5 + 518_400 <= 0xffff_ffff {
                (terms.unlock_time - now + 4) / 5 + 518_400
            } else {
                0xffff_ffff
            }
            &&& left >= pre.ttl
            &&& post.requests[first + 2] == Request::Transfer(
                TokenTransfer {
                    token: terms.token,
                    from: terms.sender,
                    to: pre.contract,
                    amount: terms.amount,
                },
            )
            &&& post.requests[first + 3] == Request::Event(
                ContractEvent {
                    topic: "initialized"@,
                    data: seq![
                        HostValue::Address(terms.sender),
                        HostValue::Address(terms.recipient),
                        HostValue::I128(terms.amount),
                        HostValue::U64(terms.unlock_time),
                    ],
                },
            )
        }),
{
    assert(post.requests.take(pre.requests.len() as int) == pre.requests);
}

/// A successful setup never shortens the instance's life. Where no more than 120,960
/// ledgers are left when it asks for the extension, the instance lives on for the
/// whole lock and 518,400 ledgers, or as long as the network allows.
pub proof fn setup_outlives_the_lock(
    pre: HostState,
    now: u64,
    terms: Terms,
    result: Result<(), EscrowError>,
    post: HostState,
)
    requires
        initialize_effect(pre, now, terms, result, post),
        result is Ok,
    ensures
        ({
            let extend_to = post.requests[pre.requests.len() as int + 1]->extend_to;
            let left = post.requests[pre.requests.len() as int + 1]->left;
            &&& pre.ttl <= left <= post.ttl
            &&& left <= 120_960 ==> post.ttl >= extend_to || post.ttl >= pre.ttl_limit
            &&& left <= 120_960 ==> {
                ||| post.ttl >= pre.ttl_limit
                ||| post.ttl >= 0xffff_ffff
                ||| now + (post.ttl - 518_400) * 5 >= terms.unlock_time
            }
        }),
{
    setup_asks_exactly(pre, now, terms, result, post);
}

/// One request more on the record.
proof fn lemma_transfers_push(requests: Seq<Request>, next: Request)
    ensures
        next is Transfer ==> transfers_in(requests.push(next)) == transfers_in(requests).push(
            next->Transfer_0,
        ),
        !(next is Transfer) ==> transfers_in(requests.push(next)) == transfers_in(requests),
{
    assert(requests.push(next).drop_last() == requests);
    assert(requests.push(next).last() == next);
}

/// Four requests of which only the third is a transfer add that transfer.
proof fn lemma_third_of_four(before: Seq<Request>, after: Seq<Request>)
    requires
        after.len() == before.len() + 4,
        after.take(before.len() as int) == before,
        !(after[before.len() as int] is Transfer),
        !(after[before.len() as int + 1] is Transfer),
        after[before.len() as int + 2] is Transfer,
        !(after[before.len() as int + 3] is Transfer),
    ensures
        transfers_in(after) == transfers_in(before).push(
            after[before.len() as int + 2]->Transfer_0,
        ),
{
    let first = before.len() as int;
    let a = before.push(after[first]);
    let b = a.push(after[first + 1]);
    let c = b.push(after[first + 2]);
    lemma_transfers_push(before, after[first]);
    lemma_transfers_push(a, after[first + 1]);
    lemma_transfers_push(b, after[first + 2]);
    lemma_transfers_push(c, after[first + 3]);
    assert forall|i: int| 0 <= i < first implies after[i] == #[trigger] before[i] by {
        assert(after.take(first)[i] == after[i]);
    }
    assert(after == c.push(after[first + 3]));
}

/// What one transfer more adds to the balances.
proof fn lemma_inflow_of_one_more(
    before: Seq<TokenTransfer>,
    next: TokenTransfer,
    token: Seq<char>,
    account: Seq<char>,
)
    ensures
        net_inflow(before.push(next), token, account) - net_inflow(before, token, account) == (
        if token == next.token && account == next.to {
            next.amount as int
        } else {
            0
        }) - (if token == next.token && account == next.from {
            next.amount as int
        } else {
            0
        }),
{
    assert(before.push(next).drop_last() == before);
    assert(before.push(next).last() == next);
}

/// A successful setup costs the sender the amount of the token, brings it to the
/// contract, and moves nothing of anybody else's nor of any other token.
pub proof fn setup_moves_the_amount(
    pre: HostState,
    now: u64,
    terms: Terms,
    result: Result<(), EscrowError>,
    post: HostState,
    token: Seq<char>,
    account: Seq<char>,
)
    requires
        initialize_runs(pre, now, terms),
        initialize_effect(pre, now, terms, result, post),
        result is Ok,
    ensures
        ({
            let change = net_inflow(transfers_in(post.requests), token, account) - net_inflow(
                transfers_in(pre.requests),
                token,
                account,
            );
            &&& token == terms.token && account == terms.sender ==> change == -terms.amount
            &&& token == terms.token && account == pre.contract ==> change == terms.amount
            &&& account != terms.sender && account != pre.contract ==> change == 0
            &&& token != terms.token ==> change == 0
        }),
{
    setup_asks_exactly(pre, now, terms, result, post);
    lemma_third_of_four(pre.requests, post.requests);
    let deposit = post.requests[pre.requests.len() as int + 2]->Transfer_0;
    lemma_inflow_of_one_more(transfers_in(pre.requests), deposit, token, account);
}

/// A setup with an amount of at least 10,000,000 and an unlock time that is more than
/// an hour away works on every contract that stores no sender, for every sender but
/// the contract itself and every token that is another contract, as long as the
/// ledgers that the lock requires have numbers of 32 bits.
pub proof fn valid_setup_succeeds(pre: HostState, now: u64, terms: Terms)
    requires
        !pre.entries.contains_key("Sender"@),
        terms.amount >= 10_000_000,
        terms.unlock_time > now + 3_600,
        terms.sender != pre.contract,
        terms.token.len() > 0,
        terms.token[0] == 'C',
        terms.token != pre.contract,
        pre.sequence + (terms.unlock_time - now + 4) / 5 + 518_400 <= 0xffff_ffff,
    ensures
        initialize_runs(pre, now, terms),
        forall|result: Result<(), EscrowError>, post: HostState| #[trigger]
            initialize_effect(pre, now, terms, result, post) ==> result is Ok,
{
    setup_runs_exactly(pre, now, terms);
    assert forall|result: Result<(), EscrowError>, post: HostState| #[trigger]
        initialize_effect(pre, now, terms, result, post) implies result is Ok by {
        setup_answers_exactly(pre, now, terms, result, post);
    }
}

/// `claim` runs to its end exactly where the entries that it comes to read are of
/// their types, the recipient, if there is one, is not the contract, and it is
/// refused, or the token is another contract and 120,960 ledgers more still have
/// numbers of 32 bits.
pub proof fn claim_runs_exactly(pre: HostState, now: u64)
    ensures
        claim_runs(pre, now) <==> {
            ||| !pre.entries.contains_key("Recipient"@)
            ||| {
                &&& pre.entries["Recipient"@] matches HostValue::Address(recipient)
                &&& recipient != pre.contract
                &&& pre.entries.contains_key("Claimed"@) ==> pre.entries["Claimed"@] is Bool
                &&& {
                    ||| pre.entries.contains_key("Claimed"@) && pre.entries["Claimed"@]
                        == HostValue::Bool(true)
                    ||| !pre.entries.contains_key("UnlockTime"@)
                    ||| {
                        &&& pre.entries["UnlockTime"@] matches HostValue::U64(unlock_time)
                        &&& {
                            ||| now < unlock_time
                            ||| !pre.entries.contains_key("Token"@)
                            ||| {
                                &&& pre.entries["Token"@] matches HostValue::Address(token)
                                &&& {
                                    ||| !pre.entries.contains_key("Amount"@)
                                    ||| {
                                        &&& pre.entries["Amount"@] is I128
                                        &&& token.len() > 0 && token[0] == 'C'
                                        &&& token != pre.contract
                                        &&& pre.sequence + 120_960 <= 0xffff_ffff
                                    }
                                }
                            }
                        }
                    }
                }
            }
        },
{
}

/// `claim` answers that the escrow is claimed exactly where it is marked so, that it
/// is locked exactly before the unlock time, and that it is not set up exactly where
/// an entry is missing that it comes to read. A refused claim changes no entry and
/// has asked for nothing but the recipient's authorization.
pub proof fn claim_answers_exactly(
    pre: HostState,
    now: u64,
    result: Result<(), EscrowError>,
    post: HostState,
)
    requires
        claim_runs(pre, now),
        claim_effect(pre, now, result, post),
    ensures
        ({
            let recipient = pre.entries.contains_key("Recipient"@);
            let claimed = pre.entries.contains_key("Claimed"@) && pre.entries["Claimed"@]
                == HostValue::Bool(true);
            let lock = pre.entries.contains_key("UnlockTime"@);
            let unlock_time = pre.entries["UnlockTime"@]->U64_0;
            let funds = pre.entries.contains_key("Token"@) && pre.entries.contains_key("Amount"@);
            &&& result == Err::<(), EscrowError>(EscrowError::AlreadyClaimed) <==> recipient
                && claimed
            &&& result == Err::<(), EscrowError>(EscrowError::StillLocked) <==> recipient
                && !claimed && lock && now < unlock_time
            &&& result == Err::<(), EscrowError>(EscrowError::NotInitialized) <==> !recipient || (
            !claimed && (!lock || (now >= unlock_time && !funds)))
            &&& result is Ok <==> recipient && !claimed && lock && now >= unlock_time && funds
            &&& result is Err ==> {
                &&& post.contract == pre.contract
                &&& post.timestamp == pre.timestamp
                &&& post.sequence == pre.sequence
                &&& post.ttl_limit == pre.ttl_limit
                &&& post.entries == pre.entries
                &&& post.ttl >= pre.ttl
                &&& if recipient {
                    post.requests == pre.requests.push(
                        Request::Authorization(pre.entries["Recipient"@]->Address_0),
                    )
                } else {
                    post == pre
                }
            }
        }),
{
}

/// A successful claim marks the escrow as claimed, and leaves every other entry as it
/// was.
pub proof fn claim_stores_exactly(
    pre: HostState,
    now: u64,
    result: Result<(), EscrowError>,
    post: HostState,
    name: Seq<char>,
)
    requires
        claim_effect(pre, now, result, post),
        result is Ok,
    ensures
        post.entries.contains_key("Claimed"@),
        post.entries["Claimed"@] == HostValue::Bool(true),
        name != "Claimed"@ ==> {
            &&& post.entries.contains_key(name) == pre.entries.contains_key(name)
            &&& post.entries[name] == pre.entries[name]
        },
        post.contract == pre.contract,
        post.timestamp == pre.timestamp,
        post.sequence == pre.sequence,
        post.ttl_limit == pre.ttl_limit,
{
}

/// A successful claim asks the host for four things more, in this order: the
/// recipient's authorization; the extension of the instance's life to 120,960
/// ledgers, where no more than these are left; the transfer of the stored amount of
/// the stored token from the contract to the recipient; and one event.
pub proof fn claim_asks_exactly(
    pre: HostState,
    now: u64,
    result: Result<(), EscrowError>,
    post: HostState,
)
    requires
        claim_runs(pre, now),
        claim_effect(pre, now, result, post),
        result is Ok,
    ensures
        ({
            let first = pre.requests.len() as int;
            &&& pre.entries["Recipient"@] matches HostValue::Address(recipient)
            &&& pre.entries["Token"@] matches HostValue::Address(token)
            &&& pre.entries["Amount"@] matches HostValue::I128(amount)
            &&& post.requests.len() == first + 4
            &&& post.requests.take(first) == pre.requests
            &&& post.requests[first] == Request::Authorization(recipient)
            &&& post.requests[first + 1] matches Request::Extension { threshold, extend_to, left }
            &&& threshold == 120_960
            &&& extend_to == 120_960
            &&& left >= pre.ttl
            &&& post.requests[first + 2] == Request::Transfer(
                TokenTransfer { token, from: pre.contract, to: recipient, amount },
            )
            &&& post.requests[first + 3] == Request::Event(
                ContractEvent {
                    topic: "claimed"@,
                    data: seq![HostValue::Address(recipient), HostValue::I128(amount)],
                },
            )
        }),
{
    assert(post.requests.take(pre.requests.len() as int) == pre.requests);
}

/// A successful claim never shortens the instance's life, and leaves it 120,960
/// ledgers, or as many as the network allows.
pub proof fn claim_leaves_a_week(
    pre: HostState,
    now: u64,
    result: Result<(), EscrowError>,
    post: HostState,
)
    requires
        claim_effect(pre, now, result, post),
        result is Ok,
    ensures
        ({
            let left = post.requests[pre.requests.len() as int + 1]->left;
            &&& pre.ttl <= left <= post.ttl
            &&& post.ttl >= 120_960 || post.ttl >= pre.ttl_limit
        }),
{
}

/// A successful claim brings the stored amount of the stored token to the recipient,
/// out of the contract, and moves nothing of anybody else's nor of any other token.
pub proof fn claim_moves_the_amount(
    pre: HostState,
    now: u64,
    result: Result<(), EscrowError>,
    post: HostState,
    token: Seq<char>,
    account: Seq<char>,
)
    requires
        claim_runs(pre, now),
        claim_effect(pre, now, result, post),
        result is Ok,
    ensures
        ({
            let paid = pre.entries["Token"@]->Address_0;
            let recipient = pre.entries["Recipient"@]->Address_0;
            let amount = pre.entries["Amount"@]->I128_0;
            let change = net_inflow(transfers_in(post.requests), token, account) - net_inflow(
                transfers_in(pre.requests),
                token,
                account,
            );
            &&& token == paid && account == recipient ==> change == amount
            &&& token == paid && account == pre.contract ==> change == -amount
            &&& account != recipient && account != pre.contract ==> change == 0
            &&& token != paid ==> change == 0
        }),
{
    claim_asks_exactly(pre, now, result, post);
    lemma_third_of_four(pre.requests, post.requests);
    let payout = post.requests[pre.requests.len() as int + 2]->Transfer_0;
    lemma_inflow_of_one_more(transfers_in(pre.requests), payout, token, account);
}

/// A claim of an escrow that is not claimed and whose unlock time has come works, for
/// every recipient but the contract itself and every token that is another contract,
/// as long as 120,960 ledgers more have numbers of 32 bits.
pub proof fn due_claim_succeeds(pre: HostState, now: u64, terms: Terms)
    requires
        pre.entries.contains_key("Recipient"@),
        pre.entries["Recipient"@] == HostValue::Address(terms.recipient),
        pre.entries.contains_key("Token"@),
        pre.entries["Token"@] == HostValue::Address(terms.token),
        pre.entries.contains_key("Amount"@),
        pre.entries["Amount"@] == HostValue::I128(terms.amount),
        pre.entries.contains_key("UnlockTime"@),
        pre.entries["UnlockTime"@] == HostValue::U64(terms.unlock_time),
        !pre.entries.contains_key("Claimed"@) || pre.entries["Claimed"@] == HostValue::Bool(false),
        now >= terms.unlock_time,
        terms.recipient != pre.contract,
        terms.token.len() > 0,
        terms.token[0] == 'C',
        terms.token != pre.contract,
        pre.sequence + 120_960 <= 0xffff_ffff,
    ensures
        claim_runs(pre, now),
        forall|result: Result<(), EscrowError>, post: HostState| #[trigger]
            claim_effect(pre, now, result, post) ==> {
                &&& result is Ok
                &&& post.entries["Claimed"@] == HostValue::Bool(true)
                &&& transfers_in(post.requests) == transfers_in(pre.requests).push(
                    TokenTransfer {
                        token: terms.token,
                        from: pre.contract,
                        to: terms.recipient,
                        amount: terms.amount,
                    },
                )
            },
{
    claim_runs_exactly(pre, now);
    assert forall|result: Result<(), EscrowError>, post: HostState| #[trigger]
        claim_effect(pre, now, result, post) implies result is Ok && post.entries["Claimed"@]
        == HostValue::Bool(true) && transfers_in(post.requests) == transfers_in(pre.requests).push(
        TokenTransfer {
            token: terms.token,
            from: pre.contract,
            to: terms.recipient,
            amount: terms.amount,
        },
    ) by {
        claim_answers_exactly(pre, now, result, post);
        claim_stores_exactly(pre, now, result, post, "Claimed"@);
        claim_asks_exactly(pre, now, result, post);
        lemma_third_of_four(pre.requests, post.requests);
    }
}

/// What was locked by a setup can be claimed from the unlock time on: whatever state
/// the setup left, a claim in a later invocation that finds its storage works, and
/// pays the same amount of the same token to the recipient of the setup.
pub proof fn locked_funds_reach_the_recipient(
    pre: HostState,
    now: u64,
    terms: Terms,
    result: Result<(), EscrowError>,
    post: HostState,
    found: HostState,
    later: u64,
)
    requires
        initialize_runs(pre, now, terms),
        initialize_effect(pre, now, terms, result, post),
        result is Ok,
        resumes(post, found),
        later >= terms.unlock_time,
        terms.recipient != pre.contract,
        found.sequence + 120_960 <= 0xffff_ffff,
    ensures
        claim_runs(found, later),
        forall|answer: Result<(), EscrowError>, end: HostState| #[trigger]
            claim_effect(found, later, answer, end) ==> {
                &&& answer is Ok
                &&& transfers_in(end.requests) == transfers_in(pre.requests).push(
                    TokenTransfer {
                        token: terms.token,
                        from: terms.sender,
                        to: pre.contract,
                        amount: terms.amount,
                    },
                ).push(
                    TokenTransfer {
                        token: terms.token,
                        from: pre.contract,
                        to: terms.recipient,
                        amount: terms.amount,
                    },
                )
            },
{
    setup_runs_exactly(pre, now, terms);
    setup_answers_exactly(pre, now, terms, result, post);
    setup_stores_exactly(pre, now, terms, result, post, "Claimed"@);
    setup_asks_exactly(pre, now, terms, result, post);
    lemma_third_of_four(pre.requests, post.requests);
    due_claim_succeeds(found, later, terms);
}

/// `extend_ttl` runs to its end exactly where no unlock time is stored, or it is a
/// time and the ledgers that it requires still have numbers of 32 bits.
pub proof fn extension_runs_exactly(pre: HostState, now: u64)
    ensures
        extend_ttl_runs(pre, now) <==> {
            ||| !pre.entries.contains_key("UnlockTime"@)
            ||| {
                &&& pre.entries["UnlockTime"@] matches HostValue::U64(unlock_time)
                &&& {
                    ||| pre.sequence == 0
                    ||| unlock_time <= now && pre.sequence + 518_400 <= 0xffff_ffff
                    ||| unlock_time > now && pre.sequence + (unlock_time - now + 4) / 5 + 518_400
                        <= 0xffff_ffff
                }
            }
        },
{
}

/// `extend_ttl` works wherever an unlock time is stored, whatever that and the time
/// are, and answers that the escrow is not set up exactly where none is. It asks for
/// nothing but the extension over what is left of the lock and 518,400 ledgers,
/// where no more than 120,960 are left. The instance then lives for exactly these,
/// or as long as the network allows; where more are left, or where that is not
/// longer, its life stays the same. Nothing else changes.
pub proof fn extension_answers_exactly(
    pre: HostState,
    now: u64,
    result: Result<(), EscrowError>,
    post: HostState,
)
    requires
        extend_ttl_runs(pre, now),
        extend_ttl_effect(pre, now, result, post),
    ensures
        result is Ok <==> pre.entries.contains_key("UnlockTime"@),
        result == Err::<(), EscrowError>(EscrowError::NotInitialized)
            <==> !pre.entries.contains_key("UnlockTime"@),
        result is Err ==> post == pre,
        post.contract == pre.contract,
        post.timestamp == pre.timestamp,
        post.sequence == pre.sequence,
        post.entries == pre.entries,
        post.ttl_limit == pre.ttl_limit,
        result is Ok ==> {
            let unlock_time = pre.entries["UnlockTime"@]->U64_0;
            let ledgers = if unlock_time <= now {
                518_400
            } else if (unlock_time - now + 4) / 5 + 518_400 <= 0xffff_ffff {
                (unlock_time - now + 4) / 5 + 518_400
            } else {
                0xffff_ffff
            };
            let goal = if ledgers <= pre.ttl_limit { ledgers } else { pre.ttl_limit as int };
            &&& post.requests == pre.requests.push(
                Request::Extension {
                    threshold: 120_960,
                    extend_to: ledgers as u32,
                    left: pre.ttl,
                },
            )
            &&& pre.ttl <= 120_960 && pre.ttl < goal ==> post.ttl == goal
            &&& pre.ttl > 120_960 || pre.ttl >= goal ==> post.ttl == pre.ttl
        },
{
}

/// Anyone can keep an escrow alive: on every state with a stored unlock time
/// `extend_ttl` works, as long as the ledgers that are required have numbers of 32
/// bits.
pub proof fn escrow_can_be_kept_alive(pre: HostState, now: u64, unlock_time: u64)
    requires
        pre.entries.contains_key("UnlockTime"@),
        pre.entries["UnlockTime"@] == HostValue::U64(unlock_time),
        pre.sequence + 518_400 + (if unlock_time <= now {
            0
        } else {
            (unlock_time - now + 4) / 5
        }) <= 0xffff_ffff,
    ensures
        extend_ttl_runs(pre, now),
        forall|result: Result<(), EscrowError>, post: HostState| #[trigger]
            extend_ttl_effect(pre, now, result, post) ==> {
                &&& result is Ok
                &&& post.entries == pre.entries
                &&& pre.ttl <= 120_960 ==> {
                    ||| post.ttl >= pre.ttl_limit
                    ||| now + (post.ttl - 518_400) * 5 >= unlock_time
                }
            },
{
    extension_runs_exactly(pre, now);
    assert forall|result: Result<(), EscrowError>, post: HostState| #[trigger]
        extend_ttl_effect(pre, now, result, post) implies result is Ok && post.entries
        == pre.entries && (pre.ttl <= 120_960 ==> post.ttl >= pre.ttl_limit || now + (post.ttl
        - 518_400) * 5 >= unlock_time) by {
        extension_answers_exactly(pre, now, result, post);
    }
}

/// `get_state` runs to its end exactly where the entries that it comes to read are of
/// their types.
pub proof fn reading_runs_exactly(state: HostState)
    ensures
        get_state_runs(state) <==> {
            ||| !state.entries.contains_key("Recipient"@)
            ||| {
                &&& state.entries["Recipient"@] is Address
                &&& {
                    ||| !state.entries.contains_key("Amount"@)
                    ||| {
                        &&& state.entries["Amount"@] is I128
                        &&& {
                            ||| !state.entries.contains_key("UnlockTime"@)
                            ||| {
                                &&& state.entries["UnlockTime"@] is U64
                                &&& state.entries.contains_key("Claimed"@)
                                    ==> state.entries["Claimed"@] is Bool
                            }
                        }
                    }
                }
            }
        },
{
}

/// `get_state` answers with the recipient, the amount and the unlock time that are
/// stored, and whether the escrow is marked as claimed; and that it is not set up
/// exactly where one of the first three is missing.
pub proof fn reading_answers_exactly(
    state: HostState,
    result: Result<(Address, i128, u64, bool), EscrowError>,
)
    requires
        get_state_runs(state),
        read_as(result) == reading(state),
    ensures
        result is Ok <==> state.entries.contains_key("Recipient"@) && state.entries.contains_key(
            "Amount"@,
        ) && state.entries.contains_key("UnlockTime"@),
        result matches Err(error) ==> error == EscrowError::NotInitialized,
        result matches Ok((recipient, amount, unlock_time, claimed)) ==> {
            &&& state.entries["Recipient"@] == HostValue::Address(address_text(recipient))
            &&& state.entries["Amount"@] == HostValue::I128(amount)
            &&& state.entries["UnlockTime"@] == HostValue::U64(unlock_time)
            &&& claimed <==> state.entries.contains_key("Claimed"@) && state.entries["Claimed"@]
                == HostValue::Bool(true)
        },
{
}

/// What was set up is what `get_state` answers with, not claimed, and after a claim
/// the same, claimed.
pub proof fn setup_is_read_back(
    pre: HostState,
    now: u64,
    terms: Terms,
    result: Result<(), EscrowError>,
    post: HostState,
    read: Result<(Address, i128, u64, bool), EscrowError>,
)
    requires
        initialize_effect(pre, now, terms, result, post),
        result is Ok,
        read_as(read) == reading(post),
    ensures
        get_state_runs(post),
        read matches Ok((recipient, amount, unlock_time, claimed)) && address_text(recipient)
            == terms.recipient && amount == terms.amount && unlock_time == terms.unlock_time
            && !claimed,
{
    setup_stores_exactly(pre, now, terms, result, post, "Claimed"@);
    reading_runs_exactly(post);
    reading_answers_exactly(post, read);
}

/// A successful claim changes of what `get_state` answers with the mark alone.
pub proof fn claim_is_read_back(
    pre: HostState,
    now: u64,
    result: Result<(), EscrowError>,
    post: HostState,
    before: Result<(Address, i128, u64, bool), EscrowError>,
    after: Result<(Address, i128, u64, bool), EscrowError>,
)
    requires
        claim_runs(pre, now),
        claim_effect(pre, now, result, post),
        result is Ok,
        read_as(before) == reading(pre),
        read_as(after) == reading(post),
    ensures
        get_state_runs(pre),
        get_state_runs(post),
        before is Ok,
        after is Ok,
        address_text(after->Ok_0.0) == address_text(before->Ok_0.0),
        after->Ok_0.1 == before->Ok_0.1,
        after->Ok_0.2 == before->Ok_0.2,
        !before->Ok_0.3,
        after->Ok_0.3,
{
    claim_runs_exactly(pre, now);
    claim_answers_exactly(pre, now, result, post);
    claim_asks_exactly(pre, now, result, post);
    lemma_names_differ();
    claim_stores_exactly(pre, now, result, post, "Recipient"@);
    claim_stores_exactly(pre, now, result, post, "Amount"@);
    claim_stores_exactly(pre, now, result, post, "UnlockTime"@);
    reading_runs_exactly(pre);
    reading_runs_exactly(post);
    reading_answers_exactly(pre, before);
    reading_answers_exactly(post, after);
}

} // verus!
