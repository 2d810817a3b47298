//! What each entry point of the contract does, as relations between the host
//! state before the call and after it.

use vstd::prelude::*;
use crate::error::EscrowError;
use crate::host::{
    extended_ttl, is_contract_text, ContractEvent, HostState, HostValue, Request, TokenTransfer,
};
use crate::key::{keys_are_distinct, DataKey};
use crate::ttl::{required_ledgers, MIN_TTL_THRESHOLD, POST_CLAIM_TTL_LEDGERS};

verus! {

/// The least amount that can be locked: one unit of a token with seven decimal
/// places.
pub const MIN_AMOUNT: i128 = 10_000_000;

/// The least time for which funds can be locked, in seconds: one hour.
pub const MIN_LOCK_DURATION: u64 = 3_600;

/// What an escrow is set up with.
pub struct Terms {
    /// Who locks the funds.
    pub sender: Seq<char>,
    /// Who may claim them.
    pub recipient: Seq<char>,
    /// The token contract.
    pub token: Seq<char>,
    /// How much is locked.
    pub amount: i128,
    /// When the funds can be claimed.
    pub unlock_time: u64,
}

impl HostState {
    /// Whether there is an entry under the key.
    pub open spec fn has(self, key: DataKey) -> bool {
        self.entries.contains_key(key.text())
    }

    /// The entry under the key.
    pub open spec fn at(self, key: DataKey) -> HostValue {
        self.entries[key.text()]
    }

    /// The address under the key.
    pub open spec fn address_at(self, key: DataKey) -> Seq<char> {
        self.at(key)->Address_0
    }

    /// Whether the entry under the key, if there is one, is of the type that the
    /// contract writes there.
    pub open spec fn is_typed_at(self, key: DataKey) -> bool {
        self.has(key) ==> match key {
            DataKey::Sender | DataKey::Recipient | DataKey::Token => self.at(key) is Address,
            DataKey::Amount => self.at(key) is I128,
            DataKey::UnlockTime => self.at(key) is U64,
            DataKey::Claimed => self.at(key) is Bool,
        }
    }

    /// Whether all entries are of the types that the contract writes.
    pub open spec fn is_typed(self) -> bool {
        &&& self.is_typed_at(DataKey::Sender)
        &&& self.is_typed_at(DataKey::Recipient)
        &&& self.is_typed_at(DataKey::Token)
        &&& self.is_typed_at(DataKey::Amount)
        &&& self.is_typed_at(DataKey::UnlockTime)
        &&& self.is_typed_at(DataKey::Claimed)
    }

    /// Whether the instance's life can be extended by so many ledgers: the last
    /// of them has a number of 32 bits.
    pub open spec fn can_extend_to(self, ledgers: u32) -> bool {
        self.sequence + ledgers <= u32::MAX
    }

    /// Whether the contract can ask the address for its authorization: it is not
    /// the contract's own.
    pub open spec fn can_ask(self, address: Seq<char>) -> bool {
        address != self.contract
    }

    /// Whether the contract can call the address: it is that of a contract, and
    /// not the contract's own.
    pub open spec fn can_call(self, address: Seq<char>) -> bool {
        is_contract_text(address) && address != self.contract
    }

    /// Whether the funds have been claimed.
    pub open spec fn is_claimed(self) -> bool {
        self.has(DataKey::Claimed) && self.at(DataKey::Claimed) == HostValue::Bool(true)
    }

    /// The amount that is locked.
    pub open spec fn amount(self) -> i128 {
        self.at(DataKey::Amount)->I128_0
    }

    /// When the funds can be claimed.
    pub open spec fn unlock_time(self) -> u64 {
        self.at(DataKey::UnlockTime)->U64_0
    }

    /// The transfers that token contracts have carried out for the contract,
    /// oldest first.
    pub open spec fn transfers(self) -> Seq<TokenTransfer> {
        transfers_in(self.requests)
    }

    /// This state but for an instance that lives as long or longer.
    pub open spec fn up_to_longer_life(self, other: HostState) -> bool {
        &&& other == (HostState { ttl: other.ttl, ..self })
        &&& other.ttl >= self.ttl
    }
}

/// The transfers among the requests, in order.
pub open spec fn transfers_in(requests: Seq<Request>) -> Seq<TokenTransfer>
    decreases requests.len(),
{
    if requests.len() == 0 {
        Seq::empty()
    } else {
        match requests.last() {
            Request::Transfer(transfer) => transfers_in(requests.drop_last()).push(transfer),
            _ => transfers_in(requests.drop_last()),
        }
    }
}

/// Why `initialize` is refused at `now`, if it is.
pub open spec fn initialize_refusal(
    pre: HostState,
    now: u64,
    amount: i128,
    unlock_time: u64,
) -> Option<EscrowError> {
    if pre.has(DataKey::Sender) {
        Some(EscrowError::AlreadyInitialized)
    } else if amount < MIN_AMOUNT {
        Some(EscrowError::InvalidAmount)
    } else if unlock_time <= now + MIN_LOCK_DURATION {
        Some(EscrowError::InvalidUnlockTime)
    } else {
        None
    }
}

/// Whether `initialize` at `now` runs to its end: it is refused, or the sender can
/// be asked, the instance's life can be extended as it asks and the token can be
/// called.
pub open spec fn initialize_runs(pre: HostState, now: u64, terms: Terms) -> bool {
    initialize_refusal(pre, now, terms.amount, terms.unlock_time) is None ==> {
        &&& pre.can_ask(terms.sender)
        &&& pre.can_extend_to(required_ledgers(now, terms.unlock_time))
        &&& pre.can_call(terms.token)
    }
}

/// What a successful `initialize` asks of the host, in this order: the sender's
/// authorization, one extension of the instance's life, the transfer that brings
/// the funds in, and the event that tells of it. `left` is the life that the
/// instance has when the extension is asked for.
pub open spec fn opening_requests(
    contract: Seq<char>,
    left: nat,
    now: u64,
    terms: Terms,
) -> Seq<Request> {
    seq![
        Request::Authorization(terms.sender),
        Request::Extension {
            threshold: MIN_TTL_THRESHOLD,
            extend_to: required_ledgers(now, terms.unlock_time),
            left,
        },
        Request::Transfer(deposit(contract, terms)),
        Request::Event(
            ContractEvent {
                topic: "initialized"@,
                data: seq![
                    HostValue::Address(terms.sender),
                    HostValue::Address(terms.recipient),
                    HostValue::I128(terms.amount),
                    HostValue::U64(terms.unlock_time),
                ],
            },
        ),
    ]
}

/// The state after a successful `initialize`: the terms are stored, the instance's
/// life is extended, and what was asked of the host is on record.
pub open spec fn opened(pre: HostState, now: u64, terms: Terms) -> HostState {
    HostState {
        entries: pre.entries.insert(
            DataKey::Sender.text(),
            HostValue::Address(terms.sender),
        ).insert(DataKey::Recipient.text(), HostValue::Address(terms.recipient)).insert(
            DataKey::Token.text(),
            HostValue::Address(terms.token),
        ).insert(DataKey::Amount.text(), HostValue::I128(terms.amount)).insert(
            DataKey::UnlockTime.text(),
            HostValue::U64(terms.unlock_time),
        ).insert(DataKey::Claimed.text(), HostValue::Bool(false)),
        ttl: extended_ttl(
            pre.ttl,
            pre.ttl_limit,
            MIN_TTL_THRESHOLD as nat,
            required_ledgers(now, terms.unlock_time) as nat,
        ),
        requests: pre.requests + opening_requests(pre.contract, pre.ttl, now, terms),
        ..pre
    }
}

/// The transfer that brings the funds in.
pub open spec fn deposit(contract: Seq<char>, terms: Terms) -> TokenTransfer {
    TokenTransfer {
        token: terms.token,
        from: terms.sender,
        to: contract,
        amount: terms.amount,
    }
}

/// The life that the instance had when a call, which first asked for an
/// authorization, asked for its extension.
pub open spec fn life_when_extended(pre: HostState, post: HostState) -> nat {
    post.requests[pre.requests.len() as int + 1]->left
}

/// The state before such a call, but with that life: the authorization can have
/// lengthened it.
pub open spec fn before_extension(pre: HostState, post: HostState) -> HostState {
    HostState { ttl: life_when_extended(pre, post), ..pre }
}

/// What `initialize` at `now` answers, and what it changes. The sender's
/// authorization can lengthen the instance's life, as the transfer can. The record
/// of the extension tells how long it was in between.
pub open spec fn initialize_effect(
    pre: HostState,
    now: u64,
    terms: Terms,
    result: Result<(), EscrowError>,
    post: HostState,
) -> bool {
    match initialize_refusal(pre, now, terms.amount, terms.unlock_time) {
        Some(error) => result == Err::<(), EscrowError>(error) && post == pre,
        None => {
            &&& result == Ok::<(), EscrowError>(())
            &&& pre.up_to_longer_life(before_extension(pre, post))
            &&& opened(before_extension(pre, post), now, terms).up_to_longer_life(post)
        },
    }
}

/// Why `claim` is refused at `now`, if it is.
pub open spec fn claim_refusal(pre: HostState, now: u64) -> Option<EscrowError> {
    if !pre.has(DataKey::Recipient) {
        Some(EscrowError::NotInitialized)
    } else if pre.is_claimed() {
        Some(EscrowError::AlreadyClaimed)
    } else if !pre.has(DataKey::UnlockTime) {
        Some(EscrowError::NotInitialized)
    } else if now < pre.unlock_time() {
        Some(EscrowError::StillLocked)
    } else if !pre.has(DataKey::Token) || !pre.has(DataKey::Amount) {
        Some(EscrowError::NotInitialized)
    } else {
        None
    }
}

/// Whether `claim` at `now` runs to its end: the entries that it comes to read are
/// of the types that the contract writes, the recipient can be asked, and it is
/// refused or the instance's life can be extended as it asks and the token can be
/// called.
pub open spec fn claim_runs(pre: HostState, now: u64) -> bool {
    &&& pre.is_typed_at(DataKey::Recipient)
    &&& pre.has(DataKey::Recipient) ==> {
        &&& pre.can_ask(pre.address_at(DataKey::Recipient))
        &&& pre.is_typed_at(DataKey::Claimed)
    }
    &&& pre.has(DataKey::Recipient) && !pre.is_claimed() ==> {
        &&& pre.is_typed_at(DataKey::UnlockTime)
        &&& pre.has(DataKey::UnlockTime) && now >= pre.unlock_time() ==> {
            &&& pre.is_typed_at(DataKey::Token)
            &&& pre.has(DataKey::Token) ==> pre.is_typed_at(DataKey::Amount)
        }
    }
    &&& claim_refusal(pre, now) is None ==> {
        &&& pre.can_extend_to(POST_CLAIM_TTL_LEDGERS)
        &&& pre.can_call(pre.address_at(DataKey::Token))
    }
}

/// The state once the recipient has authorized the call.
pub open spec fn recipient_asked(pre: HostState) -> HostState {
    HostState {
        requests: pre.requests.push(Request::Authorization(pre.address_at(DataKey::Recipient))),
        ..pre
    }
}

/// The transfer that pays the funds out.
pub open spec fn payout(pre: HostState) -> TokenTransfer {
    TokenTransfer {
        token: pre.address_at(DataKey::Token),
        from: pre.contract,
        to: pre.address_at(DataKey::Recipient),
        amount: pre.amount(),
    }
}

/// What a successful `claim` asks of the host, in this order: the recipient's
/// authorization, one extension of the instance's life, the transfer that pays the
/// funds out, and the event that tells of it. `pre` has the life that the instance
/// has when the extension is asked for.
pub open spec fn payout_requests(pre: HostState) -> Seq<Request> {
    seq![
        Request::Authorization(pre.address_at(DataKey::Recipient)),
        Request::Extension {
            threshold: MIN_TTL_THRESHOLD,
            extend_to: POST_CLAIM_TTL_LEDGERS,
            left: pre.ttl,
        },
        Request::Transfer(payout(pre)),
        Request::Event(
            ContractEvent {
                topic: "claimed"@,
                data: seq![
                    HostValue::Address(pre.address_at(DataKey::Recipient)),
                    HostValue::I128(pre.amount()),
                ],
            },
        ),
    ]
}

/// The state after a successful `claim`: the escrow is marked as claimed, the
/// instance's life is extended, and what was asked of the host is on record.
pub open spec fn paid_out(pre: HostState) -> HostState {
    HostState {
        entries: pre.entries.insert(DataKey::Claimed.text(), HostValue::Bool(true)),
        ttl: extended_ttl(
            pre.ttl,
            pre.ttl_limit,
            MIN_TTL_THRESHOLD as nat,
            POST_CLAIM_TTL_LEDGERS as nat,
        ),
        requests: pre.requests + payout_requests(pre),
        ..pre
    }
}

/// What `claim` at `now` answers, and what it changes. An escrow that was set up
/// asks for the recipient's authorization before anything else; this can lengthen
/// the instance's life, as the transfer can.
pub open spec fn claim_effect(
    pre: HostState,
    now: u64,
    result: Result<(), EscrowError>,
    post: HostState,
) -> bool {
    match claim_refusal(pre, now) {
        Some(error) => {
            &&& result == Err::<(), EscrowError>(error)
            &&& if pre.has(DataKey::Recipient) {
                recipient_asked(pre).up_to_longer_life(post)
            } else {
                post == pre
            }
        },
        None => {
            &&& result == Ok::<(), EscrowError>(())
            &&& pre.up_to_longer_life(before_extension(pre, post))
            &&& paid_out(before_extension(pre, post)).up_to_longer_life(post)
        },
    }
}

/// Whether `extend_ttl` at `now` runs to its end: the entry that it reads is of the
/// type that the contract writes, and the instance's life can be extended as it
/// asks.
pub open spec fn extend_ttl_runs(pre: HostState, now: u64) -> bool {
    &&& pre.is_typed_at(DataKey::UnlockTime)
    &&& pre.has(DataKey::UnlockTime) ==> pre.can_extend_to(
        required_ledgers(now, pre.unlock_time()),
    )
}

/// What `extend_ttl` at `now` answers, and what it changes.
pub open spec fn extend_ttl_effect(
    pre: HostState,
    now: u64,
    result: Result<(), EscrowError>,
    post: HostState,
) -> bool {
    if pre.has(DataKey::UnlockTime) {
        &&& result == Ok::<(), EscrowError>(())
        &&& post == (HostState {
            ttl: extended_ttl(
                pre.ttl,
                pre.ttl_limit,
                MIN_TTL_THRESHOLD as nat,
                required_ledgers(now, pre.unlock_time()) as nat,
            ),
            requests: pre.requests.push(
                Request::Extension {
                    threshold: MIN_TTL_THRESHOLD,
                    extend_to: required_ledgers(now, pre.unlock_time()),
                    left: pre.ttl,
                },
            ),
            ..pre
        })
    } else {
        result == Err::<(), EscrowError>(EscrowError::NotInitialized) && post == pre
    }
}

/// What can be read of an escrow.
pub struct Reading {
    /// Who may claim the funds.
    pub recipient: Seq<char>,
    /// How much is locked.
    pub amount: i128,
    /// When the funds can be claimed.
    pub unlock_time: u64,
    /// Whether they have been claimed.
    pub claimed: bool,
}

/// Whether `get_state` runs to its end: the entries that it comes to read are of
/// the types that the contract writes.
pub open spec fn get_state_runs(state: HostState) -> bool {
    &&& state.is_typed_at(DataKey::Recipient)
    &&& state.has(DataKey::Recipient) ==> {
        &&& state.is_typed_at(DataKey::Amount)
        &&& state.has(DataKey::Amount) ==> {
            &&& state.is_typed_at(DataKey::UnlockTime)
            &&& state.has(DataKey::UnlockTime) ==> state.is_typed_at(DataKey::Claimed)
        }
    }
}

/// What `get_state` answers.
pub open spec fn reading(state: HostState) -> Result<Reading, EscrowError> {
    if state.has(DataKey::Recipient) && state.has(DataKey::Amount) && state.has(
        DataKey::UnlockTime,
    ) {
        Ok(
            Reading {
                recipient: state.address_at(DataKey::Recipient),
                amount: state.amount(),
                unlock_time: state.unlock_time(),
                claimed: state.is_claimed(),
            },
        )
    } else {
        Err(EscrowError::NotInitialized)
    }
}

/// The entries once an escrow has been set up.
pub proof fn lemma_opened_entries(pre: HostState, now: u64, terms: Terms, post: HostState)
    requires
        opened(pre, now, terms).up_to_longer_life(post),
    ensures
        forall|key: DataKey| #[trigger] post.has(key),
        post.at(DataKey::Sender) == HostValue::Address(terms.sender),
        post.at(DataKey::Recipient) == HostValue::Address(terms.recipient),
        post.at(DataKey::Token) == HostValue::Address(terms.token),
        post.at(DataKey::Amount) == HostValue::I128(terms.amount),
        post.at(DataKey::UnlockTime) == HostValue::U64(terms.unlock_time),
        post.at(DataKey::Claimed) == HostValue::Bool(false),
        post.is_typed(),
{
    assert forall|a: DataKey, b: DataKey| #[trigger] a.text() == #[trigger] b.text() implies a
        == b by {
        keys_are_distinct(a, b);
    }
    assert forall|key: DataKey| #[trigger] post.has(key) by {
        assert(key == DataKey::Sender || key == DataKey::Recipient || key == DataKey::Token || key
            == DataKey::Amount || key == DataKey::UnlockTime || key == DataKey::Claimed);
    }
}

/// The entries once the funds have been paid out.
pub proof fn lemma_paid_out_entries(pre: HostState, post: HostState)
    requires
        paid_out(pre).up_to_longer_life(post),
    ensures
        forall|key: DataKey| #[trigger] post.has(key) == (key == DataKey::Claimed || pre.has(key)),
        forall|key: DataKey| key != DataKey::Claimed ==> #[trigger] post.at(key) == pre.at(key),
        post.at(DataKey::Claimed) == HostValue::Bool(true),
        pre.is_typed() ==> post.is_typed(),
{
    assert forall|key: DataKey|
        #[trigger] key.text() == DataKey::Claimed.text() implies key == DataKey::Claimed by {
        keys_are_distinct(key, DataKey::Claimed);
    }
}

} // verus!
