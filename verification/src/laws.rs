//! What holds of the contract over several calls.

use vstd::prelude::*;
use crate::error::EscrowError;
use crate::host::{HostState, HostValue, Request, TokenTransfer};
use crate::key::DataKey;
use crate::model::{
    before_extension, claim_effect, claim_runs, deposit, extend_ttl_effect, extend_ttl_runs,
    get_state_runs, initialize_effect, initialize_runs, lemma_opened_entries,
    lemma_paid_out_entries, life_when_extended, opened, opening_requests, payout,
    payout_requests, reading, transfers_in, Reading, Terms, MIN_AMOUNT, MIN_LOCK_DURATION,
};
use crate::ttl::{
    ledgers_in, required_ledgers, BUFFER_LEDGERS, LEDGER_CLOSE_SECS, MIN_TTL_THRESHOLD,
    POST_CLAIM_TTL_LEDGERS,
};

verus! {

/// A call of an entry point that can change the host.
pub enum Call {
    /// `initialize` with these terms.
    Initialize(Terms),
    /// `claim`.
    Claim,
    /// `extend_ttl`.
    ExtendTtl,
}

/// A call that was made at some time, and its answer.
pub struct Step {
    /// The state before the call.
    pub pre: HostState,
    /// The close time of the ledger.
    pub now: u64,
    /// The call.
    pub call: Call,
    /// The answer.
    pub result: Result<(), EscrowError>,
    /// The state after the call.
    pub post: HostState,
}

impl Step {
    /// Whether the call, made at that time in that state, runs to its end.
    pub open spec fn runs(self) -> bool {
        match self.call {
            Call::Initialize(terms) => initialize_runs(self.pre, self.now, terms),
            Call::Claim => claim_runs(self.pre, self.now),
            Call::ExtendTtl => extend_ttl_runs(self.pre, self.now),
        }
    }

    /// Whether the call, made at that time in that state, runs to its end, is
    /// answered so and leaves that state.
    pub open spec fn holds(self) -> bool {
        &&& self.runs()
        &&& match self.call {
            Call::Initialize(terms) => initialize_effect(
                self.pre,
                self.now,
                terms,
                self.result,
                self.post,
            ),
            Call::Claim => claim_effect(self.pre, self.now, self.result, self.post),
            Call::ExtendTtl => extend_ttl_effect(self.pre, self.now, self.result, self.post),
        }
    }

    /// Whether the call set the escrow up with these terms.
    pub open spec fn opens(self, terms: Terms) -> bool {
        self.call == Call::Initialize(terms) && self.result is Ok
    }

    /// Whether the call paid the funds out.
    pub open spec fn pays(self) -> bool {
        self.call is Claim && self.result is Ok
    }

    /// Whether the call asked for the authorization of that address before anything
    /// else, and for nobody else's.
    pub open spec fn asks(self, address: Seq<char>) -> bool {
        let first = self.pre.requests.len() as int;
        &&& first < self.post.requests.len()
        &&& self.post.requests[first] == Request::Authorization(address)
        &&& forall|k: int|
            first < k < self.post.requests.len() ==> !(
            #[trigger] self.post.requests[k] is Authorization)
    }

    /// Whether the call asked for nobody's authorization.
    pub open spec fn asks_nobody(self) -> bool {
        forall|k: int|
            self.pre.requests.len() <= k < self.post.requests.len() ==> !(
            #[trigger] self.post.requests[k] is Authorization)
    }
}

/// Whether one invocation can find what another one left: the contract is the
/// same, and so are its storage and the record of what it asked for. Time may have
/// passed, so the ledger and the instance's remaining life may differ.
pub open spec fn resumes(left: HostState, found: HostState) -> bool {
    &&& found.contract == left.contract
    &&& found.entries == left.entries
    &&& found.requests == left.requests
}

/// Whether these are calls of one contract, each of which finds what the one
/// before it left.
pub open spec fn is_history(history: Seq<Step>) -> bool {
    &&& forall|i: int| 0 <= i < history.len() ==> (#[trigger] history[i]).holds()
    &&& forall|i: int, j: int|
        0 <= i < history.len() && j == i + 1 && j < history.len() ==> resumes(
            (#[trigger] history[i]).post,
            (#[trigger] history[j]).pre,
        )
}

/// Whether no entry of an escrow is stored.
pub open spec fn is_fresh(state: HostState) -> bool {
    forall|key: DataKey| !#[trigger] state.has(key)
}

/// Whether the entries are those of an escrow with these terms.
pub open spec fn stores(state: HostState, terms: Terms) -> bool {
    &&& forall|key: DataKey| #[trigger] state.has(key)
    &&& state.at(DataKey::Sender) == HostValue::Address(terms.sender)
    &&& state.at(DataKey::Recipient) == HostValue::Address(terms.recipient)
    &&& state.at(DataKey::Token) == HostValue::Address(terms.token)
    &&& state.at(DataKey::Amount) == HostValue::I128(terms.amount)
    &&& state.at(DataKey::UnlockTime) == HostValue::U64(terms.unlock_time)
    &&& state.at(DataKey::Claimed) is Bool
    &&& terms.amount >= MIN_AMOUNT
}

/// What can be read of an escrow with these terms.
pub open spec fn reading_of(terms: Terms, claimed: bool) -> Reading {
    Reading {
        recipient: terms.recipient,
        amount: terms.amount,
        unlock_time: terms.unlock_time,
        claimed,
    }
}

/// What is read of an escrow that is set up.
proof fn lemma_reading(state: HostState, terms: Terms)
    requires
        stores(state, terms),
    ensures
        reading(state) == Ok::<Reading, EscrowError>(reading_of(terms, state.is_claimed())),
{
    assert(state.has(DataKey::Recipient) && state.has(DataKey::Amount) && state.has(
        DataKey::UnlockTime,
    ));
}

/// A refused call changes nothing. Only a claim of an escrow that is set up has
/// asked the recipient by then: that is on record, and answering can have
/// lengthened the instance's life.
pub proof fn refusal_changes_nothing(step: Step)
    requires
        step.holds(),
        step.result is Err,
    ensures
        step.call is Claim && step.pre.has(DataKey::Recipient) || step.post == step.pre,
        step.post == (HostState {
            requests: step.post.requests,
            ttl: step.post.ttl,
            ..step.pre
        }),
        step.post.requests == step.pre.requests || step.post.requests == step.pre.requests.push(
            Request::Authorization(step.pre.address_at(DataKey::Recipient)),
        ),
        step.post.ttl >= step.pre.ttl,
{
}

/// Before the escrow is set up, nothing can be claimed, extended or read.
pub proof fn fresh_contract_is_not_initialized(step: Step)
    requires
        step.holds(),
        is_fresh(step.pre),
        !(step.call is Initialize),
    ensures
        step.result == Err::<(), EscrowError>(EscrowError::NotInitialized),
        step.post == step.pre,
        reading(step.pre) == Err::<Reading, EscrowError>(EscrowError::NotInitialized),
{
    assert(!step.pre.has(DataKey::Recipient));
    assert(!step.pre.has(DataKey::UnlockTime));
}

/// Setting up a fresh contract works exactly with an amount that reaches the
/// minimum and an unlock time that is far enough away.
pub proof fn fresh_contract_opens_on_valid_terms(step: Step, terms: Terms)
    requires
        step.holds(),
        step.call == Call::Initialize(terms),
        is_fresh(step.pre),
    ensures
        step.result is Ok <==> terms.amount >= MIN_AMOUNT && terms.unlock_time > step.now
            + MIN_LOCK_DURATION,
{
    assert(!step.pre.has(DataKey::Sender));
}

/// The state before a setup, with the life that the instance has once the sender
/// has authorized it.
proof fn lemma_asked(step: Step, terms: Terms) -> (asked: HostState)
    requires
        step.holds(),
        step.opens(terms),
    ensures
        step.pre.up_to_longer_life(asked),
        opened(asked, step.now, terms).up_to_longer_life(step.post),
        terms.amount >= MIN_AMOUNT,
{
    before_extension(step.pre, step.post)
}

/// What was set up is what is stored and what is read.
pub proof fn opening_stores_the_terms(step: Step, terms: Terms)
    requires
        step.holds(),
        step.opens(terms),
    ensures
        stores(step.post, terms),
        !step.post.is_claimed(),
        reading(step.post) == Ok::<Reading, EscrowError>(reading_of(terms, false)),
{
    let asked = lemma_asked(step, terms);
    lemma_opened_entries(asked, step.now, terms, step.post);
    lemma_reading(step.post, terms);
}

/// No call leaves an escrow half set up: what was fresh is fresh or stores the
/// terms of the call, and what stored terms stores the same terms.
pub proof fn storage_is_all_or_nothing(step: Step)
    requires
        step.holds(),
    ensures
        is_fresh(step.pre) ==> is_fresh(step.post) || exists|terms: Terms|
            #[trigger] step.opens(terms) && stores(step.post, terms),
        forall|terms: Terms| stores(step.pre, terms) ==> #[trigger] stores(step.post, terms),
{
    if is_fresh(step.pre) {
        if step.call is Initialize && step.result is Ok {
            let terms = step.call->Initialize_0;
            opening_stores_the_terms(step, terms);
            assert(step.opens(terms));
        } else if !(step.call is Initialize) {
            fresh_contract_is_not_initialized(step);
        }
    }
    assert forall|terms: Terms| stores(step.pre, terms) implies #[trigger] stores(
        step.post,
        terms,
    ) by {
        assert(step.pre.has(DataKey::Sender));
        if step.pays() {
            lemma_paid_out_entries(before_extension(step.pre, step.post), step.post);
        }
        assert forall|key: DataKey| #[trigger] step.post.has(key) by {
            assert(step.pre.has(key));
        }
    }
}

/// Every call keeps the types of the entries.
pub proof fn calls_keep_entries_typed(step: Step)
    requires
        step.holds(),
        step.pre.is_typed(),
    ensures
        step.post.is_typed(),
{
    if step.call is Initialize && step.result is Ok {
        let terms = step.call->Initialize_0;
        let asked = lemma_asked(step, terms);
        lemma_opened_entries(asked, step.now, terms, step.post);
    } else if step.pays() {
        lemma_paid_out_entries(before_extension(step.pre, step.post), step.post);
    }
}

/// Every call on an escrow that is set up, and every call on a fresh contract, finds
/// entries of the right types: it runs to its end as long as the instance's life
/// can be extended, whoever is asked can be asked and the token can be called.
pub proof fn calls_run_to_their_end(state: HostState, terms: Terms, now: u64)
    requires
        is_fresh(state) || stores(state, terms),
    ensures
        state.is_typed(),
        get_state_runs(state),
        is_fresh(state) ==> claim_runs(state, now) && extend_ttl_runs(state, now),
        is_fresh(state) && state.can_ask(terms.sender) && state.can_extend_to(
            required_ledgers(now, terms.unlock_time),
        ) && state.can_call(terms.token) ==> initialize_runs(state, now, terms),
        stores(state, terms) && state.can_ask(terms.recipient) && state.can_extend_to(
            POST_CLAIM_TTL_LEDGERS,
        ) && state.can_call(terms.token) ==> claim_runs(state, now),
        stores(state, terms) && state.can_extend_to(required_ledgers(now, terms.unlock_time))
            ==> extend_ttl_runs(state, now),
        stores(state, terms) ==> forall|other: Terms| #[trigger] initialize_runs(state, now, other),
{
    if is_fresh(state) {
        assert(!state.has(DataKey::Sender) && !state.has(DataKey::Recipient));
        assert(!state.has(DataKey::Token) && !state.has(DataKey::Amount));
        assert(!state.has(DataKey::UnlockTime) && !state.has(DataKey::Claimed));
    } else {
        assert(state.has(DataKey::Sender));
    }
}

/// Once set up, an escrow keeps its terms for good.
pub proof fn terms_never_change(history: Seq<Step>, i: int, j: int, terms: Terms)
    requires
        is_history(history),
        0 <= i <= j < history.len(),
        history[i].opens(terms),
    ensures
        stores(history[j].post, terms),
        i < j ==> stores(history[j].pre, terms),
    decreases j - i,
{
    assert(history[i].holds() && history[j].holds());
    if i == j {
        opening_stores_the_terms(history[i], terms);
    } else {
        terms_never_change(history, i, j - 1, terms);
        lemma_resumed(history[j - 1].post, history[j].pre, terms);
        storage_is_all_or_nothing(history[j]);
    }
}

/// An invocation that finds what another one left finds the same escrow.
proof fn lemma_resumed(left: HostState, found: HostState, terms: Terms)
    requires
        resumes(left, found),
    ensures
        stores(left, terms) == stores(found, terms),
        is_fresh(left) == is_fresh(found),
        left.is_claimed() == found.is_claimed(),
{
    assert(forall|key: DataKey| #[trigger] left.has(key) == found.has(key));
    assert(forall|key: DataKey| left.has(key) == #[trigger] found.has(key));
}

/// Once set up, an escrow cannot be set up again, whatever the arguments, and
/// the attempt changes nothing.
pub proof fn second_opening_is_refused(history: Seq<Step>, i: int, j: int, terms: Terms)
    requires
        is_history(history),
        0 <= i < j < history.len(),
        history[i].opens(terms),
        history[j].call is Initialize,
    ensures
        history[j].result == Err::<(), EscrowError>(EscrowError::AlreadyInitialized),
        history[j].post == history[j].pre,
{
    terms_never_change(history, i, j, terms);
    assert(history[j].holds());
    assert(history[j].pre.has(DataKey::Sender));
}

/// The funds of an escrow that is set up and not claimed are paid out on a claim
/// from the unlock time on, that time counted in, and never before.
pub proof fn claim_waits_for_the_unlock_time(step: Step, terms: Terms)
    requires
        step.holds(),
        step.call is Claim,
        stores(step.pre, terms),
        !step.pre.is_claimed(),
    ensures
        step.now >= terms.unlock_time ==> step.result == Ok::<(), EscrowError>(()),
        step.now < terms.unlock_time ==> step.result == Err::<(), EscrowError>(
            EscrowError::StillLocked,
        ),
{
    assert(step.pre.has(DataKey::Recipient) && step.pre.has(DataKey::UnlockTime));
    assert(step.pre.has(DataKey::Token) && step.pre.has(DataKey::Amount));
}

/// The funds stay locked for more than the minimum duration after the escrow was
/// set up.
pub proof fn funds_stay_locked(history: Seq<Step>, i: int, j: int, terms: Terms)
    requires
        is_history(history),
        0 <= i < j < history.len(),
        history[i].opens(terms),
        history[j].pays(),
    ensures
        history[j].now >= terms.unlock_time,
        history[j].now > history[i].now + MIN_LOCK_DURATION,
{
    terms_never_change(history, i, j, terms);
    assert(history[i].holds() && history[j].holds());
    assert(!history[j].pre.is_claimed());
    claim_waits_for_the_unlock_time(history[j], terms);
}

/// A claim pays the locked amount of the token to the recipient, out of the
/// contract, and marks the escrow as claimed.
pub proof fn claim_pays_what_was_locked(step: Step, terms: Terms)
    requires
        step.holds(),
        step.pays(),
        stores(step.pre, terms),
    ensures
        step.post.transfers() == step.pre.transfers().push(
            payout_of(step.pre.contract, terms),
        ),
        stores(step.post, terms),
        step.post.is_claimed(),
        reading(step.post) == Ok::<Reading, EscrowError>(reading_of(terms, true)),
{
    storage_is_all_or_nothing(step);
    lemma_paid_out_entries(before_extension(step.pre, step.post), step.post);
    lemma_paid_out_transfers(step);
    lemma_reading(step.post, terms);
}

/// Only the sender sets an escrow up, only the recipient claims it, and anyone
/// keeps it alive: before anything else the first two ask the host to confirm that
/// address's authorization, and the third asks for none.
pub proof fn calls_need_authorization(step: Step, terms: Terms)
    requires
        step.holds(),
    ensures
        step.opens(terms) ==> step.asks(terms.sender),
        step.call is Claim && stores(step.pre, terms) ==> step.asks(terms.recipient),
        step.call is ExtendTtl ==> step.asks_nobody(),
{
    if step.call is Claim && stores(step.pre, terms) {
        assert(step.pre.has(DataKey::Recipient));
    }
}

/// A successful call asks of the host exactly this, in this order. Setting an escrow
/// up and a claim ask for an authorization, for one extension of the instance's
/// life, for one transfer, and for one event. Extending the life of an escrow asks
/// for that alone. The extensions are for the ledgers that the unlock time
/// requires, and on a claim for 7 days, all with a threshold of 7 days.
pub proof fn requests_come_in_order(step: Step)
    requires
        step.holds(),
        step.result is Ok,
    ensures
        step.post.requests == step.pre.requests + match step.call {
            Call::Initialize(terms) => opening_requests(
                step.pre.contract,
                life_when_extended(step.pre, step.post),
                step.now,
                terms,
            ),
            Call::Claim => payout_requests(before_extension(step.pre, step.post)),
            Call::ExtendTtl => seq![
                Request::Extension {
                    threshold: MIN_TTL_THRESHOLD,
                    extend_to: required_ledgers(step.now, step.pre.unlock_time()),
                    left: step.pre.ttl,
                },
            ],
        },
{
}

/// The transfers of two records, one after the other.
proof fn lemma_transfers_in_both(a: Seq<Request>, b: Seq<Request>)
    ensures
        transfers_in(a + b) == transfers_in(a) + transfers_in(b),
    decreases b.len(),
{
    if b.len() == 0 {
        assert(a + b == a);
    } else {
        lemma_transfers_in_both(a, b.drop_last());
        assert((a + b).drop_last() == a + b.drop_last());
        assert((a + b).last() == b.last());
    }
}

/// Setting an escrow up transfers the funds in, and nothing else.
proof fn lemma_opened_transfers(step: Step, terms: Terms)
    requires
        step.holds(),
        step.opens(terms),
    ensures
        step.post.transfers() == step.pre.transfers().push(deposit(step.pre.contract, terms)),
{
    requests_come_in_order(step);
    let left = life_when_extended(step.pre, step.post);
    let added = opening_requests(step.pre.contract, left, step.now, terms);
    lemma_transfers_in_both(step.pre.requests, added);
    lemma_one_transfer(added);
}

/// A claim that succeeds transfers the funds out, and nothing else.
proof fn lemma_paid_out_transfers(step: Step)
    requires
        step.holds(),
        step.pays(),
    ensures
        step.post.transfers() == step.pre.transfers().push(payout(step.pre)),
{
    requests_come_in_order(step);
    let added = payout_requests(before_extension(step.pre, step.post));
    lemma_transfers_in_both(step.pre.requests, added);
    lemma_one_transfer(added);
}

/// Of four requests, the third of which is a transfer and the others are not, that
/// is the transfer.
proof fn lemma_one_transfer(requests: Seq<Request>)
    requires
        requests.len() == 4,
        !(requests[0] is Transfer),
        !(requests[1] is Transfer),
        requests[2] is Transfer,
        !(requests[3] is Transfer),
    ensures
        transfers_in(requests) == seq![requests[2]->Transfer_0],
{
    reveal_with_fuel(transfers_in, 5);
}

/// A call that neither sets an escrow up nor pays it out transfers nothing.
proof fn lemma_no_transfers(step: Step)
    requires
        step.holds(),
        !(step.call is Initialize && step.result is Ok),
        !step.pays(),
    ensures
        step.post.transfers() == step.pre.transfers(),
{
    let before = step.pre.requests;
    let after = step.post.requests;
    if after != before {
        assert(after.drop_last() == before);
        assert(!(after.last() is Transfer));
    }
}

/// Whether the transfers since `initial`, a fresh state, are those of the escrow
/// in `state`: none where it is not set up, the deposit where it is, and the
/// payout too where it is claimed.
pub open spec fn is_accounted(initial: HostState, state: HostState) -> bool {
    &&& state.contract == initial.contract
    &&& is_fresh(state) ==> state.transfers() == initial.transfers()
    &&& is_fresh(state) || exists|terms: Terms| #[trigger] stores(state, terms)
    &&& forall|terms: Terms| #[trigger] stores(state, terms) ==> initial.can_ask(terms.sender)
    &&& forall|terms: Terms| #[trigger]
        stores(state, terms) ==> state.transfers() == if state.is_claimed() {
            initial.transfers().push(deposit(initial.contract, terms)).push(
                payout_of(initial.contract, terms),
            )
        } else {
            initial.transfers().push(deposit(initial.contract, terms))
        }
}

/// The transfer that pays the funds of an escrow out.
pub open spec fn payout_of(contract: Seq<char>, terms: Terms) -> TokenTransfer {
    TokenTransfer {
        token: terms.token,
        from: contract,
        to: terms.recipient,
        amount: terms.amount,
    }
}

/// The terms of an escrow are determined by its entries.
proof fn lemma_terms_are_unique(state: HostState, a: Terms, b: Terms)
    requires
        stores(state, a),
        stores(state, b),
    ensures
        a == b,
{
}

/// Every call keeps the account.
proof fn lemma_step_is_accounted(initial: HostState, step: Step)
    requires
        step.holds(),
        is_accounted(initial, step.pre),
    ensures
        is_accounted(initial, step.post),
{
    storage_is_all_or_nothing(step);
    let pre = step.pre;
    let post = step.post;
    if is_fresh(pre) {
        if step.call is Initialize && step.result is Ok {
            let opening = step.call->Initialize_0;
            opening_stores_the_terms(step, opening);
            lemma_opened_transfers(step, opening);
            assert(post.has(DataKey::Sender));
            assert(!pre.has(DataKey::Sender));
            assert forall|terms: Terms| #[trigger] stores(post, terms) implies post.transfers()
                == initial.transfers().push(deposit(initial.contract, terms)) && initial.can_ask(
                terms.sender,
            ) by {
                lemma_terms_are_unique(post, terms, opening);
            }
        } else {
            if !(step.call is Initialize) {
                fresh_contract_is_not_initialized(step);
            }
            assert(post == pre);
        }
    } else {
        let stored = choose|terms: Terms| #[trigger] stores(pre, terms);
        assert(stores(post, stored));
        assert(pre.has(DataKey::Sender) && post.has(DataKey::Sender));
        if step.pays() {
            claim_pays_what_was_locked(step, stored);
            assert(!pre.is_claimed());
        } else {
            lemma_no_transfers(step);
            assert(post.entries == pre.entries);
            assert(post.is_claimed() == pre.is_claimed());
        }
        assert forall|terms: Terms| #[trigger] stores(post, terms) implies terms == stored by {
            lemma_terms_are_unique(post, terms, stored);
        }
    }
}

/// Over the life of a contract the funds come in once, when it is set up, and go
/// out once, when it is claimed, in the same token and amount.
pub proof fn funds_go_in_and_out_once(history: Seq<Step>, i: int)
    requires
        is_history(history),
        0 <= i < history.len(),
        is_fresh(history[0].pre),
    ensures
        is_accounted(history[0].pre, history[i].pre),
        is_accounted(history[0].pre, history[i].post),
    decreases i,
{
    let initial = history[0].pre;
    assert(history[i].holds());
    if i == 0 {
        assert forall|terms: Terms| !#[trigger] stores(initial, terms) by {
            assert(!initial.has(DataKey::Sender));
        }
    } else {
        funds_go_in_and_out_once(history, i - 1);
        let left = history[i - 1].post;
        let found = history[i].pre;
        assert(resumes(left, found));
        assert forall|terms: Terms| #[trigger] stores(left, terms) implies stores(found, terms) by {
            lemma_resumed(left, found, terms);
        }
        assert forall|terms: Terms| #[trigger] stores(found, terms) implies stores(left, terms) by {
            lemma_resumed(left, found, terms);
        }
        lemma_resumed(left, found, arbitrary());
    }
    lemma_step_is_accounted(initial, history[i]);
}

/// Once the funds of a contract have been paid out, every further claim is
/// refused and pays nothing.
pub proof fn second_claim_is_refused(history: Seq<Step>, i: int, j: int)
    requires
        is_history(history),
        is_fresh(history[0].pre),
        0 <= i < j < history.len(),
        history[i].pays(),
        history[j].call is Claim,
    ensures
        history[j].result == Err::<(), EscrowError>(EscrowError::AlreadyClaimed),
        history[j].post.transfers() == history[j].pre.transfers(),
        history[j].post.entries == history[j].pre.entries,
{
    let stored = lemma_paying_stores(history, i);
    claimed_escrow_stays_claimed(history, i, j - 1, stored);
    assert(history[j].holds());
    assert(resumes(history[j - 1].post, history[j].pre));
    lemma_resumed(history[j - 1].post, history[j].pre, stored);
    assert(history[j].pre.has(DataKey::Recipient));
    lemma_no_transfers(history[j]);
}

/// A call that pays the funds out leaves a claimed escrow.
proof fn lemma_paying_stores(history: Seq<Step>, i: int) -> (stored: Terms)
    requires
        is_history(history),
        is_fresh(history[0].pre),
        0 <= i < history.len(),
        history[i].pays(),
    ensures
        stores(history[i].pre, stored),
        stores(history[i].post, stored),
        history[i].post.is_claimed(),
{
    funds_go_in_and_out_once(history, i);
    assert(history[i].holds());
    assert(history[i].pre.has(DataKey::Recipient));
    let stored = choose|terms: Terms| #[trigger] stores(history[i].pre, terms);
    claim_pays_what_was_locked(history[i], stored);
    stored
}

/// A claimed escrow stays as it is: it keeps its terms and stays marked as claimed,
/// and what can be read of it never changes.
pub proof fn claimed_escrow_stays_claimed(history: Seq<Step>, i: int, j: int, terms: Terms)
    requires
        is_history(history),
        0 <= i <= j < history.len(),
        stores(history[i].post, terms),
        history[i].post.is_claimed(),
    ensures
        stores(history[j].post, terms),
        history[j].post.is_claimed(),
        reading(history[j].post) == Ok::<Reading, EscrowError>(reading_of(terms, true)),
    decreases j - i,
{
    if i < j {
        claimed_escrow_stays_claimed(history, i, j - 1, terms);
        assert(history[j].holds());
        assert(resumes(history[j - 1].post, history[j].pre));
        lemma_resumed(history[j - 1].post, history[j].pre, terms);
        storage_is_all_or_nothing(history[j]);
        assert(history[j].pre.has(DataKey::Sender));
    }
    lemma_reading(history[j].post, terms);
}

/// Once an escrow is set up, the recipient, the amount and the unlock time that can
/// be read of it never change, and the mark that it is claimed, once it is read, is
/// never gone again.
pub proof fn reading_changes_once(history: Seq<Step>, i: int, j: int, k: int, terms: Terms)
    requires
        is_history(history),
        0 <= i <= j <= k < history.len(),
        history[i].opens(terms),
    ensures
        reading(history[j].post) == Ok::<Reading, EscrowError>(
            reading_of(terms, history[j].post.is_claimed()),
        ),
        history[j].post.is_claimed() ==> reading(history[k].post) == reading(history[j].post),
{
    terms_never_change(history, i, j, terms);
    lemma_reading(history[j].post, terms);
    if history[j].post.is_claimed() {
        claimed_escrow_stays_claimed(history, j, k, terms);
    }
}

/// A contract that has paid the funds out stays marked as claimed for good, and what
/// can be read of it never changes again.
pub proof fn paid_out_contract_stays_claimed(history: Seq<Step>, i: int, j: int)
    requires
        is_history(history),
        is_fresh(history[0].pre),
        0 <= i <= j < history.len(),
        history[i].pays(),
    ensures
        history[j].post.is_claimed(),
        reading(history[j].post) is Ok,
        reading(history[j].post) == reading(history[i].post),
{
    let stored = lemma_paying_stores(history, i);
    claimed_escrow_stays_claimed(history, i, i, stored);
    claimed_escrow_stays_claimed(history, i, j, stored);
}

/// What transfers of a token add to the balance of an account.
pub open spec fn net_inflow(
    transfers: Seq<TokenTransfer>,
    token: Seq<char>,
    account: Seq<char>,
) -> int
    decreases transfers.len(),
{
    if transfers.len() == 0 {
        0
    } else {
        let last = transfers.last();
        net_inflow(transfers.drop_last(), token, account) + if last.token == token && last.to
            == account {
            last.amount as int
        } else {
            0
        } - if last.token == token && last.from == account {
            last.amount as int
        } else {
            0
        }
    }
}

/// One more transfer adds its amount on one side and takes it on the other.
proof fn lemma_net_inflow_push(
    transfers: Seq<TokenTransfer>,
    next: TokenTransfer,
    token: Seq<char>,
    account: Seq<char>,
)
    ensures
        net_inflow(transfers.push(next), token, account) == net_inflow(transfers, token, account)
            + (if next.token == token && next.to == account {
            next.amount as int
        } else {
            0
        }) - (if next.token == token && next.from == account {
            next.amount as int
        } else {
            0
        }),
{
    assert(transfers.push(next).drop_last() == transfers);
    assert(transfers.push(next).last() == next);
}

/// As long as an escrow is not claimed, the contract has taken in exactly the locked
/// amount of the token since it was fresh.
pub proof fn unclaimed_escrow_holds_the_amount(history: Seq<Step>, i: int, terms: Terms)
    requires
        is_history(history),
        is_fresh(history[0].pre),
        0 <= i < history.len(),
        stores(history[i].post, terms),
        !history[i].post.is_claimed(),
    ensures
        ({
            let initial = history[0].pre;
            net_inflow(history[i].post.transfers(), terms.token, initial.contract) == net_inflow(
                initial.transfers(),
                terms.token,
                initial.contract,
            ) + terms.amount
        }),
{
    let initial = history[0].pre;
    funds_go_in_and_out_once(history, i);
    assert(history[i].post.has(DataKey::Sender));
    lemma_net_inflow_push(
        initial.transfers(),
        deposit(initial.contract, terms),
        terms.token,
        initial.contract,
    );
}

/// After a claim the contract holds of the token what it held before it was set
/// up, and the claim has given the recipient exactly the locked amount.
pub proof fn claim_empties_the_escrow(history: Seq<Step>, i: int, terms: Terms)
    requires
        is_history(history),
        is_fresh(history[0].pre),
        0 <= i < history.len(),
        history[i].pays(),
        stores(history[i].pre, terms),
    ensures
        ({
            let initial = history[0].pre;
            let pre = history[i].pre;
            let post = history[i].post;
            &&& net_inflow(post.transfers(), terms.token, initial.contract) == net_inflow(
                initial.transfers(),
                terms.token,
                initial.contract,
            )
            &&& net_inflow(post.transfers(), terms.token, terms.recipient) == net_inflow(
                pre.transfers(),
                terms.token,
                terms.recipient,
            ) + terms.amount
        }),
{
    let initial = history[0].pre;
    let pre = history[i].pre;
    assert(history[i].holds());
    funds_go_in_and_out_once(history, i);
    claim_pays_what_was_locked(history[i], terms);
    let opened = initial.transfers().push(deposit(initial.contract, terms));
    lemma_net_inflow_push(
        initial.transfers(),
        deposit(initial.contract, terms),
        terms.token,
        initial.contract,
    );
    lemma_net_inflow_push(
        opened,
        payout_of(initial.contract, terms),
        terms.token,
        initial.contract,
    );
    lemma_net_inflow_push(
        pre.transfers(),
        payout_of(initial.contract, terms),
        terms.token,
        terms.recipient,
    );
}

/// Keeping an escrow alive changes nothing else, and what can be read of it
/// stays the same.
pub proof fn extension_keeps_the_escrow(step: Step)
    requires
        step.holds(),
        step.call is ExtendTtl,
    ensures
        step.post == (HostState {
            ttl: step.post.ttl,
            requests: step.post.requests,
            ..step.pre
        }),
        reading(step.post) == reading(step.pre),
{
}

/// No call shortens the life of the instance.
pub proof fn calls_never_shorten_life(step: Step)
    requires
        step.holds(),
    ensures
        step.post.ttl >= step.pre.ttl,
{
}

/// The lesser of two counts.
pub open spec fn least(a: nat, b: nat) -> nat {
    if a <= b { a } else { b }
}

/// After every successful call the instance has at least 7 days to live, or as
/// long as the network allows.
pub proof fn successful_calls_leave_a_week(step: Step)
    requires
        step.holds(),
        step.result is Ok,
    ensures
        step.post.ttl >= least(POST_CLAIM_TTL_LEDGERS as nat, step.pre.ttl_limit),
{
    match step.call {
        Call::Initialize(terms) => {
            required_ledgers_reach_the_unlock_time(step.now, terms.unlock_time);
        },
        Call::ExtendTtl => {
            required_ledgers_reach_the_unlock_time(step.now, step.pre.unlock_time());
        },
        Call::Claim => {},
    }
}

/// Where no more than 7 days are left, extending the life of an escrow makes the
/// instance live for exactly the ledgers that the unlock time requires, or as long
/// as the network allows.
pub proof fn extension_reaches_the_unlock_time(step: Step)
    requires
        step.holds(),
        step.call is ExtendTtl,
        step.result is Ok,
        step.pre.ttl <= MIN_TTL_THRESHOLD,
        step.pre.ttl <= step.pre.ttl_limit,
    ensures
        step.post.ttl == least(
            required_ledgers(step.now, step.pre.unlock_time()) as nat,
            step.pre.ttl_limit,
        ),
{
    required_ledgers_reach_the_unlock_time(step.now, step.pre.unlock_time());
}

/// Where no more than 7 days are left once the sender has authorized it, setting an
/// escrow up makes the instance live for all the ledgers that the unlock time
/// requires, or as long as the network allows. `asked` is the state before it, with
/// the life that the instance has by then.
pub proof fn setup_reaches_the_unlock_time(
    asked: HostState,
    now: u64,
    terms: Terms,
    post: HostState,
)
    requires
        opened(asked, now, terms).up_to_longer_life(post),
        asked.ttl <= MIN_TTL_THRESHOLD,
    ensures
        post.ttl >= least(required_ledgers(now, terms.unlock_time) as nat, post.ttl_limit),
{
}

/// Where no more than 7 days are left before it, setting an escrow up makes the
/// instance live for all the ledgers that the unlock time requires, or as long as
/// the network allows, unless the sender's authorization has already lengthened
/// its life to more than 7 days.
pub proof fn setup_lengthens_a_short_life(step: Step, terms: Terms)
    requires
        step.holds(),
        step.opens(terms),
        step.pre.ttl <= MIN_TTL_THRESHOLD,
    ensures
        step.post.ttl >= least(
            required_ledgers(step.now, terms.unlock_time) as nat,
            step.pre.ttl_limit,
        ) || step.post.ttl > MIN_TTL_THRESHOLD,
{
    let asked = lemma_asked(step, terms);
    if asked.ttl <= MIN_TTL_THRESHOLD {
        setup_reaches_the_unlock_time(asked, step.now, terms, step.post);
    }
}

/// Where more than 7 days are left, a call of `extend_ttl` changes nothing but the
/// record of its request.
pub proof fn extension_waits_for_the_threshold(step: Step)
    requires
        step.holds(),
        step.call is ExtendTtl,
        step.pre.ttl > MIN_TTL_THRESHOLD,
    ensures
        step.post == (HostState { requests: step.post.requests, ..step.pre }),
{
}

/// The required ledgers are the safety margin and those up to the unlock time,
/// rounded up by less than one ledger, as long as 32 bits can count them. An
/// unlock time that is past requires the margin alone.
pub proof fn required_ledgers_reach_the_unlock_time(now: u64, unlock_time: u64)
    ensures
        required_ledgers(now, unlock_time) >= BUFFER_LEDGERS,
        unlock_time <= now ==> required_ledgers(now, unlock_time) == BUFFER_LEDGERS,
        required_ledgers(now, unlock_time) < u32::MAX ==> now + (required_ledgers(now, unlock_time)
            - BUFFER_LEDGERS) * LEDGER_CLOSE_SECS >= unlock_time,
        unlock_time > now ==> now + (required_ledgers(now, unlock_time) - BUFFER_LEDGERS - 1)
            * LEDGER_CLOSE_SECS < unlock_time,
{
    if unlock_time > now {
        let secs = unlock_time - now;
        assert(ledgers_in(secs) == (secs + 4) / 5);
    }
}

} // verus!
