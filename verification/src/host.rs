//! The calls into `soroban_sdk`, and what is believed of them.
//!
//! A contract runs inside a host, which it reaches through an [`Env`]. The host
//! keeps the instance storage of the contract and how long it stays alive, knows
//! the ledger that the invocation is part of and who authorized it, calls other
//! contracts and records events. [`HostState`] is what the library's contracts
//! speak of.
//!
//! A host call either returns or ends the whole invocation. In the second case
//! none of the contract's code runs any further and the host undoes everything
//! that the invocation did, so there is no state of which anything could be
//! said. Where the arguments, the contract's own address and storage and the
//! number of the ledger decide this, the `requires` below leave it out. The rest
//! is up to others: an address has not authorized the invocation, a called
//! contract does not exist, is waiting for this one or fails, the network's
//! resource limits are exceeded or its settings contradict each other, or an `Env`
//! is used outside of a contract. The contracts below speak of the calls that
//! return.
//!
//! Every `Env` of one invocation is a handle on the same host. A function that
//! changes the host takes its handle by `&mut`.

use soroban_sdk::token::TokenClient;
use soroban_sdk::{Address, Env, Symbol, TryFromVal, Val};
use vstd::prelude::*;

verus! {

/// The host handle of `soroban_sdk`.
#[verifier::external_type_specification]
#[verifier::external_body]
pub struct ExEnv(soroban_sdk::Env);

/// The address type of `soroban_sdk`: an account or a contract.
#[verifier::external_type_specification]
#[verifier::external_body]
pub struct ExAddress(soroban_sdk::Address);

/// A value in the instance storage or in an event.
pub enum HostValue {
    /// An address, by its text.
    Address(Seq<char>),
    /// A signed 128-bit integer.
    I128(i128),
    /// An unsigned 64-bit integer.
    U64(u64),
    /// A truth value.
    Bool(bool),
    /// A value of any other type.
    Other,
}

/// A transfer that a token contract carried out for this contract.
pub struct TokenTransfer {
    /// The token contract.
    pub token: Seq<char>,
    /// Who paid.
    pub from: Seq<char>,
    /// Who received.
    pub to: Seq<char>,
    /// How much was transferred.
    pub amount: i128,
}

/// An event that this contract published.
#[verifier::ext_equal]
pub struct ContractEvent {
    /// The symbol that is the event's only topic.
    pub topic: Seq<char>,
    /// The event's data, in order.
    pub data: Seq<HostValue>,
}

/// Something that this contract asked of the host and that the host granted.
#[verifier::ext_equal]
pub enum Request {
    /// That an address has authorized the invocation.
    Authorization(Seq<char>),
    /// A longer life of the instance: `extend_to` ledgers, where no more than
    /// `threshold` are left.
    Extension {
        /// The threshold.
        threshold: u32,
        /// The ledgers to extend it to.
        extend_to: u32,
        /// The ledgers that were left when it was asked for.
        left: nat,
    },
    /// A transfer by a token contract.
    Transfer(TokenTransfer),
    /// The publication of an event.
    Event(ContractEvent),
}

/// What the host knows of the running contract.
#[verifier::ext_equal]
pub struct HostState {
    /// The contract's own address.
    pub contract: Seq<char>,
    /// The close time of the ledger that the invocation is part of, in seconds
    /// since the Unix epoch. The ledger's header fixes it for the invocation.
    pub timestamp: u64,
    /// The number of the ledger that the invocation is part of.
    pub sequence: u32,
    /// The instance storage. The entry under a symbol is the one whose key is
    /// the vector that holds that symbol alone.
    pub entries: Map<Seq<char>, HostValue>,
    /// The ledgers that the instance has left to live, the current one not
    /// counted.
    pub ttl: nat,
    /// The most ledgers that an instance can have left to live.
    pub ttl_limit: nat,
    /// What the contract has asked for and the host has granted, in this
    /// invocation and in earlier ones, oldest first.
    pub requests: Seq<Request>,
}

/// What the host behind `env` knows of the running contract.
pub uninterp spec fn host_state(env: Env) -> HostState;

/// The text (strkey) of an address, as `Address::to_string` gives it: two
/// addresses are the same where their texts are.
pub uninterp spec fn address_text(address: Address) -> Seq<char>;

/// Whether the text of an address is that of a contract, which begins with a `C`.
/// That of an account begins with a `G`.
pub open spec fn is_contract_text(text: Seq<char>) -> bool {
    text.len() > 0 && text[0] == 'C'
}

/// Whether a character can stand in a symbol.
pub open spec fn is_symbol_char(c: char) -> bool {
    'a' <= c <= 'z' || 'A' <= c <= 'Z' || '0' <= c <= '9' || c == '_'
}

/// Whether a text is a symbol: at most 32 letters, digits and underscores.
pub open spec fn is_symbol(text: Seq<char>) -> bool {
    text.len() <= 32 && forall|i: int| 0 <= i < text.len() ==> is_symbol_char(#[trigger] text[i])
}

/// The time to live after an extension to `extend_to` ledgers that takes place
/// only where no more than `threshold` are left: never above the limit, and
/// never shorter than before.
pub open spec fn extended_ttl(ttl: nat, limit: nat, threshold: nat, extend_to: nat) -> nat {
    let goal = if extend_to <= limit { extend_to } else { limit };
    if ttl <= threshold && ttl < goal { goal } else { ttl }
}

/// What a typed read of the instance storage finds.
pub enum Entry<T> {
    /// There is no entry.
    Missing,
    /// There is an entry of the type.
    Present(T),
    /// There is an entry of another type.
    Mistyped,
}

/// `Ledger::timestamp`: the close time of the current ledger, in seconds since
/// the Unix epoch.
#[verifier::external_body]
pub(crate) fn ledger_timestamp(env: &Env) -> (now: u64)
    ensures
        now == host_state(*env).timestamp,
{
    env.ledger().timestamp()
}

/// `Ledger::sequence`: the number of the current ledger.
#[verifier::external_body]
pub(crate) fn ledger_sequence(env: &Env) -> (sequence: u32)
    ensures
        sequence == host_state(*env).sequence,
{
    env.ledger().sequence()
}

/// `Env::current_contract_address`: the address of the running contract.
#[verifier::external_body]
pub(crate) fn current_contract_address(env: &Env) -> (address: Address)
    ensures
        address_text(address) == host_state(*env).contract,
{
    env.current_contract_address()
}

/// `Address::to_string`, copied out of the host: the text of the address.
#[verifier::external_body]
pub(crate) fn address_string(address: &Address) -> (text: String)
    ensures
        text@ == address_text(*address),
{
    let text = address.to_string();
    let mut bytes = vec![0; text.len() as usize];
    text.copy_into_slice(&mut bytes);
    String::from_utf8_lossy(&bytes).into_owned()
}

/// `Address::eq`: whether two addresses are the same, which is where their texts
/// are.
#[verifier::external_body]
pub(crate) fn same_address(a: &Address, b: &Address) -> (same: bool)
    ensures
        same == (address_text(*a) == address_text(*b)),
{
    a == b
}

/// `Instance::has`: whether the instance storage has an entry under the key.
/// The key must be a symbol.
#[verifier::external_body]
pub(crate) fn has_entry(env: &Env, key: &str) -> (found: bool)
    requires
        is_symbol(key@),
    ensures
        found == host_state(*env).entries.contains_key(key@),
{
    env.storage().instance().has(&(Symbol::new(env, key),))
}

/// `Instance::get` as a raw value, then `Address::try_from_val`: the address
/// under the key, if there is an entry and it is an address. The key must be a
/// symbol.
#[verifier::external_body]
pub(crate) fn read_address(env: &Env, key: &str) -> (entry: Entry<Address>)
    requires
        is_symbol(key@),
    ensures
        match entry {
            Entry::Missing => !host_state(*env).entries.contains_key(key@),
            Entry::Present(address) => host_state(*env).entries.contains_key(key@)
                && host_state(*env).entries[key@] == HostValue::Address(address_text(address)),
            Entry::Mistyped => host_state(*env).entries.contains_key(key@)
                && !(host_state(*env).entries[key@] is Address),
        },
{
    match env.storage().instance().get::<(Symbol,), Val>(&(Symbol::new(env, key),)) {
        None => Entry::Missing,
        Some(val) => match Address::try_from_val(env, &val) {
            Ok(address) => Entry::Present(address),
            Err(_) => Entry::Mistyped,
        },
    }
}

/// `Instance::get` as a raw value, then `i128::try_from_val`: the signed 128-bit
/// integer under the key, if there is an entry and it is one. The key must be a
/// symbol.
#[verifier::external_body]
pub(crate) fn read_i128(env: &Env, key: &str) -> (entry: Entry<i128>)
    requires
        is_symbol(key@),
    ensures
        match entry {
            Entry::Missing => !host_state(*env).entries.contains_key(key@),
            Entry::Present(number) => host_state(*env).entries.contains_key(key@)
                && host_state(*env).entries[key@] == HostValue::I128(number),
            Entry::Mistyped => host_state(*env).entries.contains_key(key@)
                && !(host_state(*env).entries[key@] is I128),
        },
{
    match env.storage().instance().get::<(Symbol,), Val>(&(Symbol::new(env, key),)) {
        None => Entry::Missing,
        Some(val) => match i128::try_from_val(env, &val) {
            Ok(number) => Entry::Present(number),
            Err(_) => Entry::Mistyped,
        },
    }
}

/// `Instance::get` as a raw value, then `u64::try_from_val`: the unsigned 64-bit
/// integer under the key, if there is an entry and it is one. The key must be a
/// symbol.
#[verifier::external_body]
pub(crate) fn read_u64(env: &Env, key: &str) -> (entry: Entry<u64>)
    requires
        is_symbol(key@),
    ensures
        match entry {
            Entry::Missing => !host_state(*env).entries.contains_key(key@),
            Entry::Present(number) => host_state(*env).entries.contains_key(key@)
                && host_state(*env).entries[key@] == HostValue::U64(number),
            Entry::Mistyped => host_state(*env).entries.contains_key(key@)
                && !(host_state(*env).entries[key@] is U64),
        },
{
    match env.storage().instance().get::<(Symbol,), Val>(&(Symbol::new(env, key),)) {
        None => Entry::Missing,
        Some(val) => match u64::try_from_val(env, &val) {
            Ok(number) => Entry::Present(number),
            Err(_) => Entry::Mistyped,
        },
    }
}

/// `Instance::get` as a raw value, then `bool::try_from_val`: the truth value
/// under the key, if there is an entry and it is one. The key must be a symbol.
#[verifier::external_body]
pub(crate) fn read_bool(env: &Env, key: &str) -> (entry: Entry<bool>)
    requires
        is_symbol(key@),
    ensures
        match entry {
            Entry::Missing => !host_state(*env).entries.contains_key(key@),
            Entry::Present(flag) => host_state(*env).entries.contains_key(key@)
                && host_state(*env).entries[key@] == HostValue::Bool(flag),
            Entry::Mistyped => host_state(*env).entries.contains_key(key@)
                && !(host_state(*env).entries[key@] is Bool),
        },
{
    match env.storage().instance().get::<(Symbol,), Val>(&(Symbol::new(env, key),)) {
        None => Entry::Missing,
        Some(val) => match bool::try_from_val(env, &val) {
            Ok(flag) => Entry::Present(flag),
            Err(_) => Entry::Mistyped,
        },
    }
}

/// `Instance::set` with an address: the entry under the key becomes that address
/// and nothing else changes. The key must be a symbol.
#[verifier::external_body]
pub(crate) fn write_address(env: &mut Env, key: &str, value: &Address)
    requires
        is_symbol(key@),
    ensures
        host_state(*final(env)) == (HostState {
            entries: host_state(*old(env)).entries.insert(
                key@,
                HostValue::Address(address_text(*value)),
            ),
            ..host_state(*old(env))
        }),
{
    env.storage().instance().set(&(Symbol::new(env, key),), value)
}

/// `Instance::set` with a signed 128-bit integer: the entry under the key
/// becomes that number and nothing else changes. The key must be a symbol.
#[verifier::external_body]
pub(crate) fn write_i128(env: &mut Env, key: &str, value: i128)
    requires
        is_symbol(key@),
    ensures
        host_state(*final(env)) == (HostState {
            entries: host_state(*old(env)).entries.insert(key@, HostValue::I128(value)),
            ..host_state(*old(env))
        }),
{
    env.storage().instance().set(&(Symbol::new(env, key),), &value)
}

/// `Instance::set` with an unsigned 64-bit integer: the entry under the key
/// becomes that number and nothing else changes. The key must be a symbol.
#[verifier::external_body]
pub(crate) fn write_u64(env: &mut Env, key: &str, value: u64)
    requires
        is_symbol(key@),
    ensures
        host_state(*final(env)) == (HostState {
            entries: host_state(*old(env)).entries.insert(key@, HostValue::U64(value)),
            ..host_state(*old(env))
        }),
{
    env.storage().instance().set(&(Symbol::new(env, key),), &value)
}

/// `Instance::set` with a truth value: the entry under the key becomes that
/// value and nothing else changes. The key must be a symbol.
#[verifier::external_body]
pub(crate) fn write_bool(env: &mut Env, key: &str, value: bool)
    requires
        is_symbol(key@),
    ensures
        host_state(*final(env)) == (HostState {
            entries: host_state(*old(env)).entries.insert(key@, HostValue::Bool(value)),
            ..host_state(*old(env))
        }),
{
    env.storage().instance().set(&(Symbol::new(env, key),), &value)
}

/// `Instance::extend_ttl`: gives the instance `extend_to` ledgers to live, or as
/// many as the network allows, where no more than `threshold` are left and that
/// is longer than before; nothing else changes. The host refuses a threshold
/// above the extension, and an extension that, counted from the current ledger,
/// ends past the last ledger that 32 bits can number. The request is recorded with
/// the ledgers that were left. That the contract's code is extended by the same rule
/// is left unsaid.
#[verifier::external_body]
pub(crate) fn extend_instance_ttl(env: &mut Env, threshold: u32, extend_to: u32)
    requires
        threshold <= extend_to,
        host_state(*old(env)).sequence + extend_to <= u32::MAX,
    ensures
        host_state(*final(env)) == (HostState {
            ttl: extended_ttl(
                host_state(*old(env)).ttl,
                host_state(*old(env)).ttl_limit,
                threshold as nat,
                extend_to as nat,
            ),
            requests: host_state(*old(env)).requests.push(
                Request::Extension { threshold, extend_to, left: host_state(*old(env)).ttl },
            ),
            ..host_state(*old(env))
        }),
{
    env.storage().instance().extend_ttl(threshold, extend_to)
}

/// `Address::require_auth`: returns only where the address has authorized this
/// invocation of the contract with its arguments. Where it has not, the host ends
/// the invocation. An account that is a contract runs its own code to decide. That
/// code cannot call back into this contract, which is no account and has no
/// `__check_auth`, so nothing else of it changes, but any contract may lengthen the
/// life of another's instance. For the same reason this contract cannot authorize
/// anything, and the address must not be its own.
#[verifier::external_body]
pub(crate) fn require_auth(env: &mut Env, address: &Address)
    requires
        address_text(*address) != host_state(*old(env)).contract,
    ensures
        host_state(*final(env)) == (HostState {
            requests: host_state(*old(env)).requests.push(
                Request::Authorization(address_text(*address)),
            ),
            ttl: host_state(*final(env)).ttl,
            ..host_state(*old(env))
        }),
        host_state(*final(env)).ttl >= host_state(*old(env)).ttl,
{
    address.require_auth()
}

/// `TokenClient::transfer`: asks the token contract to move `amount` from `from`
/// to `to`, and returns only where it did not fail. The host calls contracts only,
/// no accounts, and lets no called contract call back into this one. So the token
/// must be a contract and not this one, and nothing else of this one changes, but
/// any contract may lengthen the life of another's instance. What the token
/// contract does with its balances is its own.
#[verifier::external_body]
pub(crate) fn transfer(env: &mut Env, token: &Address, from: &Address, to: &Address, amount: i128)
    requires
        is_contract_text(address_text(*token)),
        address_text(*token) != host_state(*old(env)).contract,
    ensures
        host_state(*final(env)) == (HostState {
            requests: host_state(*old(env)).requests.push(
                Request::Transfer(
                    TokenTransfer {
                        token: address_text(*token),
                        from: address_text(*from),
                        to: address_text(*to),
                        amount,
                    },
                ),
            ),
            ttl: host_state(*final(env)).ttl,
            ..host_state(*old(env))
        }),
        host_state(*final(env)).ttl >= host_state(*old(env)).ttl,
{
    TokenClient::new(env, token).transfer(from, to, &amount)
}

/// `Events::publish` with one topic and two addresses, a signed 128-bit integer
/// and an unsigned 64-bit integer as data: records the event, and nothing else
/// changes. The topic must be a symbol.
#[allow(deprecated)]
#[verifier::external_body]
pub(crate) fn publish_opening(
    env: &mut Env,
    topic: &str,
    sender: Address,
    recipient: Address,
    amount: i128,
    unlock_time: u64,
)
    requires
        is_symbol(topic@),
    ensures
        host_state(*final(env)) == (HostState {
            requests: host_state(*old(env)).requests.push(
                Request::Event(
                    ContractEvent {
                        topic: topic@,
                        data: seq![
                            HostValue::Address(address_text(sender)),
                            HostValue::Address(address_text(recipient)),
                            HostValue::I128(amount),
                            HostValue::U64(unlock_time),
                        ],
                    },
                ),
            ),
            ..host_state(*old(env))
        }),
{
    env.events().publish((Symbol::new(env, topic),), (sender, recipient, amount, unlock_time))
}

/// `Events::publish` with one topic and an address and a signed 128-bit integer
/// as data: records the event, and nothing else changes. The topic must be a
/// symbol.
#[allow(deprecated)]
#[verifier::external_body]
pub(crate) fn publish_payout(env: &mut Env, topic: &str, recipient: Address, amount: i128)
    requires
        is_symbol(topic@),
    ensures
        host_state(*final(env)) == (HostState {
            requests: host_state(*old(env)).requests.push(
                Request::Event(
                    ContractEvent {
                        topic: topic@,
                        data: seq![
                            HostValue::Address(address_text(recipient)),
                            HostValue::I128(amount),
                        ],
                    },
                ),
            ),
            ..host_state(*old(env))
        }),
{
    env.events().publish((Symbol::new(env, topic),), (recipient, amount))
}

} // verus!
