//! The contract on a host: registered, invoked and authorized as on the network.

use escrow::model::{MIN_AMOUNT, MIN_LOCK_DURATION};
use escrow::ttl::{
    required_ttl_ledgers, BUFFER_LEDGERS, LEDGER_CLOSE_SECS, POST_CLAIM_TTL_LEDGERS,
};
use escrow::{EscrowContract, EscrowError};
use soroban_sdk::testutils::storage::Instance;
use soroban_sdk::testutils::{
    Address as _, ContractFunctionSet, EnvTestConfig, Events, Ledger, MockAuth, MockAuthInvoke,
};
use soroban_sdk::token::{StellarAssetClient, TokenClient};
use soroban_sdk::{Address, Env, Error, IntoVal, InvokeError, Symbol, TryFromVal, Val, Vec};

/// The escrow as a contract that a test host can run.
struct Escrow;

impl ContractFunctionSet for Escrow {
    fn call(&self, func: &str, env: Env, args: &[Val]) -> Option<Val> {
        let mut env = env;
        match func {
            "initialize" => {
                let sender = Address::try_from_val(&env, &args[0]).unwrap();
                let recipient = Address::try_from_val(&env, &args[1]).unwrap();
                let token = Address::try_from_val(&env, &args[2]).unwrap();
                let amount = i128::try_from_val(&env, &args[3]).unwrap();
                let unlock_time = u64::try_from_val(&env, &args[4]).unwrap();
                let result = EscrowContract::try_initialize(
                    &mut env, sender, recipient, token, amount, unlock_time,
                )
                .unwrap();
                Some(answer(&env, result))
            }
            "claim" => {
                let result = EscrowContract::try_claim(&mut env).unwrap();
                Some(answer(&env, result))
            }
            "extend_ttl" => {
                let result = EscrowContract::try_extend_ttl(&mut env).unwrap();
                Some(answer(&env, result))
            }
            "get_state" => {
                let result = EscrowContract::try_get_state(&env).unwrap();
                Some(answer(&env, result))
            }
            _ => None,
        }
    }
}

fn answer<T: IntoVal<Env, Val>>(env: &Env, result: Result<T, EscrowError>) -> Val {
    match result {
        Ok(value) => value.into_val(env),
        Err(error) => Error::from_contract_error(error.code()).to_val(),
    }
}

const ERRORS: [EscrowError; 8] = [
    EscrowError::AlreadyInitialized,
    EscrowError::AlreadyClaimed,
    EscrowError::StillLocked,
    EscrowError::NotInitialized,
    EscrowError::Unauthorized,
    EscrowError::AlreadyCancelled,
    EscrowError::InvalidAmount,
    EscrowError::InvalidUnlockTime,
];

/// What a failed invocation answers: an error of the contract, or `None` where
/// the host ended it.
fn refusal(failure: Result<Error, InvokeError>) -> Option<EscrowError> {
    let failure = failure.unwrap();
    ERRORS
        .into_iter()
        .find(|error| Error::from_contract_error(error.code()) == failure)
}

struct Client {
    env: Env,
    address: Address,
}

impl Client {
    fn new(env: &Env) -> Client {
        let address = env.register(Escrow, ());
        Client { env: env.clone(), address }
    }

    fn invoke<T: TryFromVal<Env, Val>>(
        &self,
        func: &str,
        args: Vec<Val>,
    ) -> Result<T, Option<EscrowError>> {
        match self.env.try_invoke_contract::<T, Error>(
            &self.address,
            &Symbol::new(&self.env, func),
            args,
        ) {
            Ok(Ok(value)) => Ok(value),
            Ok(Err(_)) => panic!("an answer of another type"),
            Err(failure) => Err(refusal(failure)),
        }
    }

    fn try_initialize(
        &self,
        sender: &Address,
        recipient: &Address,
        token: &Address,
        amount: i128,
        unlock_time: u64,
    ) -> Result<(), Option<EscrowError>> {
        let args = (sender.clone(), recipient.clone(), token.clone(), amount, unlock_time);
        self.invoke("initialize", args.into_val(&self.env))
    }

    fn initialize(
        &self,
        sender: &Address,
        recipient: &Address,
        token: &Address,
        amount: i128,
        unlock_time: u64,
    ) {
        self.try_initialize(sender, recipient, token, amount, unlock_time)
            .unwrap()
    }

    fn try_claim(&self) -> Result<(), Option<EscrowError>> {
        self.invoke("claim", Vec::new(&self.env))
    }

    fn claim(&self) {
        self.try_claim().unwrap()
    }

    fn try_extend_ttl(&self) -> Result<(), Option<EscrowError>> {
        self.invoke("extend_ttl", Vec::new(&self.env))
    }

    fn extend_ttl(&self) {
        self.try_extend_ttl().unwrap()
    }

    fn try_get_state(&self) -> Result<(Address, i128, u64, bool), Option<EscrowError>> {
        self.invoke("get_state", Vec::new(&self.env))
    }

    fn get_state(&self) -> (Address, i128, u64, bool) {
        self.try_get_state().unwrap()
    }

    fn ttl(&self) -> u32 {
        self.env
            .as_contract(&self.address, || self.env.storage().instance().get_ttl())
    }
}

fn new_env() -> Env {
    Env::new_with_config(EnvTestConfig { capture_snapshot_at_drop: false })
}

fn create_token<'a>(
    env: &Env,
    admin: &Address,
) -> (Address, TokenClient<'a>, StellarAssetClient<'a>) {
    let token_id = env.register_stellar_asset_contract_v2(admin.clone()).address();
    let token = TokenClient::new(env, &token_id);
    let token_admin = StellarAssetClient::new(env, &token_id);
    (token_id, token, token_admin)
}

// Setting up and claiming.

#[test]
fn test_initialize_and_claim() {
    let env = new_env();
    env.mock_all_auths();

    let sender = Address::generate(&env);
    let recipient = Address::generate(&env);
    let (token_id, token, token_admin) = create_token(&env, &sender);

    token_admin.mint(&sender, &100_000_000);

    let client = Client::new(&env);

    client.initialize(&sender, &recipient, &token_id, 100_000_000, 3_601);
    env.ledger().with_mut(|l| l.timestamp = 3_601);
    client.claim();

    assert_eq!(token.balance(&recipient), 100_000_000);
}

#[test]
fn test_double_initialize_returns_error() {
    let env = new_env();
    env.mock_all_auths();

    let sender = Address::generate(&env);
    let recipient = Address::generate(&env);
    let (token_id, _, token_admin) = create_token(&env, &sender);
    token_admin.mint(&sender, &200_000_000);

    let client = Client::new(&env);

    client.initialize(&sender, &recipient, &token_id, 100_000_000, 3_601);

    let err = client
        .try_initialize(&sender, &recipient, &token_id, 100_000_000, 3_601)
        .unwrap_err()
        .unwrap();
    assert_eq!(err, EscrowError::AlreadyInitialized);
}

#[test]
fn test_reinitialize_does_not_alter_original_state() {
    let env = new_env();
    env.mock_all_auths();

    let sender = Address::generate(&env);
    let recipient = Address::generate(&env);
    let attacker = Address::generate(&env);
    let (token_id, _, token_admin) = create_token(&env, &sender);
    token_admin.mint(&sender, &200_000_000);

    let client = Client::new(&env);

    let original_amount: i128 = 100_000_000;
    let original_unlock: u64 = 9_999;
    client.initialize(&sender, &recipient, &token_id, original_amount, original_unlock);

    let err = client
        .try_initialize(&attacker, &attacker, &token_id, 50_000_000, 1)
        .unwrap_err()
        .unwrap();
    assert_eq!(err, EscrowError::AlreadyInitialized);

    let (state_recipient, state_amount, state_unlock, state_claimed) = client.get_state();
    assert_eq!(state_recipient, recipient, "recipient must not change after failed re-init");
    assert_eq!(state_amount, original_amount, "amount must not change after failed re-init");
    assert_eq!(state_unlock, original_unlock, "unlock_time must not change after failed re-init");
    assert!(!state_claimed, "claimed flag must remain false after failed re-init");
}

#[test]
fn test_claim_before_unlock_returns_error() {
    let env = new_env();
    env.mock_all_auths();

    let sender = Address::generate(&env);
    let recipient = Address::generate(&env);
    let (token_id, _, token_admin) = create_token(&env, &sender);
    token_admin.mint(&sender, &100_000_000);

    let client = Client::new(&env);

    client.initialize(&sender, &recipient, &token_id, 100_000_000, 9_999_999);

    let err = client.try_claim().unwrap_err().unwrap();
    assert_eq!(err, EscrowError::StillLocked);
}

#[test]
fn test_double_claim_returns_error() {
    let env = new_env();
    env.mock_all_auths();

    let sender = Address::generate(&env);
    let recipient = Address::generate(&env);
    let (token_id, _, token_admin) = create_token(&env, &sender);
    token_admin.mint(&sender, &100_000_000);

    let client = Client::new(&env);

    client.initialize(&sender, &recipient, &token_id, 100_000_000, 3_601);
    env.ledger().with_mut(|l| l.timestamp = 3_601);
    client.claim();

    let err = client.try_claim().unwrap_err().unwrap();
    assert_eq!(err, EscrowError::AlreadyClaimed);
}

#[test]
fn test_get_state_not_initialized_returns_error() {
    let env = new_env();
    env.mock_all_auths();

    let client = Client::new(&env);

    let err = client.try_get_state().unwrap_err().unwrap();
    assert_eq!(err, EscrowError::NotInitialized);
}

#[test]
fn test_initialize_zero_amount_returns_invalid_amount() {
    let env = new_env();
    env.mock_all_auths();

    let sender = Address::generate(&env);
    let recipient = Address::generate(&env);
    let (token_id, _, _) = create_token(&env, &sender);

    let client = Client::new(&env);

    let err = client
        .try_initialize(&sender, &recipient, &token_id, 0, 1_000)
        .unwrap_err()
        .unwrap();
    assert_eq!(err, EscrowError::InvalidAmount);
}

#[test]
fn test_initialize_below_minimum_amount_returns_invalid_amount() {
    let env = new_env();
    env.mock_all_auths();

    let sender = Address::generate(&env);
    let recipient = Address::generate(&env);
    let (token_id, _, token_admin) = create_token(&env, &sender);
    token_admin.mint(&sender, &9_999_999);

    let client = Client::new(&env);

    let err = client
        .try_initialize(&sender, &recipient, &token_id, 9_999_999, 1_000)
        .unwrap_err()
        .unwrap();
    assert_eq!(err, EscrowError::InvalidAmount);
}

#[test]
fn test_initialize_past_unlock_time_returns_invalid_unlock_time() {
    let env = new_env();
    env.mock_all_auths();

    let sender = Address::generate(&env);
    let recipient = Address::generate(&env);
    let (token_id, _, token_admin) = create_token(&env, &sender);
    token_admin.mint(&sender, &100_000_000);

    env.ledger().with_mut(|l| l.timestamp = 10_000);

    let client = Client::new(&env);

    let err = client
        .try_initialize(&sender, &recipient, &token_id, 100_000_000, 5_000)
        .unwrap_err()
        .unwrap();
    assert_eq!(err, EscrowError::InvalidUnlockTime);
}

#[test]
fn test_initialize_current_timestamp_returns_invalid_unlock_time() {
    let env = new_env();
    env.mock_all_auths();

    let sender = Address::generate(&env);
    let recipient = Address::generate(&env);
    let (token_id, _, token_admin) = create_token(&env, &sender);
    token_admin.mint(&sender, &100_000_000);

    env.ledger().with_mut(|l| l.timestamp = 10_000);

    let client = Client::new(&env);

    let err = client
        .try_initialize(&sender, &recipient, &token_id, 100_000_000, 10_000)
        .unwrap_err()
        .unwrap();
    assert_eq!(err, EscrowError::InvalidUnlockTime);
}

#[test]
fn test_initialize_unlock_time_just_below_minimum_duration_returns_invalid_unlock_time() {
    let env = new_env();
    env.mock_all_auths();

    let sender = Address::generate(&env);
    let recipient = Address::generate(&env);
    let (token_id, _, token_admin) = create_token(&env, &sender);
    token_admin.mint(&sender, &100_000_000);

    env.ledger().with_mut(|l| l.timestamp = 10_000);

    let client = Client::new(&env);

    // The unlock time has to be more than the minimum duration away.
    let err = client
        .try_initialize(&sender, &recipient, &token_id, 100_000_000, 13_600)
        .unwrap_err()
        .unwrap();
    assert_eq!(err, EscrowError::InvalidUnlockTime);
}

#[test]
fn test_initialize_valid_unlock_time_succeeds() {
    let env = new_env();
    env.mock_all_auths();

    let sender = Address::generate(&env);
    let recipient = Address::generate(&env);
    let (token_id, token, token_admin) = create_token(&env, &sender);
    token_admin.mint(&sender, &100_000_000);

    env.ledger().with_mut(|l| l.timestamp = 10_000);

    let client = Client::new(&env);

    client.initialize(&sender, &recipient, &token_id, 100_000_000, 13_601);

    env.ledger().with_mut(|l| l.timestamp = 13_601);
    client.claim();
    assert_eq!(token.balance(&recipient), 100_000_000);
}

// Authorization.

/// An escrow that is set up and unlocked, so that only authorization stands
/// between a caller and the funds.
fn unlocked_escrow(env: &Env) -> (Address, Address, Client) {
    let sender = Address::generate(env);
    let recipient = Address::generate(env);
    let token_id = env.register_stellar_asset_contract_v2(sender.clone()).address();

    env.mock_all_auths();
    StellarAssetClient::new(env, &token_id).mint(&sender, &100_000_000);

    let client = Client::new(env);
    client.initialize(&sender, &recipient, &token_id, 100_000_000, 3_601);

    env.ledger().with_mut(|l| l.timestamp = 3_601);

    (sender, recipient, client)
}

/// Lets only this address authorize a claim.
fn authorize_claim(env: &Env, address: &Address, client: &Client) {
    env.mock_auths(&[MockAuth {
        address,
        invoke: &MockAuthInvoke {
            contract: &client.address,
            fn_name: "claim",
            args: Vec::new(env),
            sub_invokes: &[],
        },
    }]);
}

#[test]
fn test_third_party_cannot_claim() {
    let env = new_env();
    let (_, _recipient, client) = unlocked_escrow(&env);

    let attacker = Address::generate(&env);

    authorize_claim(&env, &attacker, &client);
    client
        .try_claim()
        .expect_err("third-party must not be able to claim");
}

#[test]
fn test_sender_cannot_claim() {
    let env = new_env();
    let (sender, _, client) = unlocked_escrow(&env);

    authorize_claim(&env, &sender, &client);
    client
        .try_claim()
        .expect_err("sender must not be able to claim");
}

#[test]
fn recipient_alone_can_claim() {
    let env = new_env();
    let (_, recipient, client) = unlocked_escrow(&env);

    authorize_claim(&env, &recipient, &client);
    client.claim();
    assert!(client.get_state().3);
}

#[test]
fn unauthorized_claim_leaves_the_escrow_as_it_was() {
    let env = new_env();
    let (sender, recipient, client) = unlocked_escrow(&env);

    authorize_claim(&env, &sender, &client);
    // The host ends the invocation, so it is no error of the contract.
    assert_eq!(client.try_claim(), Err(None));
    assert_eq!(client.get_state(), (recipient, 100_000_000, 3_601, false));
}

#[test]
fn sender_has_to_authorize_the_setup() {
    let env = new_env();
    let sender = Address::generate(&env);
    let recipient = Address::generate(&env);
    let (token_id, _, token_admin) = create_token(&env, &sender);
    env.mock_all_auths();
    token_admin.mint(&sender, &100_000_000);
    let client = Client::new(&env);

    env.mock_auths(&[]);
    assert_eq!(
        client.try_initialize(&sender, &recipient, &token_id, 100_000_000, 3_601),
        Err(None)
    );
    assert_eq!(client.try_get_state(), Err(Some(EscrowError::NotInitialized)));
}

#[test]
fn authorizations_are_those_of_sender_and_recipient() {
    let env = new_env();
    env.mock_all_auths();
    let sender = Address::generate(&env);
    let recipient = Address::generate(&env);
    let (token_id, _, token_admin) = create_token(&env, &sender);
    token_admin.mint(&sender, &100_000_000);
    let client = Client::new(&env);

    client.initialize(&sender, &recipient, &token_id, 100_000_000, 3_601);
    let auths = env.auths();
    assert_eq!(auths.len(), 1);
    assert_eq!(auths[0].0, sender);

    client.extend_ttl();
    assert!(env.auths().is_empty());

    env.ledger().with_mut(|l| l.timestamp = 3_601);
    client.claim();
    let auths = env.auths();
    assert_eq!(auths.len(), 1);
    assert_eq!(auths[0].0, recipient);
}

// The unlock time itself is unlocked.

fn escrow_until(env: &Env, unlock_time: u64) -> Client {
    env.mock_all_auths();
    let sender = Address::generate(env);
    let recipient = Address::generate(env);
    let token_id = env.register_stellar_asset_contract_v2(sender.clone()).address();
    StellarAssetClient::new(env, &token_id).mint(&sender, &100_000_000);

    let client = Client::new(env);
    client.initialize(&sender, &recipient, &token_id, 100_000_000, unlock_time);
    client
}

#[test]
fn test_claim_at_exactly_unlock_time_succeeds() {
    let env = new_env();
    let unlock_time: u64 = 3_601;
    let client = escrow_until(&env, unlock_time);

    env.ledger().with_mut(|l| l.timestamp = unlock_time);

    client.claim();
}

#[test]
fn test_claim_one_second_before_unlock_fails() {
    let env = new_env();
    let unlock_time: u64 = 3_601;
    let client = escrow_until(&env, unlock_time);

    env.ledger().with_mut(|l| l.timestamp = unlock_time - 1);

    let err = client.try_claim().unwrap_err().unwrap();
    assert_eq!(err, EscrowError::StillLocked);
}

// Properties, on values from the whole range.

const AMOUNTS: [i128; 4] = [MIN_AMOUNT, MIN_AMOUNT + 1, 123_456_789, 1_000_000_000];

const UNLOCK_TIMES: [u64; 4] = [MIN_LOCK_DURATION + 1, 3_700, 86_400, 1_000_000];

fn initialized_escrow<'a>(
    amount: i128,
    unlock_time: u64,
) -> (Env, Address, TokenClient<'a>, Client) {
    let env = new_env();
    env.mock_all_auths();

    let sender = Address::generate(&env);
    let recipient = Address::generate(&env);
    let (token_id, token, token_admin) = create_token(&env, &sender);
    token_admin.mint(&sender, &amount);

    let client = Client::new(&env);
    client.initialize(&sender, &recipient, &token_id, amount, unlock_time);

    (env, recipient, token, client)
}

#[test]
fn prop_balance_zero_after_claim() {
    for amount in AMOUNTS {
        for unlock_time in UNLOCK_TIMES {
            let (env, _recipient, token, client) = initialized_escrow(amount, unlock_time);

            env.ledger().with_mut(|l| l.timestamp = unlock_time);
            client.claim();

            assert_eq!(token.balance(&client.address), 0);
        }
    }
}

#[test]
fn prop_claimed_amount_equals_initialized_amount() {
    for amount in AMOUNTS {
        for unlock_time in UNLOCK_TIMES {
            let (env, recipient, token, client) = initialized_escrow(amount, unlock_time);
            assert_eq!(token.balance(&client.address), amount);

            let balance_before = token.balance(&recipient);

            env.ledger().with_mut(|l| l.timestamp = unlock_time);
            client.claim();

            assert_eq!(token.balance(&recipient) - balance_before, amount);
        }
    }
}

#[test]
fn prop_claim_fails_before_unlock() {
    for amount in AMOUNTS {
        for unlock_time in [MIN_LOCK_DURATION + 2, 1_000_000, u64::MAX / 2] {
            for ledger_ts in [0, 1, unlock_time - 1] {
                let (env, _recipient, _token, client) = initialized_escrow(amount, unlock_time);

                env.ledger().with_mut(|l| l.timestamp = ledger_ts);

                let err = client.try_claim().unwrap_err().unwrap();
                assert_eq!(err, EscrowError::StillLocked);
            }
        }
    }
}

#[test]
fn prop_double_initialize_always_fails() {
    for (amount, unlock_time) in [(MIN_AMOUNT, 3_601), (1_000_000_000, u64::MAX / 2)] {
        for (amount2, unlock_time2) in [(MIN_AMOUNT, u64::MAX / 2), (77_000_000, 3_602)] {
            let env = new_env();
            env.mock_all_auths();

            let sender = Address::generate(&env);
            let recipient = Address::generate(&env);
            let (token_id, _, token_admin) = create_token(&env, &sender);
            token_admin.mint(&sender, &(amount + amount2));

            let client = Client::new(&env);

            client.initialize(&sender, &recipient, &token_id, amount, unlock_time);

            let err = client
                .try_initialize(&sender, &recipient, &token_id, amount2, unlock_time2)
                .unwrap_err()
                .unwrap();
            assert_eq!(err, EscrowError::AlreadyInitialized);
        }
    }
}

// Time to live.

fn funded_escrow(env: &Env, unlock_time: u64) -> (Address, Address, Client) {
    env.mock_all_auths();
    let sender = Address::generate(env);
    let recipient = Address::generate(env);
    let token_id = env.register_stellar_asset_contract_v2(sender.clone()).address();
    StellarAssetClient::new(env, &token_id).mint(&sender, &100_000_000);

    let client = Client::new(env);
    client.initialize(&sender, &recipient, &token_id, 100_000_000, unlock_time);

    (sender, recipient, client)
}

#[test]
fn test_initialize_sets_ttl_covering_unlock_plus_buffer() {
    let env = new_env();
    // A network that allows an instance to live for longer than that.
    env.ledger().with_mut(|l| {
        l.sequence_number = 1_000;
        l.timestamp = 0;
        l.max_entry_ttl = 10_000_000;
    });

    let one_year_secs: u64 = 365 * 24 * 3_600;
    let (_, _, client) = funded_escrow(&env, one_year_secs);

    let expected_min_ttl = (one_year_secs / LEDGER_CLOSE_SECS) as u32 + BUFFER_LEDGERS;

    let actual_ttl = client.ttl();
    assert!(
        actual_ttl >= expected_min_ttl,
        "TTL after initialize ({actual_ttl}) must be ≥ {expected_min_ttl}"
    );
}

#[test]
fn ttl_stops_at_what_the_network_allows() {
    let env = new_env();
    env.ledger().with_mut(|l| {
        l.sequence_number = 1_000;
        l.max_entry_ttl = 6_312_000;
    });
    let (_, _, client) = funded_escrow(&env, 365 * 24 * 3_600);
    assert_eq!(client.ttl(), 6_311_999);
}

#[test]
fn test_claim_extends_ttl_to_post_claim_window() {
    let env = new_env();
    env.ledger().with_mut(|l| {
        l.sequence_number = 1_000;
        l.timestamp = 0;
    });

    let unlock_time: u64 = 3_601;
    let (_, _, client) = funded_escrow(&env, unlock_time);

    env.ledger().with_mut(|l| l.timestamp = unlock_time);
    client.claim();

    let actual_ttl = client.ttl();
    assert!(
        actual_ttl >= POST_CLAIM_TTL_LEDGERS,
        "TTL after claim ({actual_ttl}) must be ≥ POST_CLAIM_TTL_LEDGERS ({POST_CLAIM_TTL_LEDGERS})"
    );
}

#[test]
fn test_public_extend_ttl_bumps_ttl() {
    let env = new_env();
    env.ledger().with_mut(|l| {
        l.sequence_number = 1_000;
        l.timestamp = 0;
    });

    let unlock_time: u64 = 3_601;
    let (_, _, client) = funded_escrow(&env, unlock_time);

    env.ledger().with_mut(|l| l.sequence_number = 500_000);

    // Nobody authorizes anything.
    env.mock_auths(&[]);
    client.extend_ttl();

    let actual_ttl = client.ttl();
    let expected_min = required_ttl_ledgers(&env, unlock_time);
    assert!(
        actual_ttl >= expected_min,
        "TTL after extend_ttl ({actual_ttl}) must be ≥ {expected_min}"
    );
}

#[test]
fn test_state_accessible_after_ttl_extension() {
    let env = new_env();
    env.ledger().with_mut(|l| {
        l.sequence_number = 1_000;
        l.timestamp = 0;
    });

    let unlock_time: u64 = 9_999_999;
    let (_, recipient, client) = funded_escrow(&env, unlock_time);

    env.ledger().with_mut(|l| l.sequence_number = 10_000_000);

    client.extend_ttl();

    let (state_recipient, state_amount, state_unlock, state_claimed) = client.get_state();

    assert_eq!(state_recipient, recipient, "recipient must be unchanged");
    assert_eq!(state_amount, 100_000_000, "amount must be unchanged");
    assert_eq!(state_unlock, unlock_time, "unlock_time must be unchanged");
    assert!(!state_claimed, "claimed must still be false");
}

#[test]
fn test_extend_ttl_not_initialized_returns_error() {
    let env = new_env();
    env.mock_all_auths();

    let client = Client::new(&env);

    let err = client.try_extend_ttl().unwrap_err().unwrap();
    assert_eq!(err, EscrowError::NotInitialized);
}

#[test]
fn test_required_ttl_ledgers_past_unlock_returns_buffer() {
    let env = new_env();
    env.ledger().with_mut(|l| l.timestamp = 10_000);

    let ttl = required_ttl_ledgers(&env, 5_000);
    assert_eq!(ttl, BUFFER_LEDGERS, "past unlock_time must return exactly BUFFER_LEDGERS");
}

#[test]
fn test_required_ttl_ledgers_rounds_up() {
    let env = new_env();
    env.ledger().with_mut(|l| l.timestamp = 0);

    let ttl = required_ttl_ledgers(&env, 6);
    assert_eq!(ttl, 2 + BUFFER_LEDGERS);

    let ttl_exact = required_ttl_ledgers(&env, 5);
    assert_eq!(ttl_exact, 1 + BUFFER_LEDGERS);

    let ttl_one = required_ttl_ledgers(&env, 1);
    assert_eq!(ttl_one, 1 + BUFFER_LEDGERS);
}

// What the host records.

#[test]
fn setup_and_claim_publish_one_event_each() {
    let env = new_env();
    env.mock_all_auths();
    let sender = Address::generate(&env);
    let recipient = Address::generate(&env);
    let (token_id, _, token_admin) = create_token(&env, &sender);
    token_admin.mint(&sender, &100_000_000);
    let client = Client::new(&env);

    client.initialize(&sender, &recipient, &token_id, 100_000_000, 3_601);
    let opening: Val = (sender.clone(), recipient.clone(), 100_000_000i128, 3_601u64).into_val(&env);
    let opening_topics: Vec<Val> = (Symbol::new(&env, "initialized"),).into_val(&env);
    assert_eq!(
        env.events().all().filter_by_contract(&client.address),
        Vec::from_array(&env, [(client.address.clone(), opening_topics, opening)])
    );

    env.ledger().with_mut(|l| l.timestamp = 3_601);
    client.claim();
    let payout: Val = (recipient.clone(), 100_000_000i128).into_val(&env);
    let payout_topics: Vec<Val> = (Symbol::new(&env, "claimed"),).into_val(&env);
    assert_eq!(
        env.events().all().filter_by_contract(&client.address),
        Vec::from_array(&env, [(client.address.clone(), payout_topics, payout)])
    );
}

#[test]
fn entries_are_stored_under_their_names() {
    let env = new_env();
    let (sender, recipient, client) = funded_escrow(&env, 3_601);

    env.as_contract(&client.address, || {
        let entries = env.storage().instance().all();
        assert_eq!(entries.len(), 6);
        let at = |name: &str| -> Val {
            let key: Val = Vec::from_array(&env, [Symbol::new(&env, name)]).to_val();
            entries.get(key).unwrap()
        };
        assert_eq!(Address::try_from_val(&env, &at("Sender")).unwrap(), sender);
        assert_eq!(Address::try_from_val(&env, &at("Recipient")).unwrap(), recipient);
        assert!(Address::try_from_val(&env, &at("Token")).is_ok());
        assert_eq!(i128::try_from_val(&env, &at("Amount")).unwrap(), 100_000_000);
        assert_eq!(u64::try_from_val(&env, &at("UnlockTime")).unwrap(), 3_601);
        assert!(!bool::try_from_val(&env, &at("Claimed")).unwrap());
    });
}

#[test]
fn transfer_that_the_token_refuses_undoes_the_setup() {
    let env = new_env();
    env.mock_all_auths();
    let sender = Address::generate(&env);
    let recipient = Address::generate(&env);
    let (token_id, token, token_admin) = create_token(&env, &sender);
    token_admin.mint(&sender, &99_999_999);
    let client = Client::new(&env);

    assert!(client
        .try_initialize(&sender, &recipient, &token_id, 100_000_000, 3_601)
        .is_err());
    assert_eq!(client.try_get_state(), Err(Some(EscrowError::NotInitialized)));
    assert_eq!(token.balance(&sender), 99_999_999);
}

#[test]
fn claim_of_a_fresh_contract_is_refused() {
    let env = new_env();
    env.mock_all_auths();
    let client = Client::new(&env);
    assert_eq!(client.try_claim(), Err(Some(EscrowError::NotInitialized)));
}

#[test]
fn claimed_escrow_stays_claimed() {
    let env = new_env();
    let (sender, recipient, client) = unlocked_escrow(&env);
    client.claim();
    client.extend_ttl();
    assert_eq!(
        client.try_initialize(&sender, &sender, &sender, 100_000_000, 10_000),
        Err(Some(EscrowError::AlreadyInitialized))
    );
    assert_eq!(client.try_claim(), Err(Some(EscrowError::AlreadyClaimed)));
    assert_eq!(client.get_state(), (recipient, 100_000_000, 3_601, true));
}

/// An account contract that lengthens the life of another instance while it
/// authorizes.
struct GenerousAccount {
    escrow: Address,
}

impl ContractFunctionSet for GenerousAccount {
    fn call(&self, func: &str, env: Env, _args: &[Val]) -> Option<Val> {
        if func != "__check_auth" {
            return None;
        }
        env.deployer()
            .extend_ttl_for_contract_instance(self.escrow.clone(), 200_000, 200_000);
        Some(().into_val(&env))
    }
}

#[test]
fn authorization_can_lengthen_the_life() {
    let env = new_env();
    env.mock_all_auths();
    let sender = Address::generate(&env);
    let recipient = Address::generate(&env);
    let (token_id, _, token_admin) = create_token(&env, &recipient);
    token_admin.mint(&sender, &100_000_000);
    let client = Client::new(&env);
    env.register_at(&sender, GenerousAccount { escrow: client.address.clone() }, ());

    let unlock_time: u64 = 365 * 24 * 3_600;
    env.set_auths(&[MockAuth {
        address: &sender,
        invoke: &MockAuthInvoke {
            contract: &client.address,
            fn_name: "initialize",
            args: (
                sender.clone(),
                recipient.clone(),
                token_id.clone(),
                100_000_000i128,
                unlock_time,
            )
                .into_val(&env),
            sub_invokes: &[MockAuthInvoke {
                contract: &token_id,
                fn_name: "transfer",
                args: (sender.clone(), client.address.clone(), 100_000_000i128).into_val(&env),
                sub_invokes: &[],
            }],
        },
    }
    .into()]);

    client.initialize(&sender, &recipient, &token_id, 100_000_000, unlock_time);
    // More than the threshold is left by then, so the extension does nothing.
    assert_eq!(client.ttl(), 200_000);
}

#[test]
fn setup_past_the_last_ledger_ends_the_invocation() {
    let env = new_env();
    env.mock_all_auths();
    env.ledger().with_mut(|l| l.sequence_number = 1);
    let sender = Address::generate(&env);
    let recipient = Address::generate(&env);
    let (token_id, _, token_admin) = create_token(&env, &sender);
    token_admin.mint(&sender, &100_000_000);
    let client = Client::new(&env);

    assert_eq!(
        client.try_initialize(&sender, &recipient, &token_id, 100_000_000, u64::MAX),
        Err(None)
    );
    assert_eq!(client.try_get_state(), Err(Some(EscrowError::NotInitialized)));
}

/// A token that lengthens the life of another instance while it transfers.
struct GenerousToken {
    escrow: Address,
}

impl ContractFunctionSet for GenerousToken {
    fn call(&self, func: &str, env: Env, _args: &[Val]) -> Option<Val> {
        if func != "transfer" {
            return None;
        }
        env.deployer()
            .extend_ttl_for_contract_instance(self.escrow.clone(), 200_000, 200_000);
        Some(().into_val(&env))
    }
}

#[test]
fn extension_comes_before_the_transfer() {
    let env = new_env();
    env.mock_all_auths();
    let sender = Address::generate(&env);
    let recipient = Address::generate(&env);
    let client = Client::new(&env);
    let token_id = env.register(GenerousToken { escrow: client.address.clone() }, ());

    client.initialize(&sender, &recipient, &token_id, 100_000_000, 3_601);
    // After the transfer more than the threshold would have been left.
    assert_eq!(client.ttl(), 721 + BUFFER_LEDGERS);
}

#[test]
fn token_that_cannot_be_called_ends_the_invocation() {
    let env = new_env();
    env.mock_all_auths();
    let sender = Address::generate(&env);
    let recipient = Address::generate(&env);
    let client = Client::new(&env);
    let account =
        Address::from_str(&env, "GAAAAAAAAAAAAAAAAAAAAAAAAAAAAAAAAAAAAAAAAAAAAAAAAAAAAWHF");

    for token_id in [account, client.address.clone()] {
        assert_eq!(
            client.try_initialize(&sender, &recipient, &token_id, 100_000_000, 3_601),
            Err(None)
        );
    }
    assert_eq!(client.try_get_state(), Err(Some(EscrowError::NotInitialized)));
}
