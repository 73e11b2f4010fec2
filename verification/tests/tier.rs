use std::collections::HashMap;

use ido_tier::common::Coin;
use ido_tier::error::ContractError;
use ido_tier::seqs::remove_positions;
use ido_tier::common::uscrt_fits;
use ido_tier::tier::contract::user_wf_check;
use ido_tier::tier::contract::deposit_fits_check;
use ido_tier::tier::contract::claim_fits;
use ido_tier::tier::band::{BandProtocol, ONE_USD};
use ido_tier::tier::contract::{
    deposit_amount, init, init_admin, query_user_info, query_withdrawals, try_change_admin,
    try_change_status, try_withdraw, validate_init, DepositOutcome, UNBOUND_LATENCY,
};
use ido_tier::tier::contract as tier_contract;
use ido_tier::tier::msg::{
    ContractStatus, HandleAnswer, InitMsg, QueryAnswer, ResponseStatus, SerializedWithdrawals, TierMsg,
};
use ido_tier::tier::state::{Config, UserInfo, UserWithdrawal};
use ido_tier::tier::utils::{assert_admin, check_validator, get_deposit, FixedFullDelegation, FullDelegation};

const CONTRACT: &str = "cosmos2contract";

fn coins(amount: u128, denom: &str) -> Vec<Coin> {
    vec![Coin { denom: denom.to_string(), amount }]
}

fn coin(amount: u128, denom: &str) -> Coin {
    Coin { denom: denom.to_string(), amount }
}

fn canonical(address: &str) -> Vec<u8> {
    address.as_bytes().to_vec()
}

/// The contract's storage, as the handlers read and write it.
struct Contract {
    config: Config,
    users: HashMap<Vec<u8>, UserInfo>,
    withdrawals: HashMap<Vec<u8>, Vec<UserWithdrawal>>,
    delegation: Option<FullDelegation>,
}

impl Contract {
    fn admin_human(&self) -> String {
        String::from_utf8(self.config.admin.clone()).unwrap()
    }

    fn user_info(&self, address: &str) -> UserInfo {
        match query_user_info(&self.config, self.users.get(&canonical(address)).copied()) {
            QueryAnswer::UserInfo { tier, timestamp, usd_deposit, scrt_deposit } => {
                UserInfo { tier, timestamp, usd_deposit, scrt_deposit }
            }
            _ => unreachable!(),
        }
    }

    fn get_withdrawals(&self, address: &str) -> Vec<SerializedWithdrawals> {
        let list = self.withdrawals.get(&canonical(address)).cloned().unwrap_or_default();
        match query_withdrawals(&list, None, None) {
            QueryAnswer::Withdrawals { amount, withdrawals } => {
                assert_eq!(amount as usize, withdrawals.len());
                withdrawals
            }
            _ => unreachable!(),
        }
    }

    fn deposit(
        &mut self,
        sender: &str,
        sent_funds: &[Coin],
        time: u64,
    ) -> Result<DepositOutcome, ContractError> {
        let scrt_deposit = deposit_amount(&self.config, &sent_funds.to_vec())?;
        let band = BandProtocol::new_with_value(ONE_USD / 2);
        let user = self.users.get(&canonical(sender)).copied();
        let outcome = tier_contract::try_deposit(
            &self.config,
            user,
            scrt_deposit,
            &band,
            time,
            &sender.to_string(),
            &CONTRACT.to_string(),
        )?;
        self.users.insert(canonical(sender), outcome.user_info);
        Ok(outcome)
    }

    fn withdraw(&mut self, sender: &str, time: u64) -> Result<Vec<TierMsg>, ContractError> {
        let user = self.users.get(&canonical(sender)).copied();
        let outcome = try_withdraw(&self.config, user, time)?;
        self.users.remove(&canonical(sender));
        self.withdrawals.entry(canonical(sender)).or_default().push(outcome.withdrawal);
        Ok(outcome.messages)
    }

    fn claim(
        &mut self,
        sender: &str,
        limit: Option<u32>,
        time: u64,
    ) -> Result<(u128, Vec<TierMsg>), ContractError> {
        let list = self.withdrawals.get(&canonical(sender)).cloned().unwrap_or_default();
        let outcome =
            tier_contract::try_claim(&self.config, &list, &sender.to_string(), &CONTRACT.to_string(), None, None, limit, time)?;
        let mut list = list;
        remove_positions(&mut list, &outcome.remove_positions);
        self.withdrawals.insert(canonical(sender), list);
        match outcome.answer {
            HandleAnswer::Claim { amount, status } => {
                assert_eq!(amount, outcome.amount);
                assert_eq!(status, ResponseStatus::Success);
            }
            _ => unreachable!(),
        }
        Ok((outcome.amount, outcome.messages))
    }

    fn redelegate(&mut self, sender: &str, validator: &str) -> Result<Vec<TierMsg>, ContractError> {
        let admin = self.admin_human();
        assert_admin(&sender.to_string(), &admin)?;
        let outcome =
            tier_contract::try_redelegate(&mut self.config, self.delegation.clone(), validator.to_string(), &admin, None)?;
        Ok(outcome.messages)
    }

    fn withdraw_rewards(&mut self, sender: &str) -> Result<Vec<TierMsg>, ContractError> {
        let admin = self.admin_human();
        assert_admin(&sender.to_string(), &admin)?;
        let outcome = tier_contract::try_withdraw_rewards(&self.config, self.delegation.clone(), &admin, None)?;
        Ok(outcome.messages)
    }
}

fn init_contract(msg: InitMsg, sender: &str) -> Result<Contract, ContractError> {
    validate_init(&msg)?;
    let admin = canonical(&init_admin(&msg, &sender.to_string()));
    let config = init(msg, admin)?;
    Ok(Contract { config, users: HashMap::new(), withdrawals: HashMap::new(), delegation: None })
}

fn init_msg(admin: Option<&str>, deposits: Vec<u128>) -> InitMsg {
    InitMsg {
        admin: admin.map(|a| a.to_string()),
        validator: "validator".to_string(),
        deposits,
        band_oracle: "band_oracle".to_string(),
        band_code_hash: String::new(),
    }
}

fn init_with_default() -> Contract {
    init_contract(init_msg(Some("admin"), vec![20000, 5000, 750, 100]), "admin").unwrap()
}

fn get_config(status: ContractStatus) -> Config {
    Config {
        status: status.as_u8(),
        admin: canonical("owner"),
        validator: "validator".to_string(),
        band_oracle: "band_oracle".to_string(),
        band_code_hash: String::new(),
        usd_deposits: vec![40, 30, 20, 10],
    }
}

#[test]
fn conversion() {
    // 1 USD = 0.5 SCRT
    let band_protocol = BandProtocol::new_with_value(ONE_USD / 2);
    for deposit in &[150_000_000_000u128, 2_000_000, 50, 2] {
        let usd = band_protocol.usd_amount(*deposit);
        assert_eq!(usd, deposit / 2);

        let uscrt = band_protocol.uscrt_amount(usd);
        assert_eq!(uscrt, *deposit);
    }
}

#[test]
fn conversion_rounds_down() {
    let band_protocol = BandProtocol::new_with_value(ONE_USD / 2);
    assert_eq!(band_protocol.usd_amount(3), 1);
    assert_eq!(band_protocol.uscrt_amount(1), 2);
    let third = BandProtocol::new_with_value(ONE_USD / 3);
    assert_eq!(third.usd_amount(10), 3);
    assert_eq!(third.uscrt_amount(3), 9);
}

#[test]
fn config() {
    let config = get_config(ContractStatus::Stopped);
    assert_eq!(config.assert_contract_active(), Err(ContractError::ContractNotActive));

    let config = get_config(ContractStatus::Active);
    assert!(config.assert_contract_active().is_ok());
}

#[test]
fn tier_by_deposit() {
    let config = get_config(ContractStatus::Stopped);

    assert_eq!(config.max_tier(), 1);
    assert_eq!(config.min_tier(), 5);

    assert_eq!(config.tier_by_deposit(9), 5);
    assert_eq!(config.tier_by_deposit(10), 4);
    assert_eq!(config.tier_by_deposit(19), 4);
    assert_eq!(config.tier_by_deposit(20), 3);
    assert_eq!(config.tier_by_deposit(29), 3);
    assert_eq!(config.tier_by_deposit(30), 2);
    assert_eq!(config.tier_by_deposit(39), 2);
    assert_eq!(config.tier_by_deposit(40), 1);
}

#[test]
fn deposit_by_tier() {
    let config = get_config(ContractStatus::Active);
    assert_eq!(config.deposit_by_tier(1), 40);
    assert_eq!(config.deposit_by_tier(4), 10);
}

#[test]
fn contract_status_codes() {
    assert_eq!(ContractStatus::from(0), ContractStatus::Active);
    assert_eq!(ContractStatus::from(1), ContractStatus::Stopped);
    assert_eq!(ContractStatus::Stopped.as_u8(), 1);
}

#[test]
fn initialization() {
    let validator = "secretvaloper1l92u46n0d33mhkknwm7zpg0twlqqxg826990re";
    let deposits = vec![20000u128, 5000, 750, 100];

    // Wrong order
    let mut msg = init_msg(Some("admin"), vec![20000, 750, 5000, 100]);
    msg.validator = validator.to_string();
    let error = init_contract(msg, "admin").err().unwrap();
    assert_eq!(error, ContractError::DepositsNotDecreasing);

    // Zero elements in deposits
    let mut msg = init_msg(Some("admin"), vec![]);
    msg.validator = validator.to_string();
    let error = init_contract(msg, "admin").err().unwrap();
    assert_eq!(error, ContractError::DepositsEmpty);

    // Init with sender
    let mut msg = init_msg(None, deposits.clone());
    msg.validator = validator.to_string();
    let contract = init_contract(msg, "admin").unwrap();
    let config = &contract.config;
    assert_eq!(config.admin, canonical("admin"));
    assert_eq!(config.validator, validator);
    assert_eq!(config.status, ContractStatus::Active.as_u8());
    assert_eq!(config.usd_deposits, deposits);
    match config.to_answer("admin".to_string()) {
        QueryAnswer::Config { admin, validator: v, status, usd_deposits, min_tier, .. } => {
            assert_eq!(admin, "admin");
            assert_eq!(v, validator);
            assert_eq!(status, ContractStatus::Active);
            assert_eq!(usd_deposits, deposits);
            assert_eq!(min_tier, 5);
        }
        _ => unreachable!(),
    }

    // Init with custom admin
    let mut msg = init_msg(Some("alice"), deposits);
    msg.validator = validator.to_string();
    let contract = init_contract(msg, "admin").unwrap();
    assert_eq!(contract.config.admin, canonical("alice"));
    assert_eq!(contract.config.validator, validator);
}

#[test]
fn contract_change_admin() {
    let mut contract = init_with_default();
    let admin = contract.admin_human();

    assert_eq!(assert_admin(&"alice".to_string(), &admin), Err(ContractError::Unauthorized));

    assert!(assert_admin(&"admin".to_string(), &admin).is_ok());
    let answer = try_change_admin(&mut contract.config, canonical("new_admin"));
    assert_eq!(answer, HandleAnswer::ChangeAdmin { status: ResponseStatus::Success });
    assert_eq!(contract.config.admin, canonical("new_admin"));
}

#[test]
fn contract_change_status() {
    let mut contract = init_with_default();
    let admin = contract.admin_human();

    assert_eq!(assert_admin(&"alice".to_string(), &admin), Err(ContractError::Unauthorized));

    try_change_status(&mut contract.config, ContractStatus::Stopped);
    assert_eq!(contract.config.status, ContractStatus::Stopped.as_u8());

    try_change_status(&mut contract.config, ContractStatus::Active);
    assert_eq!(contract.config.status, ContractStatus::Active.as_u8());
}

#[test]
fn deposit() {
    let mut contract = init_with_default();
    let alice = "alice";

    let alice_info = contract.user_info(alice);
    assert_eq!(alice_info.scrt_deposit, 0);
    assert_eq!(alice_info.usd_deposit, 0);
    assert_eq!(alice_info.timestamp, 0);
    assert_eq!(alice_info.tier, 5);

    let mut time = 1_700_000_000u64;

    let error = contract.deposit(alice, &coins(99, "uscrt"), time).err().unwrap();
    assert_eq!(error, ContractError::DepositTooSmall { usd: 100, uscrt: 200 });

    let error = contract.deposit(alice, &coins(100, "ust"), time).err().unwrap();
    assert_eq!(error, ContractError::UnsupportedToken);

    // 1 SCRT = 0.5 USD
    let response = contract.deposit(alice, &coins(200, "uscrt"), time).unwrap();
    assert_eq!(
        response.answer,
        HandleAnswer::Deposit {
            usd_deposit: 100,
            scrt_deposit: 200,
            tier: 4,
            status: ResponseStatus::Success
        }
    );
    assert_eq!(
        response.messages,
        vec![TierMsg::Delegate { validator: "validator".to_string(), amount: 200 }]
    );

    let alice_info = contract.user_info(alice);
    assert_eq!(alice_info.scrt_deposit, 200);
    assert_eq!(alice_info.usd_deposit, 100);
    assert_eq!(alice_info.tier, 4);
    assert_eq!(alice_info.timestamp, time);

    time += 100;
    let error = contract.deposit(alice, &coins(1299, "uscrt"), time).err().unwrap();
    assert_eq!(error, ContractError::DepositTooSmall { usd: 650, uscrt: 1300 });

    let response = contract.deposit(alice, &coins(10_000, "uscrt"), time).unwrap();
    assert_eq!(
        response.answer,
        HandleAnswer::Deposit {
            usd_deposit: 5000,
            scrt_deposit: 10000,
            tier: 2,
            status: ResponseStatus::Success
        }
    );
    assert_eq!(
        response.messages,
        vec![
            TierMsg::BankSend {
                from_address: CONTRACT.to_string(),
                to_address: alice.to_string(),
                amount: 200
            },
            TierMsg::Delegate { validator: "validator".to_string(), amount: 9800 },
        ]
    );

    let alice_info = contract.user_info(alice);
    assert_eq!(alice_info.scrt_deposit, 10000);
    assert_eq!(alice_info.usd_deposit, 5000);
    assert_eq!(alice_info.tier, 2);
    assert_eq!(alice_info.timestamp, time);

    time += 100;
    let error = contract.deposit(alice, &coins(20000, "uscrt"), time).err().unwrap();
    assert_eq!(error, ContractError::DepositTooSmall { usd: 15000, uscrt: 30000 });

    let response = contract.deposit(alice, &coins(100000, "uscrt"), time).unwrap();
    assert_eq!(
        response.answer,
        HandleAnswer::Deposit {
            usd_deposit: 20000,
            scrt_deposit: 40000,
            tier: 1,
            status: ResponseStatus::Success
        }
    );
    assert_eq!(
        response.messages,
        vec![
            TierMsg::BankSend {
                from_address: CONTRACT.to_string(),
                to_address: alice.to_string(),
                amount: 70000
            },
            TierMsg::Delegate { validator: "validator".to_string(), amount: 30000 },
        ]
    );

    let alice_info = contract.user_info(alice);
    assert_eq!(alice_info.scrt_deposit, 40000);
    assert_eq!(alice_info.usd_deposit, 20000);
    assert_eq!(alice_info.tier, 1);
    assert_eq!(alice_info.timestamp, time);

    let error = contract.deposit(alice, &coins(100000, "uscrt"), time).err().unwrap();
    assert_eq!(error, ContractError::ReachedMaxTier);
}

#[test]
fn deposit_zero_and_stopped() {
    let mut contract = init_with_default();
    assert_eq!(contract.deposit("alice", &[], 1).err().unwrap(), ContractError::DepositZero);
    try_change_status(&mut contract.config, ContractStatus::Stopped);
    assert_eq!(
        contract.deposit("alice", &coins(200, "uscrt"), 1).err().unwrap(),
        ContractError::ContractNotActive
    );
}

#[test]
fn deposit_sums_several_coins() {
    let funds = vec![coin(100, "uscrt"), coin(50, "uscrt")];
    assert_eq!(get_deposit(&funds), Ok(150));
    let funds = vec![coin(100, "uscrt"), coin(50, "ust")];
    assert_eq!(get_deposit(&funds), Err(ContractError::UnsupportedToken));
}

#[test]
fn contract_withdraw() {
    let mut contract = init_with_default();
    let alice = "alice";
    let time = 1_700_000_000u64;

    contract.deposit(alice, &coins(1500, "uscrt"), time).unwrap();

    let alice_info = contract.user_info(alice);
    assert_eq!(alice_info.tier, 3);
    assert_eq!(alice_info.usd_deposit, 750);
    assert_eq!(alice_info.scrt_deposit, 1500);
    assert_eq!(alice_info.timestamp, time);

    let messages = contract.withdraw(alice, time).unwrap();
    assert_eq!(
        messages,
        vec![TierMsg::Undelegate { validator: "validator".to_string(), amount: 1500 }]
    );
    let alice_info = contract.user_info(alice);
    assert_eq!(alice_info.tier, 5);
    assert_eq!(alice_info.usd_deposit, 0);
    assert_eq!(alice_info.scrt_deposit, 0);
    assert_eq!(alice_info.timestamp, 0);

    let withdrawals = contract.get_withdrawals(alice);
    let claim_time = time + UNBOUND_LATENCY;

    assert_eq!(withdrawals.len(), 1);
    assert_eq!(withdrawals[0].amount, 1500);
    assert_eq!(withdrawals[0].timestamp, time);
    assert_eq!(withdrawals[0].claim_time, claim_time);

    // Withdraw tokens twice
    let error = contract.withdraw(alice, time).err().unwrap();
    assert_eq!(error, ContractError::NotFound);

    // Deposit tokens during withdrawal
    let old_block_time = time;
    let old_claim_time = claim_time;
    let time = old_block_time + 1000;

    contract.deposit(alice, &coins(50000, "uscrt"), time).unwrap();

    let alice_info = contract.user_info(alice);
    assert_eq!(alice_info.tier, 1);
    assert_eq!(alice_info.usd_deposit, 20000);
    assert_eq!(alice_info.scrt_deposit, 40000);
    assert_eq!(alice_info.timestamp, time);

    contract.withdraw(alice, time).unwrap();
    let withdrawals = contract.get_withdrawals(alice);
    let claim_time = time + UNBOUND_LATENCY;

    assert_eq!(withdrawals.len(), 2);
    assert_eq!(withdrawals[0].amount, 1500);
    assert_eq!(withdrawals[0].timestamp, old_block_time);
    assert_eq!(withdrawals[0].claim_time, old_claim_time);
    assert_eq!(withdrawals[1].amount, 40000);
    assert_eq!(withdrawals[1].timestamp, time);
    assert_eq!(withdrawals[1].claim_time, claim_time);
}

#[test]
fn claim() {
    let mut contract = init_with_default();
    let alice = "alice";
    let mut time = 1_700_000_000u64;

    // Deposit some tokens
    let deposit = 750 * 2;
    contract.deposit(alice, &coins(deposit, "uscrt"), time).unwrap();

    let day = 24 * 60 * 60;
    time += 5 * day;
    contract.withdraw(alice, time).unwrap();

    let withdrawals = contract.get_withdrawals(alice);
    let claim_time = time + 21 * day;

    assert_eq!(withdrawals.len(), 1);
    assert_eq!(withdrawals[0].amount, 1500);
    assert_eq!(withdrawals[0].timestamp, time);
    assert_eq!(withdrawals[0].claim_time, claim_time);

    // Try to claim without waiting for unbond period
    let (amount, messages) = contract.claim(alice, None, time).unwrap();
    assert_eq!(messages.len(), 0);
    assert_eq!(amount, 0);

    time += 21 * day;
    let (amount, messages) = contract.claim(alice, None, time).unwrap();
    assert_eq!(amount, deposit);

    let withdrawals = contract.get_withdrawals(alice);
    assert_eq!(withdrawals.len(), 0);

    assert_eq!(
        messages,
        vec![TierMsg::BankSend {
            from_address: CONTRACT.to_string(),
            to_address: alice.to_string(),
            amount: deposit
        }]
    );

    // nothing pending any more
    let error = contract.claim(alice, None, time).err().unwrap();
    assert_eq!(error, ContractError::NothingToWithdraw);
}

/// A small deterministic generator for varied inputs.
struct Lcg(u64);

impl Lcg {
    fn next(&mut self, bound: u64) -> u64 {
        self.0 = self.0.wrapping_mul(6364136223846793005).wrapping_add(1442695040888963407);
        (self.0 >> 33) % bound
    }
}

#[test]
fn claim_multiple_withdrawals() {
    let mut contract = init_with_default();
    let alice = "alice";

    let amount = 100;
    let claim_before = 500;
    let mut rng = Lcg(7);

    let mut claim_amount = 0u128;
    let mut total_amount = 0u128;
    let mut list = Vec::new();
    for _ in 0..amount {
        let amount = rng.next(1000) as u128;
        let claim_time = rng.next(1000);

        total_amount += amount;
        if claim_time <= claim_before {
            claim_amount += amount;
        }

        list.push(UserWithdrawal { amount, claim_time, timestamp: 0 });
    }
    contract.withdrawals.insert(canonical(alice), list);

    let (claimed, _) = contract.claim(alice, Some(amount), claim_before).unwrap();
    assert_eq!(claimed, claim_amount);

    let (claimed, _) = contract.claim(alice, Some(amount), 1000).unwrap();
    assert_eq!(claimed, total_amount - claim_amount);

    assert_eq!(contract.withdrawals.get(&canonical(alice)).unwrap().len(), 0);
}

#[test]
fn claim_keeps_pending_in_order() {
    let config = get_config(ContractStatus::Active);
    let list = vec![
        UserWithdrawal { amount: 1, claim_time: 10, timestamp: 0 },
        UserWithdrawal { amount: 2, claim_time: 30, timestamp: 0 },
        UserWithdrawal { amount: 4, claim_time: 5, timestamp: 0 },
        UserWithdrawal { amount: 8, claim_time: 40, timestamp: 0 },
    ];
    let outcome = tier_contract::try_claim(
        &config,
        &list,
        &"alice".to_string(),
        &CONTRACT.to_string(),
        Some("bob".to_string()),
        None,
        None,
        20,
    )
    .unwrap();
    assert_eq!(outcome.amount, 5);
    assert_eq!(outcome.remove_positions, vec![0, 1]);
    assert_eq!(
        outcome.messages,
        vec![TierMsg::BankSend {
            from_address: CONTRACT.to_string(),
            to_address: "bob".to_string(),
            amount: 5
        }]
    );
    let mut left = list.clone();
    let taken = remove_positions(&mut left, &outcome.remove_positions);
    assert_eq!(left, vec![list[1], list[3]]);
    assert_eq!(taken, vec![list[0], list[2]]);
}

#[test]
fn redelegate() {
    let mut contract = init_with_default();
    let admin = "admin";
    let alice = "alice";
    let validator = "validator";
    let new_validator = "new_validator";

    // Alice calls redelegate
    let error = contract.redelegate(alice, new_validator).err().unwrap();
    assert_eq!(error, ContractError::Unauthorized);

    let delegated_amount = 1000000;
    let accumulated_rewards = 10000;

    // Redelegate without deposit
    let messages = contract.redelegate(admin, new_validator).unwrap();
    assert!(messages.is_empty());
    assert_eq!(contract.config.validator, new_validator);

    let messages = contract.redelegate(admin, validator).unwrap();
    assert!(messages.is_empty());
    assert_eq!(contract.config.validator, validator);

    // Redelegate to itself
    let error = contract.redelegate(admin, validator).err().unwrap();
    assert_eq!(error, ContractError::SameValidator);

    // Can redelegate = 0
    let mut delegation = FullDelegation {
        delegator: CONTRACT.to_string(),
        validator: validator.to_string(),
        amount: coin(delegated_amount, "uscrt"),
        accumulated_rewards: coin(accumulated_rewards, "uscrt"),
        can_redelegate: coin(0, "uscrt"),
    };
    contract.delegation = Some(delegation.clone());

    let error = contract.redelegate(admin, new_validator).err().unwrap();
    assert_eq!(error, ContractError::CannotRedelegateFull);

    // Can redelegate != delegated_amount
    delegation.can_redelegate = coin(500, "uscrt");
    contract.delegation = Some(delegation.clone());
    let error = contract.redelegate(admin, new_validator).err().unwrap();
    assert_eq!(error, ContractError::CannotRedelegateFull);
    assert_eq!(contract.config.validator, validator);

    // Can redelegate full amount
    delegation.can_redelegate = coin(delegated_amount, "uscrt");
    contract.delegation = Some(delegation);

    let messages = contract.redelegate(admin, new_validator).unwrap();
    assert_eq!(messages.len(), 2);
    assert_eq!(
        messages[0],
        TierMsg::Withdraw { validator: validator.to_string(), recipient: Some(admin.to_string()) }
    );
    assert_eq!(
        messages[1],
        TierMsg::Redelegate {
            src_validator: validator.to_string(),
            dst_validator: new_validator.to_string(),
            amount: delegated_amount,
        }
    );
    assert_eq!(contract.config.validator, new_validator);
}

#[test]
fn withdraw_rewards() {
    let mut contract = init_with_default();
    let admin = "admin";
    let alice = "alice";
    let validator = "validator";

    // Nothing to withdraw
    let error = contract.withdraw_rewards(admin).err().unwrap();
    assert_eq!(error, ContractError::NoRewards);

    let mut delegation = FullDelegation {
        delegator: CONTRACT.to_string(),
        validator: validator.to_string(),
        amount: coin(0, "uscrt"),
        accumulated_rewards: coin(0, "uscrt"),
        can_redelegate: coin(0, "uscrt"),
    };
    contract.delegation = Some(delegation.clone());

    // Alice tries to withdraw
    let error = contract.withdraw_rewards(alice).err().unwrap();
    assert_eq!(error, ContractError::Unauthorized);

    // Nothing to withdraw
    let error = contract.withdraw_rewards(admin).err().unwrap();
    assert_eq!(error, ContractError::NoRewards);

    delegation.accumulated_rewards = coin(1, "uscrt");
    contract.delegation = Some(delegation);

    let messages = contract.withdraw_rewards(admin).unwrap();
    assert_eq!(
        messages,
        vec![TierMsg::Withdraw {
            validator: validator.to_string(),
            recipient: Some(admin.to_string())
        }]
    );
}

#[test]
fn delegation_keeps_uscrt_rewards() {
    let fixed = FixedFullDelegation {
        delegator: CONTRACT.to_string(),
        validator: "validator".to_string(),
        amount: coin(10, "uscrt"),
        can_redelegate: coin(10, "uscrt"),
        accumulated_rewards: vec![coin(3, "ust"), coin(7, "uscrt"), coin(9, "uscrt")],
    };
    let full = FullDelegation::from(fixed.clone());
    assert_eq!(full.accumulated_rewards, coin(7, "uscrt"));

    let mut none = fixed;
    none.accumulated_rewards = vec![coin(3, "ust")];
    let full = FullDelegation::from(none);
    assert_eq!(full.accumulated_rewards, coin(0, "uscrt"));
}

#[test]
fn validators_are_checked() {
    let validators = vec!["a".to_string(), "b".to_string()];
    assert!(check_validator(&validators, &"b".to_string()).is_ok());
    assert_eq!(
        check_validator(&validators, &"c".to_string()),
        Err(ContractError::ValidatorNotFound("c".to_string()))
    );
}

#[test]
fn withdrawals_are_paged() {
    let list: Vec<UserWithdrawal> = (0..5)
        .map(|i| UserWithdrawal { amount: i, claim_time: 0, timestamp: 0 })
        .collect();
    match query_withdrawals(&list, Some(1), Some(2)) {
        QueryAnswer::Withdrawals { amount, withdrawals } => {
            assert_eq!(amount, 5);
            assert_eq!(withdrawals.iter().map(|w| w.amount).collect::<Vec<_>>(), vec![2, 3]);
        }
        _ => unreachable!(),
    }
}

#[test]
fn uscrt_sums_that_fit() {
    assert!(uscrt_fits(&Vec::new()));
    assert!(uscrt_fits(&vec![coin(u128::MAX, "uscrt")]));
    assert!(!uscrt_fits(&vec![coin(u128::MAX, "uscrt"), coin(1, "uscrt")]));
    // summing stops at the first coin of another denomination
    assert!(uscrt_fits(&vec![coin(u128::MAX, "uscrt"), coin(1, "uatom"), coin(1, "uscrt")]));
}

#[test]
fn configurations_and_users_in_agreement() {
    let config = init_with_default().config;
    assert!(config.is_wf());

    let mut empty = config.clone();
    empty.usd_deposits = Vec::new();
    assert!(!empty.is_wf());
    let mut unsorted = config.clone();
    unsorted.usd_deposits = vec![100, 750];
    assert!(!unsorted.is_wf());
    let mut too_many = config.clone();
    too_many.usd_deposits = (0..255u128).rev().map(|d| d + 1).collect();
    assert!(!too_many.is_wf());
    let mut bad_status = config.clone();
    bad_status.status = 2;
    assert!(!bad_status.is_wf());

    let user = |tier: u8, usd_deposit: u128| UserInfo { tier, timestamp: 0, usd_deposit, scrt_deposit: 0 };
    assert!(user_wf_check(&config, &user(5, 0)));
    assert!(user_wf_check(&config, &user(3, 750)));
    assert!(!user_wf_check(&config, &user(3, 700)));
    assert!(!user_wf_check(&config, &user(6, 0)));
}

#[test]
fn deposits_that_fit() {
    let config = init_with_default().config;
    let band = BandProtocol::new_with_value(ONE_USD / 2);
    assert_eq!(band.scrt_per_usd(), ONE_USD / 2);
    assert!(deposit_fits_check(&config, None, 2000, &band));
    // the USD value of the deposit overflows
    assert!(!deposit_fits_check(&config, None, u128::MAX, &band));
    // without a rate no tier is reached and nothing can be converted back
    let zero = BandProtocol::new_with_value(0);
    assert!(!deposit_fits_check(&config, None, 2000, &zero));
    // a user in the best tier is refused, whatever the rate
    let best = UserInfo { tier: 1, timestamp: 0, usd_deposit: 20000, scrt_deposit: 40000 };
    assert!(deposit_fits_check(&config, Some(best), 2000, &zero));
}

#[test]
fn claims_that_fit() {
    let due = UserWithdrawal { amount: u128::MAX, claim_time: 10, timestamp: 0 };
    let later = UserWithdrawal { amount: u128::MAX, claim_time: 100, timestamp: 0 };
    assert!(claim_fits(&vec![due], None, None, 50));
    assert!(!claim_fits(&vec![due, due], None, None, 50));
    assert!(claim_fits(&vec![due, later], None, None, 50));
    assert!(claim_fits(&vec![due, due], Some(1), None, 50));
    assert!(claim_fits(&vec![due, due], None, Some(1), 50));
}
