use contract::contract::Contract;
use contract::{Status, YOCTO_NEAR};

fn s(x: &str) -> String {
    x.to_string()
}

fn new_contract(wallet: &str) -> Contract<f64> {
    Contract::new(s(wallet)).unwrap()
}

/// The reward that a deposit gives under a fee, as the contract computes it.
fn reward_for(deposit: u128, fee: f64) -> f64 {
    (deposit / YOCTO_NEAR) as f64 * (1.0 - fee)
}

fn set_new_user(contract: &mut Contract<f64>, signer: &str, name: &str) {
    contract
        .set_user(&s(signer), s(name), s(name) + "discord", s(name) + "mail", 8)
        .unwrap();
}

fn add_exp(contract: &mut Contract<f64>, signer: &str, deposit: u128, fee: f64) -> u128 {
    contract
        .set_experience(
            &s(signer),
            deposit,
            reward_for(deposit, fee),
            s("exp name"),
            s("exp description"),
            s("url"),
            s("moment"),
            100,
            150,
            3,
        )
        .unwrap()
}

fn add_pov(contract: &mut Contract<f64>, wallet: &str, vid: u128) {
    contract.set_pov(&s(wallet), vid, s(wallet) + " pov", 150).unwrap();
}

#[test]
fn create_users() {
    let mut contract = new_contract("jane.testnet");
    set_new_user(&mut contract, "pepe.testnet", "pepe");
    set_new_user(&mut contract, "bob.testnet", "bob");
    assert_eq!(contract.get_list_of_users(), vec![s("pepe.testnet"), s("bob.testnet")]);
    assert_eq!(contract.get_user_discord(&s("pepe.testnet")).unwrap(), s("pepediscord"));
    assert_eq!(contract.get_user_email(&s("bob.testnet")).unwrap(), s("bobmail"));
}

#[test]
fn create_experience() {
    let mut contract = new_contract("jane.testnet");
    set_new_user(&mut contract, "pepe.testnet", "pepe");
    assert_eq!(add_exp(&mut contract, "pepe.testnet", 0, 1.0), 1);
    set_new_user(&mut contract, "bob.testnet", "bob");
    assert_eq!(add_exp(&mut contract, "bob.testnet", 0, 1.0), 2);
    assert_eq!(contract.get_exp_owner(2).unwrap(), s("bob.testnet"));
    assert_eq!(contract.get_exp_status(1).unwrap(), Status::InProcess);
}

#[test]
fn test_activate_exp() {
    let mut contract = new_contract("jane.testnet");
    let deposit = 110 * YOCTO_NEAR;
    set_new_user(&mut contract, "pepe.testnet", "pepe");
    add_exp(&mut contract, "pepe.testnet", deposit, 1.0);
    let e = contract.get_experience(1).unwrap();
    println!("{:?}", e);
    assert_eq!(e.status, Status::Active);
    assert_eq!(e.reward, Some(0.0));
    assert_eq!(e.owner, s("pepe.testnet"));
}

#[test]
fn create_pov() {
    let mut contract = new_contract("jane.testnet");
    let fee = 1.0;
    let deposit = (100.0 * fee) as u128 * YOCTO_NEAR;
    set_new_user(&mut contract, "pepe.testnet", "pepe");
    for _n in 1..10 {
        add_exp(&mut contract, "pepe.testnet", deposit, fee);
    }
    set_new_user(&mut contract, "bob.testnet", "bob");
    for n in 1..10 {
        add_exp(&mut contract, "bob.testnet", deposit, fee);
        add_pov(&mut contract, "bob.testnet", n);
    }
    assert_eq!(contract.get_number_of_experiences(), 18);
    assert_eq!(contract.get_experience(11).unwrap().owner, s("bob.testnet"));
    assert_eq!(contract.get_user_exp_pov(&s("bob.testnet")).unwrap(), (1..10).collect::<Vec<u128>>());
    assert_eq!(
        contract.get_pov_of_vid(4).unwrap(),
        vec![(s("bob.testnet"), s("bob.testnet pov"))]
    );
}

#[test]
fn test_set_exp_expire_date() {
    let mut contract = new_contract("jane.testnet");
    set_new_user(&mut contract, "pepe.testnet", "pepe");
    for _n in 1..10 {
        add_exp(&mut contract, "pepe.testnet", 0, 1.0);
    }
    contract.set_experience_expire_date(&s("pepe.testnet"), 1, 300).unwrap();
    println!("{:?}", contract.get_exp_status(1));
    println!("{:?}", contract.get_exp_by_topic(3));
    assert_eq!(contract.get_expiration_date(1).unwrap(), 300);
    assert_eq!(contract.get_exp_status(1).unwrap(), Status::InProcess);
    assert_eq!(contract.get_exp_by_topic(3).unwrap(), (1..10).collect::<Vec<u128>>());
}
