use contract::contract::Contract;
use contract::{ContractError, Status, YOCTO_NEAR};

fn s(x: &str) -> String {
    x.to_string()
}

fn setup() -> Contract<u64> {
    let mut c: Contract<u64> = Contract::new(s("jane.testnet")).unwrap();
    c.set_user(&s("pepe.testnet"), s("pepe"), s("pd"), s("pm"), 1).unwrap();
    c.set_user(&s("bob.testnet"), s("bob"), s("bd"), s("bm"), 2).unwrap();
    // 1: in process, owned by pepe
    c.set_experience(&s("pepe.testnet"), 0, 0, s("t1"), s("d1"), s("u1"), s("m1"), 1, 10, 3).unwrap();
    // 2: active, owned by pepe, holding 7
    c.set_experience(&s("pepe.testnet"), 2 * YOCTO_NEAR, 7, s("t2"), s("d2"), s("u2"), s("m2"), 2, 20, 4).unwrap();
    c
}

#[test]
fn invalid_wallet_is_refused() {
    assert_eq!(Contract::<u64>::new(s("Not Valid!")).err(), Some(ContractError::InvalidAccount));
    assert_eq!(Contract::<u64>::new(s("a")).err(), Some(ContractError::InvalidAccount));
    assert_eq!(Contract::<u64>::new(s("a..b")).err(), Some(ContractError::InvalidAccount));
    assert_eq!(Contract::<u64>::new(s("-ab")).err(), Some(ContractError::InvalidAccount));
    assert!(Contract::<u64>::new(s("a-b_c.near")).is_ok());
}

#[test]
fn second_registration_is_refused() {
    let mut c = setup();
    assert_eq!(
        c.set_user(&s("pepe.testnet"), s("x"), s("y"), s("z"), 0),
        Err(ContractError::UserAlreadyExists)
    );
    assert_eq!(c.get_user_name(&s("pepe.testnet")).unwrap(), s("pepe"));
}

#[test]
fn unknown_user_is_refused() {
    let mut c = setup();
    let ghost = s("ghost.testnet");
    assert_eq!(
        c.set_experience(&ghost, 0, 0, s("t"), s("d"), s("u"), s("m"), 0, 0, 0),
        Err(ContractError::UserNotFound)
    );
    assert_eq!(c.set_user_name(&ghost, s("n")), Err(ContractError::UserNotFound));
    assert_eq!(c.set_user_discord(&ghost, s("n")), Err(ContractError::UserNotFound));
    assert_eq!(c.set_user_email(&ghost, s("n")), Err(ContractError::UserNotFound));
    assert_eq!(c.set_user_interests(&ghost, 9), Err(ContractError::UserNotFound));
    assert_eq!(c.get_user(&ghost).err(), Some(ContractError::UserNotFound));
    assert_eq!(c.set_pov(&ghost, 2, s("p"), 0), Err(ContractError::UserNotFound));
    assert_eq!(c.get_number_of_experiences(), 2);
}

#[test]
fn small_deposit_is_refused() {
    let mut c = setup();
    assert_eq!(
        c.set_experience(&s("bob.testnet"), YOCTO_NEAR - 1, 0, s("t"), s("d"), s("u"), s("m"), 0, 0, 0),
        Err(ContractError::WrongDepositAmount)
    );
    assert_eq!(c.get_number_of_experiences(), 2);
    assert_eq!(
        c.activate_experience(&s("pepe.testnet"), 1, YOCTO_NEAR - 1, 5),
        Err(ContractError::NotEnoughTokens)
    );
    assert_eq!(c.get_exp_status(1).unwrap(), Status::InProcess);
}

#[test]
fn missing_experience_is_refused() {
    let mut c = setup();
    let pepe = s("pepe.testnet");
    assert_eq!(c.get_experience(9).err(), Some(ContractError::ExperienceNotFound));
    assert_eq!(c.get_title(9).err(), Some(ContractError::ExperienceNotFound));
    assert_eq!(c.get_winner(9).err(), Some(ContractError::ExperienceNotFound));
    assert_eq!(c.set_moment_comment(&pepe, 9, s("c")), Err(ContractError::ExperienceNotFound));
    assert_eq!(c.pay_reward(&pepe, 9, &s("bob.testnet")), Err(ContractError::ExperienceNotFound));
    assert_eq!(c.activate_experience(&pepe, 9, YOCTO_NEAR, 1), Err(ContractError::ExperienceNotFound));
    assert_eq!(c.delete_experience(&pepe, 9), Err(ContractError::ExperienceNotFound));
    assert_eq!(c.get_exp_by_topic(200).err(), Some(ContractError::TopicNotFound));
}

#[test]
fn only_the_owner_may_change_an_experience() {
    let mut c = setup();
    let bob = s("bob.testnet");
    assert_eq!(c.set_moment_comment(&bob, 1, s("c")), Err(ContractError::NotExperienceOwner));
    assert_eq!(c.set_moment_time(&bob, 1, 5), Err(ContractError::NotExperienceOwner));
    assert_eq!(c.set_experience_description(&bob, 1, s("d")), Err(ContractError::NotExperienceOwner));
    assert_eq!(c.set_experience_expire_date(&bob, 1, 5), Err(ContractError::NotExperienceOwner));
    assert_eq!(c.activate_experience(&bob, 1, YOCTO_NEAR, 3), Err(ContractError::NotExperienceOwner));
    assert_eq!(c.delete_experience(&bob, 1), Err(ContractError::NotExperienceOwner));
    assert_eq!(c.pay_reward(&bob, 2, &bob), Err(ContractError::NotExperienceOwner));
    assert_eq!(c.get_moment_coment(1).unwrap(), s("m1"));
}

#[test]
fn status_rules_are_enforced() {
    let mut c = setup();
    let pepe = s("pepe.testnet");
    let bob = s("bob.testnet");
    assert_eq!(c.set_experience_expire_date(&pepe, 2, 5), Err(ContractError::NotInProcess));
    assert_eq!(c.activate_experience(&pepe, 2, YOCTO_NEAR, 3), Err(ContractError::AlreadyActivated));
    assert_eq!(c.set_pov(&bob, 1, s("p"), 0), Err(ContractError::StatusMismatch(Status::Active)));
    assert_eq!(c.delete_experience(&pepe, 2), Err(ContractError::StatusMismatch(Status::InProcess)));
    assert_eq!(c.pay_reward(&pepe, 1, &bob), Err(ContractError::NotActive));
    assert_eq!(c.delete_pov(&bob, 1), Err(ContractError::StatusMismatch(Status::Active)));
}

#[test]
fn pov_rules_are_enforced() {
    let mut c = setup();
    let pepe = s("pepe.testnet");
    let bob = s("bob.testnet");
    assert_eq!(c.set_pov(&pepe, 2, s("mine"), 0), Err(ContractError::OwnExperiencePov));
    assert_eq!(c.pay_reward(&pepe, 2, &bob), Err(ContractError::NoPovFromWinner));
    c.set_pov(&bob, 2, s("nice"), 33).unwrap();
    assert_eq!(c.set_pov(&bob, 2, s("again"), 0), Err(ContractError::PovAlreadyGiven));
    assert_eq!(c.delete_pov(&bob, 2), Err(ContractError::PovStillGiven));
    assert_eq!(c.get_user_date(&bob).unwrap(), 33);
}

#[test]
fn fee_change_needs_the_contract_account() {
    assert_eq!(
        Contract::<u64>::authorize_fee_change(&s("bob.testnet"), &s("jane.testnet")),
        Err(ContractError::NotContractOwner)
    );
    assert_eq!(Contract::<u64>::authorize_fee_change(&s("jane.testnet"), &s("jane.testnet")), Ok(()));
}
