use contract::contract::Contract;
use contract::{ContractError, Status, User, YOCTO_NEAR};

fn s(x: &str) -> String {
    x.to_string()
}

fn setup() -> Contract<u64> {
    let mut c: Contract<u64> = Contract::new(s("jane.testnet")).unwrap();
    c.set_user(&s("pepe.testnet"), s("pepe"), s("pd"), s("pm"), 1).unwrap();
    c.set_user(&s("bob.testnet"), s("bob"), s("bd"), s("bm"), 2).unwrap();
    c
}

#[test]
fn profile_changes_read_back() {
    let mut c = setup();
    let pepe = s("pepe.testnet");
    c.set_user_name(&pepe, s("Pepe")).unwrap();
    c.set_user_discord(&pepe, s("pepe#1")).unwrap();
    c.set_user_email(&pepe, s("pepe@x")).unwrap();
    c.set_user_interests(&pepe, 42).unwrap();
    assert_eq!(
        c.get_user(&pepe).unwrap(),
        User {
            name: s("Pepe"),
            discord: s("pepe#1"),
            email: s("pepe@x"),
            interests: 42,
            my_exp: vec![],
            pov_exp: vec![],
            date: 0,
        }
    );
    assert_eq!(c.get_user_name(&s("bob.testnet")).unwrap(), s("bob"));
    assert_eq!(c.get_user_interests(&pepe).unwrap(), 42);
}

#[test]
fn experience_details_read_back() {
    let mut c = setup();
    let pepe = s("pepe.testnet");
    let n = c.set_experience(&pepe, 0, 0, s("t"), s("d"), s("u"), s("m"), 1, 2, 7).unwrap();
    c.set_moment_comment(&pepe, n, s("new moment")).unwrap();
    c.set_moment_time(&pepe, n, 77).unwrap();
    c.set_experience_description(&pepe, n, s("new description")).unwrap();
    c.set_experience_expire_date(&pepe, n, -5).unwrap();
    assert_eq!(c.get_moment_coment(n).unwrap(), s("new moment"));
    assert_eq!(c.get_moment_time(n).unwrap(), 77);
    assert_eq!(c.get_exp_description(n).unwrap(), s("new description"));
    assert_eq!(c.get_expiration_date(n).unwrap(), -5);
    assert_eq!(c.get_title(n).unwrap(), s("t"));
    assert_eq!(c.get_url(n).unwrap(), s("u"));
    assert_eq!(c.get_topic(n).unwrap(), 7);
    assert_eq!(c.get_user_exp(&pepe).unwrap(), vec![n]);
}

#[test]
fn publication_is_funded_exactly_with_a_deposit() {
    let mut c = setup();
    let pepe = s("pepe.testnet");
    let a = c.set_experience(&pepe, 0, 99, s("t"), s("d"), s("u"), s("m"), 1, 2, 7).unwrap();
    let b = c.set_experience(&pepe, 3 * YOCTO_NEAR, 99, s("t"), s("d"), s("u"), s("m"), 1, 2, 7).unwrap();
    assert_eq!((a, b), (1, 2));
    assert_eq!(c.get_reward(a).unwrap(), None);
    assert_eq!(c.get_exp_status(a).unwrap(), Status::InProcess);
    assert_eq!(c.get_reward(b).unwrap(), Some(99));
    assert_eq!(c.get_exp_status(b).unwrap(), Status::Active);
    c.activate_experience(&pepe, a, YOCTO_NEAR, 12).unwrap();
    assert_eq!(c.get_reward(a).unwrap(), Some(12));
    assert_eq!(c.get_exp_status(a).unwrap(), Status::Active);
}

#[test]
fn paying_closes_and_releases_the_reward() {
    let mut c = setup();
    let pepe = s("pepe.testnet");
    let bob = s("bob.testnet");
    let n = c.set_experience(&pepe, YOCTO_NEAR, 5, s("t"), s("d"), s("u"), s("m"), 1, 2, 7).unwrap();
    c.set_pov(&bob, n, s("pov"), 1).unwrap();
    assert_eq!(c.get_winner(n).unwrap(), s(""));
    assert_eq!(c.pay_reward(&pepe, n, &bob), Ok(Some(5)));
    assert_eq!(c.get_exp_status(n).unwrap(), Status::Closed);
    assert_eq!(c.get_reward(n).unwrap(), None);
    assert_eq!(c.get_winner(n).unwrap(), bob);
    // A closed experience does not go back.
    assert_eq!(c.activate_experience(&pepe, n, YOCTO_NEAR, 1), Err(ContractError::AlreadyActivated));
    assert_eq!(c.pay_reward(&pepe, n, &bob), Err(ContractError::NotActive));
}

#[test]
fn deleted_numbers_are_not_given_again() {
    let mut c = setup();
    let pepe = s("pepe.testnet");
    let n = c.set_experience(&pepe, 0, 0, s("t"), s("d"), s("u"), s("m"), 1, 2, 7).unwrap();
    c.delete_experience(&pepe, n).unwrap();
    assert_eq!(c.get_experience(n).err(), Some(ContractError::ExperienceNotFound));
    let m = c.set_experience(&pepe, 0, 0, s("t"), s("d"), s("u"), s("m"), 1, 2, 7).unwrap();
    assert_eq!(m, n + 1);
    // The deleted number stays in the owner's list and under the topic.
    assert_eq!(c.get_user_exp(&pepe).unwrap(), vec![n, m]);
    assert_eq!(c.get_exp_by_topic(7).unwrap(), vec![n, m]);
}

#[test]
fn withdrawing_a_pov_is_always_refused() {
    let mut c = setup();
    let pepe = s("pepe.testnet");
    let bob = s("bob.testnet");
    let n = c.set_experience(&pepe, YOCTO_NEAR, 1, s("t"), s("d"), s("u"), s("m"), 1, 2, 7).unwrap();
    assert_eq!(c.delete_pov(&bob, n), Err(ContractError::MissingFromUserList));
    c.set_pov(&bob, n, s("pov"), 1).unwrap();
    assert_eq!(c.delete_pov(&bob, n), Err(ContractError::PovStillGiven));
    assert_eq!(c.get_pov_of_vid(n).unwrap(), vec![(bob.clone(), s("pov"))]);
}

#[test]
fn users_stay_in_registration_order() {
    let mut c = setup();
    c.set_user(&s("zed.testnet"), s("z"), s("z"), s("z"), 0).unwrap();
    c.set_user_name(&s("bob.testnet"), s("B")).unwrap();
    assert_eq!(
        c.get_list_of_users(),
        vec![s("pepe.testnet"), s("bob.testnet"), s("zed.testnet")]
    );
}

#[test]
fn winner_is_empty_until_payment() {
    let mut c = setup();
    let pepe = s("pepe.testnet");
    let bob = s("bob.testnet");
    let n = c.set_experience(&pepe, YOCTO_NEAR, 3, s("t"), s("d"), s("u"), s("m"), 1, 2, 7).unwrap();
    assert_eq!(c.get_winner(n).unwrap(), s(""));
    c.set_pov(&bob, n, s("pov"), 1).unwrap();
    c.set_moment_comment(&pepe, n, s("x")).unwrap();
    assert_eq!(c.get_winner(n).unwrap(), s(""));
    c.pay_reward(&pepe, n, &bob).unwrap();
    assert_eq!(c.get_winner(n).unwrap(), bob);
    c.set_moment_comment(&pepe, n, s("y")).unwrap();
    assert_eq!(c.get_winner(n).unwrap(), bob);
    assert_eq!(c.pay_reward(&pepe, n, &pepe), Err(ContractError::NotActive));
}

#[test]
fn a_pov_is_listed_once() {
    let mut c = setup();
    let pepe = s("pepe.testnet");
    let bob = s("bob.testnet");
    let a = c.set_experience(&pepe, YOCTO_NEAR, 3, s("t"), s("d"), s("u"), s("m"), 1, 2, 7).unwrap();
    let b = c.set_experience(&pepe, YOCTO_NEAR, 3, s("t"), s("d"), s("u"), s("m"), 1, 2, 7).unwrap();
    c.set_pov(&bob, b, s("pb"), 1).unwrap();
    c.set_pov(&bob, a, s("pa"), 2).unwrap();
    assert_eq!(c.set_pov(&bob, a, s("again"), 3), Err(ContractError::PovAlreadyGiven));
    assert_eq!(c.get_user_exp_pov(&bob).unwrap(), vec![b, a]);
    assert_eq!(c.get_pov_of_vid(a).unwrap(), vec![(bob.clone(), s("pa"))]);
}

#[test]
fn topic_lists_hold_the_publications_in_order() {
    let mut c = setup();
    let pepe = s("pepe.testnet");
    let bob = s("bob.testnet");
    let mut under_five = vec![];
    for i in 0..6u8 {
        let who = if i % 2 == 0 { &pepe } else { &bob };
        let topic = if i % 3 == 0 { 5 } else { 9 };
        let n = c.set_experience(who, 0, 0, s("t"), s("d"), s("u"), s("m"), 1, 2, topic).unwrap();
        if topic == 5 {
            under_five.push(n);
        }
    }
    c.delete_experience(&pepe, 1).unwrap();
    assert_eq!(c.get_exp_by_topic(5).unwrap(), under_five);
    assert_eq!(c.get_exp_by_topic(5).unwrap(), vec![1, 4]);
    assert_eq!(c.get_exp_by_topic(9).unwrap(), vec![2, 3, 5, 6]);
    assert_eq!(c.get_number_of_experiences(), 6);
}
