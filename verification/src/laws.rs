//! What every operation of the contract keeps, and what holds across them.
use vstd::prelude::*;

use crate::account::valid_account_id;
use crate::model::{empty_contract, numbers_with_topic, strictly_increasing, Action, ContractView};
use crate::structs::{pov_has, status_rank, ExperienceView, Status, UserView, YOCTO_NEAR};

verus! {

broadcast use vstd::seq_lib::lemma_seq_contains_after_push;

/// Every experience of the initial state is well formed: the initial state
/// keeps the invariant.
pub proof fn law_initial_state_wf<R>(wallet: Seq<char>)
    ensures
        empty_contract::<R>(wallet).wf(),
{
}

/// Registering a user keeps the invariant.
pub proof fn lemma_set_user_wf<R>(
    c: ContractView<R>,
    signer: Seq<char>,
    name: Seq<char>,
    discord: Seq<char>,
    email: Seq<char>,
    interests: u8,
)
    requires
        c.wf(),
        valid_account_id(signer),
        c.set_user_spec(signer, name, discord, email, interests) is Ok,
    ensures
        c.set_user_spec(signer, name, discord, email, interests)->Ok_0.wf(),
{
    let next = c.set_user_spec(signer, name, discord, email, interests)->Ok_0;
    assert(!c.user_list.contains(signer));
    assert forall|a: Seq<char>|
        #![trigger next.users.contains_key(a)]
        #![trigger next.user_list.contains(a)]
        next.users.contains_key(a) <==> next.user_list.contains(a) by {
        assert(c.users.contains_key(a) <==> c.user_list.contains(a));
    }
    assert(next.user_list.no_duplicates()) by {
        assert forall|i: int, j: int|
            0 <= i < next.user_list.len() && 0 <= j < next.user_list.len() && i != j
            implies next.user_list[i] != next.user_list[j] by {
            if i < c.user_list.len() && j < c.user_list.len() {
            } else if i < c.user_list.len() {
                assert(c.user_list.contains(c.user_list[i]));
            } else {
                assert(c.user_list.contains(c.user_list[j]));
            }
        }
    }
    assert forall|n: u128| #[trigger] next.experiences.contains_key(n) implies next.exp_wf(n) by {
        assert(c.exp_wf(n));
        let e = c.experiences[n];
        assert forall|i: int| 0 <= i < e.pov.len() implies {
            &&& next.has_user(#[trigger] e.pov[i].0)
            &&& next.users[e.pov[i].0].pov_exp.contains(n)
            &&& e.pov[i].0 != e.owner
        } by {
            assert(c.has_user(e.pov[i].0));
        }
    }
    assert forall|a: Seq<char>, i: int|
        next.users.contains_key(a) && 0 <= i < next.users[a].pov_exp.len()
        implies #[trigger] next.users[a].pov_exp[i] <= next.n_exp by {
        if a != signer {
            assert(c.users[a].pov_exp[i] <= c.n_exp);
        }
    }
    assert forall|a: Seq<char>, n: u128|
        next.users.contains_key(a) && #[trigger] next.users[a].pov_exp.contains(n)
            && #[trigger] next.experiences.contains_key(n)
        implies pov_has(next.experiences[n].pov, a) by {
        if a != signer {
            assert(c.users[a].pov_exp.contains(n));
        }
    }
}

/// Publishing an experience keeps the invariant.
pub proof fn lemma_set_experience_wf<R>(
    c: ContractView<R>,
    signer: Seq<char>,
    deposit: u128,
    reward: R,
    title: Seq<char>,
    description: Seq<char>,
    url: Seq<char>,
    moment: Seq<char>,
    time: u16,
    expire_date: i64,
    topic: u8,
)
    requires
        c.wf(),
        c.set_experience_spec(signer, deposit, reward, title, description, url, moment, time, expire_date, topic) is Ok,
    ensures
        c.set_experience_spec(signer, deposit, reward, title, description, url, moment, time, expire_date, topic)->Ok_0.wf(),
{
    let next = c.set_experience_spec(signer, deposit, reward, title, description, url, moment, time, expire_date, topic)->Ok_0;
    let m = next.n_exp;
    assert(m == c.n_exp + 1);
    assert(next.users.dom() =~= c.users.dom());
    assert forall|a: Seq<char>|
        #![trigger next.users.contains_key(a)]
        #![trigger next.user_list.contains(a)]
        next.users.contains_key(a) <==> next.user_list.contains(a) by {
        assert(c.users.contains_key(a) <==> c.user_list.contains(a));
    }
    assert forall|a: Seq<char>, i: int|
        next.users.contains_key(a) && 0 <= i < next.users[a].pov_exp.len()
        implies #[trigger] next.users[a].pov_exp[i] <= next.n_exp by {
        assert(c.users[a].pov_exp[i] <= c.n_exp);
    }
    assert forall|n: u128| #[trigger] next.experiences.contains_key(n) implies next.exp_wf(n) by {
        if n == m {
            assert(next.topic_list(topic) == c.topic_list(topic).push(m));
        } else {
            assert(c.exp_wf(n));
            let e = c.experiences[n];
            assert(next.experiences[n] == e);
            if e.topic == topic {
                assert(next.topic_list(topic) == c.topic_list(topic).push(m));
            } else {
                assert(next.topic_list(e.topic) == c.topic_list(e.topic));
            }
            assert forall|i: int| 0 <= i < e.pov.len() implies {
                &&& next.has_user(#[trigger] e.pov[i].0)
                &&& next.users[e.pov[i].0].pov_exp.contains(n)
                &&& e.pov[i].0 != e.owner
            } by {
                assert(c.has_user(e.pov[i].0));
                assert(c.users[e.pov[i].0].pov_exp.contains(n));
            }
        }
    }
    assert forall|a: Seq<char>, n: u128|
        next.users.contains_key(a) && #[trigger] next.users[a].pov_exp.contains(n)
            && #[trigger] next.experiences.contains_key(n)
        implies pov_has(next.experiences[n].pov, a) by {
        assert(c.users[a].pov_exp == next.users[a].pov_exp);
        if n == m {
            let i = choose|i: int| 0 <= i < c.users[a].pov_exp.len() && c.users[a].pov_exp[i] == n;
            assert(c.users[a].pov_exp[i] <= c.n_exp);
        } else {
            assert(c.experiences.contains_key(n));
        }
    }
}

/// Replacing a user's record, keeping its lists, keeps the invariant.
pub proof fn lemma_update_user_wf<R>(c: ContractView<R>, signer: Seq<char>, u: UserView)
    requires
        c.wf(),
        c.has_user(signer),
        u.my_exp == c.users[signer].my_exp,
        u.pov_exp == c.users[signer].pov_exp,
    ensures
        c.with_user(signer, u).wf(),
{
    let next = c.with_user(signer, u);
    assert(next.users.dom() =~= c.users.dom());
    assert forall|a: Seq<char>|
        #![trigger next.users.contains_key(a)]
        #![trigger next.user_list.contains(a)]
        next.users.contains_key(a) <==> next.user_list.contains(a) by {
        assert(c.users.contains_key(a) <==> c.user_list.contains(a));
    }
    assert forall|a: Seq<char>, i: int|
        next.users.contains_key(a) && 0 <= i < next.users[a].pov_exp.len()
        implies #[trigger] next.users[a].pov_exp[i] <= next.n_exp by {
        assert(c.users[a].pov_exp[i] <= c.n_exp);
    }
    assert forall|n: u128| #[trigger] next.experiences.contains_key(n) implies next.exp_wf(n) by {
        assert(c.exp_wf(n));
        let e = c.experiences[n];
        assert forall|i: int| 0 <= i < e.pov.len() implies {
            &&& next.has_user(#[trigger] e.pov[i].0)
            &&& next.users[e.pov[i].0].pov_exp.contains(n)
            &&& e.pov[i].0 != e.owner
        } by {
            assert(c.has_user(e.pov[i].0));
        }
    }
    assert forall|a: Seq<char>, n: u128|
        next.users.contains_key(a) && #[trigger] next.users[a].pov_exp.contains(n)
            && #[trigger] next.experiences.contains_key(n)
        implies pov_has(next.experiences[n].pov, a) by {
        assert(c.users[a].pov_exp.contains(n));
    }
}

/// Replacing the record of an experience by one that differs only in its
/// description, moment, time or expiration date keeps the invariant.
pub proof fn lemma_update_exp_details_wf<R>(c: ContractView<R>, n: u128, e: ExperienceView<R>)
    requires
        c.wf(),
        c.has_exp(n),
        e.owner == c.experiences[n].owner,
        e.topic == c.experiences[n].topic,
        e.reward == c.experiences[n].reward,
        e.status == c.experiences[n].status,
        e.pov == c.experiences[n].pov,
        e.winner == c.experiences[n].winner,
    ensures
        c.with_exp(n, e).wf(),
{
    let next = c.with_exp(n, e);
    assert forall|m: u128| #[trigger] next.experiences.contains_key(m) implies next.exp_wf(m) by {
        assert(c.exp_wf(m));
    }
    assert forall|a: Seq<char>, m: u128|
        next.users.contains_key(a) && #[trigger] next.users[a].pov_exp.contains(m)
            && #[trigger] next.experiences.contains_key(m)
        implies pov_has(next.experiences[m].pov, a) by {
        assert(c.users[a].pov_exp.contains(m));
    }
}

/// Funding an experience keeps the invariant.
pub proof fn lemma_activate_experience_wf<R>(c: ContractView<R>, signer: Seq<char>, n: u128, deposit: u128, reward: R)
    requires
        c.wf(),
        c.activate_experience_spec(signer, n, deposit, reward) is Ok,
    ensures
        c.activate_experience_spec(signer, n, deposit, reward)->Ok_0.wf(),
{
    let next = c.activate_experience_spec(signer, n, deposit, reward)->Ok_0;
    assert forall|m: u128| #[trigger] next.experiences.contains_key(m) implies next.exp_wf(m) by {
        assert(c.exp_wf(m));
    }
    assert forall|a: Seq<char>, m: u128|
        next.users.contains_key(a) && #[trigger] next.users[a].pov_exp.contains(m)
            && #[trigger] next.experiences.contains_key(m)
        implies pov_has(next.experiences[m].pov, a) by {
        assert(c.users[a].pov_exp.contains(m));
    }
}

/// Paying the reward of an experience keeps the invariant.
pub proof fn lemma_pay_reward_wf<R>(c: ContractView<R>, signer: Seq<char>, n: u128, wallet: Seq<char>)
    requires
        c.wf(),
        c.pay_reward_spec(signer, n, wallet) is Ok,
    ensures
        c.pay_reward_spec(signer, n, wallet)->Ok_0.wf(),
{
    let next = c.pay_reward_spec(signer, n, wallet)->Ok_0;
    assert forall|m: u128| #[trigger] next.experiences.contains_key(m) implies next.exp_wf(m) by {
        assert(c.exp_wf(m));
    }
    assert forall|a: Seq<char>, m: u128|
        next.users.contains_key(a) && #[trigger] next.users[a].pov_exp.contains(m)
            && #[trigger] next.experiences.contains_key(m)
        implies pov_has(next.experiences[m].pov, a) by {
        assert(c.users[a].pov_exp.contains(m));
    }
}

/// Deleting an experience keeps the invariant.
pub proof fn lemma_delete_experience_wf<R>(c: ContractView<R>, signer: Seq<char>, n: u128)
    requires
        c.wf(),
        c.delete_experience_spec(signer, n) is Ok,
    ensures
        c.delete_experience_spec(signer, n)->Ok_0.wf(),
{
    let next = c.delete_experience_spec(signer, n)->Ok_0;
    assert forall|m: u128| #[trigger] next.experiences.contains_key(m) implies next.exp_wf(m) by {
        assert(c.exp_wf(m));
    }
    assert forall|a: Seq<char>, m: u128|
        next.users.contains_key(a) && #[trigger] next.users[a].pov_exp.contains(m)
            && #[trigger] next.experiences.contains_key(m)
        implies pov_has(next.experiences[m].pov, a) by {
        assert(c.users[a].pov_exp.contains(m));
    }
}

/// Giving a point of view keeps the invariant.
pub proof fn lemma_set_pov_wf<R>(c: ContractView<R>, signer: Seq<char>, n: u128, pov: Seq<char>, date: i64)
    requires
        c.wf(),
        c.set_pov_spec(signer, n, pov, date) is Ok,
    ensures
        c.set_pov_spec(signer, n, pov, date)->Ok_0.wf(),
{
    let next = c.set_pov_spec(signer, n, pov, date)->Ok_0;
    let e = c.experiences[n];
    let e2 = next.experiences[n];
    assert(c.exp_wf(n));
    assert(e2.pov == e.pov.push((signer, pov)));
    assert(next.users.dom() =~= c.users.dom());
    assert forall|a: Seq<char>|
        #![trigger next.users.contains_key(a)]
        #![trigger next.user_list.contains(a)]
        next.users.contains_key(a) <==> next.user_list.contains(a) by {
        assert(c.users.contains_key(a) <==> c.user_list.contains(a));
    }
    assert forall|a: Seq<char>, i: int|
        next.users.contains_key(a) && 0 <= i < next.users[a].pov_exp.len()
        implies #[trigger] next.users[a].pov_exp[i] <= next.n_exp by {
        if a != signer || i < c.users[a].pov_exp.len() {
            assert(c.users[a].pov_exp[i] <= c.n_exp);
        }
    }
    assert forall|a: Seq<char>, i: int, j: int|
        next.users.contains_key(a) && 0 <= i < j < next.users[a].pov_exp.len()
        implies #[trigger] next.users[a].pov_exp[i] != #[trigger] next.users[a].pov_exp[j] by {
        let old_list = c.users[a].pov_exp;
        if a == signer && j == old_list.len() {
            if old_list[i] == n {
                assert(old_list.contains(n));
                assert(pov_has(e.pov, signer));
            }
        } else {
            assert(old_list[i] == next.users[a].pov_exp[i]);
            assert(old_list[j] == next.users[a].pov_exp[j]);
        }
    }
    assert forall|m: u128| #[trigger] next.experiences.contains_key(m) implies next.exp_wf(m) by {
        assert(c.exp_wf(m));
        let f = c.experiences[m];
        let f2 = next.experiences[m];
        assert forall|i: int| 0 <= i < f2.pov.len() implies {
            &&& next.has_user(#[trigger] f2.pov[i].0)
            &&& next.users[f2.pov[i].0].pov_exp.contains(m)
            &&& f2.pov[i].0 != f2.owner
        } by {
            if i < f.pov.len() {
                assert(f2.pov[i] == f.pov[i]);
                assert(c.has_user(f.pov[i].0));
                assert(c.users[f.pov[i].0].pov_exp.contains(m));
            }
        }
        assert forall|i: int, j: int|
            0 <= i < j < f2.pov.len() implies #[trigger] f2.pov[i].0 != #[trigger] f2.pov[j].0 by {
            if j < f.pov.len() {
                assert(f2.pov[i] == f.pov[i]);
                assert(f2.pov[j] == f.pov[j]);
            } else {
                assert(m == n);
                assert(f2.pov[i] == f.pov[i]);
                assert(!pov_has(e.pov, signer));
                assert(f.pov[i].0 != signer);
            }
        }
        if f2.status == Status::Closed {
            let k = choose|k: int| 0 <= k < f.pov.len() && #[trigger] f.pov[k].0 == f.winner;
            assert(f2.pov[k] == f.pov[k]);
        }
    }
    assert forall|a: Seq<char>, m: u128|
        next.users.contains_key(a) && #[trigger] next.users[a].pov_exp.contains(m)
            && #[trigger] next.experiences.contains_key(m)
        implies pov_has(next.experiences[m].pov, a) by {
        if m == n && a == signer {
            assert(e2.pov[e.pov.len() as int].0 == signer);
        } else {
            assert(c.users[a].pov_exp.contains(m));
            let f = c.experiences[m];
            let k = choose|k: int| 0 <= k < f.pov.len() && #[trigger] f.pov[k].0 == a;
            assert(next.experiences[m].pov[k] == f.pov[k]);
        }
    }
}

/// Every request that the contract takes keeps the invariant.
pub proof fn law_apply_preserves_wf<R>(c: ContractView<R>, a: Action<R>)
    requires
        c.wf(),
        c.admits(a),
    ensures
        c.apply(a) is Ok ==> c.apply(a)->Ok_0.wf(),
{
    if c.apply(a) is Ok {
        match a {
            Action::SetUser { signer, name, discord, email, interests } =>
                lemma_set_user_wf(c, signer, name, discord, email, interests),
            Action::SetExperience { signer, deposit, reward, title, description, url, moment, time, expire_date, topic } =>
                lemma_set_experience_wf(c, signer, deposit, reward, title, description, url, moment, time, expire_date, topic),
            Action::SetUserDiscord { signer, discord } =>
                lemma_update_user_wf(c, signer, UserView { discord, ..c.users[signer] }),
            Action::SetUserEmail { signer, email } =>
                lemma_update_user_wf(c, signer, UserView { email, ..c.users[signer] }),
            Action::SetUserInterests { signer, interests } =>
                lemma_update_user_wf(c, signer, UserView { interests, ..c.users[signer] }),
            Action::SetUserName { signer, name } =>
                lemma_update_user_wf(c, signer, UserView { name, ..c.users[signer] }),
            Action::SetMomentComment { signer, n, comment } =>
                lemma_update_exp_details_wf(c, n, ExperienceView { moment: comment, ..c.experiences[n] }),
            Action::SetMomentTime { signer, n, time } =>
                lemma_update_exp_details_wf(c, n, ExperienceView { time, ..c.experiences[n] }),
            Action::SetExperienceDescription { signer, n, description } =>
                lemma_update_exp_details_wf(c, n, ExperienceView { description, ..c.experiences[n] }),
            Action::SetExperienceExpireDate { signer, n, date } =>
                lemma_update_exp_details_wf(c, n, ExperienceView { exp_date: date, ..c.experiences[n] }),
            Action::SetPov { signer, n, pov, date } => lemma_set_pov_wf(c, signer, n, pov, date),
            Action::PayReward { signer, n, wallet } => lemma_pay_reward_wf(c, signer, n, wallet),
            Action::ActivateExperience { signer, n, deposit, reward } =>
                lemma_activate_experience_wf(c, signer, n, deposit, reward),
            Action::DeleteExperience { signer, n } => lemma_delete_experience_wf(c, signer, n),
            Action::DeletePov { signer, n } => {},
        }
    }
}

/// An experience only moves forward through its statuses: in process, then
/// active, then closed; no request sends it back, and once it is closed its
/// winner, its points of view and the reward it holds (none) stay.
pub proof fn law_status_moves_forward<R>(c: ContractView<R>, a: Action<R>, n: u128)
    requires
        c.wf(),
        c.apply(a) is Ok,
        c.has_exp(n),
        c.apply(a)->Ok_0.has_exp(n),
    ensures
        status_rank(c.experiences[n].status) <= status_rank(c.apply(a)->Ok_0.experiences[n].status),
        c.experiences[n].status == Status::Closed ==> {
            let e2 = c.apply(a)->Ok_0.experiences[n];
            &&& e2.status == Status::Closed
            &&& e2.winner == c.experiences[n].winner
            &&& e2.pov == c.experiences[n].pov
            &&& e2.reward is None
        },
{
    assert(c.exp_wf(n));
    match a {
        Action::SetExperience { .. } => {
            assert(n != c.n_exp + 1);
        },
        Action::SetPov { signer, n: m, .. } => {
            if m == n {
                assert(c.experiences[n].status == Status::Active);
            }
        },
        Action::PayReward { n: m, .. } => {
            if m == n {
                assert(c.experiences[n].status == Status::Active);
            }
        },
        Action::ActivateExperience { n: m, .. } => {
            if m == n {
                assert(c.experiences[n].status == Status::InProcess);
            }
        },
        _ => {},
    }
}

/// Numbers are never given out twice: the count never goes down, and an
/// experience that a request adds has a number above every number given out
/// before it, the next one.
pub proof fn law_numbers_never_reused<R>(c: ContractView<R>, a: Action<R>, n: u128)
    requires
        c.apply(a) is Ok,
    ensures
        c.n_exp <= c.apply(a)->Ok_0.n_exp,
        c.apply(a)->Ok_0.has_exp(n) && !c.has_exp(n) ==> n == c.n_exp + 1 && n == c.apply(a)->Ok_0.n_exp,
{
}

/// Users are never removed, and the list of users only grows at its end.
pub proof fn law_users_stay<R>(c: ContractView<R>, a: Action<R>, account: Seq<char>)
    requires
        c.apply(a) is Ok,
    ensures
        c.has_user(account) ==> c.apply(a)->Ok_0.has_user(account),
        c.user_list.is_prefix_of(c.apply(a)->Ok_0.user_list),
{
    let next = c.apply(a)->Ok_0;
    assert(c.user_list =~= next.user_list.subrange(0, c.user_list.len() as int));
}

/// In a state that keeps the invariant, a request to withdraw a point of view
/// is always refused.
pub proof fn law_delete_pov_always_refused<R>(c: ContractView<R>, signer: Seq<char>, n: u128)
    requires
        c.wf(),
    ensures
        c.delete_pov_spec(signer, n) is Err,
{
    if c.has_user(signer) && c.has_exp(n) && c.users[signer].pov_exp.contains(n) {
        assert(pov_has(c.experiences[n].pov, signer));
    }
}

/// Paying a reward closes the experience, records the winner, who gave a point
/// of view on it, and releases the reward, which the experience held.
pub proof fn law_pay_reward_closes<R>(c: ContractView<R>, signer: Seq<char>, n: u128, wallet: Seq<char>)
    requires
        c.wf(),
        c.pay_reward_spec(signer, n, wallet) is Ok,
    ensures
        c.experiences[n].reward is Some,
        c.pay_reward_spec(signer, n, wallet)->Ok_0.experiences[n].status == Status::Closed,
        c.pay_reward_spec(signer, n, wallet)->Ok_0.experiences[n].reward is None,
        c.pay_reward_spec(signer, n, wallet)->Ok_0.experiences[n].winner == wallet,
        pov_has(c.pay_reward_spec(signer, n, wallet)->Ok_0.experiences[n].pov, wallet),
{
    assert(c.exp_wf(n));
}

/// What a profile change writes is what is read back for that user, and no
/// other part of the user's record, nor any other user, changes.
pub proof fn law_user_profile_reads_back<R>(
    c: ContractView<R>,
    signer: Seq<char>,
    text: Seq<char>,
    interests: u8,
    other: Seq<char>,
)
    requires
        c.has_user(signer),
        other != signer,
    ensures
        c.set_user_name_spec(signer, text) is Ok,
        c.set_user_name_spec(signer, text)->Ok_0.users[signer] == (UserView { name: text, ..c.users[signer] }),
        c.set_user_discord_spec(signer, text)->Ok_0.users[signer] == (UserView { discord: text, ..c.users[signer] }),
        c.set_user_email_spec(signer, text)->Ok_0.users[signer] == (UserView { email: text, ..c.users[signer] }),
        c.set_user_interests_spec(signer, interests)->Ok_0.users[signer] == (UserView { interests, ..c.users[signer] }),
        c.set_user_name_spec(signer, text)->Ok_0.users[other] == c.users[other],
        c.set_user_discord_spec(signer, text)->Ok_0.users[other] == c.users[other],
        c.set_user_email_spec(signer, text)->Ok_0.users[other] == c.users[other],
        c.set_user_interests_spec(signer, interests)->Ok_0.users[other] == c.users[other],
{
}

/// What the owner writes on its experience is what is read back for it, and
/// nothing else of it, nor any other experience, changes.
pub proof fn law_experience_details_read_back<R>(
    c: ContractView<R>,
    signer: Seq<char>,
    n: u128,
    text: Seq<char>,
    time: u16,
    date: i64,
    other: u128,
)
    requires
        c.owner_check(signer, n) is None,
        other != n,
    ensures
        c.set_moment_comment_spec(signer, n, text)->Ok_0.experiences[n] == (ExperienceView { moment: text, ..c.experiences[n] }),
        c.set_moment_time_spec(signer, n, time)->Ok_0.experiences[n] == (ExperienceView { time, ..c.experiences[n] }),
        c.set_experience_description_spec(signer, n, text)->Ok_0.experiences[n]
            == (ExperienceView { description: text, ..c.experiences[n] }),
        c.experiences[n].status == Status::InProcess ==>
            c.set_experience_expire_date_spec(signer, n, date)->Ok_0.experiences[n]
                == (ExperienceView { exp_date: date, ..c.experiences[n] }),
        c.set_moment_comment_spec(signer, n, text)->Ok_0.experiences[other] == c.experiences[other],
        c.set_moment_time_spec(signer, n, time)->Ok_0.experiences[other] == c.experiences[other],
        c.set_experience_description_spec(signer, n, text)->Ok_0.experiences[other] == c.experiences[other],
{
}

/// A registered user reads back the profile it registered with, with no
/// experience and no point of view yet, and comes last in the list of users.
pub proof fn law_registration_reads_back<R>(
    c: ContractView<R>,
    signer: Seq<char>,
    name: Seq<char>,
    discord: Seq<char>,
    email: Seq<char>,
    interests: u8,
)
    requires
        !c.has_user(signer),
    ensures
        c.set_user_spec(signer, name, discord, email, interests) is Ok,
        c.set_user_spec(signer, name, discord, email, interests)->Ok_0.users[signer]
            == crate::model::new_user_view(name, discord, email, interests),
        c.set_user_spec(signer, name, discord, email, interests)->Ok_0.user_list.last() == signer,
{
}

/// A published experience reads back as published under the next number: it
/// is owned by the signer, listed under its topic and in the owner's list, and
/// it is active, holding the reward, exactly when a deposit came with it.
pub proof fn law_publication_reads_back<R>(
    c: ContractView<R>,
    signer: Seq<char>,
    deposit: u128,
    reward: R,
    title: Seq<char>,
    description: Seq<char>,
    url: Seq<char>,
    moment: Seq<char>,
    time: u16,
    expire_date: i64,
    topic: u8,
)
    requires
        c.set_experience_spec(signer, deposit, reward, title, description, url, moment, time, expire_date, topic) is Ok,
    ensures ({
        let next = c.set_experience_spec(signer, deposit, reward, title, description, url, moment, time, expire_date, topic)->Ok_0;
        let n = next.n_exp;
        let e = next.experiences[n];
        &&& n == c.n_exp + 1
        &&& next.has_exp(n)
        &&& e.title == title && e.description == description && e.url == url
        &&& e.moment == moment && e.time == time && e.exp_date == expire_date && e.topic == topic
        &&& e.owner == signer
        &&& e.pov.len() == 0
        &&& next.exp_by_topic[topic].last() == n
        &&& next.users[signer].my_exp.last() == n
        &&& (e.status == Status::Active) == (deposit > 0)
        &&& (e.status == Status::InProcess) == (deposit == 0)
        &&& e.reward == (if deposit > 0 { Some(reward) } else { None })
    }),
{
}

/// Only a publication changes the count of experiences, and it adds exactly one.
pub proof fn law_count_changes_only_by_publication<R>(c: ContractView<R>, a: Action<R>)
    requires
        c.apply(a) is Ok,
    ensures
        c.apply(a)->Ok_0.n_exp == if a is SetExperience { c.n_exp + 1 } else { c.n_exp as int },
{
}

/// Only a registration adds to the list of users, and it adds its signer at the end.
pub proof fn law_only_registration_appends<R>(c: ContractView<R>, a: Action<R>)
    requires
        c.apply(a) is Ok,
    ensures
        match a {
            Action::SetUser { signer, .. } => c.apply(a)->Ok_0.user_list == c.user_list.push(signer),
            _ => c.apply(a)->Ok_0.user_list == c.user_list,
        },
{
}

/// Only a publication changes the topic lists, and it adds its number at the
/// end of its own topic's list.
pub proof fn law_only_publication_lists<R>(c: ContractView<R>, a: Action<R>)
    requires
        c.apply(a) is Ok,
    ensures
        match a {
            Action::SetExperience { topic, .. } => c.apply(a)->Ok_0.exp_by_topic
                == c.exp_by_topic.insert(topic, c.topic_list(topic).push((c.n_exp + 1) as u128)),
            _ => c.apply(a)->Ok_0.exp_by_topic == c.exp_by_topic,
        },
{
}

/// Which request makes each change of an experience's life: only a publication
/// adds one, in process or active; only an activation moves one from in process
/// to active; only a payment moves one from active to closed; only a deletion
/// removes one, and only one in process.
pub proof fn law_status_moves_by_request<R>(c: ContractView<R>, a: Action<R>, n: u128)
    requires
        c.wf(),
        c.apply(a) is Ok,
    ensures ({
        let next = c.apply(a)->Ok_0;
        &&& c.has_exp(n) && !next.has_exp(n) ==> a is DeleteExperience && c.experiences[n].status == Status::InProcess
        &&& !c.has_exp(n) && next.has_exp(n) ==> a is SetExperience && next.experiences[n].status != Status::Closed
        &&& c.has_exp(n) && next.has_exp(n) && c.experiences[n].status != next.experiences[n].status ==> {
            ||| c.experiences[n].status == Status::InProcess && next.experiences[n].status == Status::Active
                && a is ActivateExperience
            ||| c.experiences[n].status == Status::Active && next.experiences[n].status == Status::Closed
                && a is PayReward
        }
    }),
{
    if c.has_exp(n) {
        assert(c.exp_wf(n));
    }
    match a {
        Action::SetExperience { .. } => {
            if c.has_exp(n) {
                assert(n != c.n_exp + 1);
            }
        },
        _ => {},
    }
}

/// The winner of an experience is empty until it is paid; once paid, the winner
/// is a registered user who gave a point of view on it. So the winner is set
/// exactly when the experience is closed.
pub proof fn law_winner_set_by_payment<R>(c: ContractView<R>, n: u128)
    requires
        c.wf(),
        c.has_exp(n),
    ensures
        c.experiences[n].status != Status::Closed ==> c.experiences[n].winner == Seq::<char>::empty(),
        c.experiences[n].status == Status::Closed ==> c.has_user(c.experiences[n].winner)
            && pov_has(c.experiences[n].pov, c.experiences[n].winner),
        c.experiences[n].winner.len() > 0 <==> c.experiences[n].status == Status::Closed,
{
    assert(c.exp_wf(n));
    let e = c.experiences[n];
    if e.status == Status::Closed {
        let k = choose|k: int| 0 <= k < e.pov.len() && #[trigger] e.pov[k].0 == e.winner;
        assert(c.has_user(e.pov[k].0));
        assert(valid_account_id(e.winner));
    }
}

/// Whoever gave a point of view on an experience is a registered user other than
/// its owner, gave no other point of view on it, and has the experience exactly
/// once in its list.
pub proof fn law_pov_listed_once<R>(c: ContractView<R>, n: u128, k: int)
    requires
        c.wf(),
        c.has_exp(n),
        0 <= k < c.experiences[n].pov.len(),
    ensures ({
        let e = c.experiences[n];
        let a = e.pov[k].0;
        &&& c.has_user(a)
        &&& a != e.owner
        &&& forall|l: int| 0 <= l < e.pov.len() && l != k ==> #[trigger] e.pov[l].0 != a
        &&& c.users[a].pov_exp.contains(n)
        &&& forall|i: int, j: int|
            0 <= i < c.users[a].pov_exp.len() && 0 <= j < c.users[a].pov_exp.len()
                && c.users[a].pov_exp[i] == n && c.users[a].pov_exp[j] == n ==> i == j
    }),
{
    assert(c.exp_wf(n));
    let e = c.experiences[n];
    let a = e.pov[k].0;
    assert(c.has_user(a));
    assert forall|l: int| 0 <= l < e.pov.len() && l != k implies #[trigger] e.pov[l].0 != a by {
        if l < k {
            assert(e.pov[l].0 != e.pov[k].0);
        } else {
            assert(e.pov[k].0 != e.pov[l].0);
        }
    }
    assert forall|i: int, j: int|
        0 <= i < c.users[a].pov_exp.len() && 0 <= j < c.users[a].pov_exp.len()
            && c.users[a].pov_exp[i] == n && c.users[a].pov_exp[j] == n implies i == j by {
        if i < j {
            assert(c.users[a].pov_exp[i] != c.users[a].pov_exp[j]);
        } else if j < i {
            assert(c.users[a].pov_exp[j] != c.users[a].pov_exp[i]);
        }
    }
}

/// Any sequence of requests keeps the invariant.
pub proof fn law_run_keeps_wf<R>(c: ContractView<R>, acts: Seq<Action<R>>)
    requires
        c.wf(),
    ensures
        c.run(acts).wf(),
    decreases acts.len(),
{
    if acts.len() > 0 {
        law_run_keeps_wf(c, acts.drop_last());
        if c.run(acts.drop_last()).admits(acts.last()) {
            law_apply_preserves_wf(c.run(acts.drop_last()), acts.last());
        }
    }
}

/// The count of experiences is the count before plus the number of publications
/// taken, and the publications got the following numbers in order: the count
/// is always the last number given out.
pub proof fn law_count_is_publications<R>(c: ContractView<R>, acts: Seq<Action<R>>)
    ensures
        c.run(acts).n_exp == c.n_exp + c.published(acts).len(),
        forall|i: int| 0 <= i < c.published(acts).len() ==> #[trigger] c.published(acts)[i].0 == c.n_exp + i + 1,
    decreases acts.len(),
{
    if acts.len() > 0 {
        law_count_is_publications(c, acts.drop_last());
        let before = c.run(acts.drop_last());
        let a = acts.last();
        if before.admits(a) && before.apply(a) is Ok {
            law_count_changes_only_by_publication(before, a);
        }
    }
}

/// The numbers listed under a topic are those listed before, followed by the
/// numbers of the publications taken under that topic, in order.
pub proof fn law_topic_list_is_publications<R>(c: ContractView<R>, acts: Seq<Action<R>>, topic: u8)
    ensures
        c.run(acts).topic_list(topic) == c.topic_list(topic) + numbers_with_topic(c.published(acts), topic),
    decreases acts.len(),
{
    if acts.len() > 0 {
        law_topic_list_is_publications(c, acts.drop_last(), topic);
        let before = c.run(acts.drop_last());
        let a = acts.last();
        let ps = c.published(acts.drop_last());
        if before.admits(a) && before.apply(a) is Ok {
            law_only_publication_lists(before, a);
            match a {
                Action::SetExperience { topic: t, .. } => {
                    assert(c.published(acts) == ps.push(((before.n_exp + 1) as u128, t)));
                    assert(c.published(acts).drop_last() == ps);
                    if t == topic {
                        assert(c.run(acts).topic_list(topic) =~= c.topic_list(topic) + numbers_with_topic(c.published(acts), topic));
                    } else {
                        assert(c.run(acts).topic_list(topic) == before.topic_list(topic));
                    }
                },
                _ => {},
            }
        }
    }
}

/// What `numbers_with_topic` lists: exactly the numbers of `ps` with that
/// topic, strictly increasing when the numbers of `ps` are.
pub proof fn lemma_numbers_with_topic(ps: Seq<(u128, u8)>, topic: u8)
    ensures
        forall|x: u128|
            #[trigger] numbers_with_topic(ps, topic).contains(x)
                <==> exists|i: int| 0 <= i < ps.len() && #[trigger] ps[i] == (x, topic),
        (forall|i: int, j: int| 0 <= i < j < ps.len() ==> #[trigger] ps[i].0 < #[trigger] ps[j].0)
            ==> strictly_increasing(numbers_with_topic(ps, topic)),
    decreases ps.len(),
{
    if ps.len() > 0 {
        let rest = ps.drop_last();
        lemma_numbers_with_topic(rest, topic);
        let l = numbers_with_topic(ps, topic);
        let lr = numbers_with_topic(rest, topic);
        assert forall|x: u128| #[trigger] l.contains(x)
            <==> exists|i: int| 0 <= i < ps.len() && #[trigger] ps[i] == (x, topic) by {
            if l.contains(x) {
                if ps.last().1 == topic && x == ps.last().0 {
                    assert(ps[ps.len() - 1] == (x, topic));
                } else {
                    assert(lr.contains(x));
                    let i = choose|i: int| 0 <= i < rest.len() && #[trigger] rest[i] == (x, topic);
                    assert(ps[i] == rest[i]);
                }
            }
            if exists|i: int| 0 <= i < ps.len() && #[trigger] ps[i] == (x, topic) {
                let i = choose|i: int| 0 <= i < ps.len() && #[trigger] ps[i] == (x, topic);
                if i < ps.len() - 1 {
                    assert(rest[i] == ps[i]);
                    assert(lr.contains(x));
                }
            }
        }
        if forall|i: int, j: int| 0 <= i < j < ps.len() ==> #[trigger] ps[i].0 < #[trigger] ps[j].0 {
            assert forall|i: int, j: int| 0 <= i < j < rest.len() implies #[trigger] rest[i].0 < #[trigger] rest[j].0 by {
                assert(ps[i].0 < ps[j].0);
            }
            if ps.last().1 == topic {
                assert forall|i: int, j: int| 0 <= i < j < l.len() implies #[trigger] l[i] < #[trigger] l[j] by {
                    if j == l.len() - 1 {
                        assert(lr.contains(l[i]));
                        let k = choose|k: int| 0 <= k < rest.len() && #[trigger] rest[k] == (l[i], topic);
                        assert(ps[k].0 < ps[ps.len() - 1].0);
                    } else {
                        assert(l[i] == lr[i] && l[j] == lr[j]);
                    }
                }
            }
        }
    }
}

/// From the state that the initialization gives, after any sequence of
/// requests, the list of a topic holds exactly the numbers that publications
/// taken under that topic were given, each once, in strictly increasing order,
/// whether or not the experience was deleted since; and the count of
/// experiences is the number of publications taken, which is the last number
/// given out.
pub proof fn law_topic_lists_from_start<R>(wallet: Seq<char>, acts: Seq<Action<R>>, topic: u8)
    ensures ({
        let c0 = empty_contract::<R>(wallet);
        let c = c0.run(acts);
        let ps = c0.published(acts);
        &&& c.topic_list(topic) == numbers_with_topic(ps, topic)
        &&& strictly_increasing(c.topic_list(topic))
        &&& forall|x: u128|
            #[trigger] c.topic_list(topic).contains(x)
                <==> exists|i: int| 0 <= i < ps.len() && #[trigger] ps[i] == (x, topic)
        &&& c.n_exp == ps.len()
        &&& forall|i: int| 0 <= i < ps.len() ==> #[trigger] ps[i].0 == i + 1
    }),
{
    let c0 = empty_contract::<R>(wallet);
    let ps = c0.published(acts);
    law_topic_list_is_publications(c0, acts, topic);
    law_count_is_publications(c0, acts);
    assert(c0.topic_list(topic) + numbers_with_topic(ps, topic) =~= numbers_with_topic(ps, topic));
    assert forall|i: int, j: int| 0 <= i < j < ps.len() implies #[trigger] ps[i].0 < #[trigger] ps[j].0 by {
        assert(ps[i].0 == i + 1);
        assert(ps[j].0 == j + 1);
    }
    lemma_numbers_with_topic(ps, topic);
}

/// The list of users is the list before followed by the signers of the
/// registrations taken, in order.
pub proof fn law_user_list_is_registrations<R>(c: ContractView<R>, acts: Seq<Action<R>>)
    ensures
        c.run(acts).user_list == c.user_list + c.registered(acts),
    decreases acts.len(),
{
    if acts.len() > 0 {
        law_user_list_is_registrations(c, acts.drop_last());
        let before = c.run(acts.drop_last());
        let a = acts.last();
        if before.admits(a) && before.apply(a) is Ok {
            law_only_registration_appends(before, a);
            match a {
                Action::SetUser { .. } => {
                    assert(c.run(acts).user_list =~= c.user_list + c.registered(acts));
                },
                _ => {},
            }
        }
    }
}

/// From the state that the initialization gives, after any sequence of
/// requests, the list of users holds exactly the accounts whose registration
/// was taken, each once, in the order of registration, and they are the
/// registered users.
pub proof fn law_users_from_start<R>(wallet: Seq<char>, acts: Seq<Action<R>>)
    ensures ({
        let c = empty_contract::<R>(wallet).run(acts);
        &&& c.user_list == empty_contract::<R>(wallet).registered(acts)
        &&& c.user_list.no_duplicates()
        &&& forall|a: Seq<char>| #[trigger] c.has_user(a) <==> c.user_list.contains(a)
    }),
{
    let c0 = empty_contract::<R>(wallet);
    law_user_list_is_registrations(c0, acts);
    assert(c0.user_list + c0.registered(acts) =~= c0.registered(acts));
    law_run_keeps_wf(c0, acts);
}

/// A closed experience stays, closed, with its winner, its points of view and
/// no reward, over any sequence of requests, and every request to pay it again
/// is refused.
pub proof fn law_closed_stays_closed<R>(c: ContractView<R>, acts: Seq<Action<R>>, n: u128)
    requires
        c.wf(),
        c.has_exp(n),
        c.experiences[n].status == Status::Closed,
    ensures ({
        let d = c.run(acts);
        &&& d.has_exp(n)
        &&& d.experiences[n].status == Status::Closed
        &&& d.experiences[n].winner == c.experiences[n].winner
        &&& d.experiences[n].pov == c.experiences[n].pov
        &&& d.experiences[n].reward is None
        &&& forall|signer: Seq<char>, wallet: Seq<char>| #[trigger] d.pay_reward_spec(signer, n, wallet) is Err
    }),
    decreases acts.len(),
{
    assert(c.exp_wf(n));
    if acts.len() > 0 {
        law_closed_stays_closed(c, acts.drop_last(), n);
        let before = c.run(acts.drop_last());
        let a = acts.last();
        law_run_keeps_wf(c, acts.drop_last());
        if before.admits(a) && before.apply(a) is Ok {
            law_status_moves_by_request(before, a, n);
            law_status_moves_forward(before, a, n);
        }
    }
}

/// An experience pays out at most once: after a payment is taken, every later
/// request to pay it, by anyone and to anyone, is refused, whatever requests
/// come in between, and its winner stays the one paid.
pub proof fn law_pays_out_once<R>(
    c: ContractView<R>,
    signer: Seq<char>,
    n: u128,
    wallet: Seq<char>,
    acts: Seq<Action<R>>,
)
    requires
        c.wf(),
        c.pay_reward_spec(signer, n, wallet) is Ok,
    ensures ({
        let d = c.pay_reward_spec(signer, n, wallet)->Ok_0.run(acts);
        &&& forall|s2: Seq<char>, w2: Seq<char>| #[trigger] d.pay_reward_spec(s2, n, w2) is Err
        &&& d.experiences[n].winner == wallet
    }),
{
    let c1 = c.pay_reward_spec(signer, n, wallet)->Ok_0;
    lemma_pay_reward_wf(c, signer, n, wallet);
    law_closed_stays_closed(c1, acts, n);
}

/// A publication gets a number that no stored experience has and that is above
/// every stored number, and afterwards every stored number is still between 1
/// and the count.
pub proof fn law_publication_number_is_fresh<R>(
    c: ContractView<R>,
    signer: Seq<char>,
    deposit: u128,
    reward: R,
    title: Seq<char>,
    description: Seq<char>,
    url: Seq<char>,
    moment: Seq<char>,
    time: u16,
    expire_date: i64,
    topic: u8,
)
    requires
        c.wf(),
        c.set_experience_spec(signer, deposit, reward, title, description, url, moment, time, expire_date, topic) is Ok,
    ensures ({
        let next = c.set_experience_spec(signer, deposit, reward, title, description, url, moment, time, expire_date, topic)->Ok_0;
        let n = next.n_exp;
        &&& !c.has_exp(n)
        &&& forall|k: u128| #[trigger] c.has_exp(k) ==> k < n
        &&& forall|k: u128| #[trigger] next.has_exp(k) ==> 1 <= k <= next.n_exp
    }),
{
    let next = c.set_experience_spec(signer, deposit, reward, title, description, url, moment, time, expire_date, topic)->Ok_0;
    assert forall|k: u128| #[trigger] c.has_exp(k) implies k < next.n_exp by {
        assert(c.exp_wf(k));
    }
    lemma_set_experience_wf(c, signer, deposit, reward, title, description, url, moment, time, expire_date, topic);
    assert forall|k: u128| #[trigger] next.has_exp(k) implies 1 <= k <= next.n_exp by {
        assert(next.exp_wf(k));
    }
}

/// From the state that the initialization gives, after any sequence of
/// requests, the number that the next publication gets is above every number
/// given out before, deleted or not: numbers are never given again.
pub proof fn law_numbers_fresh_from_start<R>(wallet: Seq<char>, acts: Seq<Action<R>>, a: Action<R>)
    requires
        a is SetExperience,
        empty_contract::<R>(wallet).run(acts).apply(a) is Ok,
    ensures
        forall|i: int|
            0 <= i < empty_contract::<R>(wallet).published(acts).len()
                ==> #[trigger] empty_contract::<R>(wallet).published(acts)[i].0
                    < empty_contract::<R>(wallet).run(acts).apply(a)->Ok_0.n_exp,
        !empty_contract::<R>(wallet).run(acts).has_exp(empty_contract::<R>(wallet).run(acts).apply(a)->Ok_0.n_exp),
{
    let c0 = empty_contract::<R>(wallet);
    law_count_is_publications(c0, acts);
    law_run_keeps_wf(c0, acts);
    let c = c0.run(acts);
    match a {
        Action::SetExperience { signer, deposit, reward, title, description, url, moment, time, expire_date, topic } => {
            law_publication_number_is_fresh(c, signer, deposit, reward, title, description, url, moment, time, expire_date, topic);
        },
        _ => {},
    }
}

/// A publication is taken exactly when the signer is a registered user, the
/// deposit is zero or at least one NEAR (any amount from one NEAR up), and a
/// number is left to give out.
pub proof fn law_publication_taken_when<R>(
    c: ContractView<R>,
    signer: Seq<char>,
    deposit: u128,
    reward: R,
    title: Seq<char>,
    description: Seq<char>,
    url: Seq<char>,
    moment: Seq<char>,
    time: u16,
    expire_date: i64,
    topic: u8,
)
    ensures
        c.set_experience_spec(signer, deposit, reward, title, description, url, moment, time, expire_date, topic) is Ok
            <==> (c.users.contains_key(signer) && (deposit == 0 || deposit >= YOCTO_NEAR) && c.n_exp < u128::MAX),
{
}

/// The owner of an active experience may pay any account that gave a point of
/// view on it, whichever it is among them: the payment is taken exactly then,
/// and it records that account as the winner and closes the experience.
pub proof fn law_owner_pays_any_pov_giver<R>(c: ContractView<R>, signer: Seq<char>, n: u128, wallet: Seq<char>)
    ensures
        c.pay_reward_spec(signer, n, wallet) is Ok <==> {
            &&& c.experiences.contains_key(n)
            &&& c.experiences[n].owner == signer
            &&& c.experiences[n].status == Status::Active
            &&& exists|i: int| 0 <= i < c.experiences[n].pov.len() && #[trigger] c.experiences[n].pov[i].0 == wallet
        },
        c.pay_reward_spec(signer, n, wallet) is Ok ==> {
            let e = c.pay_reward_spec(signer, n, wallet)->Ok_0.experiences[n];
            &&& e.winner == wallet
            &&& e.status == Status::Closed
            &&& e.pov == c.experiences[n].pov
        },
{
}

/// On an active experience, a registered user other than its owner gives a
/// point of view exactly when it has not given one yet, whatever others gave:
/// the point of view goes after the ones already given, which stay.
pub proof fn law_pov_taken_when<R>(c: ContractView<R>, signer: Seq<char>, n: u128, pov: Seq<char>, date: i64)
    ensures
        c.set_pov_spec(signer, n, pov, date) is Ok <==> {
            &&& c.experiences.contains_key(n)
            &&& c.experiences[n].status == Status::Active
            &&& c.users.contains_key(signer)
            &&& c.experiences[n].owner != signer
            &&& !exists|i: int| 0 <= i < c.experiences[n].pov.len() && #[trigger] c.experiences[n].pov[i].0 == signer
        },
        c.set_pov_spec(signer, n, pov, date) is Ok ==> {
            let next = c.set_pov_spec(signer, n, pov, date)->Ok_0;
            &&& next.experiences[n].pov.len() == c.experiences[n].pov.len() + 1
            &&& forall|i: int| 0 <= i < c.experiences[n].pov.len()
                ==> #[trigger] next.experiences[n].pov[i] == c.experiences[n].pov[i]
            &&& next.experiences[n].pov[c.experiences[n].pov.len() as int] == (signer, pov)
            &&& next.users[signer].pov_exp.last() == n
            &&& next.users[signer].date == date
        },
{
}

/// In a state that keeps the invariant, the owner may delete any of its
/// experiences that is in process, not only a particular one: the deletion is
/// taken, removes exactly that experience and leaves the others.
pub proof fn law_owner_deletes_any_in_process<R>(c: ContractView<R>, signer: Seq<char>, n: u128, other: u128)
    requires
        c.wf(),
        c.users.contains_key(signer),
        c.experiences.contains_key(n),
        c.experiences[n].status == Status::InProcess,
        c.experiences[n].owner == signer,
        other != n,
    ensures
        c.delete_experience_spec(signer, n) is Ok,
        !c.delete_experience_spec(signer, n)->Ok_0.experiences.contains_key(n),
        c.delete_experience_spec(signer, n)->Ok_0.experiences.contains_key(other) == c.experiences.contains_key(other),
        c.experiences.contains_key(other) ==> c.delete_experience_spec(signer, n)->Ok_0.experiences[other] == c.experiences[other],
{
    assert(c.exp_wf(n));
}

/// A registration of a new account is always taken and reads back field by
/// field the profile it was given: name, discord, email and interests, with no
/// experience, no point of view and date 0.
pub proof fn law_registration_keeps_profile<R>(
    c: ContractView<R>,
    signer: Seq<char>,
    name: Seq<char>,
    discord: Seq<char>,
    email: Seq<char>,
    interests: u8,
)
    requires
        !c.users.contains_key(signer),
    ensures ({
        let r = c.set_user_spec(signer, name, discord, email, interests);
        &&& r is Ok
        &&& r->Ok_0.users.contains_key(signer)
        &&& r->Ok_0.users[signer].name == name
        &&& r->Ok_0.users[signer].discord == discord
        &&& r->Ok_0.users[signer].email == email
        &&& r->Ok_0.users[signer].interests == interests
        &&& r->Ok_0.users[signer].my_exp.len() == 0
        &&& r->Ok_0.users[signer].pov_exp.len() == 0
        &&& r->Ok_0.users[signer].date == 0
    }),
{
}

/// The owner of an experience in process funds it exactly when it is a
/// registered user and the deposit is at least one NEAR; the experience then
/// becomes active holding the reward given, and nothing else of it changes.
pub proof fn law_activation_taken_when<R>(c: ContractView<R>, signer: Seq<char>, n: u128, deposit: u128, reward: R)
    ensures
        c.activate_experience_spec(signer, n, deposit, reward) is Ok <==> {
            &&& c.users.contains_key(signer)
            &&& c.experiences.contains_key(n)
            &&& c.experiences[n].status == Status::InProcess
            &&& c.experiences[n].owner == signer
            &&& deposit >= YOCTO_NEAR
        },
        c.activate_experience_spec(signer, n, deposit, reward) is Ok ==> {
            let e = c.activate_experience_spec(signer, n, deposit, reward)->Ok_0.experiences[n];
            let e0 = c.experiences[n];
            &&& e.status == Status::Active
            &&& e.reward == Some(reward)
            &&& e.owner == e0.owner && e.title == e0.title && e.topic == e0.topic
            &&& e.pov == e0.pov && e.winner == e0.winner
        },
{
}

/// A profile change is taken exactly when the signer is a registered user.
pub proof fn law_profile_change_taken_when<R>(c: ContractView<R>, signer: Seq<char>, text: Seq<char>, interests: u8)
    ensures
        c.set_user_name_spec(signer, text) is Ok <==> c.users.contains_key(signer),
        c.set_user_discord_spec(signer, text) is Ok <==> c.users.contains_key(signer),
        c.set_user_email_spec(signer, text) is Ok <==> c.users.contains_key(signer),
        c.set_user_interests_spec(signer, interests) is Ok <==> c.users.contains_key(signer),
        c.users.contains_key(signer) ==> {
            &&& c.set_user_name_spec(signer, text)->Ok_0.users[signer].name == text
            &&& c.set_user_discord_spec(signer, text)->Ok_0.users[signer].discord == text
            &&& c.set_user_email_spec(signer, text)->Ok_0.users[signer].email == text
            &&& c.set_user_interests_spec(signer, interests)->Ok_0.users[signer].interests == interests
        },
{
}

/// A change of an experience's details is taken exactly when the experience
/// exists and the signer owns it; a change of its expiration date needs it to
/// be in process too.
pub proof fn law_detail_change_taken_when<R>(
    c: ContractView<R>,
    signer: Seq<char>,
    n: u128,
    text: Seq<char>,
    time: u16,
    date: i64,
)
    ensures
        c.set_moment_comment_spec(signer, n, text) is Ok
            <==> (c.experiences.contains_key(n) && c.experiences[n].owner == signer),
        c.set_moment_time_spec(signer, n, time) is Ok
            <==> (c.experiences.contains_key(n) && c.experiences[n].owner == signer),
        c.set_experience_description_spec(signer, n, text) is Ok
            <==> (c.experiences.contains_key(n) && c.experiences[n].owner == signer),
        c.set_experience_expire_date_spec(signer, n, date) is Ok
            <==> (c.experiences.contains_key(n) && c.experiences[n].owner == signer
                && c.experiences[n].status == Status::InProcess),
        c.experiences.contains_key(n) && c.experiences[n].owner == signer ==> {
            &&& c.set_moment_comment_spec(signer, n, text)->Ok_0.experiences[n].moment == text
            &&& c.set_moment_time_spec(signer, n, time)->Ok_0.experiences[n].time == time
            &&& c.set_experience_description_spec(signer, n, text)->Ok_0.experiences[n].description == text
        },
        c.experiences.contains_key(n) && c.experiences[n].owner == signer
            && c.experiences[n].status == Status::InProcess
            ==> c.set_experience_expire_date_spec(signer, n, date)->Ok_0.experiences[n].exp_date == date,
{
}

/// In a state that keeps the invariant, a deletion is taken exactly when the
/// signer is a registered user that owns the experience and it is in process.
pub proof fn law_deletion_taken_when<R>(c: ContractView<R>, signer: Seq<char>, n: u128)
    requires
        c.wf(),
    ensures
        c.delete_experience_spec(signer, n) is Ok <==> {
            &&& c.users.contains_key(signer)
            &&& c.experiences.contains_key(n)
            &&& c.experiences[n].status == Status::InProcess
            &&& c.experiences[n].owner == signer
        },
{
    if c.experiences.contains_key(n) {
        assert(c.exp_wf(n));
    }
}

} // verus!