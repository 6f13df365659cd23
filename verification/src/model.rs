use vstd::prelude::*;

use crate::account::valid_account_id;

use crate::structs::{
    pov_has, ContractError, ExperienceView, Status, UserView, YOCTO_NEAR,
};

verus! {

/// The mathematical state of the contract.
pub struct ContractView<R> {
    /// The registered users, by account.
    pub users: Map<Seq<char>, UserView>,
    /// The accounts of the registered users, in the order of registration.
    pub user_list: Seq<Seq<char>>,
    /// The experiences, by number.
    pub experiences: Map<u128, ExperienceView<R>>,
    /// The numbers of the experiences published under each topic.
    pub exp_by_topic: Map<u8, Seq<u128>>,
    /// How many experiences were ever published; the last number given out.
    pub n_exp: u128,
    /// The wallet of the contract.
    pub ss_wallet: Seq<char>,
}

/// A user as registered: no experience and no point of view yet.
pub open spec fn new_user_view(name: Seq<char>, discord: Seq<char>, email: Seq<char>, interests: u8) -> UserView {
    UserView {
        name,
        discord,
        email,
        interests,
        my_exp: Seq::empty(),
        pov_exp: Seq::empty(),
        date: 0,
    }
}

/// The state of a contract just initialized with `wallet`.
pub open spec fn empty_contract<R>(wallet: Seq<char>) -> ContractView<R> {
    ContractView {
        users: Map::empty(),
        user_list: Seq::empty(),
        experiences: Map::empty(),
        exp_by_topic: Map::empty(),
        n_exp: 0,
        ss_wallet: wallet,
    }
}

/// How a call ended, against what the model says of it: on success the state
/// is the model's next state; on refusal the model refuses with the same error
/// and the state is unchanged.
pub open spec fn follows<R, T>(
    r: Result<T, ContractError>,
    before: ContractView<R>,
    after: ContractView<R>,
    expected: Result<ContractView<R>, ContractError>,
) -> bool {
    match r {
        Ok(_) => expected == Ok::<ContractView<R>, ContractError>(after),
        Err(e) => expected == Err::<ContractView<R>, ContractError>(e) && after == before,
    }
}

impl<R> ContractView<R> {
    /// The facts about experience `n` that every reachable state keeps.
    pub open spec fn exp_wf(self, n: u128) -> bool {
        let e = self.experiences[n];
        &&& 1 <= n <= self.n_exp
        &&& (e.status == Status::Active) == (e.reward is Some)
        &&& self.has_user(e.owner)
        &&& self.users[e.owner].my_exp.contains(n)
        &&& self.topic_list(e.topic).contains(n)
        &&& forall|i: int|
            0 <= i < e.pov.len() ==> {
                &&& self.has_user(#[trigger] e.pov[i].0)
                &&& self.users[e.pov[i].0].pov_exp.contains(n)
                &&& e.pov[i].0 != e.owner
            }
        &&& forall|i: int, j: int|
            0 <= i < j < e.pov.len() ==> #[trigger] e.pov[i].0 != #[trigger] e.pov[j].0
        &&& e.status == Status::Closed ==> pov_has(e.pov, e.winner)
        &&& e.status != Status::Closed ==> e.winner == Seq::<char>::empty()
    }

    /// The invariant of the contract's state.
    pub open spec fn wf(self) -> bool {
        &&& self.user_list.no_duplicates()
        &&& forall|a: Seq<char>| #[trigger] self.users.contains_key(a) ==> valid_account_id(a)
        &&& forall|a: Seq<char>|
            #![trigger self.users.contains_key(a)]
            #![trigger self.user_list.contains(a)]
            self.users.contains_key(a) <==> self.user_list.contains(a)
        &&& forall|n: u128| #[trigger] self.experiences.contains_key(n) ==> self.exp_wf(n)
        &&& forall|a: Seq<char>, i: int|
            self.users.contains_key(a) && 0 <= i < self.users[a].pov_exp.len()
                ==> #[trigger] self.users[a].pov_exp[i] <= self.n_exp
        &&& forall|a: Seq<char>, i: int, j: int|
            self.users.contains_key(a) && 0 <= i < j < self.users[a].pov_exp.len()
                ==> #[trigger] self.users[a].pov_exp[i] != #[trigger] self.users[a].pov_exp[j]
        &&& forall|a: Seq<char>, n: u128|
            self.users.contains_key(a) && #[trigger] self.users[a].pov_exp.contains(n)
                && #[trigger] self.experiences.contains_key(n) ==> pov_has(self.experiences[n].pov, a)
    }

    pub open spec fn has_user(self, account: Seq<char>) -> bool {
        self.users.contains_key(account)
    }

    pub open spec fn has_exp(self, n: u128) -> bool {
        self.experiences.contains_key(n)
    }

    /// The numbers listed under a topic; empty when none was ever listed.
    pub open spec fn topic_list(self, topic: u8) -> Seq<u128> {
        if self.exp_by_topic.contains_key(topic) {
            self.exp_by_topic[topic]
        } else {
            Seq::empty()
        }
    }

    pub open spec fn with_user(self, account: Seq<char>, u: UserView) -> Self {
        ContractView { users: self.users.insert(account, u), ..self }
    }

    pub open spec fn with_exp(self, n: u128, e: ExperienceView<R>) -> Self {
        ContractView { experiences: self.experiences.insert(n, e), ..self }
    }

    /// The refusal of a request on experience `n` by `signer` that only its owner
    /// may make, if any.
    pub open spec fn owner_check(self, signer: Seq<char>, n: u128) -> Option<ContractError> {
        if !self.has_exp(n) {
            Some(ContractError::ExperienceNotFound)
        } else if self.experiences[n].owner != signer {
            Some(ContractError::NotExperienceOwner)
        } else {
            None
        }
    }

    /// The refusal of a request on experience `n` that needs it to be in `status`, if any.
    pub open spec fn status_check(self, n: u128, status: Status) -> Option<ContractError> {
        if !self.has_exp(n) {
            Some(ContractError::ExperienceNotFound)
        } else if self.experiences[n].status != status {
            Some(ContractError::StatusMismatch(status))
        } else {
            None
        }
    }

    /// Registering `signer` as a user.
    pub open spec fn set_user_spec(
        self,
        signer: Seq<char>,
        name: Seq<char>,
        discord: Seq<char>,
        email: Seq<char>,
        interests: u8,
    ) -> Result<Self, ContractError> {
        if self.has_user(signer) {
            Err(ContractError::UserAlreadyExists)
        } else {
            Ok(ContractView {
                users: self.users.insert(signer, new_user_view(name, discord, email, interests)),
                user_list: self.user_list.push(signer),
                ..self
            })
        }
    }

    /// Publishing an experience; `deposit` is what the signer attached, `reward`
    /// what the caller computed from it. On success the experience gets the
    /// number `self.n_exp + 1`.
    pub open spec fn set_experience_spec(
        self,
        signer: Seq<char>,
        deposit: u128,
        reward: R,
        title: Seq<char>,
        description: Seq<char>,
        url: Seq<char>,
        moment: Seq<char>,
        time: u16,
        expire_date: i64,
        topic: u8,
    ) -> Result<Self, ContractError> {
        if !self.has_user(signer) {
            Err(ContractError::UserNotFound)
        } else if 0 < deposit && deposit < YOCTO_NEAR {
            Err(ContractError::WrongDepositAmount)
        } else if self.n_exp == u128::MAX {
            Err(ContractError::CountExhausted)
        } else {
            let n = (self.n_exp + 1) as u128;
            let funded = deposit > 0;
            let e = ExperienceView {
                title,
                owner: signer,
                description,
                url,
                topic,
                reward: if funded { Some(reward) } else { None },
                exp_date: expire_date,
                moment,
                time,
                pov: Seq::empty(),
                winner: Seq::empty(),
                status: if funded { Status::Active } else { Status::InProcess },
            };
            let u = self.users[signer];
            Ok(ContractView {
                users: self.users.insert(signer, UserView { my_exp: u.my_exp.push(n), ..u }),
                experiences: self.experiences.insert(n, e),
                exp_by_topic: self.exp_by_topic.insert(topic, self.topic_list(topic).push(n)),
                n_exp: n,
                ..self
            })
        }
    }

    /// Replacing a registered user's record by `u`.
    pub open spec fn update_user_spec(self, signer: Seq<char>, u: UserView) -> Result<Self, ContractError> {
        if !self.has_user(signer) {
            Err(ContractError::UserNotFound)
        } else {
            Ok(self.with_user(signer, u))
        }
    }

    pub open spec fn set_user_discord_spec(self, signer: Seq<char>, discord: Seq<char>) -> Result<Self, ContractError> {
        self.update_user_spec(signer, UserView { discord, ..self.users[signer] })
    }

    pub open spec fn set_user_email_spec(self, signer: Seq<char>, email: Seq<char>) -> Result<Self, ContractError> {
        self.update_user_spec(signer, UserView { email, ..self.users[signer] })
    }

    pub open spec fn set_user_interests_spec(self, signer: Seq<char>, interests: u8) -> Result<Self, ContractError> {
        self.update_user_spec(signer, UserView { interests, ..self.users[signer] })
    }

    pub open spec fn set_user_name_spec(self, signer: Seq<char>, name: Seq<char>) -> Result<Self, ContractError> {
        self.update_user_spec(signer, UserView { name, ..self.users[signer] })
    }

    /// Replacing the record of experience `n`, which only its owner may do, by `e`.
    pub open spec fn update_owned_exp_spec(self, signer: Seq<char>, n: u128, e: ExperienceView<R>) -> Result<Self, ContractError> {
        match self.owner_check(signer, n) {
            Some(err) => Err(err),
            None => Ok(self.with_exp(n, e)),
        }
    }

    pub open spec fn set_moment_comment_spec(self, signer: Seq<char>, n: u128, comment: Seq<char>) -> Result<Self, ContractError> {
        self.update_owned_exp_spec(signer, n, ExperienceView { moment: comment, ..self.experiences[n] })
    }

    pub open spec fn set_moment_time_spec(self, signer: Seq<char>, n: u128, time: u16) -> Result<Self, ContractError> {
        self.update_owned_exp_spec(signer, n, ExperienceView { time, ..self.experiences[n] })
    }

    pub open spec fn set_experience_description_spec(self, signer: Seq<char>, n: u128, description: Seq<char>) -> Result<Self, ContractError> {
        self.update_owned_exp_spec(signer, n, ExperienceView { description, ..self.experiences[n] })
    }

    pub open spec fn set_experience_expire_date_spec(self, signer: Seq<char>, n: u128, date: i64) -> Result<Self, ContractError> {
        match self.owner_check(signer, n) {
            Some(err) => Err(err),
            None => if self.experiences[n].status != Status::InProcess {
                Err(ContractError::NotInProcess)
            } else {
                Ok(self.with_exp(n, ExperienceView { exp_date: date, ..self.experiences[n] }))
            },
        }
    }

    /// `signer` gives the point of view `pov` on experience `n`.
    pub open spec fn set_pov_spec(self, signer: Seq<char>, n: u128, pov: Seq<char>, date: i64) -> Result<Self, ContractError> {
        match self.status_check(n, Status::Active) {
            Some(err) => Err(err),
            None => {
                let e = self.experiences[n];
                if !self.has_user(signer) {
                    Err(ContractError::UserNotFound)
                } else if e.owner == signer {
                    Err(ContractError::OwnExperiencePov)
                } else if pov_has(e.pov, signer) {
                    Err(ContractError::PovAlreadyGiven)
                } else {
                    let u = self.users[signer];
                    Ok(self.with_exp(n, ExperienceView { pov: e.pov.push((signer, pov)), ..e }).with_user(
                        signer,
                        UserView { pov_exp: u.pov_exp.push(n), date, ..u },
                    ))
                }
            },
        }
    }

    /// The owner of experience `n` pays its reward to `wallet` and closes it.
    pub open spec fn pay_reward_spec(self, signer: Seq<char>, n: u128, wallet: Seq<char>) -> Result<Self, ContractError> {
        match self.owner_check(signer, n) {
            Some(err) => Err(err),
            None => {
                let e = self.experiences[n];
                if e.status != Status::Active {
                    Err(ContractError::NotActive)
                } else if !pov_has(e.pov, wallet) {
                    Err(ContractError::NoPovFromWinner)
                } else {
                    Ok(self.with_exp(n, ExperienceView { status: Status::Closed, reward: None, winner: wallet, ..e }))
                }
            },
        }
    }

    /// The owner of experience `n` funds it with `deposit`; `reward` is what the
    /// caller computed from the deposit.
    pub open spec fn activate_experience_spec(self, signer: Seq<char>, n: u128, deposit: u128, reward: R) -> Result<Self, ContractError> {
        if !self.has_user(signer) {
            Err(ContractError::UserNotFound)
        } else if !self.has_exp(n) {
            Err(ContractError::ExperienceNotFound)
        } else if self.experiences[n].status != Status::InProcess {
            Err(ContractError::AlreadyActivated)
        } else if self.experiences[n].owner != signer {
            Err(ContractError::NotExperienceOwner)
        } else if deposit < YOCTO_NEAR {
            Err(ContractError::NotEnoughTokens)
        } else {
            Ok(self.with_exp(n, ExperienceView { status: Status::Active, reward: Some(reward), ..self.experiences[n] }))
        }
    }

    /// The owner of experience `n`, still in process, deletes it. The numbers
    /// listed for it (under its topic, in the owner's list) stay.
    pub open spec fn delete_experience_spec(self, signer: Seq<char>, n: u128) -> Result<Self, ContractError> {
        if !self.has_user(signer) {
            Err(ContractError::UserNotFound)
        } else {
            match self.status_check(n, Status::InProcess) {
                Some(err) => Err(err),
                None => if self.experiences[n].owner != signer {
                    Err(ContractError::NotExperienceOwner)
                } else if !self.users[signer].my_exp.contains(n) {
                    Err(ContractError::MissingFromUserList)
                } else {
                    Ok(ContractView { experiences: self.experiences.remove(n), ..self })
                },
            }
        }
    }

    /// A request by `signer` to withdraw its point of view on experience `n`. It
    /// is refused while that point of view is recorded, and when it goes
    /// through nothing changes.
    pub open spec fn delete_pov_spec(self, signer: Seq<char>, n: u128) -> Result<Self, ContractError> {
        if !self.has_user(signer) {
            Err(ContractError::UserNotFound)
        } else {
            match self.status_check(n, Status::Active) {
                Some(err) => Err(err),
                None => if pov_has(self.experiences[n].pov, signer) {
                    Err(ContractError::PovStillGiven)
                } else if !self.users[signer].pov_exp.contains(n) {
                    Err(ContractError::MissingFromUserList)
                } else {
                    Ok(self)
                },
            }
        }
    }
}

/// A request that changes the contract, as the model sees it.
pub enum Action<R> {
    SetUser { signer: Seq<char>, name: Seq<char>, discord: Seq<char>, email: Seq<char>, interests: u8 },
    SetExperience {
        signer: Seq<char>,
        deposit: u128,
        reward: R,
        title: Seq<char>,
        description: Seq<char>,
        url: Seq<char>,
        moment: Seq<char>,
        time: u16,
        expire_date: i64,
        topic: u8,
    },
    SetUserDiscord { signer: Seq<char>, discord: Seq<char> },
    SetUserEmail { signer: Seq<char>, email: Seq<char> },
    SetUserInterests { signer: Seq<char>, interests: u8 },
    SetUserName { signer: Seq<char>, name: Seq<char> },
    SetMomentComment { signer: Seq<char>, n: u128, comment: Seq<char> },
    SetMomentTime { signer: Seq<char>, n: u128, time: u16 },
    SetExperienceDescription { signer: Seq<char>, n: u128, description: Seq<char> },
    SetExperienceExpireDate { signer: Seq<char>, n: u128, date: i64 },
    SetPov { signer: Seq<char>, n: u128, pov: Seq<char>, date: i64 },
    PayReward { signer: Seq<char>, n: u128, wallet: Seq<char> },
    ActivateExperience { signer: Seq<char>, n: u128, deposit: u128, reward: R },
    DeleteExperience { signer: Seq<char>, n: u128 },
    DeletePov { signer: Seq<char>, n: u128 },
}

impl<R> ContractView<R> {
    /// Whether the request can reach the contract at all: a registration comes
    /// from a signer, whose name is always a valid account.
    pub open spec fn admits(self, a: Action<R>) -> bool {
        match a {
            Action::SetUser { signer, .. } => valid_account_id(signer),
            _ => true,
        }
    }

    /// What the request does to the state.
    pub open spec fn apply(self, a: Action<R>) -> Result<Self, ContractError> {
        match a {
            Action::SetUser { signer, name, discord, email, interests } =>
                self.set_user_spec(signer, name, discord, email, interests),
            Action::SetExperience { signer, deposit, reward, title, description, url, moment, time, expire_date, topic } =>
                self.set_experience_spec(signer, deposit, reward, title, description, url, moment, time, expire_date, topic),
            Action::SetUserDiscord { signer, discord } => self.set_user_discord_spec(signer, discord),
            Action::SetUserEmail { signer, email } => self.set_user_email_spec(signer, email),
            Action::SetUserInterests { signer, interests } => self.set_user_interests_spec(signer, interests),
            Action::SetUserName { signer, name } => self.set_user_name_spec(signer, name),
            Action::SetMomentComment { signer, n, comment } => self.set_moment_comment_spec(signer, n, comment),
            Action::SetMomentTime { signer, n, time } => self.set_moment_time_spec(signer, n, time),
            Action::SetExperienceDescription { signer, n, description } =>
                self.set_experience_description_spec(signer, n, description),
            Action::SetExperienceExpireDate { signer, n, date } => self.set_experience_expire_date_spec(signer, n, date),
            Action::SetPov { signer, n, pov, date } => self.set_pov_spec(signer, n, pov, date),
            Action::PayReward { signer, n, wallet } => self.pay_reward_spec(signer, n, wallet),
            Action::ActivateExperience { signer, n, deposit, reward } =>
                self.activate_experience_spec(signer, n, deposit, reward),
            Action::DeleteExperience { signer, n } => self.delete_experience_spec(signer, n),
            Action::DeletePov { signer, n } => self.delete_pov_spec(signer, n),
        }
    }
}

impl<R> ContractView<R> {
    /// One request tried on the state: taken when the contract can take it and
    /// does not refuse it, otherwise the state stays as it was.
    pub open spec fn step(self, a: Action<R>) -> Self {
        if self.admits(a) && self.apply(a) is Ok {
            self.apply(a)->Ok_0
        } else {
            self
        }
    }

    /// The state after the requests of `acts`, tried in turn.
    pub open spec fn run(self, acts: Seq<Action<R>>) -> Self
        decreases acts.len(),
    {
        if acts.len() == 0 {
            self
        } else {
            self.run(acts.drop_last()).step(acts.last())
        }
    }

    /// The numbers given out by the publications of `acts` that were taken, each
    /// with its topic, in order.
    pub open spec fn published(self, acts: Seq<Action<R>>) -> Seq<(u128, u8)>
        decreases acts.len(),
    {
        if acts.len() == 0 {
            Seq::empty()
        } else {
            let before = self.run(acts.drop_last());
            let earlier = self.published(acts.drop_last());
            let a = acts.last();
            match a {
                Action::SetExperience { topic, .. } => if before.admits(a) && before.apply(a) is Ok {
                    earlier.push(((before.n_exp + 1) as u128, topic))
                } else {
                    earlier
                },
                _ => earlier,
            }
        }
    }

    /// The accounts registered by the registrations of `acts` that were taken,
    /// in order.
    pub open spec fn registered(self, acts: Seq<Action<R>>) -> Seq<Seq<char>>
        decreases acts.len(),
    {
        if acts.len() == 0 {
            Seq::empty()
        } else {
            let before = self.run(acts.drop_last());
            let earlier = self.registered(acts.drop_last());
            let a = acts.last();
            match a {
                Action::SetUser { signer, .. } => if before.admits(a) && before.apply(a) is Ok {
                    earlier.push(signer)
                } else {
                    earlier
                },
                _ => earlier,
            }
        }
    }
}

/// The numbers among `ps` published under `topic`, in order.
pub open spec fn numbers_with_topic(ps: Seq<(u128, u8)>, topic: u8) -> Seq<u128>
    decreases ps.len(),
{
    if ps.len() == 0 {
        Seq::empty()
    } else if ps.last().1 == topic {
        numbers_with_topic(ps.drop_last(), topic).push(ps.last().0)
    } else {
        numbers_with_topic(ps.drop_last(), topic)
    }
}

/// Whether the numbers of `s` strictly increase.
pub open spec fn strictly_increasing(s: Seq<u128>) -> bool {
    forall|i: int, j: int| 0 <= i < j < s.len() ==> #[trigger] s[i] < #[trigger] s[j]
}

} // verus!