use vstd::hash_map::{HashMapWithView, StringHashMap};
use vstd::prelude::*;

use crate::account::near_is_valid_account_id;
use crate::laws::{law_delete_pov_always_refused, law_initial_state_wf, lemma_delete_experience_wf};
use crate::model::{empty_contract, follows, ContractView};
use crate::structs::{pov_entry_view, pov_has, ContractError, Experience, Status, User};

pub mod enumerations;
pub mod setters;

verus! {

broadcast use vstd::std_specs::hash::group_hash_axioms;

/// The state of the contract.
#[verifier::reject_recursive_types(R)]
pub struct Contract<R> {
    pub(crate) users: StringHashMap<User>,
    pub(crate) user_list: Vec<String>,
    pub(crate) experience: HashMapWithView<u128, Experience<R>>,
    pub(crate) exp_by_topic: HashMapWithView<u8, Vec<u128>>,
    pub(crate) n_exp: u128,
    pub(crate) ss_wallet: String,
}

impl<R> View for Contract<R> {
    type V = ContractView<R>;

    closed spec fn view(&self) -> ContractView<R> {
        ContractView {
            users: self.users@.map_values(|u: User| u@),
            user_list: self.user_list@.map_values(|s: String| s@),
            experiences: self.experience@.map_values(|e: Experience<R>| e@),
            exp_by_topic: self.exp_by_topic@.map_values(|v: Vec<u128>| v@),
            n_exp: self.n_exp,
            ss_wallet: self.ss_wallet@,
        }
    }
}

/// A copy of a list of experience numbers.
pub(crate) fn copy_numbers(v: &Vec<u128>) -> (r: Vec<u128>)
    ensures
        r@ == v@,
{
    let mut r: Vec<u128> = Vec::new();
    let mut i: usize = 0;
    while i < v.len()
        invariant
            i <= v.len(),
            r@ == v@.subrange(0, i as int),
        decreases v.len() - i,
    {
        r.push(v[i]);
        i += 1;
    }
    assert(r@ =~= v@);
    r
}

/// A copy of a user record.
pub(crate) fn copy_user(u: &User) -> (r: User)
    ensures
        r@ == u@,
{
    User {
        name: u.name.clone(),
        discord: u.discord.clone(),
        email: u.email.clone(),
        interests: u.interests,
        my_exp: copy_numbers(&u.my_exp),
        pov_exp: copy_numbers(&u.pov_exp),
        date: u.date,
    }
}

/// A copy of a list of points of view.
pub(crate) fn copy_povs(v: &Vec<(String, String)>) -> (r: Vec<(String, String)>)
    ensures
        r@.map_values(|p: (String, String)| pov_entry_view(p))
            == v@.map_values(|p: (String, String)| pov_entry_view(p)),
{
    let mut r: Vec<(String, String)> = Vec::new();
    let mut i: usize = 0;
    while i < v.len()
        invariant
            i <= v.len(),
            r@.len() == i,
            forall|j: int|
                0 <= j < i ==> pov_entry_view(#[trigger] r@[j])
                    == pov_entry_view(v@[j]),
        decreases v.len() - i,
    {
        let p = (v[i].0.clone(), v[i].1.clone());
        r.push(p);
        i += 1;
    }
    assert(r@.map_values(|p: (String, String)| pov_entry_view(p))
        =~= v@.map_values(|p: (String, String)| pov_entry_view(p)));
    r
}

/// A copy of an experience record.
pub(crate) fn copy_experience<R: Copy>(e: &Experience<R>) -> (r: Experience<R>)
    ensures
        r@ == e@,
{
    Experience {
        title: e.title.clone(),
        owner: e.owner.clone(),
        description: e.description.clone(),
        url: e.url.clone(),
        topic: e.topic,
        reward: e.reward,
        exp_date: e.exp_date,
        moment: e.moment.clone(),
        time: e.time,
        pov: copy_povs(&e.pov),
        winner: e.winner.clone(),
        status: e.status,
    }
}

impl<R> Contract<R> {
    /// An empty contract whose wallet is `wallet`, with no check on the wallet.
    fn empty(wallet: String) -> (c: Self)
        ensures
            c@ == empty_contract::<R>(wallet@),
    {
        let c = Contract {
            users: StringHashMap::new(),
            user_list: Vec::new(),
            experience: HashMapWithView::new(),
            exp_by_topic: HashMapWithView::new(),
            n_exp: 0,
            ss_wallet: wallet,
        };
        assert(c@.users =~= Map::empty());
        assert(c@.user_list =~= Seq::empty());
        assert(c@.experiences =~= Map::empty());
        assert(c@.exp_by_topic =~= Map::empty());
        c
    }

    /// Initializes the contract with its wallet; refused when the wallet is not
    /// a valid account.
    pub fn new(wallet: String) -> (r: Result<Self, ContractError>)
        ensures
            match r {
                Ok(c) => c@ == empty_contract::<R>(wallet@) && c@.wf() && crate::account::valid_account_id(wallet@),
                Err(e) => e == ContractError::InvalidAccount && !crate::account::valid_account_id(wallet@),
            },
    {
        proof {
            law_initial_state_wf::<R>(wallet@);
        }
        if !near_is_valid_account_id(&wallet) {
            return Err(ContractError::InvalidAccount);
        }
        Ok(Self::empty(wallet))
    }
}

impl<R> Contract<R> {
    /// Puts `u` as the record of `account`.
    pub(crate) fn put_user(&mut self, account: &String, u: User)
        requires
            old(self)@.has_user(account@),
        ensures
            final(self)@ == old(self)@.with_user(account@, u@),
    {
        proof {
            assert(old(self).users@.dom().contains(account@));
        }
        self.users.insert(account.clone(), u);
        assert(self@.users =~= old(self)@.users.insert(account@, u@));
    }

    /// Puts `e` as the record of experience `n`.
    pub(crate) fn put_experience(&mut self, n: u128, e: Experience<R>)
        ensures
            final(self)@ == old(self)@.with_exp(n, e@),
    {
        self.experience.insert(n, e);
        assert(self@.experiences =~= old(self)@.experiences.insert(n, e@));
    }

    /// A copy of the record of a registered user.
    pub(crate) fn user_copy(&self, account: &String) -> (r: User)
        requires
            self@.has_user(account@),
        ensures
            r@ == self@.users[account@],
    {
        copy_user(self.users.get(account.as_str()).unwrap())
    }
}

/// Whether `account` gave one of the points of view in `pov`.
pub(crate) fn pov_contains(pov: &Vec<(String, String)>, account: &String) -> (r: bool)
    ensures
        r == pov_has(pov@.map_values(|p: (String, String)| pov_entry_view(p)), account@),
{
    let ghost view = pov@.map_values(|p: (String, String)| pov_entry_view(p));
    let mut i: usize = 0;
    while i < pov.len()
        invariant
            i <= pov.len(),
            view == pov@.map_values(|p: (String, String)| pov_entry_view(p)),
            forall|j: int| 0 <= j < i ==> view[j].0 != account@,
        decreases pov.len() - i,
    {
        assert(view[i as int].0 == pov@[i as int].0@);
        if pov[i].0 == *account {
            assert(view[i as int].0 == account@);
            return true;
        }
        i += 1;
    }
    proof {
        if pov_has(view, account@) {
            let j = choose|j: int| 0 <= j < view.len() && #[trigger] view[j].0 == account@;
            assert(view[j].0 != account@);
        }
    }
    false
}

/// Whether `n` is among `numbers`.
pub(crate) fn numbers_contain(numbers: &Vec<u128>, n: u128) -> (r: bool)
    ensures
        r == numbers@.contains(n),
{
    let mut i: usize = 0;
    while i < numbers.len()
        invariant
            i <= numbers.len(),
            forall|j: int| 0 <= j < i ==> numbers@[j] != n,
        decreases numbers.len() - i,
    {
        if numbers[i] == n {
            return true;
        }
        i += 1;
    }
    false
}

impl<R> Contract<R> {
    /// Refuses when no experience has the number `video_n`.
    pub(crate) fn verify_exp(&self, video_n: u128) -> (r: Result<(), ContractError>)
        ensures
            r is Ok <==> self@.has_exp(video_n),
            r is Err ==> r == Err::<(), ContractError>(ContractError::ExperienceNotFound),
    {
        if !self.experience.contains_key(&video_n) {
            return Err(ContractError::ExperienceNotFound);
        }
        Ok(())
    }

    /// Refuses unless experience `video_n` exists and `wallet` owns it.
    pub(crate) fn verify_exp_owner(&self, video_n: u128, wallet: &String) -> (r: Result<(), ContractError>)
        ensures
            match self@.owner_check(wallet@, video_n) {
                Some(e) => r == Err::<(), ContractError>(e),
                None => r is Ok,
            },
    {
        match self.experience.get(&video_n) {
            None => Err(ContractError::ExperienceNotFound),
            Some(e) => if e.owner != *wallet {
                Err(ContractError::NotExperienceOwner)
            } else {
                Ok(())
            },
        }
    }

    /// Refuses unless experience `video_n` exists and is in `status`.
    pub(crate) fn verify_exp_status(&self, video_n: u128, status: Status) -> (r: Result<(), ContractError>)
        ensures
            match self@.status_check(video_n, status) {
                Some(e) => r == Err::<(), ContractError>(e),
                None => r is Ok,
            },
    {
        self.verify_exp(video_n)?;
        let e = self.experience.get(&video_n).unwrap();
        if e.status != status {
            return Err(ContractError::StatusMismatch(status));
        }
        Ok(())
    }

    /// Refuses unless `wallet` is a registered user.
    pub(crate) fn verify_user(&self, wallet: &String) -> (r: Result<(), ContractError>)
        ensures
            r is Ok <==> self@.has_user(wallet@),
            r is Err ==> r == Err::<(), ContractError>(ContractError::UserNotFound),
    {
        if !self.users.contains_key(wallet.as_str()) {
            return Err(ContractError::UserNotFound);
        }
        Ok(())
    }

    /// Takes the record of experience `n` out of the state.
    pub(crate) fn take_experience(&mut self, n: u128) -> (e: Experience<R>)
        requires
            old(self)@.has_exp(n),
        ensures
            e@ == old(self)@.experiences[n],
            final(self)@ == (ContractView { experiences: old(self)@.experiences.remove(n), ..old(self)@ }),
    {
        let e = self.experience.remove(&n).unwrap();
        assert(self@.experiences =~= old(self)@.experiences.remove(n));
        e
    }
}

impl<R> Contract<R> {
    /// The owner `signer` deletes its experience `video_n`, still in process.
    /// The experience's number stays in the owner's list and under its topic.
    pub fn delete_experience(&mut self, signer: &String, video_n: u128) -> (r: Result<(), ContractError>)
        ensures
            old(self)@.wf() ==> final(self)@.wf(),
            follows(r, old(self)@, final(self)@, old(self)@.delete_experience_spec(signer@, video_n)),
    {
        proof {
            if self@.wf() && self@.delete_experience_spec(signer@, video_n) is Ok {
                lemma_delete_experience_wf(self@, signer@, video_n);
            }
        }
        self.verify_user(signer)?;
        self.verify_exp_status(video_n, Status::InProcess)?;
        self.verify_exp_owner(video_n, signer)?;
        if !numbers_contain(&self.users.get(signer.as_str()).unwrap().my_exp, video_n) {
            return Err(ContractError::MissingFromUserList);
        }
        let _ = self.take_experience(video_n);
        Ok(())
    }

    /// A request by `signer` to withdraw its point of view on the active
    /// experience `video_n`: refused while the point of view is recorded, and
    /// when it goes through the state stays as it is.
    pub fn delete_pov(&mut self, signer: &String, video_n: u128) -> (r: Result<(), ContractError>)
        ensures
            old(self)@.wf() ==> r is Err,
            final(self)@ == old(self)@,
            follows(r, old(self)@, final(self)@, old(self)@.delete_pov_spec(signer@, video_n)),
    {
        proof {
            if self@.wf() {
                law_delete_pov_always_refused(self@, signer@, video_n);
            }
        }
        self.verify_user(signer)?;
        self.verify_exp_status(video_n, Status::Active)?;
        if pov_contains(&self.experience.get(&video_n).unwrap().pov, signer) {
            return Err(ContractError::PovStillGiven);
        }
        if !numbers_contain(&self.users.get(signer.as_str()).unwrap().pov_exp, video_n) {
            return Err(ContractError::MissingFromUserList);
        }
        Ok(())
    }
}

} // verus!