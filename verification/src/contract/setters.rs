use vstd::prelude::*;

use crate::account::valid_account_id;
use crate::contract::{copy_numbers, pov_contains, Contract};
use crate::laws::{
    law_publication_number_is_fresh,
    lemma_activate_experience_wf, lemma_pay_reward_wf, lemma_set_experience_wf, lemma_set_pov_wf,
    lemma_set_user_wf, lemma_update_exp_details_wf, lemma_update_user_wf,
};
use crate::model::follows;
use crate::structs::{ContractError, Experience, ExperienceView, Status, User, UserView, YOCTO_NEAR};

verus! {

impl<R> Contract<R> {
    /// Registers `signer` as a user with the given profile. The signer of a
    /// request is always a valid account.
    pub fn set_user(
        &mut self,
        signer: &String,
        name: String,
        discord: String,
        email: String,
        interests: u8,
    ) -> (r: Result<(), ContractError>)
        requires
            valid_account_id(signer@),
        ensures
            old(self)@.wf() ==> final(self)@.wf(),
            follows(r, old(self)@, final(self)@,
                old(self)@.set_user_spec(signer@, name@, discord@, email@, interests)),
    {
        proof {
            if self@.wf() && self@.set_user_spec(signer@, name@, discord@, email@, interests) is Ok {
                lemma_set_user_wf(self@, signer@, name@, discord@, email@, interests);
            }
        }
        if self.users.contains_key(signer.as_str()) {
            return Err(ContractError::UserAlreadyExists);
        }
        let ghost before = self@;
        let u = User {
            name,
            discord,
            email,
            interests,
            my_exp: Vec::new(),
            pov_exp: Vec::new(),
            date: 0,
        };
        self.users.insert(signer.clone(), u);
        self.user_list.push(signer.clone());
        assert(self@.users =~= before.set_user_spec(signer@, name@, discord@, email@, interests)->Ok_0.users);
        assert(self@.user_list =~= before.user_list.push(signer@));
        Ok(())
    }

    /// Publishes an experience by `signer` and returns its number. `deposit` is
    /// what the signer attached; when it is not zero it must be at least one
    /// NEAR, and the experience is then active and holds `reward`.
    pub fn set_experience(
        &mut self,
        signer: &String,
        deposit: u128,
        reward: R,
        experience_name: String,
        description: String,
        url: String,
        moment: String,
        time: u16,
        expire_date: i64,
        topic: u8,
    ) -> (r: Result<u128, ContractError>)
        ensures
            old(self)@.wf() ==> final(self)@.wf(),
            follows(r, old(self)@, final(self)@,
                old(self)@.set_experience_spec(signer@, deposit, reward, experience_name@,
                    description@, url@, moment@, time, expire_date, topic)),
            r is Ok ==> r->Ok_0 == old(self)@.n_exp + 1,
            old(self)@.wf() && r is Ok ==> !old(self)@.has_exp(r->Ok_0),
    {
        proof {
            if self@.wf() && self@.set_experience_spec(signer@, deposit, reward, experience_name@, description@, url@, moment@, time, expire_date, topic) is Ok {
                lemma_set_experience_wf(self@, signer@, deposit, reward, experience_name@, description@, url@, moment@, time, expire_date, topic);
                law_publication_number_is_fresh(self@, signer@, deposit, reward, experience_name@, description@, url@, moment@, time, expire_date, topic);
            }
        }
        if !self.users.contains_key(signer.as_str()) {
            return Err(ContractError::UserNotFound);
        }
        let ghost before = self@;
        let mut stat = Status::InProcess;
        let mut held: Option<R> = None;
        if deposit > 0 {
            if deposit < YOCTO_NEAR {
                return Err(ContractError::WrongDepositAmount);
            }
            held = Some(reward);
            stat = Status::Active;
        }
        if self.n_exp == u128::MAX {
            return Err(ContractError::CountExhausted);
        }
        self.n_exp = self.n_exp + 1;
        let n = self.n_exp;
        let e = Experience {
            title: experience_name,
            owner: signer.clone(),
            description,
            url,
            topic,
            reward: held,
            exp_date: expire_date,
            moment,
            time,
            pov: Vec::new(),
            winner: String::new(),
            status: stat,
        };
        assert(e@.pov =~= Seq::empty());
        self.put_experience(n, e);
        let mut list = match self.exp_by_topic.get(&topic) {
            Some(v) => copy_numbers(v),
            None => Vec::new(),
        };
        list.push(n);
        self.exp_by_topic.insert(topic, list);
        let mut u = self.user_copy(signer);
        u.my_exp.push(n);
        self.put_user(signer, u);
        proof {
            let next = before.set_experience_spec(signer@, deposit, reward, experience_name@,
                description@, url@, moment@, time, expire_date, topic)->Ok_0;
            assert(self@.experiences =~= next.experiences);
            assert(self@.exp_by_topic =~= next.exp_by_topic);
            assert(self@.users =~= next.users);
        }
        Ok(n)
    }

    /// Changes the discord of the registered user `signer`.
    pub fn set_user_discord(&mut self, signer: &String, discord: String) -> (r: Result<(), ContractError>)
        ensures
            old(self)@.wf() ==> final(self)@.wf(),
            follows(r, old(self)@, final(self)@, old(self)@.set_user_discord_spec(signer@, discord@)),
    {
        proof {
            if self@.wf() && self@.set_user_discord_spec(signer@, discord@) is Ok {
                lemma_update_user_wf(self@, signer@, UserView { discord: discord@, ..self@.users[signer@] });
            }
        }
        self.verify_user(signer)?;
        let mut user = self.user_copy(signer);
        user.discord = discord;
        self.put_user(signer, user);
        Ok(())
    }

    /// Changes the email of the registered user `signer`.
    pub fn set_user_email(&mut self, signer: &String, email: String) -> (r: Result<(), ContractError>)
        ensures
            old(self)@.wf() ==> final(self)@.wf(),
            follows(r, old(self)@, final(self)@, old(self)@.set_user_email_spec(signer@, email@)),
    {
        proof {
            if self@.wf() && self@.set_user_email_spec(signer@, email@) is Ok {
                lemma_update_user_wf(self@, signer@, UserView { email: email@, ..self@.users[signer@] });
            }
        }
        self.verify_user(signer)?;
        let mut user = self.user_copy(signer);
        user.email = email;
        self.put_user(signer, user);
        Ok(())
    }

    /// Changes the interests of the registered user `signer`.
    pub fn set_user_interests(&mut self, signer: &String, interests: u8) -> (r: Result<(), ContractError>)
        ensures
            old(self)@.wf() ==> final(self)@.wf(),
            follows(r, old(self)@, final(self)@, old(self)@.set_user_interests_spec(signer@, interests)),
    {
        proof {
            if self@.wf() && self@.set_user_interests_spec(signer@, interests) is Ok {
                lemma_update_user_wf(self@, signer@, UserView { interests, ..self@.users[signer@] });
            }
        }
        self.verify_user(signer)?;
        let mut user = self.user_copy(signer);
        user.interests = interests;
        self.put_user(signer, user);
        Ok(())
    }

    /// Changes the name of the registered user `signer`.
    pub fn set_user_name(&mut self, signer: &String, name: String) -> (r: Result<(), ContractError>)
        ensures
            old(self)@.wf() ==> final(self)@.wf(),
            follows(r, old(self)@, final(self)@, old(self)@.set_user_name_spec(signer@, name@)),
    {
        proof {
            if self@.wf() && self@.set_user_name_spec(signer@, name@) is Ok {
                lemma_update_user_wf(self@, signer@, UserView { name: name@, ..self@.users[signer@] });
            }
        }
        self.verify_user(signer)?;
        let mut user = self.user_copy(signer);
        user.name = name;
        self.put_user(signer, user);
        Ok(())
    }

    /// Changes the comment on the moment of experience `video_n`, owned by `signer`.
    pub fn set_moment_comment(&mut self, signer: &String, video_n: u128, comment: String) -> (r: Result<(), ContractError>)
        ensures
            old(self)@.wf() ==> final(self)@.wf(),
            follows(r, old(self)@, final(self)@, old(self)@.set_moment_comment_spec(signer@, video_n, comment@)),
    {
        proof {
            if self@.wf() && self@.set_moment_comment_spec(signer@, video_n, comment@) is Ok {
                lemma_update_exp_details_wf(self@, video_n, ExperienceView { moment: comment@, ..self@.experiences[video_n] });
            }
        }
        self.verify_exp(video_n)?;
        self.verify_exp_owner(video_n, signer)?;
        let ghost before = self@;
        let mut exp = self.take_experience(video_n);
        exp.moment = comment;
        self.put_experience(video_n, exp);
        assert(self@.experiences =~= before.experiences.insert(video_n, exp@));
        Ok(())
    }

    /// Changes the time of the moment of experience `video_n`, owned by `signer`.
    pub fn set_moment_time(&mut self, signer: &String, video_n: u128, time: u16) -> (r: Result<(), ContractError>)
        ensures
            old(self)@.wf() ==> final(self)@.wf(),
            follows(r, old(self)@, final(self)@, old(self)@.set_moment_time_spec(signer@, video_n, time)),
    {
        proof {
            if self@.wf() && self@.set_moment_time_spec(signer@, video_n, time) is Ok {
                lemma_update_exp_details_wf(self@, video_n, ExperienceView { time, ..self@.experiences[video_n] });
            }
        }
        self.verify_exp(video_n)?;
        self.verify_exp_owner(video_n, signer)?;
        let ghost before = self@;
        let mut exp = self.take_experience(video_n);
        exp.time = time;
        self.put_experience(video_n, exp);
        assert(self@.experiences =~= before.experiences.insert(video_n, exp@));
        Ok(())
    }

    /// Changes the description of experience `video_n`, owned by `signer`.
    pub fn set_experience_description(&mut self, signer: &String, video_n: u128, description: String) -> (r: Result<(), ContractError>)
        ensures
            old(self)@.wf() ==> final(self)@.wf(),
            follows(r, old(self)@, final(self)@,
                old(self)@.set_experience_description_spec(signer@, video_n, description@)),
    {
        proof {
            if self@.wf() && self@.set_experience_description_spec(signer@, video_n, description@) is Ok {
                lemma_update_exp_details_wf(self@, video_n, ExperienceView { description: description@, ..self@.experiences[video_n] });
            }
        }
        self.verify_exp(video_n)?;
        self.verify_exp_owner(video_n, signer)?;
        let ghost before = self@;
        let mut exp = self.take_experience(video_n);
        exp.description = description;
        self.put_experience(video_n, exp);
        assert(self@.experiences =~= before.experiences.insert(video_n, exp@));
        Ok(())
    }

    /// Changes the expiration date of experience `video_n`, owned by `signer`,
    /// while it is in process.
    pub fn set_experience_expire_date(&mut self, signer: &String, video_n: u128, date: i64) -> (r: Result<(), ContractError>)
        ensures
            old(self)@.wf() ==> final(self)@.wf(),
            follows(r, old(self)@, final(self)@,
                old(self)@.set_experience_expire_date_spec(signer@, video_n, date)),
    {
        proof {
            if self@.wf() && self@.set_experience_expire_date_spec(signer@, video_n, date) is Ok {
                lemma_update_exp_details_wf(self@, video_n, ExperienceView { exp_date: date, ..self@.experiences[video_n] });
            }
        }
        self.verify_exp(video_n)?;
        self.verify_exp_owner(video_n, signer)?;
        if self.experience.get(&video_n).unwrap().status != Status::InProcess {
            return Err(ContractError::NotInProcess);
        }
        let ghost before = self@;
        let mut exp = self.take_experience(video_n);
        exp.exp_date = date;
        self.put_experience(video_n, exp);
        assert(self@.experiences =~= before.experiences.insert(video_n, exp@));
        Ok(())
    }

    /// `signer` gives the point of view `pov` on the active experience `video_n`
    /// of someone else; `date` becomes the signer's date.
    pub fn set_pov(&mut self, signer: &String, video_n: u128, pov: String, date: i64) -> (r: Result<(), ContractError>)
        ensures
            old(self)@.wf() ==> final(self)@.wf(),
            follows(r, old(self)@, final(self)@, old(self)@.set_pov_spec(signer@, video_n, pov@, date)),
    {
        proof {
            if self@.wf() && self@.set_pov_spec(signer@, video_n, pov@, date) is Ok {
                lemma_set_pov_wf(self@, signer@, video_n, pov@, date);
            }
        }
        self.verify_exp_status(video_n, Status::Active)?;
        self.verify_user(signer)?;
        let e = self.experience.get(&video_n).unwrap();
        if e.owner == *signer {
            return Err(ContractError::OwnExperiencePov);
        }
        if pov_contains(&e.pov, signer) {
            return Err(ContractError::PovAlreadyGiven);
        }
        let ghost before = self@;
        let mut exp = self.take_experience(video_n);
        exp.pov.push((signer.clone(), pov));
        let ghost new_exp = exp@;
        self.put_experience(video_n, exp);
        assert(new_exp.pov =~= before.experiences[video_n].pov.push((signer@, pov@)));
        assert(self@.experiences =~= before.experiences.insert(video_n, new_exp));
        let mut usr = self.user_copy(signer);
        usr.pov_exp.push(video_n);
        usr.date = date;
        self.put_user(signer, usr);
        Ok(())
    }

    /// The owner `signer` of the active experience `video_n` closes it with
    /// `wallet` as the winner, who must have given a point of view on it.
    /// Returns the reward that the experience held, for the caller to transfer.
    pub fn pay_reward(&mut self, signer: &String, experience_number: u128, wallet: &String) -> (r: Result<Option<R>, ContractError>)
        ensures
            old(self)@.wf() ==> final(self)@.wf(),
            follows(r, old(self)@, final(self)@,
                old(self)@.pay_reward_spec(signer@, experience_number, wallet@)),
            r is Ok ==> r->Ok_0 == old(self)@.experiences[experience_number].reward,
            old(self)@.wf() && r is Ok ==> r->Ok_0 is Some,
    {
        proof {
            if self@.wf() && self@.pay_reward_spec(signer@, experience_number, wallet@) is Ok {
                lemma_pay_reward_wf(self@, signer@, experience_number, wallet@);
            }
        }
        self.verify_exp_owner(experience_number, signer)?;
        let e = self.experience.get(&experience_number).unwrap();
        if e.status != Status::Active {
            return Err(ContractError::NotActive);
        }
        if !pov_contains(&e.pov, wallet) {
            return Err(ContractError::NoPovFromWinner);
        }
        let ghost before = self@;
        let mut exp = self.take_experience(experience_number);
        let held = exp.reward;
        exp.reward = None;
        exp.status = Status::Closed;
        exp.winner = wallet.clone();
        let ghost new_exp = exp@;
        self.put_experience(experience_number, exp);
        assert(self@.experiences =~= before.experiences.insert(experience_number, new_exp));
        Ok(held)
    }

    /// The owner `signer` funds its experience `video_n`, in process, with
    /// `deposit`, at least one NEAR; the experience becomes active and holds
    /// `reward`.
    pub fn activate_experience(&mut self, signer: &String, video_n: u128, deposit: u128, reward: R) -> (r: Result<(), ContractError>)
        ensures
            old(self)@.wf() ==> final(self)@.wf(),
            follows(r, old(self)@, final(self)@,
                old(self)@.activate_experience_spec(signer@, video_n, deposit, reward)),
    {
        proof {
            if self@.wf() && self@.activate_experience_spec(signer@, video_n, deposit, reward) is Ok {
                lemma_activate_experience_wf(self@, signer@, video_n, deposit, reward);
            }
        }
        self.verify_user(signer)?;
        self.verify_exp(video_n)?;
        if self.experience.get(&video_n).unwrap().status != Status::InProcess {
            return Err(ContractError::AlreadyActivated);
        }
        self.verify_exp_owner(video_n, signer)?;
        if deposit < YOCTO_NEAR {
            return Err(ContractError::NotEnoughTokens);
        }
        let ghost before = self@;
        let mut exp = self.take_experience(video_n);
        exp.status = Status::Active;
        exp.reward = Some(reward);
        let ghost new_exp = exp@;
        self.put_experience(video_n, exp);
        assert(self@.experiences =~= before.experiences.insert(video_n, new_exp));
        Ok(())
    }
    /// Allows a change of the fee only when the signer is the contract's own
    /// account.
    pub fn authorize_fee_change(signer: &String, current_account: &String) -> (r: Result<(), ContractError>)
        ensures
            r is Ok <==> signer@ == current_account@,
            r is Err ==> r == Err::<(), ContractError>(ContractError::NotContractOwner),
    {
        if *current_account != *signer {
            return Err(ContractError::NotContractOwner);
        }
        Ok(())
    }
}

} // verus!