use vstd::prelude::*;

use crate::contract::{copy_experience, copy_numbers, copy_povs, Contract};
use crate::structs::{pov_entry_view, ContractError, Experience, Status, User};

verus! {

impl<R> Contract<R> {
    /// The title of experience `video_n`.
    pub fn get_title(&self, video_n: u128) -> (r: Result<String, ContractError>)
        ensures
            match r {
                Ok(v) => self@.has_exp(video_n) && v@ == self@.experiences[video_n].title,
                Err(e) => !self@.has_exp(video_n) && e == ContractError::ExperienceNotFound,
            },
    {
        self.verify_exp(video_n)?;
        Ok(self.experience.get(&video_n).unwrap().title.clone())
    }

    /// The owner of experience `video_n`.
    pub fn get_exp_owner(&self, video_n: u128) -> (r: Result<String, ContractError>)
        ensures
            match r {
                Ok(v) => self@.has_exp(video_n) && v@ == self@.experiences[video_n].owner,
                Err(e) => !self@.has_exp(video_n) && e == ContractError::ExperienceNotFound,
            },
    {
        self.verify_exp(video_n)?;
        Ok(self.experience.get(&video_n).unwrap().owner.clone())
    }

    /// The description of experience `video_n`.
    pub fn get_exp_description(&self, video_n: u128) -> (r: Result<String, ContractError>)
        ensures
            match r {
                Ok(v) => self@.has_exp(video_n) && v@ == self@.experiences[video_n].description,
                Err(e) => !self@.has_exp(video_n) && e == ContractError::ExperienceNotFound,
            },
    {
        self.verify_exp(video_n)?;
        Ok(self.experience.get(&video_n).unwrap().description.clone())
    }

    /// The url of experience `video_n`.
    pub fn get_url(&self, video_n: u128) -> (r: Result<String, ContractError>)
        ensures
            match r {
                Ok(v) => self@.has_exp(video_n) && v@ == self@.experiences[video_n].url,
                Err(e) => !self@.has_exp(video_n) && e == ContractError::ExperienceNotFound,
            },
    {
        self.verify_exp(video_n)?;
        Ok(self.experience.get(&video_n).unwrap().url.clone())
    }

    /// The topic of experience `video_n`.
    pub fn get_topic(&self, video_n: u128) -> (r: Result<u8, ContractError>)
        ensures
            match r {
                Ok(v) => self@.has_exp(video_n) && v == self@.experiences[video_n].topic,
                Err(e) => !self@.has_exp(video_n) && e == ContractError::ExperienceNotFound,
            },
    {
        self.verify_exp(video_n)?;
        Ok(self.experience.get(&video_n).unwrap().topic)
    }

    /// The expiration date of experience `video_n`.
    pub fn get_expiration_date(&self, video_n: u128) -> (r: Result<i64, ContractError>)
        ensures
            match r {
                Ok(v) => self@.has_exp(video_n) && v == self@.experiences[video_n].exp_date,
                Err(e) => !self@.has_exp(video_n) && e == ContractError::ExperienceNotFound,
            },
    {
        self.verify_exp(video_n)?;
        Ok(self.experience.get(&video_n).unwrap().exp_date)
    }

    /// The comment on the moment of experience `video_n`.
    pub fn get_moment_coment(&self, video_n: u128) -> (r: Result<String, ContractError>)
        ensures
            match r {
                Ok(v) => self@.has_exp(video_n) && v@ == self@.experiences[video_n].moment,
                Err(e) => !self@.has_exp(video_n) && e == ContractError::ExperienceNotFound,
            },
    {
        self.verify_exp(video_n)?;
        Ok(self.experience.get(&video_n).unwrap().moment.clone())
    }

    /// The time of the moment of experience `video_n`.
    pub fn get_moment_time(&self, video_n: u128) -> (r: Result<u16, ContractError>)
        ensures
            match r {
                Ok(v) => self@.has_exp(video_n) && v == self@.experiences[video_n].time,
                Err(e) => !self@.has_exp(video_n) && e == ContractError::ExperienceNotFound,
            },
    {
        self.verify_exp(video_n)?;
        Ok(self.experience.get(&video_n).unwrap().time)
    }

    /// The status of experience `video_n`.
    pub fn get_exp_status(&self, video_n: u128) -> (r: Result<Status, ContractError>)
        ensures
            match r {
                Ok(v) => self@.has_exp(video_n) && v == self@.experiences[video_n].status,
                Err(e) => !self@.has_exp(video_n) && e == ContractError::ExperienceNotFound,
            },
    {
        self.verify_exp(video_n)?;
        Ok(self.experience.get(&video_n).unwrap().status)
    }

    /// The winner of experience `video_n`; empty until it is paid.
    pub fn get_winner(&self, video_n: u128) -> (r: Result<String, ContractError>)
        ensures
            match r {
                Ok(v) => self@.has_exp(video_n) && v@ == self@.experiences[video_n].winner,
                Err(e) => !self@.has_exp(video_n) && e == ContractError::ExperienceNotFound,
            },
    {
        self.verify_exp(video_n)?;
        Ok(self.experience.get(&video_n).unwrap().winner.clone())
    }

    /// The name of the user `wallet`.
    pub fn get_user_name(&self, wallet: &String) -> (r: Result<String, ContractError>)
        ensures
            match r {
                Ok(v) => self@.has_user(wallet@) && v@ == self@.users[wallet@].name,
                Err(e) => !self@.has_user(wallet@) && e == ContractError::UserNotFound,
            },
    {
        self.verify_user(wallet)?;
        Ok(self.users.get(wallet.as_str()).unwrap().name.clone())
    }

    /// The discord of the user `wallet`.
    pub fn get_user_discord(&self, wallet: &String) -> (r: Result<String, ContractError>)
        ensures
            match r {
                Ok(v) => self@.has_user(wallet@) && v@ == self@.users[wallet@].discord,
                Err(e) => !self@.has_user(wallet@) && e == ContractError::UserNotFound,
            },
    {
        self.verify_user(wallet)?;
        Ok(self.users.get(wallet.as_str()).unwrap().discord.clone())
    }

    /// The email of the user `wallet`.
    pub fn get_user_email(&self, wallet: &String) -> (r: Result<String, ContractError>)
        ensures
            match r {
                Ok(v) => self@.has_user(wallet@) && v@ == self@.users[wallet@].email,
                Err(e) => !self@.has_user(wallet@) && e == ContractError::UserNotFound,
            },
    {
        self.verify_user(wallet)?;
        Ok(self.users.get(wallet.as_str()).unwrap().email.clone())
    }

    /// The interests of the user `wallet`.
    pub fn get_user_interests(&self, wallet: &String) -> (r: Result<u8, ContractError>)
        ensures
            match r {
                Ok(v) => self@.has_user(wallet@) && v == self@.users[wallet@].interests,
                Err(e) => !self@.has_user(wallet@) && e == ContractError::UserNotFound,
            },
    {
        self.verify_user(wallet)?;
        Ok(self.users.get(wallet.as_str()).unwrap().interests)
    }

    /// The date of the user `wallet`: the one given with its last point of view.
    pub fn get_user_date(&self, wallet: &String) -> (r: Result<i64, ContractError>)
        ensures
            match r {
                Ok(v) => self@.has_user(wallet@) && v == self@.users[wallet@].date,
                Err(e) => !self@.has_user(wallet@) && e == ContractError::UserNotFound,
            },
    {
        self.verify_user(wallet)?;
        Ok(self.users.get(wallet.as_str()).unwrap().date)
    }

    /// The points of view given on experience `video_n`.
    pub fn get_pov_of_vid(&self, video_n: u128) -> (r: Result<Vec<(String, String)>, ContractError>)
        ensures
            match r {
                Ok(v) => self@.has_exp(video_n)
                    && v@.map_values(|p: (String, String)| pov_entry_view(p)) == self@.experiences[video_n].pov,
                Err(e) => !self@.has_exp(video_n) && e == ContractError::ExperienceNotFound,
            },
    {
        self.verify_exp(video_n)?;
        Ok(copy_povs(&self.experience.get(&video_n).unwrap().pov))
    }

    /// The experiences published by the user `wallet`.
    pub fn get_user_exp(&self, wallet: &String) -> (r: Result<Vec<u128>, ContractError>)
        ensures
            match r {
                Ok(v) => self@.has_user(wallet@) && v@ == self@.users[wallet@].my_exp,
                Err(e) => !self@.has_user(wallet@) && e == ContractError::UserNotFound,
            },
    {
        self.verify_user(wallet)?;
        Ok(copy_numbers(&self.users.get(wallet.as_str()).unwrap().my_exp))
    }

    /// The experiences the user `wallet` gave a point of view on.
    pub fn get_user_exp_pov(&self, wallet: &String) -> (r: Result<Vec<u128>, ContractError>)
        ensures
            match r {
                Ok(v) => self@.has_user(wallet@) && v@ == self@.users[wallet@].pov_exp,
                Err(e) => !self@.has_user(wallet@) && e == ContractError::UserNotFound,
            },
    {
        self.verify_user(wallet)?;
        Ok(copy_numbers(&self.users.get(wallet.as_str()).unwrap().pov_exp))
    }

    /// The record of the user `wallet`.
    pub fn get_user(&self, wallet: &String) -> (r: Result<User, ContractError>)
        ensures
            match r {
                Ok(u) => self@.has_user(wallet@) && u@ == self@.users[wallet@],
                Err(e) => !self@.has_user(wallet@) && e == ContractError::UserNotFound,
            },
    {
        self.verify_user(wallet)?;
        Ok(self.user_copy(wallet))
    }

    /// The numbers of the experiences published under `topic`.
    pub fn get_exp_by_topic(&self, topic: u8) -> (r: Result<Vec<u128>, ContractError>)
        ensures
            match r {
                Ok(v) => self@.exp_by_topic.contains_key(topic) && v@ == self@.exp_by_topic[topic],
                Err(e) => !self@.exp_by_topic.contains_key(topic) && e == ContractError::TopicNotFound,
            },
    {
        match self.exp_by_topic.get(&topic) {
            Some(v) => Ok(copy_numbers(v)),
            None => Err(ContractError::TopicNotFound),
        }
    }

    /// How many experiences were ever published.
    pub fn get_number_of_experiences(&self) -> (n: u128)
        ensures
            n == self@.n_exp,
    {
        self.n_exp
    }

    /// The accounts of the registered users, in the order of registration.
    pub fn get_list_of_users(&self) -> (r: Vec<String>)
        ensures
            r@.map_values(|s: String| s@) == self@.user_list,
    {
        let mut r: Vec<String> = Vec::new();
        let mut i: usize = 0;
        while i < self.user_list.len()
            invariant
                i <= self.user_list.len(),
                r@.len() == i,
                forall|j: int| 0 <= j < i ==> (#[trigger] r@[j])@ == self.user_list@[j]@,
            decreases self.user_list.len() - i,
        {
            r.push(self.user_list[i].clone());
            i += 1;
        }
        assert(r@.map_values(|s: String| s@) =~= self@.user_list);
        r
    }
}

impl<R: Copy> Contract<R> {
    /// The record of experience `video_n`.
    pub fn get_experience(&self, video_n: u128) -> (r: Result<Experience<R>, ContractError>)
        ensures
            match r {
                Ok(e) => self@.has_exp(video_n) && e@ == self@.experiences[video_n],
                Err(e) => !self@.has_exp(video_n) && e == ContractError::ExperienceNotFound,
            },
    {
        self.verify_exp(video_n)?;
        Ok(copy_experience(self.experience.get(&video_n).unwrap()))
    }

    /// The reward held by experience `video_n`; `None` when it holds none.
    pub fn get_reward(&self, video_n: u128) -> (r: Result<Option<R>, ContractError>)
        ensures
            match r {
                Ok(v) => self@.has_exp(video_n) && v == self@.experiences[video_n].reward,
                Err(e) => !self@.has_exp(video_n) && e == ContractError::ExperienceNotFound,
            },
    {
        self.verify_exp(video_n)?;
        Ok(self.experience.get(&video_n).unwrap().reward)
    }
}

} // verus!
