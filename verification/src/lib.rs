//! A verified model of an experience-sharing contract: users register,
//! publish experiences (optionally funded with a deposit), other users
//! give points of view on them, and the owner pays the reward to one of
//! those users.
//!
//! The numbers that the contract computes with floating point (the fee
//! and the rewards) are carried as an opaque type parameter `R`: the
//! library stores and hands them back, the caller computes them.

pub mod account;
pub mod contract;
pub mod laws;
pub mod model;
pub mod structs;

pub use crate::contract::Contract;
pub use crate::structs::{
    ContractError, Experience, ExperienceView, Status, User, UserView, SEND_FUNDS, YOCTO_NEAR,
};
