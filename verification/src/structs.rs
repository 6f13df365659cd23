use vstd::prelude::*;

verus! {

/// One NEAR in yoctoNEAR.
pub const YOCTO_NEAR: u128 = 1_000_000_000_000_000_000_000_000;

/// The amount kept aside for sending funds back.
pub const SEND_FUNDS: u128 = 4_500_000_000_000_000_000;

/// Where an experience stands in its life: created, funded, paid out.
#[derive(Clone, Copy, Debug, PartialEq, Eq, Structural)]
pub enum Status {
    InProcess,
    Active,
    Closed,
}

/// The rank of a status in the order in which an experience goes through them.
pub open spec fn status_rank(s: Status) -> int {
    match s {
        Status::InProcess => 0,
        Status::Active => 1,
        Status::Closed => 2,
    }
}

/// A registered user, keyed by its account.
#[derive(Debug, PartialEq)]
pub struct User {
    pub name: String,
    pub discord: String,
    pub email: String,
    pub interests: u8,
    /// The numbers of the experiences this user published.
    pub my_exp: Vec<u128>,
    /// The numbers of the experiences this user gave a point of view on.
    pub pov_exp: Vec<u128>,
    pub date: i64,
}

/// The mathematical value of a [`User`].
pub struct UserView {
    pub name: Seq<char>,
    pub discord: Seq<char>,
    pub email: Seq<char>,
    pub interests: u8,
    pub my_exp: Seq<u128>,
    pub pov_exp: Seq<u128>,
    pub date: i64,
}

impl View for User {
    type V = UserView;

    open spec fn view(&self) -> UserView {
        UserView {
            name: self.name@,
            discord: self.discord@,
            email: self.email@,
            interests: self.interests,
            my_exp: self.my_exp@,
            pov_exp: self.pov_exp@,
            date: self.date,
        }
    }
}

/// A published experience. `R` is the type of its reward.
#[derive(Debug)]
pub struct Experience<R> {
    pub title: String,
    pub owner: String,
    pub description: String,
    pub url: String,
    pub topic: u8,
    /// The reward held for this experience; `None` when nothing is held.
    pub reward: Option<R>,
    pub exp_date: i64,
    pub moment: String,
    pub time: u16,
    /// The points of view given on this experience: (account, text).
    pub pov: Vec<(String, String)>,
    pub winner: String,
    pub status: Status,
}

/// The mathematical value of an [`Experience`].
pub struct ExperienceView<R> {
    pub title: Seq<char>,
    pub owner: Seq<char>,
    pub description: Seq<char>,
    pub url: Seq<char>,
    pub topic: u8,
    pub reward: Option<R>,
    pub exp_date: i64,
    pub moment: Seq<char>,
    pub time: u16,
    pub pov: Seq<(Seq<char>, Seq<char>)>,
    pub winner: Seq<char>,
    pub status: Status,
}

/// The value of one point of view: its account and its text.
pub open spec fn pov_entry_view(p: (String, String)) -> (Seq<char>, Seq<char>) {
    (p.0@, p.1@)
}

impl<R> View for Experience<R> {
    type V = ExperienceView<R>;

    open spec fn view(&self) -> ExperienceView<R> {
        ExperienceView {
            title: self.title@,
            owner: self.owner@,
            description: self.description@,
            url: self.url@,
            topic: self.topic,
            reward: self.reward,
            exp_date: self.exp_date,
            moment: self.moment@,
            time: self.time,
            pov: self.pov@.map_values(|p: (String, String)| pov_entry_view(p)),
            winner: self.winner@,
            status: self.status,
        }
    }
}

/// Whether `account` has given a point of view in `pov`.
pub open spec fn pov_has(pov: Seq<(Seq<char>, Seq<char>)>, account: Seq<char>) -> bool {
    exists|i: int| 0 <= i < pov.len() && #[trigger] pov[i].0 == account
}

/// Why a request to the contract is refused.
#[derive(Clone, Copy, Debug, PartialEq, Eq, Structural)]
pub enum ContractError {
    /// The contract's wallet is not a valid account.
    InvalidAccount,
    /// No experience has the given number.
    ExperienceNotFound,
    /// The signer does not own the experience.
    NotExperienceOwner,
    /// The experience is not in the status that the request needs.
    StatusMismatch(Status),
    /// The account is not a registered user.
    UserNotFound,
    /// The signer is already a registered user.
    UserAlreadyExists,
    /// A deposit was attached but it is less than one NEAR.
    WrongDepositAmount,
    /// The expiration date can only change while the experience is in process.
    NotInProcess,
    /// The owner of an experience cannot give a point of view on it.
    OwnExperiencePov,
    /// The signer already gave a point of view on the experience.
    PovAlreadyGiven,
    /// The signer's point of view is still recorded on the experience.
    PovStillGiven,
    /// The signer is not the account of the contract.
    NotContractOwner,
    /// The experience is not active.
    NotActive,
    /// The winner did not give a point of view on the experience.
    NoPovFromWinner,
    /// The experience was already activated.
    AlreadyActivated,
    /// The attached deposit is less than one NEAR.
    NotEnoughTokens,
    /// The experience is missing from the signer's own list.
    MissingFromUserList,
    /// No experience was ever published under the topic.
    TopicNotFound,
    /// Every experience number has been given out.
    CountExhausted,
}

} // verus!
