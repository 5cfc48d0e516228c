//! The records that the stores keep and the gateway exchanges.
use vstd::prelude::*;

verus! {

/// A validated card waiting to be claimed in the chat: the card's hash and
/// the id that the finished registration will carry.
#[derive(Debug)]
pub struct RegStageUser {
    pub card_hash: String,
    pub id: u128,
}

/// A finished registration.
#[derive(Debug)]
pub struct User {
    pub card_hash: String,
    pub id: u128,
    pub username: String,
    pub telegram_chat_id: i64,
}

/// A quest handed to a player, waiting to be acknowledged.
#[derive(Debug)]
pub struct LingeringTask {
    pub id: u128,
    pub assigned_to: String,
    pub quest_name: String,
}

/// The body of a request that stages a card.
#[derive(Debug)]
pub struct RegisterUser {
    pub card_hash: String,
}

/// The body of a request that finishes a staged registration without the chat.
#[derive(Debug)]
pub struct ConfirmUserRegister {
    pub user_id: u128,
    pub telegram_chat_id: i64,
    pub username: String,
}

/// The answer to a finished registration.
#[derive(Debug)]
pub struct RegisteredUser {
    pub user_hash: String,
    pub user_id: u128,
    pub telegram_chat_id: i64,
}

/// A uniqueness rule of a store that an insert would break.
#[derive(Clone, Copy, Debug, PartialEq, Eq, Structural)]
pub enum StoreError {
    DuplicateHash,
    DuplicateUsername,
    DuplicateId,
}

pub struct StageView {
    pub card_hash: Seq<char>,
    pub id: u128,
}

pub struct UserView {
    pub card_hash: Seq<char>,
    pub id: u128,
    pub username: Seq<char>,
    pub telegram_chat_id: i64,
}

pub struct TaskView {
    pub id: u128,
    pub assigned_to: Seq<char>,
    pub quest_name: Seq<char>,
}

impl View for RegStageUser {
    type V = StageView;

    open spec fn view(&self) -> StageView {
        StageView { card_hash: self.card_hash@, id: self.id }
    }
}

impl View for User {
    type V = UserView;

    open spec fn view(&self) -> UserView {
        UserView {
            card_hash: self.card_hash@,
            id: self.id,
            username: self.username@,
            telegram_chat_id: self.telegram_chat_id,
        }
    }
}

impl View for LingeringTask {
    type V = TaskView;

    open spec fn view(&self) -> TaskView {
        TaskView { id: self.id, assigned_to: self.assigned_to@, quest_name: self.quest_name@ }
    }
}

impl RegStageUser {
    /// A copy of this record.
    pub fn duplicate(&self) -> (r: RegStageUser)
        ensures
            r@ == self@,
    {
        RegStageUser { card_hash: self.card_hash.clone(), id: self.id }
    }
}

impl User {
    /// A copy of this record.
    pub fn duplicate(&self) -> (r: User)
        ensures
            r@ == self@,
    {
        User {
            card_hash: self.card_hash.clone(),
            id: self.id,
            username: self.username.clone(),
            telegram_chat_id: self.telegram_chat_id,
        }
    }
}

impl LingeringTask {
    /// A copy of this record.
    pub fn duplicate(&self) -> (r: LingeringTask)
        ensures
            r@ == self@,
    {
        LingeringTask {
            id: self.id,
            assigned_to: self.assigned_to.clone(),
            quest_name: self.quest_name.clone(),
        }
    }
}

} // verus!
