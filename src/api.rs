//! The HTTP gateway's decisions: staging a card, reading a user, reading an
//! avatar, and finishing a staged registration without the chat.
use vstd::prelude::*;
use vstd::string::*;
use crate::avatars::{asset_of, avatar_key, key_for};
use crate::dialogue::{Registry, RegistryView};
use crate::ids::fresh_id;
use crate::records::{ConfirmUserRegister, RegStageUser, RegisterUser, RegisteredUser, StageView, User, UserView};
use crate::stager::{stage, staged_with_id};
use crate::users::{insert_user, user_with_hash, user_with_id};

verus! {

/// The length, in characters, of a card's hash.
pub const HASH_LEN: usize = 64;

/// An error of the gateway, with a message for the caller.
#[allow(non_camel_case_types)]
#[derive(Debug)]
pub enum ServerError {
    UNKNOWN(String),
    INVALID_FORMAT(String),
    NOT_FOUND(String),
    CONFLICT(String),
}

/// The kind of a gateway error.
#[derive(Clone, Copy, Debug, PartialEq, Eq, Structural)]
pub enum ErrorKind {
    Unknown,
    InvalidFormat,
    NotFound,
    Conflict,
}

impl View for ServerError {
    type V = ErrorKind;

    open spec fn view(&self) -> ErrorKind {
        match self {
            ServerError::UNKNOWN(_) => ErrorKind::Unknown,
            ServerError::INVALID_FORMAT(_) => ErrorKind::InvalidFormat,
            ServerError::NOT_FOUND(_) => ErrorKind::NotFound,
            ServerError::CONFLICT(_) => ErrorKind::Conflict,
        }
    }
}

impl ServerError {
    /// The name of the error's kind, as the response envelope carries it.
    pub fn variant_name(&self) -> (r: &'static str)
        ensures
            r@ == match self@ {
                ErrorKind::Unknown => "UNKNOWN"@,
                ErrorKind::InvalidFormat => "INVALID_FORMAT"@,
                ErrorKind::NotFound => "NOT_FOUND"@,
                ErrorKind::Conflict => "CONFLICT"@,
            },
    {
        match self {
            ServerError::UNKNOWN(_) => "UNKNOWN",
            ServerError::INVALID_FORMAT(_) => "INVALID_FORMAT",
            ServerError::NOT_FOUND(_) => "NOT_FOUND",
            ServerError::CONFLICT(_) => "CONFLICT",
        }
    }

    /// The error's message.
    pub fn value(&self) -> (r: String)
        ensures
            r@ == match self {
                ServerError::UNKNOWN(m) => m@,
                ServerError::INVALID_FORMAT(m) => m@,
                ServerError::NOT_FOUND(m) => m@,
                ServerError::CONFLICT(m) => m@,
            },
    {
        match self {
            ServerError::UNKNOWN(m) => m.clone(),
            ServerError::INVALID_FORMAT(m) => m.clone(),
            ServerError::NOT_FOUND(m) => m.clone(),
            ServerError::CONFLICT(m) => m.clone(),
        }
    }

    /// The HTTP status of the error.
    pub fn status_code(&self) -> (r: u16)
        ensures
            r == match self@ {
                ErrorKind::Unknown => 500u16,
                ErrorKind::InvalidFormat => 400u16,
                ErrorKind::NotFound => 404u16,
                ErrorKind::Conflict => 409u16,
            },
    {
        match self {
            ServerError::UNKNOWN(_) => 500,
            ServerError::INVALID_FORMAT(_) => 400,
            ServerError::NOT_FOUND(_) => 404,
            ServerError::CONFLICT(_) => 409,
        }
    }
}

/// The registry after staging the card `card_hash` under `id`, and the answer.
pub open spec fn register_outcome(w: RegistryView, card_hash: Seq<char>, id: u128) -> (
    RegistryView,
    Result<StageView, ErrorKind>,
) {
    if card_hash.len() != HASH_LEN {
        (w, Err(ErrorKind::InvalidFormat))
    } else {
        match stage(w.staged, StageView { card_hash, id }).1 {
            Ok(rec) => (RegistryView { staged: stage(w.staged, StageView { card_hash, id }).0, ..w }, Ok(rec)),
            Err(_) => (w, Err(ErrorKind::Conflict)),
        }
    }
}

/// The answer to reading the user of the card `card_hash`.
pub open spec fn user_lookup(w: RegistryView, card_hash: Seq<char>) -> Result<UserView, ErrorKind> {
    if card_hash.len() != HASH_LEN {
        Err(ErrorKind::InvalidFormat)
    } else {
        match user_with_hash(w.users, card_hash) {
            Some(u) => Ok(u),
            None => Err(ErrorKind::NotFound),
        }
    }
}

/// The answer to reading the avatar of the user `id`.
pub open spec fn avatar_lookup(w: RegistryView, id: u128) -> Result<Seq<u8>, ErrorKind> {
    match user_with_id(w.users, id) {
        Some(u) => match asset_of(w.avatars, avatar_key(u.card_hash)) {
            Some(b) => Ok(b),
            None => Err(ErrorKind::NotFound),
        },
        None => Err(ErrorKind::NotFound),
    }
}

/// The registry after finishing the staged registration `user_id` directly, and the answer.
pub open spec fn confirm_outcome(w: RegistryView, user_id: u128, chat: i64, username: Seq<char>) -> (
    RegistryView,
    Result<UserView, ErrorKind>,
) {
    match staged_with_id(w.staged, user_id) {
        None => (w, Err(ErrorKind::NotFound)),
        Some(rec) => {
            let u = UserView { card_hash: rec.card_hash, id: rec.id, username, telegram_chat_id: chat };
            match insert_user(w.users, u).1 {
                Ok(v) => (RegistryView { users: insert_user(w.users, u).0, ..w }, Ok(v)),
                Err(_) => (w, Err(ErrorKind::Conflict)),
            }
        },
    }
}

/// Stages the card of `data` under `id`.
pub fn register_with_id(registry: &mut Registry, data: RegisterUser, id: u128) -> (r: Result<
    RegStageUser,
    ServerError,
>)
    requires
        old(registry).wf(),
    ensures
        final(registry).wf(),
        final(registry)@ == register_outcome(old(registry)@, data.card_hash@, id).0,
        match r {
            Ok(rec) => register_outcome(old(registry)@, data.card_hash@, id).1 == Ok::<StageView, ErrorKind>(rec@),
            Err(e) => register_outcome(old(registry)@, data.card_hash@, id).1 == Err::<StageView, ErrorKind>(e@),
        },
{
    proof {
        registry.lemma_parts();
    }
    if data.card_hash.as_str().unicode_len() != HASH_LEN {
        return Err(ServerError::INVALID_FORMAT(String::from_str("the card hash must be 64 characters long")));
    }
    let r = registry.stager.register(data.card_hash, id);
    proof {
        registry.lemma_parts();
    }
    match r {
        Ok(rec) => Ok(rec),
        Err(_) => Err(ServerError::CONFLICT(String::from_str("the card is already staged"))),
    }
}

/// Stages the card of `data` under a fresh random id.
pub fn register(registry: &mut Registry, data: RegisterUser) -> (r: Result<RegStageUser, ServerError>)
    requires
        old(registry).wf(),
    ensures
        final(registry).wf(),
        exists|id: u128|
            {
                &&& final(registry)@ == (#[trigger] register_outcome(old(registry)@, data.card_hash@, id)).0
                &&& match r {
                    Ok(rec) => register_outcome(old(registry)@, data.card_hash@, id).1 == Ok::<
                        StageView,
                        ErrorKind,
                    >(rec@),
                    Err(e) => register_outcome(old(registry)@, data.card_hash@, id).1 == Err::<
                        StageView,
                        ErrorKind,
                    >(e@),
                }
            },
        data.card_hash@.len() != HASH_LEN ==> r is Err && r->Err_0@ == ErrorKind::InvalidFormat,
        r is Ok ==> r->Ok_0.card_hash@ == data.card_hash@,
{
    let id = fresh_id();
    let r = register_with_id(registry, data, id);
    assert(register_outcome(old(registry)@, data.card_hash@, id).0 == final(registry)@);
    r
}

/// The user of the card `hash`.
pub fn get_user(registry: &Registry, hash: &String) -> (r: Result<User, ServerError>)
    requires
        registry.wf(),
    ensures
        match r {
            Ok(u) => user_lookup(registry@, hash@) == Ok::<UserView, ErrorKind>(u@),
            Err(e) => user_lookup(registry@, hash@) == Err::<UserView, ErrorKind>(e@),
        },
{
    proof {
        registry.lemma_parts();
    }
    if hash.as_str().unicode_len() != HASH_LEN {
        return Err(ServerError::INVALID_FORMAT(String::from_str("the card hash must be 64 characters long")));
    }
    match registry.users.find_by_hash(hash) {
        Some(u) => Ok(u),
        None => Err(ServerError::NOT_FOUND(String::from_str("no user holds this card"))),
    }
}

/// The avatar's bytes of the user `id`.
pub fn get_avatar(registry: &Registry, id: u128) -> (r: Result<Vec<u8>, ServerError>)
    requires
        registry.wf(),
    ensures
        match r {
            Ok(b) => avatar_lookup(registry@, id) == Ok::<Seq<u8>, ErrorKind>(b@),
            Err(e) => avatar_lookup(registry@, id) == Err::<Seq<u8>, ErrorKind>(e@),
        },
{
    proof {
        registry.lemma_parts();
    }
    match registry.users.find_by_id(id) {
        Some(u) => {
            let key = key_for(&u.card_hash);
            match registry.avatars.get(&key) {
                Some(b) => Ok(b),
                None => Err(ServerError::NOT_FOUND(String::from_str("the user has no avatar"))),
            }
        },
        None => Err(ServerError::NOT_FOUND(String::from_str("no user has this id"))),
    }
}

/// Finishes the staged registration `data.user_id` without the chat.
pub fn confirm_register(registry: &mut Registry, data: ConfirmUserRegister) -> (r: Result<
    RegisteredUser,
    ServerError,
>)
    requires
        old(registry).wf(),
    ensures
        final(registry).wf(),
        final(registry)@ == confirm_outcome(old(registry)@, data.user_id, data.telegram_chat_id, data.username@).0,
        match r {
            Ok(reg) => confirm_outcome(old(registry)@, data.user_id, data.telegram_chat_id, data.username@).1
                == Ok::<UserView, ErrorKind>(
                UserView {
                    card_hash: reg.user_hash@,
                    id: reg.user_id,
                    username: data.username@,
                    telegram_chat_id: reg.telegram_chat_id,
                },
            ),
            Err(e) => confirm_outcome(old(registry)@, data.user_id, data.telegram_chat_id, data.username@).1
                == Err::<UserView, ErrorKind>(e@),
        },
{
    proof {
        registry.lemma_parts();
    }
    match registry.stager.find_by_id(data.user_id) {
        Some(rec) => {
            let hash = rec.card_hash.clone();
            let r = registry.users.finalize(rec.card_hash, rec.id, data.username, data.telegram_chat_id);
            proof {
                registry.lemma_parts();
            }
            match r {
                Ok(u) => Ok(RegisteredUser { user_hash: hash, user_id: u.id, telegram_chat_id: u.telegram_chat_id }),
                Err(_) => Err(ServerError::CONFLICT(String::from_str("the card or the username is already registered"))),
            }
        },
        None => Err(ServerError::NOT_FOUND(String::from_str("no staged card has this id"))),
    }
}

} // verus!
