//! The registration dialogue: one state machine per conversation, driven by
//! the events that the chat delivers, over the staging, user and avatar stores.
//!
//! A conversation starts in `StartRegister`, claims a staged card by its
//! token, picks a username, supplies an avatar and ends with a user record.
//! `handle` performs one step atomically and answers with what the chat side
//! has to do next; its effect is exactly `transition`.
use vstd::prelude::*;
use std::collections::HashMap;
use crate::avatars::{avatar_key, avatars_wf, key_for, lemma_put_asset, put_asset, AvatarStore};
use crate::command::{Command, CommandView};
use crate::records::{LingeringTask, StageView, StoreError, TaskView, User, UserView};
use crate::stager::{claim, lemma_staged_wf_remove, staged_wf, Stager};
use crate::users::{conflict_of, lemma_insert_user_wf, insert_user, username_taken, users_wf, UserStore};

verus! {

broadcast use vstd::std_specs::hash::group_hash_axioms;

/// Where a conversation stands.
pub enum RegisterDialogueState {
    StartRegister,
    GetUsername { id: u128, card_hash: String },
    GetAvatar { username: String, id: u128, card_hash: String },
}

pub enum StateView {
    StartRegister,
    GetUsername { id: u128, card_hash: Seq<char> },
    GetAvatar { username: Seq<char>, id: u128, card_hash: Seq<char> },
}

impl View for RegisterDialogueState {
    type V = StateView;

    open spec fn view(&self) -> StateView {
        match self {
            RegisterDialogueState::StartRegister => StateView::StartRegister,
            RegisterDialogueState::GetUsername { id, card_hash } => StateView::GetUsername {
                id: *id,
                card_hash: card_hash@,
            },
            RegisterDialogueState::GetAvatar { username, id, card_hash } => StateView::GetAvatar {
                username: username@,
                id: *id,
                card_hash: card_hash@,
            },
        }
    }
}

impl RegisterDialogueState {
    /// A copy of this state.
    pub fn duplicate(&self) -> (r: RegisterDialogueState)
        ensures
            r@ == self@,
    {
        match self {
            RegisterDialogueState::StartRegister => RegisterDialogueState::StartRegister,
            RegisterDialogueState::GetUsername { id, card_hash } => RegisterDialogueState::GetUsername {
                id: *id,
                card_hash: card_hash.clone(),
            },
            RegisterDialogueState::GetAvatar { username, id, card_hash } => RegisterDialogueState::GetAvatar {
                username: username.clone(),
                id: *id,
                card_hash: card_hash.clone(),
            },
        }
    }
}

impl Default for RegisterDialogueState {
    fn default() -> (r: RegisterDialogueState)
        ensures
            r@ == StateView::StartRegister,
    {
        RegisterDialogueState::StartRegister
    }
}

/// One resolution of an uploaded photo.
pub struct PhotoSize {
    pub file_id: String,
    pub width: u32,
    pub height: u32,
}

pub struct PhotoView {
    pub file_id: Seq<char>,
    pub width: u32,
    pub height: u32,
}

impl View for PhotoSize {
    type V = PhotoView;

    open spec fn view(&self) -> PhotoView {
        PhotoView { file_id: self.file_id@, width: self.width, height: self.height }
    }
}

pub open spec fn area(p: PhotoView) -> int {
    p.width as int * p.height as int
}

/// The resolution at `i` has the most pixels, and none before it has as many.
pub open spec fn is_best_photo(s: Seq<PhotoView>, i: int) -> bool {
    &&& 0 <= i < s.len()
    &&& forall|j: int| 0 <= j < s.len() ==> area(#[trigger] s[j]) <= area(s[i])
    &&& forall|j: int| 0 <= j < i ==> area(#[trigger] s[j]) < area(s[i])
}

/// The position of the highest resolution offered.
pub open spec fn best_photo(s: Seq<PhotoView>) -> int {
    choose|i: int| is_best_photo(s, i)
}

/// Something that happened in a conversation.
pub enum Event {
    /// A command of the chat interface.
    Command(Command),
    /// A message of free text.
    Text(String),
    /// An uploaded photo, in the resolutions offered.
    Photo(Vec<PhotoSize>),
    /// The button that asks for the current profile photo was pressed.
    UseProfilePhoto,
    /// The chat service holds no profile photo for the conversation.
    ProfilePhotoMissing,
    /// The avatar's bytes were fetched in full.
    AvatarReady(Vec<u8>),
    /// Fetching the avatar's bytes failed.
    AvatarFailed,
}

pub enum EventView {
    Command(CommandView),
    Text(Seq<char>),
    Photo(Seq<PhotoView>),
    UseProfilePhoto,
    ProfilePhotoMissing,
    AvatarReady(Seq<u8>),
    AvatarFailed,
}

impl View for Event {
    type V = EventView;

    open spec fn view(&self) -> EventView {
        match self {
            Event::Command(c) => EventView::Command(c@),
            Event::Text(t) => EventView::Text(t@),
            Event::Photo(p) => EventView::Photo(p@.map_values(|s: PhotoSize| s@)),
            Event::UseProfilePhoto => EventView::UseProfilePhoto,
            Event::ProfilePhotoMissing => EventView::ProfilePhotoMissing,
            Event::AvatarReady(b) => EventView::AvatarReady(b@),
            Event::AvatarFailed => EventView::AvatarFailed,
        }
    }
}

/// What the chat side has to do after a step.
pub enum Reply {
    /// Send the information text.
    Info,
    /// Send the help text.
    Help,
    /// Hand the command to the quest subsystem.
    Quest,
    /// Nothing: the event does not apply in this state.
    Ignored,
    /// The token is not 8 characters long.
    InvalidToken,
    /// No staged card matches the token.
    UnknownToken,
    /// The card was claimed: ask for a username.
    AskUsername,
    /// A username is awaited as text.
    AskUsernameText,
    /// The username is taken: ask for another.
    UsernameTaken(String),
    /// The username was accepted: ask for an avatar and offer the profile-photo button.
    AskAvatar(String),
    /// An avatar is awaited: ask for a photo or the button.
    AskPhoto,
    /// Fetch the uploaded photo with this file id, then report it.
    Download(String),
    /// Fetch the conversation's profile photo, then report it.
    FetchProfilePhoto,
    /// There is no profile photo: ask for an upload instead.
    NoProfilePhoto,
    /// The avatar could not be fetched: ask again.
    AvatarFailed,
    /// The registration is complete.
    Registered(User),
    /// The user record could not be inserted.
    RegistrationFailed(StoreError),
    /// The conversation was dropped.
    Cancelled,
}

pub enum ReplyView {
    Info,
    Help,
    Quest,
    Ignored,
    InvalidToken,
    UnknownToken,
    AskUsername,
    AskUsernameText,
    UsernameTaken(Seq<char>),
    AskAvatar(Seq<char>),
    AskPhoto,
    Download(Seq<char>),
    FetchProfilePhoto,
    NoProfilePhoto,
    AvatarFailed,
    Registered(UserView),
    RegistrationFailed(StoreError),
    Cancelled,
}

impl View for Reply {
    type V = ReplyView;

    open spec fn view(&self) -> ReplyView {
        match self {
            Reply::Info => ReplyView::Info,
            Reply::Help => ReplyView::Help,
            Reply::Quest => ReplyView::Quest,
            Reply::Ignored => ReplyView::Ignored,
            Reply::InvalidToken => ReplyView::InvalidToken,
            Reply::UnknownToken => ReplyView::UnknownToken,
            Reply::AskUsername => ReplyView::AskUsername,
            Reply::AskUsernameText => ReplyView::AskUsernameText,
            Reply::UsernameTaken(n) => ReplyView::UsernameTaken(n@),
            Reply::AskAvatar(n) => ReplyView::AskAvatar(n@),
            Reply::AskPhoto => ReplyView::AskPhoto,
            Reply::Download(f) => ReplyView::Download(f@),
            Reply::FetchProfilePhoto => ReplyView::FetchProfilePhoto,
            Reply::NoProfilePhoto => ReplyView::NoProfilePhoto,
            Reply::AvatarFailed => ReplyView::AvatarFailed,
            Reply::Registered(u) => ReplyView::Registered(u@),
            Reply::RegistrationFailed(e) => ReplyView::RegistrationFailed(*e),
            Reply::Cancelled => ReplyView::Cancelled,
        }
    }
}

/// Everything the registry holds, as values.
pub struct RegistryView {
    pub staged: Seq<StageView>,
    pub users: Seq<UserView>,
    pub avatars: Seq<(Seq<char>, Seq<u8>)>,
    pub sessions: Map<i64, StateView>,
    pub tasks: Seq<TaskView>,
}

pub open spec fn registry_wf(w: RegistryView) -> bool {
    &&& staged_wf(w.staged)
    &&& users_wf(w.users)
    &&& avatars_wf(w.avatars)
}

/// The state of the conversation `chat`; one without a session is at the start.
pub open spec fn session_of(w: RegistryView, chat: i64) -> StateView {
    if w.sessions.contains_key(chat) {
        w.sessions[chat]
    } else {
        StateView::StartRegister
    }
}

/// `w` with the conversation `chat` in state `s`; a conversation back at the
/// start keeps no session.
pub open spec fn with_session(w: RegistryView, chat: i64, s: StateView) -> RegistryView {
    RegistryView {
        sessions: if s is StartRegister {
            w.sessions.remove(chat)
        } else {
            w.sessions.insert(chat, s)
        },
        ..w
    }
}

/// `/register token` at the start of a conversation.
pub open spec fn on_register(w: RegistryView, chat: i64, token: Seq<char>) -> (RegistryView, ReplyView) {
    if token.len() != 8 {
        (w, ReplyView::InvalidToken)
    } else {
        match claim(w.staged, token).1 {
            Some(rec) => (
                with_session(
                    RegistryView { staged: claim(w.staged, token).0, ..w },
                    chat,
                    StateView::GetUsername { id: rec.id, card_hash: rec.card_hash },
                ),
                ReplyView::AskUsername,
            ),
            None => (w, ReplyView::UnknownToken),
        }
    }
}

/// A proposed username while one is awaited.
pub open spec fn on_username(w: RegistryView, chat: i64, id: u128, card_hash: Seq<char>, name: Seq<char>) -> (
    RegistryView,
    ReplyView,
) {
    if username_taken(w.users, name) {
        (w, ReplyView::UsernameTaken(name))
    } else {
        (
            with_session(w, chat, StateView::GetAvatar { username: name, id, card_hash }),
            ReplyView::AskAvatar(name),
        )
    }
}

/// The avatar's bytes while an avatar is awaited: the avatar is written and
/// the user inserted together, or neither happens.
pub open spec fn on_avatar(
    w: RegistryView,
    chat: i64,
    username: Seq<char>,
    id: u128,
    card_hash: Seq<char>,
    bytes: Seq<u8>,
) -> (RegistryView, ReplyView) {
    let u = UserView { card_hash, id, username, telegram_chat_id: chat };
    match conflict_of(w.users, u) {
        None => (
            with_session(
                RegistryView {
                    users: w.users.push(u),
                    avatars: put_asset(w.avatars, avatar_key(card_hash), bytes),
                    ..w
                },
                chat,
                StateView::StartRegister,
            ),
            ReplyView::Registered(u),
        ),
        Some(StoreError::DuplicateUsername) => (
            with_session(w, chat, StateView::GetUsername { id, card_hash }),
            ReplyView::RegistrationFailed(StoreError::DuplicateUsername),
        ),
        Some(e) => (w, ReplyView::RegistrationFailed(e)),
    }
}

/// One step of the conversation `chat` on the event `ev`: the registry after
/// it and the reply.
pub open spec fn transition(w: RegistryView, chat: i64, ev: EventView) -> (RegistryView, ReplyView) {
    let state = session_of(w, chat);
    match ev {
        EventView::Command(c) => match c {
            CommandView::Help => (w, ReplyView::Help),
            CommandView::Cancel => (with_session(w, chat, StateView::StartRegister), ReplyView::Cancelled),
            CommandView::Acknowledge(_) => (w, ReplyView::Quest),
            CommandView::CreateQuest(_, _) => (w, ReplyView::Quest),
            CommandView::Start => if state is StartRegister {
                (w, ReplyView::Info)
            } else {
                (w, ReplyView::Ignored)
            },
            CommandView::Register(token) => if state is StartRegister {
                on_register(w, chat, token)
            } else {
                (w, ReplyView::Ignored)
            },
        },
        EventView::Text(text) => match state {
            StateView::GetUsername { id, card_hash } => on_username(w, chat, id, card_hash, text),
            StateView::GetAvatar { .. } => (w, ReplyView::AskPhoto),
            StateView::StartRegister => (w, ReplyView::Ignored),
        },
        EventView::Photo(sizes) => match state {
            StateView::GetAvatar { .. } => if sizes.len() == 0 {
                (w, ReplyView::AskPhoto)
            } else {
                (w, ReplyView::Download(sizes[best_photo(sizes)].file_id))
            },
            StateView::GetUsername { .. } => (w, ReplyView::AskUsernameText),
            StateView::StartRegister => (w, ReplyView::Ignored),
        },
        EventView::UseProfilePhoto => if state is GetAvatar {
            (w, ReplyView::FetchProfilePhoto)
        } else {
            (w, ReplyView::Ignored)
        },
        EventView::ProfilePhotoMissing => if state is GetAvatar {
            (w, ReplyView::NoProfilePhoto)
        } else {
            (w, ReplyView::Ignored)
        },
        EventView::AvatarFailed => if state is GetAvatar {
            (w, ReplyView::AvatarFailed)
        } else {
            (w, ReplyView::Ignored)
        },
        EventView::AvatarReady(bytes) => match state {
            StateView::GetAvatar { username, id, card_hash } => on_avatar(
                w,
                chat,
                username,
                id,
                card_hash,
                bytes,
            ),
            _ => (w, ReplyView::Ignored),
        },
    }
}

/// Every step keeps the stores' uniqueness rules: no two staged records, no
/// two users and no two avatars share a key.
pub proof fn lemma_transition_wf(w: RegistryView, chat: i64, ev: EventView)
    requires
        registry_wf(w),
    ensures
        registry_wf(transition(w, chat, ev).0),
{
    if claim(w.staged, ev->Command_0->Register_0).1 is Some {
        let token = ev->Command_0->Register_0;
        let i = choose|i: int| crate::stager::is_first_claim(w.staged, token, i);
        lemma_staged_wf_remove(w.staged, i);
    }
    match session_of(w, chat) {
        StateView::GetAvatar { username, id, card_hash } => {
            let u = UserView { card_hash, id, username, telegram_chat_id: chat };
            lemma_insert_user_wf(w.users, u);
            lemma_put_asset(w.avatars, avatar_key(card_hash), ev->AvatarReady_0);
        },
        _ => {},
    }
}

/// The number of pixels of `p`.
fn photo_area(p: &PhotoSize) -> (r: u64)
    ensures
        r == area(p@),
{
    let w = p.width as u64;
    let h = p.height as u64;
    assert(w * h <= 0xFFFF_FFFF * 0xFFFF_FFFF) by (nonlinear_arith)
        requires
            w <= 0xFFFF_FFFF,
            h <= 0xFFFF_FFFF,
    ;
    w * h
}

/// The position of the highest resolution among `sizes`.
pub fn best_photo_index(sizes: &Vec<PhotoSize>) -> (r: usize)
    requires
        sizes.len() > 0,
    ensures
        is_best_photo(sizes@.map_values(|s: PhotoSize| s@), r as int),
        r as int == best_photo(sizes@.map_values(|s: PhotoSize| s@)),
{
    let ghost s = sizes@.map_values(|p: PhotoSize| p@);
    let mut best: usize = 0;
    assert(s[0] == sizes@[0]@);
    let mut best_area: u64 = photo_area(&sizes[0]);
    let mut i: usize = 1;
    while i < sizes.len()
        invariant
            s == sizes@.map_values(|p: PhotoSize| p@),
            1 <= i <= sizes.len(),
            best < i,
            best_area == area(s[best as int]),
            forall|j: int| 0 <= j < i ==> area(#[trigger] s[j]) <= area(s[best as int]),
            forall|j: int| 0 <= j < best ==> area(#[trigger] s[j]) < area(s[best as int]),
        decreases sizes.len() - i,
    {
        let a = photo_area(&sizes[i]);
        assert(s[i as int] == sizes@[i as int]@);
        if a > best_area {
            best = i;
            best_area = a;
        }
        i = i + 1;
    }
    proof {
        let k = best_photo(s);
        assert(is_best_photo(s, best as int));
        if k < best {
            assert(area(s[k]) < area(s[best as int]));
        } else if best < k {
            assert(area(s[best as int]) < area(s[k]));
        }
    }
    best
}

/// The registry: the stores and the conversations' sessions.
pub struct Registry {
    pub(crate) stager: Stager,
    pub(crate) users: UserStore,
    pub(crate) avatars: AvatarStore,
    pub(crate) sessions: HashMap<i64, RegisterDialogueState>,
    pub(crate) tasks: Vec<LingeringTask>,
}

impl View for Registry {
    type V = RegistryView;

    closed spec fn view(&self) -> RegistryView {
        RegistryView {
            staged: self.stager@,
            users: self.users@,
            avatars: self.avatars@,
            sessions: self.sessions@.map_values(|s: RegisterDialogueState| s@),
            tasks: self.tasks@.map_values(|t: LingeringTask| t@),
        }
    }
}

impl Registry {
    pub open spec fn wf(&self) -> bool {
        registry_wf(self@)
    }

    /// The registry's view is made of its stores' views.
    pub(crate) proof fn lemma_parts(&self)
        ensures
            self@.staged == self.stager@,
            self@.users == self.users@,
            self@.avatars == self.avatars@,
            self@.sessions == self.sessions@.map_values(|s: RegisterDialogueState| s@),
            self@.tasks == self.tasks@.map_values(|t: LingeringTask| t@),
    {
    }

    /// An empty registry.
    pub fn new() -> (r: Registry)
        ensures
            r.wf(),
            r@.staged.len() == 0,
            r@.users.len() == 0,
            r@.avatars.len() == 0,
            r@.sessions == Map::<i64, StateView>::empty(),
            r@.tasks.len() == 0,
    {
        let r = Registry {
            stager: Stager::new(),
            users: UserStore::new(),
            avatars: AvatarStore::new(),
            sessions: HashMap::new(),
            tasks: Vec::new(),
        };
        assert(r@.sessions =~= Map::<i64, StateView>::empty());
        r
    }

    /// The number of staged records.
    pub fn stager_len(&self) -> (r: usize)
        ensures
            r == self@.staged.len(),
    {
        self.stager.len()
    }

    /// The number of users.
    pub fn users_len(&self) -> (r: usize)
        ensures
            r == self@.users.len(),
    {
        self.users.len()
    }

    /// The number of quests handed out and not yet acknowledged.
    pub fn tasks_len(&self) -> (r: usize)
        ensures
            r == self@.tasks.len(),
    {
        self.tasks.len()
    }

    /// The state of the conversation `chat`.
    pub fn session(&self, chat: i64) -> (r: RegisterDialogueState)
        ensures
            r@ == session_of(self@, chat),
    {
        match self.sessions.get(&chat) {
            Some(s) => s.duplicate(),
            None => RegisterDialogueState::StartRegister,
        }
    }

    /// Puts the conversation `chat` in state `s`.
    fn set_session(&mut self, chat: i64, s: RegisterDialogueState)
        ensures
            final(self)@ == with_session(old(self)@, chat, s@),
    {
        let ghost old_view = self@;
        match s {
            RegisterDialogueState::StartRegister => {
                self.sessions.remove(&chat);
            },
            _ => {
                self.sessions.insert(chat, s);
            },
        }
        assert(self@.sessions =~= with_session(old_view, chat, s@).sessions);
    }

    /// One step of the conversation `chat` on `event`.
    pub fn handle(&mut self, chat: i64, event: Event) -> (r: Reply)
        requires
            old(self).wf(),
        ensures
            final(self).wf(),
            (final(self)@, r@) == transition(old(self)@, chat, event@),
    {
        proof {
            lemma_transition_wf(self@, chat, event@);
        }
        let state = self.session(chat);
        match event {
            Event::Command(c) => match c {
                Command::Help => Reply::Help,
                Command::Cancel => {
                    self.set_session(chat, RegisterDialogueState::StartRegister);
                    Reply::Cancelled
                },
                Command::Acknowledge { .. } => Reply::Quest,
                Command::CreateQuest { .. } => Reply::Quest,
                Command::Start => match state {
                    RegisterDialogueState::StartRegister => Reply::Info,
                    _ => Reply::Ignored,
                },
                Command::Register(token) => match state {
                    RegisterDialogueState::StartRegister => self.claim_token(chat, token),
                    _ => Reply::Ignored,
                },
            },
            Event::Text(text) => match state {
                RegisterDialogueState::GetUsername { id, card_hash } => {
                    if self.users.is_username_used(&text) {
                        Reply::UsernameTaken(text)
                    } else {
                        let echo = text.clone();
                        self.set_session(
                            chat,
                            RegisterDialogueState::GetAvatar { username: text, id, card_hash },
                        );
                        Reply::AskAvatar(echo)
                    }
                },
                RegisterDialogueState::GetAvatar { .. } => Reply::AskPhoto,
                RegisterDialogueState::StartRegister => Reply::Ignored,
            },
            Event::Photo(sizes) => match state {
                RegisterDialogueState::GetAvatar { .. } => {
                    if sizes.len() == 0 {
                        Reply::AskPhoto
                    } else {
                        let i = best_photo_index(&sizes);
                        assert(sizes@.map_values(|s: PhotoSize| s@)[i as int] == sizes@[i as int]@);
                        Reply::Download(sizes[i].file_id.clone())
                    }
                },
                RegisterDialogueState::GetUsername { .. } => Reply::AskUsernameText,
                RegisterDialogueState::StartRegister => Reply::Ignored,
            },
            Event::UseProfilePhoto => match state {
                RegisterDialogueState::GetAvatar { .. } => Reply::FetchProfilePhoto,
                _ => Reply::Ignored,
            },
            Event::ProfilePhotoMissing => match state {
                RegisterDialogueState::GetAvatar { .. } => Reply::NoProfilePhoto,
                _ => Reply::Ignored,
            },
            Event::AvatarFailed => match state {
                RegisterDialogueState::GetAvatar { .. } => Reply::AvatarFailed,
                _ => Reply::Ignored,
            },
            Event::AvatarReady(bytes) => match state {
                RegisterDialogueState::GetAvatar { username, id, card_hash } => {
                    self.finish(chat, username, id, card_hash, bytes)
                },
                _ => Reply::Ignored,
            },
        }
    }

    /// `/register token` at the start of the conversation `chat`.
    fn claim_token(&mut self, chat: i64, token: String) -> (r: Reply)
        requires
            old(self).wf(),
        ensures
            (final(self)@, r@) == on_register(old(self)@, chat, token@),
    {
        if token.as_str().unicode_len() != 8 {
            return Reply::InvalidToken;
        }
        match self.stager.consume(token.as_str()) {
            Some(rec) => {
                self.set_session(
                    chat,
                    RegisterDialogueState::GetUsername { id: rec.id, card_hash: rec.card_hash },
                );
                Reply::AskUsername
            },
            None => Reply::UnknownToken,
        }
    }

    /// The avatar's bytes for the conversation `chat`, which awaits one.
    fn finish(&mut self, chat: i64, username: String, id: u128, card_hash: String, bytes: Vec<u8>) -> (r:
        Reply)
        requires
            old(self).wf(),
        ensures
            (final(self)@, r@) == on_avatar(old(self)@, chat, username@, id, card_hash@, bytes@),
    {
        let ghost u = UserView { card_hash: card_hash@, id, username: username@, telegram_chat_id: chat };
        match self.users.conflict(&card_hash, &username, id) {
            None => {
                assert(conflict_of(old(self)@.users, u) is None);
                let key = key_for(&card_hash);
                self.avatars.put(key, bytes);
                match self.users.finalize(card_hash, id, username, chat) {
                    Ok(user) => {
                        self.set_session(chat, RegisterDialogueState::StartRegister);
                        Reply::Registered(user)
                    },
                    Err(e) => Reply::RegistrationFailed(e),
                }
            },
            Some(e) => {
                assert(conflict_of(old(self)@.users, u) == Some(e));
                match e {
                    StoreError::DuplicateUsername => {
                        self.set_session(chat, RegisterDialogueState::GetUsername { id, card_hash });
                    },
                    _ => {},
                }
                Reply::RegistrationFailed(e)
            },
        }
    }
}

} // verus!
