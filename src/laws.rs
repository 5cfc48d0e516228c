//! Laws of the registration workflow, stated over `transition` and the
//! gateway's lookups.
use vstd::prelude::*;
use crate::api::{avatar_lookup, ErrorKind};
use crate::avatars::{avatar_key, lemma_put_asset};
use crate::command::CommandView;
use crate::dialogue::{
    lemma_transition_wf, registry_wf, session_of, transition, EventView, RegistryView, ReplyView, StateView,
};
use crate::records::{StageView, StoreError, UserView};
use crate::stager::{claim, hash_staged, is_first_claim, lemma_claimable, lemma_first_claim_unique, staged_wf};
use crate::text::has_prefix;
use crate::users::{conflict_of, lemma_insert_user_wf, user_with_id, users_wf};

verus! {

/// `/register` with a token that is not 8 characters long, at the start of a
/// conversation, changes nothing and answers that the token is invalid.
pub proof fn lemma_short_token_changes_nothing(w: RegistryView, chat: i64, token: Seq<char>)
    requires
        token.len() != 8,
        session_of(w, chat) is StartRegister,
    ensures
        transition(w, chat, EventView::Command(CommandView::Register(token))) == (w, ReplyView::InvalidToken),
{
}

/// A claimed record leaves the staging store: no staged record holds its
/// hash any more, so it cannot be claimed again.
pub proof fn lemma_claimed_record_gone(s: Seq<StageView>, token: Seq<char>)
    requires
        staged_wf(s),
        claim(s, token).1 is Some,
    ensures
        !hash_staged(claim(s, token).0, claim(s, token).1->0.card_hash),
{
    let i = choose|i: int| is_first_claim(s, token, i);
    let t = s.remove(i);
    s.remove_ensures(i);
    if hash_staged(t, s[i].card_hash) {
        let j = choose|j: int| 0 <= j < t.len() && #[trigger] t[j].card_hash == s[i].card_hash;
        let j2 = if j < i { j } else { j + 1 };
        assert(t[j] == s[j2]);
        assert(s[j2].card_hash != s[i].card_hash);
    }
}

/// Two conversations send `/register` with the same valid token, which
/// exactly one staged record matches: the first claims it and moves on to the
/// username; the second finds nothing, stays at the start and changes nothing.
pub proof fn lemma_token_claimed_once(w: RegistryView, c1: i64, c2: i64, token: Seq<char>, i: int)
    requires
        registry_wf(w),
        token.len() == 8,
        c1 != c2,
        session_of(w, c1) is StartRegister,
        session_of(w, c2) is StartRegister,
        0 <= i < w.staged.len(),
        has_prefix(w.staged[i].card_hash, token),
        forall|j: int| 0 <= j < w.staged.len() && j != i ==> !has_prefix(#[trigger] w.staged[j].card_hash, token),
    ensures
        ({
            let ev = EventView::Command(CommandView::Register(token));
            let (w1, r1) = transition(w, c1, ev);
            let (w2, r2) = transition(w1, c2, ev);
            &&& r1 == ReplyView::AskUsername
            &&& session_of(w1, c1) == (StateView::GetUsername {
                id: w.staged[i].id,
                card_hash: w.staged[i].card_hash,
            })
            &&& w1.staged == w.staged.remove(i)
            &&& r2 == ReplyView::UnknownToken
            &&& w2 == w1
            &&& session_of(w2, c2) is StartRegister
        }),
{
    let s = w.staged;
    lemma_claimable(s, token, i);
    let k = choose|k: int| is_first_claim(s, token, k);
    if k != i {
        assert(!has_prefix(s[k].card_hash, token));
    }
    let t = s.remove(i);
    s.remove_ensures(i);
    assert forall|j: int| 0 <= j < t.len() implies !has_prefix(#[trigger] t[j].card_hash, token) by {
        let j2 = if j < i { j } else { j + 1 };
        assert(t[j] == s[j2]);
    }
    assert(!(exists|j: int| is_first_claim(t, token, j)));
    let ev = EventView::Command(CommandView::Register(token));
    let w1 = transition(w, c1, ev).0;
    assert(session_of(w1, c2) == session_of(w, c2));
}

/// Every step keeps usernames unique among the users: at most one user
/// record is ever finalized with a given username.
pub proof fn lemma_usernames_stay_unique(w: RegistryView, chat: i64, ev: EventView)
    requires
        registry_wf(w),
    ensures
        forall|i: int, j: int|
            0 <= i < transition(w, chat, ev).0.users.len() && 0 <= j < transition(w, chat, ev).0.users.len()
                && #[trigger] transition(w, chat, ev).0.users[i].username == #[trigger] transition(
                w,
                chat,
                ev,
            ).0.users[j].username ==> i == j,
{
    lemma_transition_wf(w, chat, ev);
}

/// Two conversations that picked the same free username both supply their
/// avatar: the first is registered; the second is refused for the username,
/// goes back to choosing one, and the users stay as the first left them.
pub proof fn lemma_same_username_registers_once(
    w: RegistryView,
    c1: i64,
    c2: i64,
    name: Seq<char>,
    id1: u128,
    id2: u128,
    h1: Seq<char>,
    h2: Seq<char>,
    b1: Seq<u8>,
    b2: Seq<u8>,
)
    requires
        registry_wf(w),
        c1 != c2,
        h1 != h2,
        id1 != id2,
        session_of(w, c1) == (StateView::GetAvatar { username: name, id: id1, card_hash: h1 }),
        session_of(w, c2) == (StateView::GetAvatar { username: name, id: id2, card_hash: h2 }),
        conflict_of(w.users, UserView { card_hash: h1, id: id1, username: name, telegram_chat_id: c1 }) is None,
        conflict_of(w.users, UserView { card_hash: h2, id: id2, username: name, telegram_chat_id: c2 }) is None,
    ensures
        ({
            let (w1, r1) = transition(w, c1, EventView::AvatarReady(b1));
            let (w2, r2) = transition(w1, c2, EventView::AvatarReady(b2));
            &&& r1 == ReplyView::Registered(
                UserView { card_hash: h1, id: id1, username: name, telegram_chat_id: c1 },
            )
            &&& r2 == ReplyView::RegistrationFailed(StoreError::DuplicateUsername)
            &&& session_of(w2, c2) == (StateView::GetUsername { id: id2, card_hash: h2 })
            &&& w2.users == w1.users
            &&& w1.users == w.users.push(UserView { card_hash: h1, id: id1, username: name, telegram_chat_id: c1 })
        }),
{
    let u1 = UserView { card_hash: h1, id: id1, username: name, telegram_chat_id: c1 };
    let w1 = transition(w, c1, EventView::AvatarReady(b1)).0;
    assert(session_of(w1, c2) == session_of(w, c2));
    let n = w.users.len() as int;
    assert(w1.users[n] == u1);
    assert(!crate::users::hash_taken(w1.users, h2)) by {
        if crate::users::hash_taken(w1.users, h2) {
            let j = choose|j: int| 0 <= j < w1.users.len() && #[trigger] w1.users[j].card_hash == h2;
            if j < n {
                assert(w1.users[j] == w.users[j]);
            }
        }
    }
    assert(crate::users::username_taken(w1.users, name));
}

/// Bytes supplied as the avatar of a registration that completes are the
/// bytes the gateway then serves for the new user's id.
pub proof fn lemma_avatar_round_trip(w: RegistryView, chat: i64, name: Seq<char>, id: u128, h: Seq<char>, bytes: Seq<
    u8,
>)
    requires
        registry_wf(w),
        session_of(w, chat) == (StateView::GetAvatar { username: name, id, card_hash: h }),
        conflict_of(w.users, UserView { card_hash: h, id, username: name, telegram_chat_id: chat }) is None,
    ensures
        transition(w, chat, EventView::AvatarReady(bytes)).1 is Registered,
        avatar_lookup(transition(w, chat, EventView::AvatarReady(bytes)).0, id) == Ok::<Seq<u8>, ErrorKind>(bytes),
{
    let u = UserView { card_hash: h, id, username: name, telegram_chat_id: chat };
    let w1 = transition(w, chat, EventView::AvatarReady(bytes)).0;
    lemma_insert_user_wf(w.users, u);
    lemma_put_asset(w.avatars, avatar_key(h), bytes);
    let n = w.users.len() as int;
    assert(w1.users[n] == u);
    assert(user_with_id(w1.users, id) == Some(u)) by {
        let k = choose|k: int| 0 <= k < w1.users.len() && #[trigger] w1.users[k].id == id;
        assert(users_wf(w1.users));
        if k != n {
            assert(w1.users[k].id != w1.users[n].id);
        }
    }
}

/// `/cancel` in the middle of a registration drops the conversation's
/// session and touches no store; a later `/register` that claims a record
/// starts from that record alone.
pub proof fn lemma_cancel_discards_session(w: RegistryView, chat: i64, token: Seq<char>)
    requires
        session_of(w, chat) is GetUsername || session_of(w, chat) is GetAvatar,
    ensures
        ({
            let (w1, r1) = transition(w, chat, EventView::Command(CommandView::Cancel));
            &&& r1 == ReplyView::Cancelled
            &&& !w1.sessions.contains_key(chat)
            &&& w1.staged == w.staged
            &&& w1.users == w.users
            &&& w1.avatars == w.avatars
            &&& w1.tasks == w.tasks
            &&& (token.len() == 8 && claim(w1.staged, token).1 is Some) ==> session_of(
                transition(w1, chat, EventView::Command(CommandView::Register(token))).0,
                chat,
            ) == (StateView::GetUsername {
                id: claim(w.staged, token).1->0.id,
                card_hash: claim(w.staged, token).1->0.card_hash,
            })
        }),
{
}

} // verus!
