//! The user store: finished registrations, unique by card hash, by username
//! and by id.
use vstd::prelude::*;
use crate::records::{StoreError, User, UserView};

verus! {

/// No two users share a card hash, a username or an id.
pub open spec fn users_wf(s: Seq<UserView>) -> bool {
    forall|i: int, j: int|
        0 <= i < s.len() && 0 <= j < s.len() && i != j ==> (#[trigger] s[i]).card_hash != (#[trigger] s[j]).card_hash
            && s[i].username != s[j].username && s[i].id != s[j].id
}

pub open spec fn hash_taken(s: Seq<UserView>, card_hash: Seq<char>) -> bool {
    exists|i: int| 0 <= i < s.len() && #[trigger] s[i].card_hash == card_hash
}

pub open spec fn username_taken(s: Seq<UserView>, username: Seq<char>) -> bool {
    exists|i: int| 0 <= i < s.len() && #[trigger] s[i].username == username
}

pub open spec fn id_taken(s: Seq<UserView>, id: u128) -> bool {
    exists|i: int| 0 <= i < s.len() && #[trigger] s[i].id == id
}

/// The rule of the store that inserting `u` would break, if any.
pub open spec fn conflict_of(s: Seq<UserView>, u: UserView) -> Option<StoreError> {
    if hash_taken(s, u.card_hash) {
        Some(StoreError::DuplicateHash)
    } else if username_taken(s, u.username) {
        Some(StoreError::DuplicateUsername)
    } else if id_taken(s, u.id) {
        Some(StoreError::DuplicateId)
    } else {
        None
    }
}

/// The users after inserting `u`, and what the insert answers.
pub open spec fn insert_user(s: Seq<UserView>, u: UserView) -> (Seq<UserView>, Result<UserView, StoreError>) {
    match conflict_of(s, u) {
        Some(e) => (s, Err(e)),
        None => (s.push(u), Ok(u)),
    }
}

/// The user whose card hash is `card_hash`.
pub open spec fn user_with_hash(s: Seq<UserView>, card_hash: Seq<char>) -> Option<UserView> {
    if hash_taken(s, card_hash) {
        Some(s[choose|i: int| 0 <= i < s.len() && #[trigger] s[i].card_hash == card_hash])
    } else {
        None
    }
}

/// The user whose id is `id`.
pub open spec fn user_with_id(s: Seq<UserView>, id: u128) -> Option<UserView> {
    if id_taken(s, id) {
        Some(s[choose|i: int| 0 <= i < s.len() && #[trigger] s[i].id == id])
    } else {
        None
    }
}

/// The user whose username is `username`.
pub open spec fn user_named(s: Seq<UserView>, username: Seq<char>) -> Option<UserView> {
    if username_taken(s, username) {
        Some(s[choose|i: int| 0 <= i < s.len() && #[trigger] s[i].username == username])
    } else {
        None
    }
}

/// Inserting a user that breaks no rule keeps the store's rules.
pub proof fn lemma_insert_user_wf(s: Seq<UserView>, u: UserView)
    requires
        users_wf(s),
    ensures
        users_wf(insert_user(s, u).0),
{
    if conflict_of(s, u) is None {
        let t = s.push(u);
        assert forall|i: int, j: int|
            0 <= i < t.len() && 0 <= j < t.len() && i != j implies (#[trigger] t[i]).card_hash != (
            #[trigger] t[j]).card_hash && t[i].username != t[j].username && t[i].id != t[j].id by {
            if i == s.len() as int {
                assert(t[j] == s[j]);
            } else if j == s.len() as int {
                assert(t[i] == s[i]);
            } else {
                assert(t[i] == s[i] && t[j] == s[j]);
            }
        }
    }
}

/// The user store.
pub struct UserStore {
    users: Vec<User>,
}

impl View for UserStore {
    type V = Seq<UserView>;

    closed spec fn view(&self) -> Seq<UserView> {
        self.users@.map_values(|u: User| u@)
    }
}

impl UserStore {
    pub open spec fn wf(&self) -> bool {
        users_wf(self@)
    }

    /// An empty store.
    pub fn new() -> (r: UserStore)
        ensures
            r@ == Seq::<UserView>::empty(),
            r.wf(),
    {
        let r = UserStore { users: Vec::new() };
        assert(r@ =~= Seq::<UserView>::empty());
        r
    }

    /// The number of users.
    pub fn len(&self) -> (r: usize)
        ensures
            r == self@.len(),
    {
        self.users.len()
    }

    /// Whether some user already goes by `username`.
    pub fn is_username_used(&self, username: &String) -> (r: bool)
        ensures
            r == username_taken(self@, username@),
    {
        let mut i: usize = 0;
        while i < self.users.len()
            invariant
                i <= self.users.len(),
                self@.len() == self.users.len(),
                forall|j: int| 0 <= j < i ==> (#[trigger] self@[j]).username != username@,
            decreases self.users.len() - i,
        {
            assert(self@[i as int] == self.users@[i as int]@);
            if self.users[i].username == *username {
                assert(self@[i as int].username == username@);
                return true;
            }
            i = i + 1;
        }
        false
    }

    /// The rule that inserting the user would break, if any.
    pub fn conflict(&self, card_hash: &String, username: &String, id: u128) -> (r: Option<StoreError>)
        ensures
            r == conflict_of(
                self@,
                UserView { card_hash: card_hash@, id, username: username@, telegram_chat_id: 0 },
            ),
    {
        let mut i: usize = 0;
        while i < self.users.len()
            invariant
                i <= self.users.len(),
                self@.len() == self.users.len(),
                forall|j: int| 0 <= j < i ==> (#[trigger] self@[j]).card_hash != card_hash@,
            decreases self.users.len() - i,
        {
            assert(self@[i as int] == self.users@[i as int]@);
            if self.users[i].card_hash == *card_hash {
                assert(self@[i as int].card_hash == card_hash@);
                return Some(StoreError::DuplicateHash);
            }
            i = i + 1;
        }
        if self.is_username_used(username) {
            return Some(StoreError::DuplicateUsername);
        }
        let mut i: usize = 0;
        while i < self.users.len()
            invariant
                i <= self.users.len(),
                self@.len() == self.users.len(),
                forall|j: int| 0 <= j < i ==> (#[trigger] self@[j]).id != id,
                !hash_taken(self@, card_hash@),
                !username_taken(self@, username@),
            decreases self.users.len() - i,
        {
            assert(self@[i as int] == self.users@[i as int]@);
            if self.users[i].id == id {
                assert(self@[i as int].id == id);
                return Some(StoreError::DuplicateId);
            }
            i = i + 1;
        }
        None
    }

    /// Inserts a finished registration, unless it would break a rule of the store.
    pub fn finalize(&mut self, card_hash: String, id: u128, username: String, telegram_chat_id: i64) -> (r: Result<
        User,
        StoreError,
    >)
        requires
            old(self).wf(),
        ensures
            final(self).wf(),
            ({
                let u = UserView { card_hash: card_hash@, id, username: username@, telegram_chat_id };
                &&& final(self)@ == insert_user(old(self)@, u).0
                &&& match r {
                    Ok(rec) => insert_user(old(self)@, u).1 == Ok::<UserView, StoreError>(rec@),
                    Err(e) => insert_user(old(self)@, u).1 == Err::<UserView, StoreError>(e),
                }
            }),
    {
        let ghost u = UserView { card_hash: card_hash@, id, username: username@, telegram_chat_id };
        match self.conflict(&card_hash, &username, id) {
            Some(e) => {
                assert(conflict_of(old(self)@, u) == Some(e));
                Err(e)
            },
            None => {
                assert(conflict_of(old(self)@, u) is None);
                let rec = User { card_hash, id, username, telegram_chat_id };
                let out = rec.duplicate();
                self.users.push(rec);
                assert(self@ =~= old(self)@.push(u));
                proof {
                    lemma_insert_user_wf(old(self)@, u);
                }
                Ok(out)
            },
        }
    }

    /// The user whose card hash is `card_hash`.
    pub fn find_by_hash(&self, card_hash: &String) -> (r: Option<User>)
        requires
            self.wf(),
        ensures
            match r {
                Some(u) => user_with_hash(self@, card_hash@) == Some(u@),
                None => user_with_hash(self@, card_hash@) is None,
            },
    {
        let mut i: usize = 0;
        while i < self.users.len()
            invariant
                i <= self.users.len(),
                self@.len() == self.users.len(),
                users_wf(self@),
                forall|j: int| 0 <= j < i ==> (#[trigger] self@[j]).card_hash != card_hash@,
            decreases self.users.len() - i,
        {
            assert(self@[i as int] == self.users@[i as int]@);
            if self.users[i].card_hash == *card_hash {
                assert(self@[i as int].card_hash == card_hash@);
                proof {
                    let k = choose|k: int| 0 <= k < self@.len() && #[trigger] self@[k].card_hash == card_hash@;
                    assert(k == i as int);
                }
                return Some(self.users[i].duplicate());
            }
            i = i + 1;
        }
        None
    }

    /// The user whose id is `id`.
    pub fn find_by_id(&self, id: u128) -> (r: Option<User>)
        requires
            self.wf(),
        ensures
            match r {
                Some(u) => user_with_id(self@, id) == Some(u@),
                None => user_with_id(self@, id) is None,
            },
    {
        let mut i: usize = 0;
        while i < self.users.len()
            invariant
                i <= self.users.len(),
                self@.len() == self.users.len(),
                users_wf(self@),
                forall|j: int| 0 <= j < i ==> (#[trigger] self@[j]).id != id,
            decreases self.users.len() - i,
        {
            assert(self@[i as int] == self.users@[i as int]@);
            if self.users[i].id == id {
                assert(self@[i as int].id == id);
                proof {
                    let k = choose|k: int| 0 <= k < self@.len() && #[trigger] self@[k].id == id;
                    assert(k == i as int);
                }
                return Some(self.users[i].duplicate());
            }
            i = i + 1;
        }
        None
    }

    /// The user who goes by `username`.
    pub fn find_by_username(&self, username: &String) -> (r: Option<User>)
        requires
            self.wf(),
        ensures
            match r {
                Some(u) => user_named(self@, username@) == Some(u@),
                None => user_named(self@, username@) is None,
            },
    {
        let mut i: usize = 0;
        while i < self.users.len()
            invariant
                i <= self.users.len(),
                self@.len() == self.users.len(),
                users_wf(self@),
                forall|j: int| 0 <= j < i ==> (#[trigger] self@[j]).username != username@,
            decreases self.users.len() - i,
        {
            assert(self@[i as int] == self.users@[i as int]@);
            if self.users[i].username == *username {
                assert(self@[i as int].username == username@);
                proof {
                    let k = choose|k: int| 0 <= k < self@.len() && #[trigger] self@[k].username == username@;
                    assert(k == i as int);
                }
                return Some(self.users[i].duplicate());
            }
            i = i + 1;
        }
        None
    }
}

} // verus!
