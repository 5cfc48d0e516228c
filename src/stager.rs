//! The staging store: validated cards waiting to be claimed by their token.
//!
//! A token is a prefix of a card's hash. Claiming finds the first staged
//! record whose hash starts with the token and removes it in the same step,
//! so a record can be claimed once only.
use vstd::prelude::*;
use crate::records::{RegStageUser, StageView, StoreError};
use crate::text::{chars_of, has_prefix, starts_with};

verus! {

/// No two staged records share a hash or an id.
pub open spec fn staged_wf(s: Seq<StageView>) -> bool {
    forall|i: int, j: int|
        0 <= i < s.len() && 0 <= j < s.len() && i != j ==> (#[trigger] s[i]).card_hash != (#[trigger] s[j]).card_hash
            && s[i].id != s[j].id
}

pub open spec fn hash_staged(s: Seq<StageView>, card_hash: Seq<char>) -> bool {
    exists|i: int| 0 <= i < s.len() && #[trigger] s[i].card_hash == card_hash
}

pub open spec fn id_staged(s: Seq<StageView>, id: u128) -> bool {
    exists|i: int| 0 <= i < s.len() && #[trigger] s[i].id == id
}

/// The staged record whose id is `id`.
pub open spec fn staged_with_id(s: Seq<StageView>, id: u128) -> Option<StageView> {
    if id_staged(s, id) {
        Some(s[choose|k: int| 0 <= k < s.len() && #[trigger] s[k].id == id])
    } else {
        None
    }
}

/// The staged records after staging `r`, and what staging answers.
pub open spec fn stage(s: Seq<StageView>, r: StageView) -> (Seq<StageView>, Result<StageView, StoreError>) {
    if hash_staged(s, r.card_hash) {
        (s, Err(StoreError::DuplicateHash))
    } else if id_staged(s, r.id) {
        (s, Err(StoreError::DuplicateId))
    } else {
        (s.push(r), Ok(r))
    }
}

/// The record at `i` is the first one whose hash starts with `token`.
pub open spec fn is_first_claim(s: Seq<StageView>, token: Seq<char>, i: int) -> bool {
    &&& 0 <= i < s.len()
    &&& has_prefix(s[i].card_hash, token)
    &&& forall|j: int| 0 <= j < i ==> !has_prefix(#[trigger] s[j].card_hash, token)
}

/// Some staged hash starts with `token`.
pub open spec fn claimable(s: Seq<StageView>, token: Seq<char>) -> bool {
    exists|i: int| is_first_claim(s, token, i)
}

/// The staged records after claiming `token`, and the record claimed.
pub open spec fn claim(s: Seq<StageView>, token: Seq<char>) -> (Seq<StageView>, Option<StageView>) {
    if claimable(s, token) {
        let i = choose|i: int| is_first_claim(s, token, i);
        (s.remove(i), Some(s[i]))
    } else {
        (s, None)
    }
}

pub proof fn lemma_first_claim_unique(s: Seq<StageView>, token: Seq<char>, i: int, k: int)
    requires
        is_first_claim(s, token, i),
        is_first_claim(s, token, k),
    ensures
        i == k,
{
    if k < i {
        assert(has_prefix(s[k].card_hash, token));
    } else if i < k {
        assert(has_prefix(s[i].card_hash, token));
    }
}

/// When some hash starts with `token`, one of them comes first.
pub proof fn lemma_claimable(s: Seq<StageView>, token: Seq<char>, i: int)
    requires
        0 <= i < s.len(),
        has_prefix(s[i].card_hash, token),
    ensures
        claimable(s, token),
    decreases i,
{
    if forall|j: int| 0 <= j < i ==> !has_prefix(#[trigger] s[j].card_hash, token) {
        assert(is_first_claim(s, token, i));
    } else {
        let j = choose|j: int| 0 <= j < i && has_prefix(#[trigger] s[j].card_hash, token);
        lemma_claimable(s, token, j);
    }
}

/// Removing a record keeps hashes and ids unique.
pub proof fn lemma_staged_wf_remove(s: Seq<StageView>, i: int)
    requires
        staged_wf(s),
        0 <= i < s.len(),
    ensures
        staged_wf(s.remove(i)),
{
    s.remove_ensures(i);
    let t = s.remove(i);
    assert forall|a: int, b: int|
        0 <= a < t.len() && 0 <= b < t.len() && a != b implies (#[trigger] t[a]).card_hash
            != (#[trigger] t[b]).card_hash && t[a].id != t[b].id by {
        let a2 = if a < i { a } else { a + 1 };
        let b2 = if b < i { b } else { b + 1 };
        assert(t[a] == s[a2] && t[b] == s[b2]);
        assert(a2 != b2);
        assert(s[a2].card_hash != s[b2].card_hash);
    }
}

/// The staging store.
pub struct Stager {
    records: Vec<RegStageUser>,
}

impl View for Stager {
    type V = Seq<StageView>;

    closed spec fn view(&self) -> Seq<StageView> {
        self.records@.map_values(|r: RegStageUser| r@)
    }
}

impl Stager {
    pub open spec fn wf(&self) -> bool {
        staged_wf(self@)
    }

    /// An empty store.
    pub fn new() -> (r: Stager)
        ensures
            r@ == Seq::<StageView>::empty(),
            r.wf(),
    {
        let r = Stager { records: Vec::new() };
        assert(r@ =~= Seq::<StageView>::empty());
        r
    }

    /// The number of staged records.
    pub fn len(&self) -> (r: usize)
        ensures
            r == self@.len(),
    {
        self.records.len()
    }

    /// Stages the card `card_hash` under `id`, unless a record already holds that hash or id.
    pub fn register(&mut self, card_hash: String, id: u128) -> (r: Result<RegStageUser, StoreError>)
        requires
            old(self).wf(),
        ensures
            final(self).wf(),
            final(self)@ == stage(old(self)@, StageView { card_hash: card_hash@, id }).0,
            match r {
                Ok(rec) => stage(old(self)@, StageView { card_hash: card_hash@, id }).1 == Ok::<StageView, StoreError>(rec@),
                Err(e) => stage(old(self)@, StageView { card_hash: card_hash@, id }).1 == Err::<StageView, StoreError>(e),
            },
    {
        let ghost s = self@;
        let mut i: usize = 0;
        while i < self.records.len()
            invariant
                i <= self.records.len(),
                s == self@,
                s == old(self)@,
                staged_wf(s),
                s.len() == self.records.len(),
                forall|j: int| 0 <= j < i ==> (#[trigger] s[j]).card_hash != card_hash@,
            decreases self.records.len() - i,
        {
            assert(s[i as int] == self.records@[i as int]@);
            if self.records[i].card_hash == card_hash {
                assert(s[i as int].card_hash == card_hash@);
                return Err(StoreError::DuplicateHash);
            }
            i = i + 1;
        }
        let mut i: usize = 0;
        while i < self.records.len()
            invariant
                i <= self.records.len(),
                s == self@,
                s == old(self)@,
                staged_wf(s),
                s.len() == self.records.len(),
                !hash_staged(s, card_hash@),
                forall|j: int| 0 <= j < i ==> (#[trigger] s[j]).id != id,
            decreases self.records.len() - i,
        {
            assert(s[i as int] == self.records@[i as int]@);
            if self.records[i].id == id {
                assert(s[i as int].id == id);
                return Err(StoreError::DuplicateId);
            }
            i = i + 1;
        }
        let rec = RegStageUser { card_hash, id };
        let out = rec.duplicate();
        self.records.push(rec);
        assert(self@ =~= s.push(out@));
        Ok(out)
    }

    /// Claims the first staged record whose hash starts with `token`: it is
    /// removed and handed back in one step.
    pub fn consume(&mut self, token: &str) -> (r: Option<RegStageUser>)
        requires
            old(self).wf(),
        ensures
            final(self).wf(),
            final(self)@ == claim(old(self)@, token@).0,
            match r {
                Some(rec) => claim(old(self)@, token@).1 == Some(rec@),
                None => claim(old(self)@, token@).1 is None,
            },
    {
        let ghost s = self@;
        let t = chars_of(token);
        let mut i: usize = 0;
        while i < self.records.len()
            invariant
                i <= self.records.len(),
                s == self@,
                s == old(self)@,
                staged_wf(s),
                s.len() == self.records.len(),
                t@ == token@,
                forall|j: int| 0 <= j < i ==> !has_prefix(#[trigger] s[j].card_hash, token@),
            decreases self.records.len() - i,
        {
            assert(s[i as int] == self.records@[i as int]@);
            if starts_with(&chars_of(self.records[i].card_hash.as_str()), &t) {
                proof {
                    assert(is_first_claim(s, token@, i as int));
                    let k = choose|k: int| is_first_claim(s, token@, k);
                    lemma_first_claim_unique(s, token@, i as int, k);
                }
                let rec = self.records.remove(i);
                assert(self@ =~= s.remove(i as int));
                proof {
                    lemma_staged_wf_remove(s, i as int);
                }
                return Some(rec);
            }
            i = i + 1;
        }
        assert(!claimable(s, token@));
        None
    }

    /// The staged record with id `id`, left in place.
    pub fn find_by_id(&self, id: u128) -> (r: Option<RegStageUser>)
        requires
            self.wf(),
        ensures
            match r {
                Some(rec) => staged_with_id(self@, id) == Some(rec@),
                None => staged_with_id(self@, id) is None,
            },
    {
        let mut i: usize = 0;
        while i < self.records.len()
            invariant
                i <= self.records.len(),
                self@.len() == self.records.len(),
                forall|j: int| 0 <= j < i ==> (#[trigger] self@[j]).id != id,
                staged_wf(self@),
            decreases self.records.len() - i,
        {
            assert(self@[i as int] == self.records@[i as int]@);
            if self.records[i].id == id {
                assert(self@[i as int].id == id);
                proof {
                    let k = choose|k: int| 0 <= k < self@.len() && #[trigger] self@[k].id == id;
                    assert(k == i as int);
                }
                return Some(self.records[i].duplicate());
            }
            i = i + 1;
        }
        None
    }
}

} // verus!
