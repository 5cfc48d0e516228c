//! The avatar store: image bytes under a key derived from a card's hash,
//! and the choice among the resolutions offered for an uploaded photo.
use vstd::prelude::*;
use vstd::string::*;

verus! {

/// The key of the avatar of the card `card_hash`: `<card_hash>.png`.
pub open spec fn avatar_key(card_hash: Seq<char>) -> Seq<char> {
    card_hash + ".png"@
}

/// No two assets share a key.
pub open spec fn avatars_wf(s: Seq<(Seq<char>, Seq<u8>)>) -> bool {
    forall|i: int, j: int| 0 <= i < s.len() && 0 <= j < s.len() && i != j ==> (#[trigger] s[i]).0 != (#[trigger] s[j]).0
}

pub open spec fn has_asset(s: Seq<(Seq<char>, Seq<u8>)>, key: Seq<char>) -> bool {
    exists|i: int| 0 <= i < s.len() && #[trigger] s[i].0 == key
}

/// The position of the asset under `key`.
pub open spec fn asset_index(s: Seq<(Seq<char>, Seq<u8>)>, key: Seq<char>) -> int {
    choose|i: int| 0 <= i < s.len() && #[trigger] s[i].0 == key
}

/// The bytes stored under `key`.
pub open spec fn asset_of(s: Seq<(Seq<char>, Seq<u8>)>, key: Seq<char>) -> Option<Seq<u8>> {
    if has_asset(s, key) {
        Some(s[asset_index(s, key)].1)
    } else {
        None
    }
}

/// The assets after writing `bytes` under `key`, replacing what was there.
pub open spec fn put_asset(s: Seq<(Seq<char>, Seq<u8>)>, key: Seq<char>, bytes: Seq<u8>) -> Seq<
    (Seq<char>, Seq<u8>),
> {
    if has_asset(s, key) {
        s.update(asset_index(s, key), (key, bytes))
    } else {
        s.push((key, bytes))
    }
}

/// Writing an asset keeps keys unique; reading the key back gives the bytes
/// written, and every other key reads as before.
pub proof fn lemma_put_asset(s: Seq<(Seq<char>, Seq<u8>)>, key: Seq<char>, bytes: Seq<u8>)
    requires
        avatars_wf(s),
    ensures
        avatars_wf(put_asset(s, key, bytes)),
        asset_of(put_asset(s, key, bytes), key) == Some(bytes),
        forall|k: Seq<char>| k != key ==> asset_of(put_asset(s, key, bytes), k) == #[trigger] asset_of(s, k),
{
    let t = put_asset(s, key, bytes);
    let n = if has_asset(s, key) { asset_index(s, key) } else { s.len() as int };
    assert(t[n] == (key, bytes));
    assert forall|i: int| 0 <= i < t.len() && i != n implies #[trigger] t[i] == s[i] by {}
    assert forall|i: int, j: int| 0 <= i < t.len() && 0 <= j < t.len() && i != j implies (#[trigger] t[i]).0 != (
    #[trigger] t[j]).0 by {
        if i == n {
            assert(t[j] == s[j]);
        } else if j == n {
            assert(t[i] == s[i]);
        } else {
            assert(t[i] == s[i] && t[j] == s[j]);
        }
    }
    assert(0 <= n < t.len() && t[n].0 == key);
    assert(has_asset(t, key));
    let m = asset_index(t, key);
    assert(m == n);
    assert forall|k: Seq<char>| k != key implies asset_of(t, k) == #[trigger] asset_of(s, k) by {
        if has_asset(s, k) {
            let a = asset_index(s, k);
            assert(t[a] == s[a]);
            assert(has_asset(t, k));
            let b = asset_index(t, k);
            assert(t[b] == s[b]);
        } else if has_asset(t, k) {
            let b = asset_index(t, k);
            assert(t[b] == s[b]);
        }
    }
}

struct Asset {
    key: String,
    bytes: Vec<u8>,
}

/// A copy of `b`.
fn copy_bytes(b: &Vec<u8>) -> (r: Vec<u8>)
    ensures
        r@ == b@,
{
    let mut r: Vec<u8> = Vec::new();
    let mut i: usize = 0;
    while i < b.len()
        invariant
            i <= b.len(),
            r@ == b@.subrange(0, i as int),
        decreases b.len() - i,
    {
        r.push(b[i]);
        i = i + 1;
    }
    assert(r@ =~= b@);
    r
}

/// The key of the avatar of the card `card_hash`.
pub fn key_for(card_hash: &String) -> (r: String)
    ensures
        r@ == avatar_key(card_hash@),
{
    let mut r = card_hash.clone();
    r.append(".png");
    r
}

/// The avatar store.
pub struct AvatarStore {
    assets: Vec<Asset>,
}

impl View for AvatarStore {
    type V = Seq<(Seq<char>, Seq<u8>)>;

    closed spec fn view(&self) -> Seq<(Seq<char>, Seq<u8>)> {
        self.assets@.map_values(|a: Asset| (a.key@, a.bytes@))
    }
}

impl AvatarStore {
    pub open spec fn wf(&self) -> bool {
        avatars_wf(self@)
    }

    /// An empty store.
    pub fn new() -> (r: AvatarStore)
        ensures
            r@ == Seq::<(Seq<char>, Seq<u8>)>::empty(),
            r.wf(),
    {
        let r = AvatarStore { assets: Vec::new() };
        assert(r@ =~= Seq::<(Seq<char>, Seq<u8>)>::empty());
        r
    }

    /// The position of the asset under `key`, if there is one.
    fn index_of(&self, key: &String) -> (r: Option<usize>)
        requires
            self.wf(),
        ensures
            match r {
                Some(i) => has_asset(self@, key@) && i == asset_index(self@, key@),
                None => !has_asset(self@, key@),
            },
    {
        let mut i: usize = 0;
        while i < self.assets.len()
            invariant
                i <= self.assets.len(),
                self@.len() == self.assets.len(),
                avatars_wf(self@),
                forall|j: int| 0 <= j < i ==> (#[trigger] self@[j]).0 != key@,
            decreases self.assets.len() - i,
        {
            assert(self@[i as int] == (self.assets@[i as int].key@, self.assets@[i as int].bytes@));
            if self.assets[i].key == *key {
                assert(self@[i as int].0 == key@);
                proof {
                    let k = asset_index(self@, key@);
                    assert(k == i as int);
                }
                return Some(i);
            }
            i = i + 1;
        }
        None
    }

    /// Writes `bytes` under `key`, replacing what was there.
    pub fn put(&mut self, key: String, bytes: Vec<u8>)
        requires
            old(self).wf(),
        ensures
            final(self).wf(),
            final(self)@ == put_asset(old(self)@, key@, bytes@),
    {
        let ghost s = self@;
        proof {
            lemma_put_asset(s, key@, bytes@);
        }
        match self.index_of(&key) {
            Some(i) => {
                let ghost k = key@;
                let ghost b = bytes@;
                self.assets.set(i, Asset { key, bytes });
                assert(self@ =~= s.update(i as int, (k, b)));
            },
            None => {
                let ghost k = key@;
                let ghost b = bytes@;
                self.assets.push(Asset { key, bytes });
                assert(self@ =~= s.push((k, b)));
            },
        }
    }

    /// The bytes stored under `key`.
    pub fn get(&self, key: &String) -> (r: Option<Vec<u8>>)
        requires
            self.wf(),
        ensures
            match r {
                Some(b) => asset_of(self@, key@) == Some(b@),
                None => asset_of(self@, key@) is None,
            },
    {
        match self.index_of(key) {
            Some(i) => {
                assert(self@[i as int] == (self.assets@[i as int].key@, self.assets@[i as int].bytes@));
                Some(copy_bytes(&self.assets[i].bytes))
            },
            None => None,
        }
    }
}

} // verus!
