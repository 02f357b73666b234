use vstd::prelude::*;

use crate::value::{AstarteData, DataView};

verus! {

/// One named value of an [`Aggregate`].
#[derive(Clone, Debug)]
pub struct Entry {
    pub key: String,
    pub value: AstarteData,
}

/// A generic aggregate: an ordered mapping from names to dynamically typed values.
///
/// Each name occurs at most once (see [`Aggregate::wf`]); entries keep the order
/// in which their names were first inserted.
#[derive(Clone, Debug)]
pub struct Aggregate {
    pub entries: Vec<Entry>,
}

/// Whether `k` is the name of some entry of `s`.
pub open spec fn has_key(s: Seq<(Seq<char>, DataView)>, k: Seq<char>) -> bool {
    exists|i: int| 0 <= i < s.len() && #[trigger] s[i].0 == k
}

/// The value under name `k` in `s` (meaningful where `has_key(s, k)` and the names are unique).
pub open spec fn value_of(s: Seq<(Seq<char>, DataView)>, k: Seq<char>) -> DataView {
    s[choose|i: int| 0 <= i < s.len() && #[trigger] s[i].0 == k].1
}

/// Names are pairwise distinct.
pub open spec fn keys_unique(s: Seq<(Seq<char>, DataView)>) -> bool {
    forall|i: int, j: int| 0 <= i < s.len() && 0 <= j < s.len() && i != j ==> s[i].0 != s[j].0
}

/// In a sequence with unique names, the entry at `i` is the one `value_of` picks.
pub proof fn lemma_value_at(s: Seq<(Seq<char>, DataView)>, i: int)
    requires
        keys_unique(s),
        0 <= i < s.len(),
    ensures
        has_key(s, s[i].0),
        value_of(s, s[i].0) == s[i].1,
{
    let k = s[i].0;
    assert(0 <= i < s.len() && s[i].0 == k);
    let j = choose|j: int| 0 <= j < s.len() && #[trigger] s[j].0 == k;
    assert(j == i);
}

impl View for Aggregate {
    type V = Seq<(Seq<char>, DataView)>;

    open spec fn view(&self) -> Seq<(Seq<char>, DataView)> {
        self.entries@.map_values(|e: Entry| (e.key@, e.value@))
    }
}

impl Aggregate {
    /// Well-formedness: each name occurs once.
    pub open spec fn wf(&self) -> bool {
        keys_unique(self@)
    }

    /// Whether each name occurs once.
    pub fn wf_check(&self) -> (r: bool)
        ensures
            r == self.wf(),
    {
        let mut i: usize = 0;
        while i < self.entries.len()
            invariant
                0 <= i <= self@.len(),
                forall|a: int, b: int| 0 <= a < i && 0 <= b < self@.len() && a != b ==> self@[a].0 != self@[b].0,
            decreases self@.len() - i,
        {
            let mut j: usize = 0;
            while j < self.entries.len()
                invariant
                    0 <= i < self@.len(),
                    0 <= j <= self@.len(),
                    forall|a: int, b: int| 0 <= a < i && 0 <= b < self@.len() && a != b ==> self@[a].0 != self@[b].0,
                    forall|b: int| 0 <= b < j && b != i ==> self@[i as int].0 != self@[b].0,
                decreases self@.len() - j,
            {
                assert(self@[i as int].0 == self.entries@[i as int].key@);
                assert(self@[j as int].0 == self.entries@[j as int].key@);
                if j != i && self.entries[i].key == self.entries[j].key {
                    assert(!keys_unique(self@));
                    return false;
                }
                j = j + 1;
            }
            i = i + 1;
        }
        true
    }

    /// An empty aggregate.
    pub fn new() -> (r: Aggregate)
        ensures
            r.wf(),
            r@ == Seq::<(Seq<char>, DataView)>::empty(),
    {
        let r = Aggregate { entries: Vec::new() };
        assert(r@ =~= Seq::<(Seq<char>, DataView)>::empty());
        r
    }

    /// Number of entries.
    pub fn len(&self) -> (r: usize)
        ensures
            r == self@.len(),
    {
        self.entries.len()
    }

    /// Whether there are no entries.
    pub fn is_empty(&self) -> (r: bool)
        ensures
            r == (self@.len() == 0),
    {
        self.entries.len() == 0
    }

    /// The position of the entry named `key`, if there is one.
    pub fn position(&self, key: &String) -> (r: Option<usize>)
        requires
            self.wf(),
        ensures
            r is None <==> !has_key(self@, key@),
            r matches Some(i) ==> i < self@.len() && self@[i as int].0 == key@ && value_of(self@, key@)
                == self@[i as int].1,
    {
        let mut i: usize = 0;
        while i < self.entries.len()
            invariant
                self.wf(),
                0 <= i <= self@.len(),
                forall|j: int| 0 <= j < i ==> self@[j].0 != key@,
            decreases self@.len() - i,
        {
            if self.entries[i].key == *key {
                proof {
                    lemma_value_at(self@, i as int);
                }
                return Some(i);
            }
            i = i + 1;
        }
        None
    }

    /// The value named `key`, if there is one.
    pub fn get(&self, key: &String) -> (r: Option<&AstarteData>)
        requires
            self.wf(),
        ensures
            r is None <==> !has_key(self@, key@),
            r matches Some(v) ==> v@ == value_of(self@, key@),
    {
        match self.position(key) {
            Some(i) => Some(&self.entries[i].value),
            None => None,
        }
    }

    /// Sets the value named `key`: replaces it in place where the name is present,
    /// appends it otherwise.
    pub fn insert(&mut self, key: String, value: AstarteData)
        requires
            old(self).wf(),
        ensures
            final(self).wf(),
            has_key(old(self)@, key@) ==> exists|i: int|
                0 <= i < old(self)@.len() && old(self)@[i].0 == key@ && final(self)@ == old(
                    self,
                )@.update(i, (key@, value@)),
            !has_key(old(self)@, key@) ==> final(self)@ == old(self)@.push((key@, value@)),
    {
        match self.position(&key) {
            Some(i) => {
                let ghost before = self@;
                let ghost kv = key@;
                let ghost vv = value@;
                self.entries.set(i, Entry { key, value });
                assert(self@ =~= before.update(i as int, (kv, vv)));
            },
            None => {
                let ghost before = self@;
                let ghost kv = key@;
                let ghost vv = value@;
                self.entries.push(Entry { key, value });
                assert(self@ =~= before.push((kv, vv)));
            },
        }
    }
}

} // verus!
