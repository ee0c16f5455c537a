use vstd::prelude::*;

verus! {

/// A process-environment table: variable names mapped to values.
///
/// Entries are kept in a vector of pairs whose names are pairwise distinct;
/// the view is the map that those pairs spell out.
pub struct SystemEnv {
    entries: Vec<(String, String)>,
    table: Ghost<Map<Seq<char>, Seq<char>>>,
}

impl View for SystemEnv {
    type V = Map<Seq<char>, Seq<char>>;

    closed spec fn view(&self) -> Map<Seq<char>, Seq<char>> {
        self.table@
    }
}

/// Every name of `table` that `before` spells out is still spelled out by
/// `after`, which keeps each pair of `before` not named `key` at its index
/// and names `key` at index `at`.
proof fn lemma_names_kept(
    before: Seq<(String, String)>,
    after: Seq<(String, String)>,
    table: Map<Seq<char>, Seq<char>>,
    key: Seq<char>,
    at: int,
)
    requires
        forall|k: Seq<char>|
            #[trigger] table.contains_key(k) ==> exists|j: int|
                0 <= j < before.len() && #[trigger] before[j].0@ == k,
        before.len() <= after.len(),
        forall|j: int| 0 <= j < before.len() && #[trigger] before[j].0@ != key ==> after[j] == before[j],
        0 <= at < after.len(),
        after[at].0@ == key,
    ensures
        forall|k: Seq<char>|
            #[trigger] table.contains_key(k) || k == key ==> exists|j: int|
                0 <= j < after.len() && #[trigger] after[j].0@ == k,
{
    assert forall|k: Seq<char>| #[trigger] table.contains_key(k) || k == key implies exists|j: int|
        0 <= j < after.len() && #[trigger] after[j].0@ == k by {
        if k != key {
            let j = choose|j: int| 0 <= j < before.len() && #[trigger] before[j].0@ == k;
            assert(after[j] == before[j]);
        } else {
            assert(after[at].0@ == k);
        }
    }
}

impl SystemEnv {
    /// The pairs agree with the table, and no name occurs twice.
    pub closed spec fn wf(&self) -> bool {
        &&& forall|i: int|
            0 <= i < self.entries@.len() ==> {
                &&& self.table@.contains_key(#[trigger] self.entries@[i].0@)
                &&& self.table@[self.entries@[i].0@] == self.entries@[i].1@
            }
        &&& forall|k: Seq<char>|
            #[trigger] self.table@.contains_key(k) ==> exists|i: int|
                0 <= i < self.entries@.len() && #[trigger] self.entries@[i].0@ == k
        &&& forall|i: int, j: int|
            0 <= i < self.entries@.len() && 0 <= j < self.entries@.len() && i != j
                ==> #[trigger] self.entries@[i].0@ != #[trigger] self.entries@[j].0@
    }

    /// An empty table.
    pub fn new() -> (r: SystemEnv)
        ensures
            r.wf(),
            r@ == Map::<Seq<char>, Seq<char>>::empty(),
    {
        SystemEnv { entries: Vec::new(), table: Ghost(Map::empty()) }
    }

    /// Index of the pair named `key`, if there is one.
    fn position(&self, key: &str) -> (r: Option<usize>)
        requires
            self.wf(),
        ensures
            match r {
                Some(i) => i < self.entries@.len() && self.entries@[i as int].0@ == key@,
                None => !self@.contains_key(key@),
            },
    {
        let k: String = key.to_owned();
        let mut i: usize = 0;
        while i < self.entries.len()
            invariant
                self.wf(),
                k@ == key@,
                0 <= i <= self.entries@.len(),
                forall|j: int| 0 <= j < i ==> #[trigger] self.entries@[j].0@ != key@,
            decreases self.entries@.len() - i,
        {
            if self.entries[i].0 == k {
                return Some(i);
            }
            i = i + 1;
        }
        None
    }

    /// The value of `key`, or `None` when the table has no such name.
    pub fn get(&self, key: &str) -> (r: Option<String>)
        requires
            self.wf(),
        ensures
            match r {
                Some(v) => self@.contains_key(key@) && v@ == self@[key@],
                None => !self@.contains_key(key@),
            },
    {
        match self.position(key) {
            Some(i) => Some(self.entries[i].1.clone()),
            None => None,
        }
    }

    /// Gives `key` the value `value`, adding the name if it is new.
    pub fn set(&mut self, key: &str, value: &str)
        requires
            old(self).wf(),
        ensures
            final(self).wf(),
            final(self)@ == old(self)@.insert(key@, value@),
    {
        let ghost table = self.table@.insert(key@, value@);
        match self.position(key) {
            Some(i) => {
                self.entries.set(i, (key.to_owned(), value.to_owned()));
                self.table = Ghost(table);
                proof {
                    lemma_names_kept(old(self).entries@, self.entries@, old(self).table@, key@, i as int);
                }
            },
            None => {
                self.entries.push((key.to_owned(), value.to_owned()));
                self.table = Ghost(table);
                proof {
                    let n = old(self).entries@.len() as int;
                    lemma_names_kept(old(self).entries@, self.entries@, old(self).table@, key@, n);
                }
            },
        }
    }

    /// Takes `key` out of the table; a name that is not there is left alone.
    pub fn remove(&mut self, key: &str)
        requires
            old(self).wf(),
        ensures
            final(self).wf(),
            final(self)@ == old(self)@.remove(key@),
    {
        match self.position(key) {
            Some(i) => {
                let ghost table = self.table@.remove(key@);
                self.entries.remove(i);
                self.table = Ghost(table);
                assert forall|k: Seq<char>| #[trigger] self.table@.contains_key(k) implies exists|j: int|
                    0 <= j < self.entries@.len() && #[trigger] self.entries@[j].0@ == k by {
                    let j = choose|j: int| 0 <= j < old(self).entries@.len() && #[trigger] old(self).entries@[j].0@ == k;
                    if j < i {
                        assert(self.entries@[j] == old(self).entries@[j]);
                    } else {
                        assert(j != i);
                        assert(self.entries@[j - 1] == old(self).entries@[j]);
                    }
                }
            },
            None => {
                assert(self.table@ =~= self.table@.remove(key@));
            },
        }
    }

    /// Every pair of the table, each name once, in no particular order.
    pub fn to_vec(&self) -> (r: Vec<(String, String)>)
        requires
            self.wf(),
        ensures
            forall|i: int|
                0 <= i < r@.len() ==> {
                    &&& self@.contains_key(#[trigger] r@[i].0@)
                    &&& self@[r@[i].0@] == r@[i].1@
                },
            forall|k: Seq<char>|
                #[trigger] self@.contains_key(k) ==> exists|i: int|
                    0 <= i < r@.len() && #[trigger] r@[i].0@ == k,
            forall|i: int, j: int|
                0 <= i < r@.len() && 0 <= j < r@.len() && i != j
                    ==> #[trigger] r@[i].0@ != #[trigger] r@[j].0@,
    {
        let mut r: Vec<(String, String)> = Vec::new();
        let mut i: usize = 0;
        while i < self.entries.len()
            invariant
                self.wf(),
                0 <= i <= self.entries@.len(),
                r@.len() == i,
                forall|j: int| 0 <= j < i ==> #[trigger] r@[j].0@ == self.entries@[j].0@
                    && r@[j].1@ == self.entries@[j].1@,
            decreases self.entries@.len() - i,
        {
            let k = self.entries[i].0.clone();
            let v = self.entries[i].1.clone();
            r.push((k, v));
            i = i + 1;
        }
        assert forall|k: Seq<char>| #[trigger] self@.contains_key(k) implies exists|i: int|
            0 <= i < r@.len() && #[trigger] r@[i].0@ == k by {
            let j = choose|j: int| 0 <= j < self.entries@.len() && #[trigger] self.entries@[j].0@ == k;
            assert(r@[j].0@ == k);
        }
        r
    }
}

} // verus!
