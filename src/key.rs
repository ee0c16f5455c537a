use vstd::prelude::*;
use vstd::string::StrSliceExecFns;

verus! {

/// A character that the process environment does not accept inside a
/// variable name.
pub open spec fn forbidden_in_key(c: char) -> bool {
    c == '=' || c == '\0'
}

/// A key that both the backing file and the process environment can hold:
/// non-empty, with no `=` and no NUL character.
pub open spec fn valid_key(k: Seq<char>) -> bool {
    &&& k.len() > 0
    &&& forall|i: int| 0 <= i < k.len() ==> !forbidden_in_key(#[trigger] k[i])
}

/// Decides whether `key` may be stored and exported.
pub fn is_valid_key(key: &str) -> (r: bool)
    ensures
        r == valid_key(key@),
{
    let n: usize = key.unicode_len();
    if n == 0 {
        return false;
    }
    let mut i: usize = 0;
    while i < n
        invariant
            n == key@.len(),
            0 <= i <= n,
            forall|j: int| 0 <= j < i ==> !forbidden_in_key(#[trigger] key@[j]),
        decreases n - i,
    {
        let c = key.get_char(i);
        if c == '=' || c == '\0' {
            return false;
        }
        i = i + 1;
    }
    true
}

/// A pair that the process environment can hold: a valid name and a value
/// with no NUL character.
pub open spec fn exportable(k: Seq<char>, v: Seq<char>) -> bool {
    &&& valid_key(k)
    &&& forall|i: int| 0 <= i < v.len() ==> #[trigger] v[i] != '\0'
}

/// The names of the pairs in `entries` that the process environment cannot
/// hold, in the order of `entries`.
pub open spec fn refused(entries: Seq<(String, String)>) -> Seq<Seq<char>>
    decreases entries.len(),
{
    if entries.len() == 0 {
        Seq::empty()
    } else {
        let last = entries.last();
        let rest = refused(entries.drop_last());
        if exportable(last.0@, last.1@) {
            rest
        } else {
            rest.push(last.0@)
        }
    }
}

/// Decides whether `key = value` can be written into the process
/// environment.
pub fn is_exportable(key: &str, value: &str) -> (r: bool)
    ensures
        r == exportable(key@, value@),
{
    if !is_valid_key(key) {
        return false;
    }
    let n: usize = value.unicode_len();
    let mut i: usize = 0;
    while i < n
        invariant
            n == value@.len(),
            0 <= i <= n,
            forall|j: int| 0 <= j < i ==> #[trigger] value@[j] != '\0',
        decreases n - i,
    {
        if value.get_char(i) == '\0' {
            return false;
        }
        i = i + 1;
    }
    true
}

/// The names of the pairs that cannot be exported, so that an export can
/// go on past them and report them all.
pub fn refused_names(entries: &Vec<(String, String)>) -> (r: Vec<String>)
    ensures
        r@.map_values(|s: String| s@) == refused(entries@),
{
    let mut r: Vec<String> = Vec::new();
    let mut i: usize = 0;
    while i < entries.len()
        invariant
            0 <= i <= entries@.len(),
            r@.map_values(|s: String| s@) == refused(entries@.subrange(0, i as int)),
        decreases entries@.len() - i,
    {
        let ghost before = r@;
        if !is_exportable(&entries[i].0, &entries[i].1) {
            r.push(entries[i].0.clone());
        }
        proof {
            let next = entries@.subrange(0, i + 1);
            assert(next.drop_last() =~= entries@.subrange(0, i as int));
            assert(next.last() == entries@[i as int]);
            if !exportable(entries@[i as int].0@, entries@[i as int].1@) {
                assert(r@ == before.push(entries@[i as int].0));
                assert(r@.map_values(|s: String| s@) =~= before.map_values(|s: String| s@).push(
                    entries@[i as int].0@,
                ));
            }
        }
        i = i + 1;
    }
    assert(entries@.subrange(0, entries@.len() as int) =~= entries@);
    r
}

} // verus!
