use vstd::prelude::*;
use envie::Envie;

verus! {

/// The backing store: an `envie::Envie`, which holds the parsed `.env` file
/// in memory and writes it back on every change.
#[verifier::external_type_specification]
#[verifier::external_body]
pub struct ExEnvie(envie::Envie);

/// The entries that a store holds in memory, name to value.
pub uninterp spec fn store_entries(e: Envie) -> Map<Seq<char>, Seq<char>>;

/// Relies on `Envie::load`: parses `.env` in the working directory. What it
/// holds depends on the disk, so nothing is promised of it.
#[verifier::external_body]
pub(crate) fn load_store() -> (r: Result<Envie, String>) {
    Envie::load()
}

/// Relies on `Envie::reload`: on a failed read it returns before the
/// in-memory entries are replaced.
#[verifier::external_body]
pub(crate) fn reload_store(e: &mut Envie) -> (r: Result<(), String>)
    ensures
        r is Err ==> store_entries(*final(e)) == store_entries(*old(e)),
{
    e.reload()
}

/// Relies on the public map `Envie::variables`: a lookup in the entries
/// themselves, without `Envie::get`'s fallback to the process environment.
#[verifier::external_body]
pub(crate) fn store_lookup(e: &Envie, key: &str) -> (r: Option<String>)
    ensures
        match r {
            Some(v) => store_entries(*e).contains_key(key@) && v@ == store_entries(*e)[key@],
            None => !store_entries(*e).contains_key(key@),
        },
{
    e.variables.get(key).cloned()
}

/// Relies on `Envie::set`: the entry is inserted in memory first, then the
/// whole file is written; the result reports the write alone.
#[verifier::external_body]
pub(crate) fn store_set(e: &mut Envie, key: &str, value: &str) -> (r: Result<(), String>)
    ensures
        store_entries(*final(e)) == store_entries(*old(e)).insert(key@, value@),
{
    e.set(key, value)
}

/// Relies on `Envie::remove`: the entry is taken out in memory first (an
/// absent name is no error), then the whole file is written; the result
/// reports the write alone.
#[verifier::external_body]
pub(crate) fn store_remove(e: &mut Envie, key: &str) -> (r: Result<(), String>)
    ensures
        store_entries(*final(e)) == store_entries(*old(e)).remove(key@),
{
    e.remove(key)
}

/// Relies on `Envie::get_all`: a copy of the entries, handed out in
/// the order in which the map is walked.
#[verifier::external_body]
pub(crate) fn store_pairs(e: &Envie) -> (r: Vec<(String, String)>)
    ensures
        forall|i: int|
            0 <= i < r@.len() ==> {
                &&& store_entries(*e).contains_key(#[trigger] r@[i].0@)
                &&& store_entries(*e)[r@[i].0@] == r@[i].1@
            },
        forall|k: Seq<char>|
            #[trigger] store_entries(*e).contains_key(k) ==> exists|i: int|
                0 <= i < r@.len() && #[trigger] r@[i].0@ == k,
{
    e.get_all().into_iter().collect()
}

} // verus!
