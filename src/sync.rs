use vstd::prelude::*;
use envie::Envie;
use crate::key::{is_valid_key, valid_key};
use crate::store::{
    load_store, reload_store, store_entries, store_lookup, store_pairs, store_remove, store_set,
};
use crate::system::SystemEnv;

verus! {

/// Why an operation of [`EnvSync`] failed.
#[derive(Debug, Clone, PartialEq, Eq)]
pub enum SyncError {
    /// The backing file could not be read when the synchronizer was made.
    Load(String),
    /// The backing file could not be read again; nothing was changed.
    Reload(String),
    /// The backing file could not be written; the process environment was
    /// left as it was.
    Persist(String),
    /// The key is empty or holds `=` or NUL; nothing was changed.
    InvalidKey,
}

/// Keeps a `.env` store and the process environment in step.
///
/// Every change goes to the store (and its file) first, and reaches the
/// process environment only once the file was written.
pub struct EnvSync {
    store: Envie,
    system: SystemEnv,
}

impl EnvSync {
    /// The entries of the store, name to value.
    pub closed spec fn store_view(&self) -> Map<Seq<char>, Seq<char>> {
        store_entries(self.store)
    }

    /// The process environment, name to value.
    pub closed spec fn system_view(&self) -> Map<Seq<char>, Seq<char>> {
        self.system@
    }

    pub closed spec fn wf(&self) -> bool {
        self.system.wf()
    }

    /// Loads `.env` from the working directory, over an empty process
    /// environment.
    pub fn new() -> (r: Result<EnvSync, SyncError>)
        ensures
            match r {
                Ok(s) => s.wf() && s.system_view() == Map::<Seq<char>, Seq<char>>::empty(),
                Err(e) => e is Load,
            },
    {
        EnvSync::with_system(SystemEnv::new())
    }

    /// Loads `.env` from the working directory, over the process environment
    /// `system`. The environment is not touched.
    pub fn with_system(system: SystemEnv) -> (r: Result<EnvSync, SyncError>)
        requires
            system.wf(),
        ensures
            match r {
                Ok(s) => s.wf() && s.system_view() == system@,
                Err(e) => e is Load,
            },
    {
        EnvSync::after_load(load_store(), system)
    }

    /// What loading the store gives: a synchronizer over the loaded store and
    /// `system`, or the load's failure as a `Load` error.
    pub fn after_load(loaded: Result<Envie, String>, system: SystemEnv) -> (r: Result<
        EnvSync,
        SyncError,
    >)
        requires
            system.wf(),
        ensures
            match loaded {
                Ok(e) => match r {
                    Ok(s) => {
                        &&& s.wf()
                        &&& s.store_view() == store_entries(e)
                        &&& s.system_view() == system@
                    },
                    Err(_) => false,
                },
                Err(m) => r == Err::<EnvSync, SyncError>(SyncError::Load(m)),
            },
    {
        match loaded {
            Ok(store) => Ok(EnvSync::from_store(store, system)),
            Err(msg) => Err(SyncError::Load(msg)),
        }
    }

    /// Joins a store that was already loaded with the process environment
    /// `system`. Neither is touched.
    pub fn from_store(store: Envie, system: SystemEnv) -> (r: EnvSync)
        requires
            system.wf(),
        ensures
            r.wf(),
            r.store_view() == store_entries(store),
            r.system_view() == system@,
    {
        EnvSync { store, system }
    }

    /// Writes every entry of the store into the process environment.
    fn export_entries(&mut self)
        requires
            old(self).wf(),
        ensures
            final(self).wf(),
            final(self).store == old(self).store,
            final(self).system_view() == old(self).system_view().union_prefer_right(
                old(self).store_view(),
            ),
    {
        let pairs = store_pairs(&self.store);
        let ghost start = self.system@;
        let ghost store = store_entries(self.store);
        let ghost mut seen: Set<Seq<char>> = Set::empty();
        let mut i: usize = 0;
        while i < pairs.len()
            invariant
                self.wf(),
                self.store == old(self).store,
                store == store_entries(self.store),
                start == old(self).system@,
                0 <= i <= pairs@.len(),
                forall|j: int|
                    0 <= j < pairs@.len() ==> {
                        &&& store.contains_key(#[trigger] pairs@[j].0@)
                        &&& store[pairs@[j].0@] == pairs@[j].1@
                    },
                forall|j: int| 0 <= j < i ==> seen.contains(#[trigger] pairs@[j].0@),
                seen.subset_of(store.dom()),
                self.system@ == start.union_prefer_right(store.restrict(seen)),
            decreases pairs@.len() - i,
        {
            let ghost k = pairs@[i as int].0@;
            self.system.set(&pairs[i].0, &pairs[i].1);
            proof {
                assert(start.union_prefer_right(store.restrict(seen.insert(k))) =~= start.union_prefer_right(
                    store.restrict(seen),
                ).insert(k, store[k]));
                seen = seen.insert(k);
            }
            i = i + 1;
        }
        proof {
            assert forall|k: Seq<char>| store.contains_key(k) implies seen.contains(k) by {
                let j = choose|j: int| 0 <= j < pairs@.len() && #[trigger] pairs@[j].0@ == k;
            }
            assert(store.restrict(seen) =~= store);
        }
    }

    /// Reads `.env` again, replacing the store's entries with what it holds
    /// now, then writes every entry into the process environment. When the
    /// file cannot be read, neither the store nor the environment changes.
    pub fn reload(&mut self) -> (r: Result<(), SyncError>)
        requires
            old(self).wf(),
        ensures
            final(self).wf(),
            match r {
                Ok(()) => final(self).system_view() == old(self).system_view().union_prefer_right(
                    final(self).store_view(),
                ),
                Err(e) => {
                    &&& e is Reload
                    &&& final(self).store_view() == old(self).store_view()
                    &&& final(self).system_view() == old(self).system_view()
                },
            },
    {
        let read = reload_store(&mut self.store);
        self.after_read(read)
    }

    /// What follows the re-read of the file: when it succeeded, every entry
    /// of the store is exported and the result is `Ok`; when it failed, the
    /// failure comes back as a `Reload` error and nothing is exported.
    pub fn after_read(&mut self, read: Result<(), String>) -> (r: Result<(), SyncError>)
        requires
            old(self).wf(),
        ensures
            final(self).wf(),
            final(self).store_view() == old(self).store_view(),
            match read {
                Ok(()) => {
                    &&& r == Ok::<(), SyncError>(())
                    &&& final(self).system_view() == old(self).system_view().union_prefer_right(
                        old(self).store_view(),
                    )
                },
                Err(m) => {
                    &&& r == Err::<(), SyncError>(SyncError::Reload(m))
                    &&& final(self).system_view() == old(self).system_view()
                },
            },
    {
        match read {
            Ok(()) => {
                self.export_entries();
                Ok(())
            },
            Err(msg) => Err(SyncError::Reload(msg)),
        }
    }

    /// The value of `key` in the process environment.
    pub fn get_system_env(&self, key: &str) -> (r: Option<String>)
        requires
            self.wf(),
        ensures
            match r {
                Some(v) => self.system_view().contains_key(key@) && v@ == self.system_view()[key@],
                None => !self.system_view().contains_key(key@),
            },
    {
        self.system.get(key)
    }

    /// The value of `key` in the store.
    pub fn get_mem_env(&self, key: &str) -> (r: Option<String>)
        ensures
            match r {
                Some(v) => self.store_view().contains_key(key@) && v@ == self.store_view()[key@],
                None => !self.store_view().contains_key(key@),
            },
    {
        store_lookup(&self.store, key)
    }

    /// Gives `key` the value `value` in the store and its file, then, once
    /// the file is written, in the process environment.
    pub fn set(&mut self, key: &str, value: &str) -> (r: Result<(), SyncError>)
        requires
            old(self).wf(),
        ensures
            final(self).wf(),
            !valid_key(key@) ==> {
                &&& r == Err::<(), SyncError>(SyncError::InvalidKey)
                &&& final(self).store_view() == old(self).store_view()
                &&& final(self).system_view() == old(self).system_view()
            },
            valid_key(key@) ==> {
                &&& final(self).store_view() == old(self).store_view().insert(key@, value@)
                &&& match r {
                    Ok(()) => final(self).system_view() == old(self).system_view().insert(
                        key@,
                        value@,
                    ),
                    Err(e) => e is Persist && final(self).system_view() == old(self).system_view(),
                }
            },
            r is Ok ==> {
                &&& final(self).store_view().contains_key(key@)
                &&& final(self).store_view()[key@] == value@
                &&& final(self).system_view().contains_key(key@)
                &&& final(self).system_view()[key@] == value@
            },
    {
        if !is_valid_key(key) {
            return Err(SyncError::InvalidKey);
        }
        let written = store_set(&mut self.store, key, value);
        self.after_write(written, key, value)
    }

    /// What follows the write of `key = value` to the file: when it
    /// succeeded, the environment gets the same value and the result is `Ok`;
    /// when it failed, the failure comes back as a `Persist` error and the
    /// environment is left alone.
    pub fn after_write(&mut self, written: Result<(), String>, key: &str, value: &str) -> (r:
        Result<(), SyncError>)
        requires
            old(self).wf(),
        ensures
            final(self).wf(),
            final(self).store_view() == old(self).store_view(),
            match written {
                Ok(()) => {
                    &&& r == Ok::<(), SyncError>(())
                    &&& final(self).system_view() == old(self).system_view().insert(key@, value@)
                },
                Err(m) => {
                    &&& r == Err::<(), SyncError>(SyncError::Persist(m))
                    &&& final(self).system_view() == old(self).system_view()
                },
            },
    {
        match written {
            Ok(()) => {
                self.system.set(key, value);
                Ok(())
            },
            Err(msg) => Err(SyncError::Persist(msg)),
        }
    }

    /// Takes `key` out of the store and its file, then, once the file is
    /// written, out of the process environment. A key that the store does
    /// not hold is no error: the file is not written, the key is taken out of
    /// the environment, and the result is `Ok`.
    pub fn remove(&mut self, key: &str) -> (r: Result<(), SyncError>)
        requires
            old(self).wf(),
        ensures
            final(self).wf(),
            final(self).store_view() == old(self).store_view().remove(key@),
            !final(self).store_view().contains_key(key@),
            !old(self).store_view().contains_key(key@) ==> {
                &&& r == Ok::<(), SyncError>(())
                &&& final(self).store_view() == old(self).store_view()
                &&& final(self).system_view() == old(self).system_view().remove(key@)
            },
            match r {
                Ok(()) => {
                    &&& final(self).system_view() == old(self).system_view().remove(key@)
                    &&& !final(self).system_view().contains_key(key@)
                },
                Err(e) => e is Persist && final(self).system_view() == old(self).system_view(),
            },
    {
        if store_lookup(&self.store, key).is_none() {
            self.system.remove(key);
            proof {
                assert(store_entries(self.store) =~= store_entries(self.store).remove(key@));
            }
            return Ok(());
        }
        let written = store_remove(&mut self.store, key);
        self.after_remove(written, key)
    }

    /// What follows the removal of `key` from the file: when the write
    /// succeeded, the key leaves the environment too and the result is `Ok`;
    /// when it failed, the failure comes back as a `Persist` error and the
    /// environment is left alone.
    pub fn after_remove(&mut self, written: Result<(), String>, key: &str) -> (r: Result<
        (),
        SyncError,
    >)
        requires
            old(self).wf(),
        ensures
            final(self).wf(),
            final(self).store_view() == old(self).store_view(),
            match written {
                Ok(()) => {
                    &&& r == Ok::<(), SyncError>(())
                    &&& final(self).system_view() == old(self).system_view().remove(key@)
                },
                Err(m) => {
                    &&& r == Err::<(), SyncError>(SyncError::Persist(m))
                    &&& final(self).system_view() == old(self).system_view()
                },
            },
    {
        match written {
            Ok(()) => {
                self.system.remove(key);
                Ok(())
            },
            Err(msg) => Err(SyncError::Persist(msg)),
        }
    }

    /// Writes every entry of the store into the process environment,
    /// overwriting what was there under the same names. Variables that the
    /// store does not name are kept as they are.
    pub fn export_all_to_system(&mut self) -> (r: Result<(), SyncError>)
        requires
            old(self).wf(),
        ensures
            final(self).wf(),
            r is Ok,
            final(self).store_view() == old(self).store_view(),
            final(self).system_view() == old(self).system_view().union_prefer_right(
                old(self).store_view(),
            ),
            forall|k: Seq<char>|
                #[trigger] old(self).system_view().contains_key(k) && !old(self).store_view().contains_key(k)
                    ==> final(self).system_view().contains_key(k) && final(self).system_view()[k]
                    == old(self).system_view()[k],
    {
        self.export_entries();
        Ok(())
    }

    /// Every entry of the store, in no particular order.
    pub fn mem_entries(&self) -> (r: Vec<(String, String)>)
        ensures
            forall|i: int|
                0 <= i < r@.len() ==> {
                    &&& self.store_view().contains_key(#[trigger] r@[i].0@)
                    &&& self.store_view()[r@[i].0@] == r@[i].1@
                },
            forall|k: Seq<char>|
                #[trigger] self.store_view().contains_key(k) ==> exists|i: int|
                    0 <= i < r@.len() && #[trigger] r@[i].0@ == k,
    {
        store_pairs(&self.store)
    }

    /// The process environment as this synchronizer holds it.
    pub fn system(&self) -> (r: &SystemEnv)
        ensures
            r@ == self.system_view(),
            self.wf() ==> r.wf(),
    {
        &self.system
    }
}

} // verus!
