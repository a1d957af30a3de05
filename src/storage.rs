use std::collections::HashMap;
use vstd::prelude::*;
use crate::types::{CachedModule, CodeHash, ModuleRecord};

verus! {

broadcast use vstd::std_specs::hash::group_hash_axioms;

/// What the two stores hold: raw code by hash, and cached modules by hash.
pub struct CacheState {
    pub pristine: Map<CodeHash, Seq<u8>>,
    pub modules: Map<CodeHash, ModuleRecord>,
}

impl CacheState {
    /// Both stores empty.
    pub open spec fn empty() -> CacheState {
        CacheState { pristine: Map::empty(), modules: Map::empty() }
    }
}

/// The raw code store and the store of instrumented modules, both keyed by
/// content hash. Only the functions of this crate change them.
pub struct CodeCache {
    pristine: HashMap<CodeHash, Vec<u8>>,
    modules: HashMap<CodeHash, CachedModule>,
}

impl View for CodeCache {
    type V = CacheState;

    closed spec fn view(&self) -> CacheState {
        CacheState {
            pristine: self.pristine@.map_values(|c: Vec<u8>| c@),
            modules: self.modules@.map_values(|m: CachedModule| m@),
        }
    }
}

impl CodeCache {
    /// A cache with nothing in it.
    pub fn new() -> (r: CodeCache)
        ensures
            r@ == CacheState::empty(),
    {
        let r = CodeCache { pristine: HashMap::new(), modules: HashMap::new() };
        assert(r@.pristine =~= Map::empty());
        assert(r@.modules =~= Map::empty());
        r
    }

    /// The raw code stored under `code_hash`, if any.
    pub fn pristine_code(&self, code_hash: CodeHash) -> (r: Option<&Vec<u8>>)
        ensures
            match r {
                Some(c) => self@.pristine.contains_key(code_hash) && self@.pristine[code_hash]
                    == c@,
                None => !self@.pristine.contains_key(code_hash),
            },
    {
        self.pristine.get(&code_hash)
    }

    /// The module cached under `code_hash`, if any.
    pub fn cached_module(&self, code_hash: CodeHash) -> (r: Option<&CachedModule>)
        ensures
            match r {
                Some(m) => self@.modules.contains_key(code_hash) && self@.modules[code_hash]
                    == m@,
                None => !self@.modules.contains_key(code_hash),
            },
    {
        self.modules.get(&code_hash)
    }

    /// The number of owners of the module cached under `code_hash`, if any.
    pub fn refcount(&self, code_hash: CodeHash) -> (r: Option<u64>)
        ensures
            match r {
                Some(n) => self@.modules.contains_key(code_hash) && self@.modules[code_hash].refcount
                    == n,
                None => !self@.modules.contains_key(code_hash),
            },
    {
        match self.modules.get(&code_hash) {
            Some(m) => Some(m.refcount),
            None => None,
        }
    }

    /// How many pieces of raw code are stored.
    pub fn pristine_count(&self) -> (r: usize)
        ensures
            r == self@.pristine.len(),
    {
        proof {
            assert(self@.pristine.dom() =~= self.pristine@.dom());
        }
        self.pristine.len()
    }

    /// How many modules are cached.
    pub fn module_count(&self) -> (r: usize)
        ensures
            r == self@.modules.len(),
    {
        proof {
            assert(self@.modules.dom() =~= self.modules@.dom());
        }
        self.modules.len()
    }

    /// Writes raw code under `code_hash`; what was there is replaced.
    pub(crate) fn put_pristine(&mut self, code_hash: CodeHash, code: Vec<u8>)
        ensures
            final(self)@ == (CacheState {
                pristine: old(self)@.pristine.insert(code_hash, code@),
                ..old(self)@
            }),
    {
        self.pristine.insert(code_hash, code);
        assert(self@.pristine =~= old(self)@.pristine.insert(code_hash, code@));
        assert(self@.modules =~= old(self)@.modules);
    }

    /// Caches `module` under `code_hash` where nothing is cached there yet, and
    /// else counts one more owner of what is cached, leaving its code and
    /// version as they are.
    pub(crate) fn insert_or_increment(&mut self, code_hash: CodeHash, module: CachedModule)
        requires
            old(self)@.modules.contains_key(code_hash) ==> old(self)@.modules[code_hash].refcount
                < u64::MAX,
        ensures
            final(self)@ == (CacheState {
                modules: old(self)@.modules.insert(
                    code_hash,
                    if old(self)@.modules.contains_key(code_hash) {
                        ModuleRecord {
                            refcount: old(self)@.modules[code_hash].refcount + 1,
                            ..old(self)@.modules[code_hash]
                        }
                    } else {
                        module@
                    },
                ),
                ..old(self)@
            }),
    {
        let entry = match self.modules.remove(&code_hash) {
            Some(existing) => CachedModule {
                schedule_version: existing.schedule_version,
                refcount: existing.refcount + 1,
                code: existing.code,
            },
            None => module,
        };
        let ghost new_rec = entry@;
        self.modules.insert(code_hash, entry);
        assert(self@.modules =~= old(self)@.modules.insert(code_hash, new_rec));
        assert(self@.pristine =~= old(self)@.pristine);
    }

    /// Overwrites the module cached under `code_hash`.
    pub(crate) fn replace_module(&mut self, code_hash: CodeHash, module: CachedModule)
        requires
            old(self)@.modules.contains_key(code_hash),
        ensures
            final(self)@ == (CacheState {
                modules: old(self)@.modules.insert(code_hash, module@),
                ..old(self)@
            }),
    {
        self.modules.insert(code_hash, module);
        assert(self@.modules =~= old(self)@.modules.insert(code_hash, module@));
        assert(self@.pristine =~= old(self)@.pristine);
    }
}

} // verus!
