use vstd::prelude::*;

verus! {

/// The content hash under which a piece of raw code and its instrumented form
/// are kept. Equal raw code has an equal hash.
pub type CodeHash = u64;

/// The schedule that instrumentation follows. Its version only ever grows over
/// the life of the system.
#[derive(Clone, Copy, Debug, PartialEq, Eq)]
pub struct Schedule {
    pub version: u32,
}

/// What the cache keeps under a content hash: the instrumented code, the
/// schedule version it was instrumented under and the number of owners that
/// share it. The hash itself is the key and is not repeated here.
#[derive(Debug)]
pub struct CachedModule {
    pub schedule_version: u32,
    pub refcount: u64,
    pub code: Vec<u8>,
}

/// The mathematical value of a [`CachedModule`].
pub struct ModuleRecord {
    pub schedule_version: u32,
    pub refcount: nat,
    pub code: Seq<u8>,
}

impl ModuleRecord {
    /// The same record with `refcount` owners.
    pub open spec fn refcount_set(self, refcount: nat) -> ModuleRecord {
        ModuleRecord { refcount, ..self }
    }
}

impl View for CachedModule {
    type V = ModuleRecord;

    open spec fn view(&self) -> ModuleRecord {
        ModuleRecord {
            schedule_version: self.schedule_version,
            refcount: self.refcount as nat,
            code: self.code@,
        }
    }
}

/// A module in transit between the cache and its callers: the cached fields,
/// the content hash they belong to and, when the code is registered for the
/// first time, the raw code it was instrumented from.
#[derive(Debug)]
pub struct PrefabWasmModule {
    pub code_hash: CodeHash,
    pub schedule_version: u32,
    pub refcount: u64,
    pub code: Vec<u8>,
    pub original_code: Option<Vec<u8>>,
}

impl PrefabWasmModule {
    /// The record that storing this module under a new hash creates.
    pub open spec fn record(&self) -> ModuleRecord {
        ModuleRecord {
            schedule_version: self.schedule_version,
            refcount: self.refcount as nat,
            code: self.code@,
        }
    }

    /// The raw code that comes with this module, if any.
    pub open spec fn raw_code(&self) -> Option<Seq<u8>> {
        match self.original_code {
            Some(c) => Some(c@),
            None => None,
        }
    }

    /// This module is the one handed out for `rec` under `code_hash`: it carries
    /// the hash and the record's fields, and no raw code.
    pub open spec fn is_loaded_from(&self, code_hash: CodeHash, rec: ModuleRecord) -> bool {
        &&& self.code_hash == code_hash
        &&& self.record() == rec
        &&& self.original_code is None
    }
}

/// Why a module could not be loaded.
#[derive(Debug, PartialEq, Eq)]
pub enum CacheError {
    /// No code is cached under the hash, or its raw code is missing.
    CodeNotFound,
    /// The instrumentor refused the raw code under the current schedule; the
    /// instrumentor's own account of why is carried along.
    InstrumentationFailed(String),
}

/// The transformation from raw code to the instrumented form that runs. It is
/// provided by the user of the cache, and may fail.
pub trait Instrumentor {
    /// Checks and instruments `original_code` under `schedule`.
    fn instrument(&mut self, original_code: &Vec<u8>, schedule: &Schedule) -> Result<
        Vec<u8>,
        String,
    >;

    /// Prepares `original_code` for `schedule` without checking or
    /// instrumenting it, for measurements of the code as it is.
    fn prepare_unchecked(&mut self, original_code: &Vec<u8>, schedule: &Schedule) -> Result<
        Vec<u8>,
        String,
    >;
}

} // verus!
