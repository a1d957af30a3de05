//! Laws relating storing, loading and re-instrumentation, stated over the
//! models that the contracts of those functions use.

use vstd::prelude::*;
use crate::code_cache::{plan_load, reinstrumented, reinstrumented_record, stored, LoadPlan};
use crate::storage::CacheState;
use crate::types::{CodeHash, ModuleRecord};

verus! {

/// Loading from an empty cache finds nothing, whatever the hash and schedule.
pub proof fn lemma_empty_cache_misses(code_hash: CodeHash, version: u32)
    ensures
        plan_load(CacheState::empty(), code_hash, version) == LoadPlan::NotFound,
{
}

/// Code stored under a hash that had nothing cached is served as stored by a
/// load under the version it was instrumented for: no instrumentation runs and
/// nothing changes.
pub proof fn lemma_store_then_load_ready(
    s: CacheState,
    code_hash: CodeHash,
    raw: Seq<u8>,
    rec: ModuleRecord,
)
    requires
        !s.modules.contains_key(code_hash),
    ensures
        plan_load(stored(s, code_hash, Some(raw), rec), code_hash, rec.schedule_version)
            == LoadPlan::Ready(rec),
{
}

/// Once a stale module has been instrumented anew under a version, a later load
/// under that version serves the new code with no further instrumentation.
pub proof fn lemma_reinstrumented_is_ready(
    s: CacheState,
    code_hash: CodeHash,
    version: u32,
    code: Seq<u8>,
)
    requires
        plan_load(s, code_hash, version) is Reinstrument,
    ensures
        plan_load(reinstrumented(s, code_hash, version, code), code_hash, version)
            == LoadPlan::Ready(reinstrumented_record(s, code_hash, version, code)),
        reinstrumented_record(s, code_hash, version, code) == (ModuleRecord {
            schedule_version: version,
            refcount: s.modules[code_hash].refcount,
            code,
        }),
{
}

/// Storing under a hash that already has a cached module adds one owner and
/// changes neither the module's code nor its version.
pub proof fn lemma_store_adds_owner(
    s: CacheState,
    code_hash: CodeHash,
    raw: Option<Seq<u8>>,
    rec: ModuleRecord,
)
    requires
        s.modules.contains_key(code_hash),
    ensures
        stored(s, code_hash, raw, rec).modules[code_hash].refcount == s.modules[code_hash].refcount
            + 1,
        stored(s, code_hash, raw, rec).modules[code_hash].code == s.modules[code_hash].code,
        stored(s, code_hash, raw, rec).modules[code_hash].schedule_version
            == s.modules[code_hash].schedule_version,
{
}

/// Storing the same code three times, first with its raw code and then
/// without, leaves one piece of raw code under the hash and a cached module
/// with three owners, holding the code of the first store.
pub proof fn lemma_three_stores(
    s: CacheState,
    code_hash: CodeHash,
    raw: Seq<u8>,
    first: ModuleRecord,
    second: ModuleRecord,
    third: ModuleRecord,
)
    requires
        !s.modules.contains_key(code_hash),
        first.refcount == 1,
    ensures
        ({
            let s3 = stored(
                stored(stored(s, code_hash, Some(raw), first), code_hash, None, second),
                code_hash,
                None,
                third,
            );
            &&& s3.pristine == s.pristine.insert(code_hash, raw)
            &&& s3.modules[code_hash] == first.refcount_set(3)
        }),
{
}

/// Instrumenting anew keeps the number of owners of the cached module.
pub proof fn lemma_reinstrumenting_keeps_owners(
    s: CacheState,
    code_hash: CodeHash,
    version: u32,
    code: Seq<u8>,
)
    requires
        plan_load(s, code_hash, version) is Reinstrument,
    ensures
        reinstrumented(s, code_hash, version, code).modules[code_hash].refcount
            == s.modules[code_hash].refcount,
        reinstrumented(s, code_hash, version, code).pristine == s.pristine,
{
}

} // verus!
