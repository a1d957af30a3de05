use vstd::prelude::*;
use crate::storage::{CacheState, CodeCache};
use crate::types::{
    CacheError, CachedModule, CodeHash, Instrumentor, ModuleRecord, PrefabWasmModule, Schedule,
};

verus! {

/// The stores after registering `raw` (if given) and `rec` under `code_hash`:
/// the raw code is written, and the record is cached where nothing was cached
/// under the hash, while an existing record gains one owner and keeps its code
/// and version.
pub open spec fn stored(
    s: CacheState,
    code_hash: CodeHash,
    raw: Option<Seq<u8>>,
    rec: ModuleRecord,
) -> CacheState {
    CacheState {
        pristine: match raw {
            Some(c) => s.pristine.insert(code_hash, c),
            None => s.pristine,
        },
        modules: s.modules.insert(
            code_hash,
            if s.modules.contains_key(code_hash) {
                ModuleRecord { refcount: s.modules[code_hash].refcount + 1, ..s.modules[code_hash] }
            } else {
                rec
            },
        ),
    }
}

/// What loading `code_hash` under a schedule of version `version` has to do.
pub enum LoadPlan {
    /// Fail with `CodeNotFound`.
    NotFound,
    /// Hand out the cached record as it is.
    Ready(ModuleRecord),
    /// Instrument the raw code anew; the cached record is stale.
    Reinstrument(ModuleRecord, Seq<u8>),
}

/// The plan for loading `code_hash` under version `version` from `s`. A record
/// is stale when its version is lower than the schedule's; one with an equal
/// (or, against the rule that versions only grow, a higher) version is served.
pub open spec fn plan_load(s: CacheState, code_hash: CodeHash, version: u32) -> LoadPlan {
    if !s.modules.contains_key(code_hash) {
        LoadPlan::NotFound
    } else if s.modules[code_hash].schedule_version >= version {
        LoadPlan::Ready(s.modules[code_hash])
    } else if !s.pristine.contains_key(code_hash) {
        LoadPlan::NotFound
    } else {
        LoadPlan::Reinstrument(s.modules[code_hash], s.pristine[code_hash])
    }
}

/// The record that re-instrumenting `code_hash` into `code` under version
/// `version` leaves: the new code and version, and the owners as they were.
pub open spec fn reinstrumented_record(
    s: CacheState,
    code_hash: CodeHash,
    version: u32,
    code: Seq<u8>,
) -> ModuleRecord {
    ModuleRecord { schedule_version: version, refcount: s.modules[code_hash].refcount, code }
}

/// The stores after the record under `code_hash` has been replaced by its
/// re-instrumented form.
pub open spec fn reinstrumented(
    s: CacheState,
    code_hash: CodeHash,
    version: u32,
    code: Seq<u8>,
) -> CacheState {
    CacheState {
        modules: s.modules.insert(code_hash, reinstrumented_record(s, code_hash, version, code)),
        ..s
    }
}

/// Puts `prefab_module` in the cache and returns its content hash.
///
/// Its raw code, when it carries any, is written to the raw code store. Where
/// a module is already cached under the hash, that module gains one owner and
/// keeps its code and version; else `prefab_module` is cached as it is.
///
/// The count of owners cannot reach `u64::MAX`: the resources that each owner
/// pays for run out long before.
pub fn store(cache: &mut CodeCache, prefab_module: PrefabWasmModule) -> (r: CodeHash)
    requires
        old(cache)@.modules.contains_key(prefab_module.code_hash) ==> old(
            cache,
        )@.modules[prefab_module.code_hash].refcount < u64::MAX,
    ensures
        r == prefab_module.code_hash,
        final(cache)@ == stored(
            old(cache)@,
            prefab_module.code_hash,
            prefab_module.raw_code(),
            prefab_module.record(),
        ),
{
    let PrefabWasmModule { code_hash, schedule_version, refcount, code, original_code } =
        prefab_module;
    if let Some(original) = original_code {
        cache.put_pristine(code_hash, original);
    }
    cache.insert_or_increment(code_hash, CachedModule { schedule_version, refcount, code });
    assert(cache@ == stored(
        old(cache)@,
        code_hash,
        prefab_module.raw_code(),
        prefab_module.record(),
    ));
    code_hash
}

/// Finishes a load that found the module under `code_hash` stale, given what
/// instrumenting its raw code under `schedule` gave.
///
/// With new code, the cached record is replaced by that code under the
/// schedule's version and with the owners it had, and the new module is
/// handed out. With an error, the cache is left as it was and the error is
/// returned as `InstrumentationFailed`.
pub fn complete_reinstrumentation(
    cache: &mut CodeCache,
    code_hash: CodeHash,
    schedule: &Schedule,
    outcome: Result<Vec<u8>, String>,
) -> (r: Result<PrefabWasmModule, CacheError>)
    requires
        plan_load(old(cache)@, code_hash, schedule.version) is Reinstrument,
    ensures
        match outcome {
            Ok(code) => {
                &&& r is Ok
                &&& r->Ok_0.is_loaded_from(
                    code_hash,
                    reinstrumented_record(old(cache)@, code_hash, schedule.version, code@),
                )
                &&& final(cache)@ == reinstrumented(
                    old(cache)@,
                    code_hash,
                    schedule.version,
                    code@,
                )
            },
            Err(e) => {
                &&& r == Err::<PrefabWasmModule, CacheError>(CacheError::InstrumentationFailed(e))
                &&& final(cache)@ == old(cache)@
            },
        },
{
    match outcome {
        Ok(code) => {
            // A stale module is cached under the hash, so `None` does not occur.
            let refcount = match cache.refcount(code_hash) {
                Some(n) => n,
                None => 0,
            };
            let cached = code.clone();
            assert(cached@ =~= code@);
            cache.replace_module(
                code_hash,
                CachedModule { schedule_version: schedule.version, refcount, code: cached },
            );
            assert(cache@ == reinstrumented(old(cache)@, code_hash, schedule.version, code@));
            Ok(
                PrefabWasmModule {
                    code_hash,
                    schedule_version: schedule.version,
                    refcount,
                    code,
                    original_code: None,
                },
            )
        },
        Err(e) => Err(CacheError::InstrumentationFailed(e)),
    }
}

/// Loads the module cached under `code_hash`, current for `schedule`.
///
/// A module instrumented under a lower schedule version than `schedule`'s is
/// instrumented anew from its raw code, and the cache is updated with the
/// result before it is handed out; otherwise the cached module is handed out
/// and nothing changes. `CodeNotFound` comes where nothing is cached under the
/// hash, or where a stale module's raw code is missing. When instrumentation
/// fails, the cache is left as it was.
pub fn load<I: Instrumentor>(
    cache: &mut CodeCache,
    code_hash: CodeHash,
    schedule: &Schedule,
    instrumentor: &mut I,
) -> (r: Result<PrefabWasmModule, CacheError>)
    ensures
        match plan_load(old(cache)@, code_hash, schedule.version) {
            LoadPlan::NotFound => {
                &&& r == Err::<PrefabWasmModule, CacheError>(CacheError::CodeNotFound)
                &&& final(cache)@ == old(cache)@
                &&& *final(instrumentor) == *old(instrumentor)
            },
            LoadPlan::Ready(rec) => {
                &&& r is Ok
                &&& r->Ok_0.is_loaded_from(code_hash, rec)
                &&& final(cache)@ == old(cache)@
                &&& *final(instrumentor) == *old(instrumentor)
            },
            LoadPlan::Reinstrument(_, _) => match r {
                Ok(m) => {
                    &&& m.is_loaded_from(
                        code_hash,
                        reinstrumented_record(old(cache)@, code_hash, schedule.version, m.code@),
                    )
                    &&& final(cache)@ == reinstrumented(
                        old(cache)@,
                        code_hash,
                        schedule.version,
                        m.code@,
                    )
                },
                Err(e) => {
                    &&& e is InstrumentationFailed
                    &&& final(cache)@ == old(cache)@
                },
            },
        },
{
    let outcome = match cache.cached_module(code_hash) {
        None => {
            return Err(CacheError::CodeNotFound);
        },
        Some(m) => {
            if m.schedule_version >= schedule.version {
                let code = m.code.clone();
                assert(code@ =~= m.code@);
                return Ok(
                    PrefabWasmModule {
                        code_hash,
                        schedule_version: m.schedule_version,
                        refcount: m.refcount,
                        code,
                        original_code: None,
                    },
                );
            }
            match cache.pristine_code(code_hash) {
                None => {
                    return Err(CacheError::CodeNotFound);
                },
                Some(original_code) => instrumentor.instrument(original_code, schedule),
            }
        },
    };
    complete_reinstrumentation(cache, code_hash, schedule, outcome)
}

/// Prepares `original_code` under `schedule` without checking or
/// instrumenting it, and stores the result under `code_hash` as a module with
/// one owner, together with the raw code. Returns the hash, or the
/// preparation's error, in which case the cache is left as it was.
///
/// `code_hash` is the content hash of `original_code`.
pub fn prepare_and_store_unchecked<I: Instrumentor>(
    cache: &mut CodeCache,
    original_code: Vec<u8>,
    code_hash: CodeHash,
    schedule: &Schedule,
    instrumentor: &mut I,
) -> (r: Result<CodeHash, String>)
    requires
        old(cache)@.modules.contains_key(code_hash) ==> old(cache)@.modules[code_hash].refcount
            < u64::MAX,
    ensures
        match r {
            Ok(h) => {
                &&& h == code_hash
                &&& exists|code: Seq<u8>|
                    final(cache)@ == stored(
                        old(cache)@,
                        code_hash,
                        Some(original_code@),
                        ModuleRecord { schedule_version: schedule.version, refcount: 1, code },
                    )
            },
            Err(_) => final(cache)@ == old(cache)@,
        },
{
    match instrumentor.prepare_unchecked(&original_code, schedule) {
        Ok(code) => {
            let ghost prepared = code@;
            let prefab_module = PrefabWasmModule {
                code_hash,
                schedule_version: schedule.version,
                refcount: 1,
                code,
                original_code: Some(original_code),
            };
            let h = store(cache, prefab_module);
            assert(cache@ == stored(
                old(cache)@,
                code_hash,
                Some(original_code@),
                ModuleRecord { schedule_version: schedule.version, refcount: 1, code: prepared },
            ));
            Ok(h)
        },
        Err(e) => Err(e),
    }
}

} // verus!
