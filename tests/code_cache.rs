use contract_code_cache::{
    complete_reinstrumentation, load, prepare_and_store_unchecked, store, CacheError, CodeCache,
    CodeHash, Instrumentor, PrefabWasmModule, Schedule,
};

/// Instruments by appending the schedule version to the raw code, and counts
/// its calls. Fails for the versions listed in `fail_on`.
struct CountingInstrumentor {
    calls: usize,
    fail_on: Vec<u32>,
}

impl CountingInstrumentor {
    fn new() -> Self {
        CountingInstrumentor { calls: 0, fail_on: Vec::new() }
    }

    fn failing_on(version: u32) -> Self {
        CountingInstrumentor { calls: 0, fail_on: vec![version] }
    }

    fn derive(original_code: &Vec<u8>, schedule: &Schedule) -> Vec<u8> {
        let mut code = original_code.clone();
        code.push(0xaa);
        code.push(schedule.version as u8);
        code
    }
}

impl Instrumentor for CountingInstrumentor {
    fn instrument(&mut self, original_code: &Vec<u8>, schedule: &Schedule) -> Result<Vec<u8>, String> {
        self.calls += 1;
        if self.fail_on.contains(&schedule.version) {
            return Err(format!("rejected under version {}", schedule.version));
        }
        Ok(Self::derive(original_code, schedule))
    }

    fn prepare_unchecked(
        &mut self,
        original_code: &Vec<u8>,
        schedule: &Schedule,
    ) -> Result<Vec<u8>, String> {
        self.calls += 1;
        if self.fail_on.contains(&schedule.version) {
            return Err(String::from("cannot prepare"));
        }
        Ok(original_code.clone())
    }
}

const HASH: CodeHash = 0x5eed;

fn raw() -> Vec<u8> {
    vec![0, 97, 115, 109, 1, 0, 0, 0]
}

fn schedule(version: u32) -> Schedule {
    Schedule { version }
}

fn fresh_module(with_raw: bool) -> PrefabWasmModule {
    let s = schedule(1);
    PrefabWasmModule {
        code_hash: HASH,
        schedule_version: 1,
        refcount: 1,
        code: CountingInstrumentor::derive(&raw(), &s),
        original_code: if with_raw { Some(raw()) } else { None },
    }
}

#[test]
fn load_from_empty_cache_is_not_found() {
    let mut cache = CodeCache::new();
    let mut instr = CountingInstrumentor::new();
    for h in [0u64, 1, HASH, u64::MAX] {
        let r = load(&mut cache, h, &schedule(1), &mut instr);
        assert_eq!(r.err(), Some(CacheError::CodeNotFound));
    }
    assert_eq!(instr.calls, 0);
    assert_eq!(cache.module_count(), 0);
}

#[test]
fn store_then_load_at_same_version() {
    let mut cache = CodeCache::new();
    let mut instr = CountingInstrumentor::new();
    let a1 = CountingInstrumentor::derive(&raw(), &schedule(1));
    assert_eq!(store(&mut cache, fresh_module(true)), HASH);
    let m = load(&mut cache, HASH, &schedule(1), &mut instr).unwrap();
    assert_eq!(m.code, a1);
    assert_eq!(m.schedule_version, 1);
    assert_eq!(m.code_hash, HASH);
    assert_eq!(m.refcount, 1);
    assert!(m.original_code.is_none());
    assert_eq!(instr.calls, 0);
}

#[test]
fn newer_schedule_reinstruments_once() {
    let mut cache = CodeCache::new();
    let mut instr = CountingInstrumentor::new();
    store(&mut cache, fresh_module(true));
    let a2 = CountingInstrumentor::derive(&raw(), &schedule(2));
    let m = load(&mut cache, HASH, &schedule(2), &mut instr).unwrap();
    assert_eq!(instr.calls, 1);
    assert_eq!(m.code, a2);
    assert_eq!(m.schedule_version, 2);
    assert_eq!(m.code_hash, HASH);
    let again = load(&mut cache, HASH, &schedule(2), &mut instr).unwrap();
    assert_eq!(instr.calls, 1);
    assert_eq!(again.code, a2);
    assert_eq!(again.schedule_version, 2);
    let cached = cache.cached_module(HASH).unwrap();
    assert_eq!(cached.code, a2);
    assert_eq!(cached.schedule_version, 2);
}

#[test]
fn three_stores_give_three_owners() {
    let mut cache = CodeCache::new();
    let mut instr = CountingInstrumentor::new();
    store(&mut cache, fresh_module(true));
    store(&mut cache, fresh_module(false));
    store(&mut cache, fresh_module(false));
    assert_eq!(cache.pristine_count(), 1);
    assert_eq!(cache.pristine_code(HASH), Some(&raw()));
    assert_eq!(cache.module_count(), 1);
    assert_eq!(cache.refcount(HASH), Some(3));
    let m = load(&mut cache, HASH, &schedule(1), &mut instr).unwrap();
    assert_eq!(m.refcount, 3);
    assert_eq!(cache.refcount(HASH), Some(3));
}

#[test]
fn later_store_keeps_cached_code_and_version() {
    let mut cache = CodeCache::new();
    store(&mut cache, fresh_module(true));
    let other = PrefabWasmModule {
        code_hash: HASH,
        schedule_version: 7,
        refcount: 1,
        code: vec![1, 2, 3],
        original_code: None,
    };
    store(&mut cache, other);
    let cached = cache.cached_module(HASH).unwrap();
    assert_eq!(cached.schedule_version, 1);
    assert_eq!(cached.code, CountingInstrumentor::derive(&raw(), &schedule(1)));
    assert_eq!(cached.refcount, 2);
}

#[test]
fn reinstrumenting_keeps_owners() {
    let mut cache = CodeCache::new();
    let mut instr = CountingInstrumentor::new();
    store(&mut cache, fresh_module(true));
    store(&mut cache, fresh_module(false));
    store(&mut cache, fresh_module(false));
    let m = load(&mut cache, HASH, &schedule(2), &mut instr).unwrap();
    assert_eq!(instr.calls, 1);
    assert_eq!(m.refcount, 3);
    assert_eq!(cache.refcount(HASH), Some(3));
    assert_eq!(cache.cached_module(HASH).unwrap().schedule_version, 2);
}

#[test]
fn failed_reinstrumentation_leaves_cache() {
    let mut cache = CodeCache::new();
    let mut instr = CountingInstrumentor::failing_on(2);
    store(&mut cache, fresh_module(true));
    store(&mut cache, fresh_module(false));
    let r = load(&mut cache, HASH, &schedule(2), &mut instr);
    assert_eq!(instr.calls, 1);
    assert_eq!(
        r.err(),
        Some(CacheError::InstrumentationFailed(String::from("rejected under version 2")))
    );
    let cached = cache.cached_module(HASH).unwrap();
    assert_eq!(cached.code, CountingInstrumentor::derive(&raw(), &schedule(1)));
    assert_eq!(cached.schedule_version, 1);
    assert_eq!(cached.refcount, 2);
}

#[test]
fn lower_schedule_serves_cached_module() {
    let mut cache = CodeCache::new();
    let mut instr = CountingInstrumentor::new();
    store(&mut cache, fresh_module(true));
    load(&mut cache, HASH, &schedule(5), &mut instr).unwrap();
    assert_eq!(instr.calls, 1);
    let m = load(&mut cache, HASH, &schedule(3), &mut instr).unwrap();
    assert_eq!(instr.calls, 1);
    assert_eq!(m.schedule_version, 5);
    assert_eq!(m.code, CountingInstrumentor::derive(&raw(), &schedule(5)));
}

#[test]
fn stale_module_without_raw_code_is_not_found() {
    let mut cache = CodeCache::new();
    let mut instr = CountingInstrumentor::new();
    store(&mut cache, fresh_module(false));
    let r = load(&mut cache, HASH, &schedule(2), &mut instr);
    assert_eq!(r.err(), Some(CacheError::CodeNotFound));
    assert_eq!(instr.calls, 0);
    assert_eq!(cache.cached_module(HASH).unwrap().schedule_version, 1);
    let m = load(&mut cache, HASH, &schedule(1), &mut instr).unwrap();
    assert_eq!(m.schedule_version, 1);
}

#[test]
fn completing_with_new_code_replaces_record() {
    let mut cache = CodeCache::new();
    store(&mut cache, fresh_module(true));
    store(&mut cache, fresh_module(false));
    let r = complete_reinstrumentation(&mut cache, HASH, &schedule(4), Ok(vec![9, 9])).unwrap();
    assert_eq!(r.code, vec![9, 9]);
    assert_eq!(r.schedule_version, 4);
    assert_eq!(r.refcount, 2);
    assert_eq!(r.code_hash, HASH);
    let cached = cache.cached_module(HASH).unwrap();
    assert_eq!(cached.code, vec![9, 9]);
    assert_eq!(cached.schedule_version, 4);
    assert_eq!(cached.refcount, 2);
    assert_eq!(cache.pristine_code(HASH), Some(&raw()));
}

#[test]
fn completing_with_error_reports_it() {
    let mut cache = CodeCache::new();
    store(&mut cache, fresh_module(true));
    let r = complete_reinstrumentation(&mut cache, HASH, &schedule(4), Err(String::from("too big")));
    assert_eq!(r.err(), Some(CacheError::InstrumentationFailed(String::from("too big"))));
    let cached = cache.cached_module(HASH).unwrap();
    assert_eq!(cached.schedule_version, 1);
    assert_eq!(cached.refcount, 1);
}

#[test]
fn prepare_and_store_unchecked_registers_code() {
    let mut cache = CodeCache::new();
    let mut instr = CountingInstrumentor::new();
    let h = prepare_and_store_unchecked(&mut cache, raw(), HASH, &schedule(3), &mut instr);
    assert_eq!(h, Ok(HASH));
    assert_eq!(cache.pristine_code(HASH), Some(&raw()));
    let cached = cache.cached_module(HASH).unwrap();
    assert_eq!(cached.code, raw());
    assert_eq!(cached.schedule_version, 3);
    assert_eq!(cached.refcount, 1);
    let again = prepare_and_store_unchecked(&mut cache, raw(), HASH, &schedule(3), &mut instr);
    assert_eq!(again, Ok(HASH));
    assert_eq!(cache.refcount(HASH), Some(2));
}

#[test]
fn prepare_and_store_unchecked_failure_stores_nothing() {
    let mut cache = CodeCache::new();
    let mut instr = CountingInstrumentor::failing_on(3);
    let r = prepare_and_store_unchecked(&mut cache, raw(), HASH, &schedule(3), &mut instr);
    assert_eq!(r, Err(String::from("cannot prepare")));
    assert_eq!(cache.pristine_count(), 0);
    assert_eq!(cache.module_count(), 0);
}
