//! A cache of instrumented contract code.
//!
//! Raw code is kept once per content hash; the instrumented form of it is kept
//! beside it together with the version of the schedule it was instrumented
//! under and a count of the owners that share it. Loading hands out the cached
//! form while it is current and re-instruments it in place once the schedule
//! has moved on.

mod types;
mod storage;
mod code_cache;
pub mod laws;

pub use types::{
    CacheError, CachedModule, CodeHash, Instrumentor, ModuleRecord, PrefabWasmModule, Schedule,
};
pub use storage::{CacheState, CodeCache};
pub use code_cache::{
    complete_reinstrumentation, load, plan_load, prepare_and_store_unchecked, reinstrumented,
    reinstrumented_record, store, stored, LoadPlan,
};
