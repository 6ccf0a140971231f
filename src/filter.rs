use crate::level::{Level, LevelFilter};
use flexi_logger::{LogSpecBuilder, ModuleFilter as FlexiFilter};
use log::Level as LogLevel;
use log::LevelFilter as LogFilter;
use vstd::prelude::*;

verus! {

/// A level threshold, for the modules whose path starts with `module_name`,
/// or for every module when it has no name (the global default).
pub struct ModuleFilter {
    pub module_name: Option<String>,
    pub level_filter: LevelFilter,
}

/// Whether filter `f` applies to a record written from module `m`.
pub open spec fn covers(f: ModuleFilter, m: Seq<char>) -> bool {
    match f.module_name {
        Some(n) => n@.is_prefix_of(m),
        None => true,
    }
}

/// How specific a filter is: the length of its module name, 0 for the default.
pub open spec fn specificity(f: ModuleFilter) -> nat {
    match f.module_name {
        Some(n) => n@.len(),
        None => 0,
    }
}

/// Filter `i` applies to module `m`, and no filter that applies is more specific.
pub open spec fn is_best(fs: Seq<ModuleFilter>, i: int, m: Seq<char>) -> bool {
    &&& 0 <= i < fs.len()
    &&& covers(fs[i], m)
    &&& forall|j: int| 0 <= j < fs.len() && covers(#[trigger] fs[j], m) ==> specificity(fs[j]) <= specificity(fs[i])
}

/// Some most specific filter for `m` admits `level`.
pub open spec fn best_admits(fs: Seq<ModuleFilter>, m: Seq<char>, level: Level) -> bool {
    exists|i: int| is_best(fs, i, m) && fs[i].level_filter.admits(level)
}

/// Some most specific filter for `m` rejects `level`.
pub open spec fn best_rejects(fs: Seq<ModuleFilter>, m: Seq<char>, level: Level) -> bool {
    exists|i: int| is_best(fs, i, m) && !fs[i].level_filter.admits(level)
}

/// All most specific filters for `m` carry the same threshold.
pub open spec fn unambiguous(fs: Seq<ModuleFilter>, m: Seq<char>) -> bool {
    forall|i: int, j: int|
        is_best(fs, i, m) && is_best(fs, j, m) ==> #[trigger] fs[i].level_filter == #[trigger] fs[j].level_filter
}

/// Whether the filters let a record of `level` from module `m` through: the most
/// specific filter that applies decides, and nothing passes where none applies.
pub open spec fn passes(fs: Seq<ModuleFilter>, m: Seq<char>, level: Level) -> bool {
    best_admits(fs, m, level)
}

/// Relies on `flexi_logger::LogSpecBuilder::from_module_filters(..).build()` and
/// `LogSpecification::enabled`: the filters, deduplicated by name, are tried from
/// the longest name down and the first whose name is a prefix of the module
/// decides; `false` where none applies. Among filters of equal specificity the
/// one tried first depends on hash-map order.
#[verifier::external_body]
fn backend_enabled(filters: &Vec<ModuleFilter>, level: Level, module: &str) -> (r: bool)
    ensures
        r ==> best_admits(filters@, module@, level),
        !r ==> best_rejects(filters@, module@, level) || !exists|i: int| 0 <= i < filters@.len() && covers(#[trigger] filters@[i], module@),
{
    let lf = |f: LevelFilter| match f {
        LevelFilter::Off => LogFilter::Off, LevelFilter::Error => LogFilter::Error,
        LevelFilter::Warn => LogFilter::Warn, LevelFilter::Info => LogFilter::Info,
        LevelFilter::Debug => LogFilter::Debug, LevelFilter::Trace => LogFilter::Trace,
    };
    let fs: Vec<FlexiFilter> = filters.iter().map(|f| FlexiFilter {
        module_name: f.module_name.clone(), level_filter: lf(f.level_filter) }).collect();
    let l = match level {
        Level::Error => LogLevel::Error, Level::Warn => LogLevel::Warn, Level::Info => LogLevel::Info,
        Level::Debug => LogLevel::Debug, Level::Trace => LogLevel::Trace,
    };
    LogSpecBuilder::from_module_filters(&fs).build().enabled(l, module)
}

/// Whether a record of `level` from module `module` is logged under `filters`.
/// Where the most specific filters agree, this is exactly what they say.
pub fn record_enabled(filters: &Vec<ModuleFilter>, level: Level, module: &str) -> (r: bool)
    ensures
        r ==> passes(filters@, module@, level),
        unambiguous(filters@, module@) ==> r == passes(filters@, module@, level),
{
    backend_enabled(filters, level, module)
}

} // verus!
