use crate::filter::{
    covers, is_best, passes, record_enabled, specificity, unambiguous, ModuleFilter,
};
use crate::format::LineFormat;
use crate::level::{Level, LevelFilter};
use crate::rotation::{policy_for, rotation_policy, RotationPolicy};
use vstd::prelude::*;

verus! {

/// Where rotated log files go, and how they rotate.
pub struct FileOutput {
    pub directory: String,
    pub rotation: RotationPolicy,
}

/// Everything the logging backend is started with: the filters, the line
/// format of the console and of files, and the file output if there is one.
pub struct LoggerPlan {
    pub filters: Vec<ModuleFilter>,
    pub writer_format: LineFormat,
    pub file_format: LineFormat,
    pub file_output: Option<FileOutput>,
}

/// `fs` is the global default at `level`, then one filter per entry of
/// `overrides`, in order.
pub open spec fn filters_from(
    fs: Seq<ModuleFilter>,
    level: LevelFilter,
    overrides: Seq<(String, LevelFilter)>,
) -> bool {
    &&& fs.len() == overrides.len() + 1
    &&& fs[0].module_name is None
    &&& fs[0].level_filter == level
    &&& forall|i: int|
        0 <= i < overrides.len() ==> {
            &&& (#[trigger] fs[i + 1]).module_name is Some
            &&& fs[i + 1].module_name->0@ == overrides[i].0@
            &&& fs[i + 1].level_filter == overrides[i].1
        }
}

/// The module names of `overrides` are pairwise different and none is empty.
pub open spec fn keys_distinct(overrides: Seq<(String, LevelFilter)>) -> bool {
    &&& forall|i: int| 0 <= i < overrides.len() ==> (#[trigger] overrides[i]).0@.len() > 0
    &&& forall|i: int, j: int|
        0 <= i < overrides.len() && 0 <= j < overrides.len() && i != j
            ==> #[trigger] overrides[i].0@ != #[trigger] overrides[j].0@
}

/// No two filters have the same name, and none has an empty name.
pub open spec fn names_distinct(fs: Seq<ModuleFilter>) -> bool {
    &&& forall|i: int|
        0 <= i < fs.len() && (#[trigger] fs[i]).module_name is Some ==> fs[i].module_name->0@.len() > 0
    &&& forall|i: int, j: int|
        0 <= i < fs.len() && 0 <= j < fs.len() && i != j ==> match (
            #[trigger] fs[i].module_name,
            #[trigger] fs[j].module_name,
        ) {
            (None, None) => false,
            (Some(a), Some(b)) => a@ != b@,
            _ => true,
        }
}

/// The filter list: the global default first, then one filter per module entry
/// in the order given.
pub fn module_filters(level: LevelFilter, overrides: &Vec<(String, LevelFilter)>) -> (r: Vec<ModuleFilter>)
    ensures
        filters_from(r@, level, overrides@),
{
    let mut f: Vec<ModuleFilter> = Vec::new();
    f.push(ModuleFilter { module_name: None, level_filter: level });
    let mut k: usize = 0;
    while k < overrides.len()
        invariant
            k <= overrides@.len(),
            f@.len() == k + 1,
            f@[0].module_name is None,
            f@[0].level_filter == level,
            forall|i: int|
                0 <= i < k ==> {
                    &&& (#[trigger] f@[i + 1]).module_name is Some
                    &&& f@[i + 1].module_name->0@ == overrides@[i].0@
                    &&& f@[i + 1].level_filter == overrides@[i].1
                },
        decreases overrides@.len() - k,
    {
        let name = overrides[k].0.clone();
        f.push(ModuleFilter { module_name: Some(name), level_filter: overrides[k].1 });
        k = k + 1;
    }
    f
}

/// The plan for the given settings and per-module levels.
pub open spec fn plan_matches(
    p: LoggerPlan,
    log_level: LevelFilter,
    log_dir: Option<String>,
    log_rotate_day: bool,
    log_keep_files: Option<usize>,
    log_color: bool,
    log_filters: Seq<(String, LevelFilter)>,
) -> bool {
    &&& filters_from(p.filters@, log_level, log_filters)
    &&& p.writer_format == (if log_color { LineFormat::Colored } else { LineFormat::Plain })
    &&& p.file_format == LineFormat::Plain
    &&& (p.file_output is None <==> log_dir is None)
    &&& log_dir is Some ==> p.file_output->0.directory@ == log_dir->0@
    &&& log_dir is Some ==> p.file_output->0.rotation == policy_for(log_rotate_day, log_keep_files)
}

/// Plans the logger for a minimum level, an optional directory for rotated log
/// files, daily rotation, an optional number of rotated files to keep, console
/// color, and per-module minimum levels.
pub fn plan_logger_with_filters(
    log_level: LevelFilter,
    log_dir: Option<String>,
    log_rotate_day: bool,
    log_keep_files: Option<usize>,
    log_color: bool,
    log_filters: Vec<(String, LevelFilter)>,
) -> (r: LoggerPlan)
    ensures
        plan_matches(r, log_level, log_dir, log_rotate_day, log_keep_files, log_color, log_filters@),
        keys_distinct(log_filters@) ==> names_distinct(r.filters@),
{
    let filters = module_filters(log_level, &log_filters);
    proof {
        if keys_distinct(log_filters@) {
            lemma_plan_names_distinct(filters@, log_level, log_filters@);
        }
    }
    let writer_format = if log_color {
        LineFormat::Colored
    } else {
        LineFormat::Plain
    };
    let file_output = match log_dir {
        Some(d) => Some(FileOutput { directory: d, rotation: rotation_policy(log_rotate_day, log_keep_files) }),
        None => None,
    };
    LoggerPlan { filters, writer_format, file_format: LineFormat::Plain, file_output }
}

/// The same plan with no per-module levels.
pub fn plan_logger(
    log_level: LevelFilter,
    log_dir: Option<String>,
    log_rotate_day: bool,
    log_keep_files: Option<usize>,
    log_color: bool,
) -> (r: LoggerPlan)
    ensures
        plan_matches(r, log_level, log_dir, log_rotate_day, log_keep_files, log_color, Seq::empty()),
        r.filters@.len() == 1,
        names_distinct(r.filters@),
{
    plan_logger_with_filters(log_level, log_dir, log_rotate_day, log_keep_files, log_color, Vec::new())
}

impl LoggerPlan {
    /// Whether a record of `level` from `module` gets through the plan's filters.
    pub fn enabled(&self, level: Level, module: &str) -> (r: bool)
        ensures
            r ==> passes(self.filters@, module@, level),
            names_distinct(self.filters@) ==> r == passes(self.filters@, module@, level),
    {
        proof {
            if names_distinct(self.filters@) {
                lemma_distinct_names_unambiguous(self.filters@, module@);
            }
        }
        record_enabled(&self.filters, level, module)
    }
}

/// With distinct, non-empty module names, exactly one filter is the most
/// specific for any module, so the filters decide every record.
pub proof fn lemma_distinct_names_unambiguous(fs: Seq<ModuleFilter>, m: Seq<char>)
    requires
        names_distinct(fs),
    ensures
        unambiguous(fs, m),
{
    assert forall|i: int, j: int| is_best(fs, i, m) && is_best(fs, j, m) implies #[trigger] fs[i].level_filter
        == #[trigger] fs[j].level_filter by {
        assert(specificity(fs[i]) == specificity(fs[j]));
        if i != j {
            match (fs[i].module_name, fs[j].module_name) {
                (Some(a), Some(b)) => {
                    assert(a@ =~= m.subrange(0, a@.len() as int));
                    assert(b@ =~= m.subrange(0, b@.len() as int));
                },
                _ => {},
            }
        }
    }
}

/// A plan built from distinct, non-empty module names has distinct filter names.
pub proof fn lemma_plan_names_distinct(
    fs: Seq<ModuleFilter>,
    level: LevelFilter,
    overrides: Seq<(String, LevelFilter)>,
)
    requires
        filters_from(fs, level, overrides),
        keys_distinct(overrides),
    ensures
        names_distinct(fs),
{
    assert forall|i: int| 0 <= i < fs.len() && (#[trigger] fs[i]).module_name is Some implies fs[i].module_name->0@.len() > 0 by {
        assert(i > 0);
        assert(fs[(i - 1) + 1] == fs[i]);
    }
    assert forall|i: int, j: int| 0 <= i < fs.len() && 0 <= j < fs.len() && i != j implies match (
        #[trigger] fs[i].module_name,
        #[trigger] fs[j].module_name,
    ) {
        (None, None) => false,
        (Some(a), Some(b)) => a@ != b@,
        _ => true,
    } by {
        if i > 0 {
            assert(fs[(i - 1) + 1] == fs[i]);
        }
        if j > 0 {
            assert(fs[(j - 1) + 1] == fs[j]);
        }
        if i > 0 && j > 0 {
            assert(overrides[i - 1].0@ != overrides[j - 1].0@);
        }
    }
}

/// Where no module entry is a prefix of the module, the global default decides.
pub proof fn lemma_global_default_applies(
    fs: Seq<ModuleFilter>,
    level: LevelFilter,
    overrides: Seq<(String, LevelFilter)>,
    m: Seq<char>,
    l: Level,
)
    requires
        filters_from(fs, level, overrides),
        forall|i: int| 0 <= i < overrides.len() ==> !(#[trigger] overrides[i]).0@.is_prefix_of(m),
    ensures
        passes(fs, m, l) <==> level.admits(l),
{
    assert forall|j: int| 0 <= j < fs.len() && covers(#[trigger] fs[j], m) implies j == 0 by {
        if j > 0 {
            assert(fs[(j - 1) + 1] == fs[j]);
            assert(!overrides[j - 1].0@.is_prefix_of(m));
        }
    }
    assert(is_best(fs, 0, m));
}

/// Where module entry `k` is the longest entry that is a prefix of the module,
/// that entry decides, with distinct non-empty module names.
pub proof fn lemma_longest_entry_applies(
    fs: Seq<ModuleFilter>,
    level: LevelFilter,
    overrides: Seq<(String, LevelFilter)>,
    m: Seq<char>,
    l: Level,
    k: int,
)
    requires
        filters_from(fs, level, overrides),
        keys_distinct(overrides),
        0 <= k < overrides.len(),
        overrides[k].0@.is_prefix_of(m),
        forall|i: int|
            0 <= i < overrides.len() && (#[trigger] overrides[i]).0@.is_prefix_of(m)
                ==> overrides[i].0@.len() <= overrides[k].0@.len(),
    ensures
        passes(fs, m, l) <==> overrides[k].1.admits(l),
{
    lemma_plan_names_distinct(fs, level, overrides);
    lemma_distinct_names_unambiguous(fs, m);
    assert forall|j: int| 0 <= j < fs.len() && covers(#[trigger] fs[j], m) implies specificity(fs[j])
        <= specificity(fs[k + 1]) by {
        if j > 0 {
            assert(fs[(j - 1) + 1] == fs[j]);
            assert(overrides[j - 1].0@.is_prefix_of(m));
        }
    }
    assert(is_best(fs, k + 1, m));
}

} // verus!
