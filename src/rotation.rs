use vstd::prelude::*;

verus! {

/// Size at which the active log file is rotated: 32 MiB.
pub const ROTATE_SIZE: u64 = 33554432;

/// When the active log file is closed and a new one started.
#[derive(Clone, Copy, Debug, PartialEq, Eq, Structural)]
pub enum Trigger {
    /// Once the file is a day old, or has reached the given size in bytes.
    DailyOrSize(u64),
    /// Once the file has reached the given size in bytes.
    Size(u64),
}

/// What happens to rotated files.
#[derive(Clone, Copy, Debug, PartialEq, Eq, Structural)]
pub enum Retention {
    /// The given number of most recent rotated files stay; older ones are deleted.
    KeepLogFiles(usize),
    /// Rotated files are never deleted.
    Never,
}

/// How the file output rotates and cleans up.
#[derive(Clone, Copy, Debug, PartialEq, Eq, Structural)]
pub struct RotationPolicy {
    pub trigger: Trigger,
    pub retention: Retention,
}

/// The policy for a daily-rotation switch and an optional retention count.
pub open spec fn policy_for(rotate_daily: bool, keep_files: Option<usize>) -> RotationPolicy {
    RotationPolicy {
        trigger: if rotate_daily {
            Trigger::DailyOrSize(ROTATE_SIZE)
        } else {
            Trigger::Size(ROTATE_SIZE)
        },
        retention: match keep_files {
            Some(n) => Retention::KeepLogFiles(n),
            None => Retention::Never,
        },
    }
}

/// Chooses the rotation trigger and the retention of rotated files.
pub fn rotation_policy(rotate_daily: bool, keep_files: Option<usize>) -> (r: RotationPolicy)
    ensures
        r == policy_for(rotate_daily, keep_files),
        rotate_daily ==> r.trigger == Trigger::DailyOrSize(ROTATE_SIZE),
        !rotate_daily ==> r.trigger == Trigger::Size(ROTATE_SIZE),
        keep_files.is_some() ==> r.retention == Retention::KeepLogFiles(keep_files.unwrap()),
        keep_files.is_none() ==> r.retention == Retention::Never,
{
    match (rotate_daily, keep_files.is_some()) {
        (true, true) => RotationPolicy {
            trigger: Trigger::DailyOrSize(ROTATE_SIZE),
            retention: Retention::KeepLogFiles(keep_files.unwrap()),
        },
        (true, false) => RotationPolicy {
            trigger: Trigger::DailyOrSize(ROTATE_SIZE),
            retention: Retention::Never,
        },
        (false, true) => RotationPolicy {
            trigger: Trigger::Size(ROTATE_SIZE),
            retention: Retention::KeepLogFiles(keep_files.unwrap()),
        },
        (false, false) => RotationPolicy { trigger: Trigger::Size(ROTATE_SIZE), retention: Retention::Never },
    }
}

} // verus!
