use vstd::prelude::*;

verus! {

/// A guest filesystem mounted out of an image file into a host directory.
/// The mount and unmount calls themselves are outside work; this type keeps
/// the paths and the decisions around them.
pub struct RedoxFs {
    pub image: String,
    pub dir: String,
}

/// Why mounting or unmounting is refused or has failed.
#[derive(Clone, Copy, PartialEq, Eq, Structural, Debug)]
pub enum MountError {
    /// The directory was already a mount point before mounting.
    AlreadyMounted,
    /// The mount worker finished without the directory becoming a mount
    /// point.
    ExitedEarly,
    /// The mount worker went away without reporting a result.
    NoResult,
    /// The mount worker reported a mount failure.
    WorkerFailed,
    /// The directory was still a mount point after unmounting.
    StillMounted,
}

/// What the background mount worker has reported so far.
#[derive(Clone, Copy, PartialEq, Eq, Structural, Debug)]
pub enum WorkerReport {
    /// No report yet.
    Pending,
    /// The worker returned without an error, yet the mount is not visible.
    FinishedOk,
    /// The worker reported an error.
    FinishedErr,
    /// The worker's channel is gone without a report.
    Disconnected,
}

/// The next move of the loop that polls for the mount to appear.
#[derive(Clone, Copy, PartialEq, Eq, Structural, Debug)]
pub enum MountPoll {
    /// The directory is a mount point: mounting succeeded.
    Mounted,
    /// Nothing decided yet: sleep briefly and poll again.
    KeepWaiting,
    /// Mounting failed for the given reason.
    Failed { reason: MountError },
}

impl RedoxFs {
    /// Pairs an image file with the directory it is mounted into.
    pub fn new(image: &str, dir: &str) -> (r: RedoxFs)
        ensures
            r.image@ == image@,
            r.dir@ == dir@,
    {
        RedoxFs { image: String::from_str(image), dir: String::from_str(dir) }
    }
}

/// Mounting starts only on a directory that is not yet a mount point.
pub fn mount_precheck(already_mounted: bool) -> (r: Result<(), MountError>)
    ensures
        r == if already_mounted {
            Err::<(), MountError>(MountError::AlreadyMounted)
        } else {
            Ok::<(), MountError>(())
        },
{
    if already_mounted {
        Err(MountError::AlreadyMounted)
    } else {
        Ok(())
    }
}

/// One round of the mount poll: the mount call blocks in a worker, while
/// this decides from the directory's mount state and the worker's report
/// whether to stop, fail, or poll again.  A visible mount always wins; a
/// worker that finished or vanished without the mount appearing is a
/// failure; otherwise the poll goes on.
pub fn mount_poll(dir_is_mount_point: bool, report: WorkerReport) -> (r: MountPoll)
    ensures
        r == if dir_is_mount_point {
            MountPoll::Mounted
        } else {
            match report {
                WorkerReport::Pending => MountPoll::KeepWaiting,
                WorkerReport::FinishedOk => MountPoll::Failed { reason: MountError::ExitedEarly },
                WorkerReport::FinishedErr => MountPoll::Failed {
                    reason: MountError::WorkerFailed,
                },
                WorkerReport::Disconnected => MountPoll::Failed { reason: MountError::NoResult },
            }
        },
{
    if dir_is_mount_point {
        MountPoll::Mounted
    } else {
        match report {
            WorkerReport::Pending => MountPoll::KeepWaiting,
            WorkerReport::FinishedOk => MountPoll::Failed { reason: MountError::ExitedEarly },
            WorkerReport::FinishedErr => MountPoll::Failed { reason: MountError::WorkerFailed },
            WorkerReport::Disconnected => MountPoll::Failed { reason: MountError::NoResult },
        }
    }
}

/// After the unmount helper ran, the directory must no longer be a mount
/// point; a directory that was never mounted needs no unmount at all.
pub fn unmount_check(was_mounted: bool, still_mounted: bool) -> (r: Result<(), MountError>)
    ensures
        r == if was_mounted && still_mounted {
            Err::<(), MountError>(MountError::StillMounted)
        } else {
            Ok::<(), MountError>(())
        },
{
    if was_mounted && still_mounted {
        Err(MountError::StillMounted)
    } else {
        Ok(())
    }
}

} // verus!
