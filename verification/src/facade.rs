//! The command facade's dispatch table.
//!
//! Each named operation the UI may invoke maps to exactly one foreign
//! entry point and one calling convention: a direct synchronous call, an
//! asynchronous call with no parameter, or an asynchronous call carrying
//! one text parameter. The mapping is injective, so no operation can ever
//! drive another operation's entry point.

use vstd::prelude::*;

verus! {

/// The named operations the UI layer may invoke.
#[derive(Clone, Copy, Debug, PartialEq, Eq, Structural)]
pub enum Operation {
    Ping,
    PingAsync,
    ListImages,
    ListContainers,
    StartContainer,
    StopContainer,
    KillContainer,
    DeleteContainer,
    SaveImage,
    LoadImage,
    PruneImages,
    TagImage,
    DeleteImages,
    SystemStatus,
}

/// The foreign entry points of the native container runtime.
#[derive(Clone, Copy, Debug, PartialEq, Eq, Structural)]
pub enum EntryPoint {
    FfiPing,
    FfiPingAsync,
    FfiListImages,
    FfiListContainers,
    FfiStartContainer,
    FfiStopContainer,
    FfiKillContainer,
    FfiDeleteContainer,
    FfiSaveImage,
    FfiLoadImage,
    FfiPruneImage,
    FfiTagImage,
    FfiDeleteImages,
    FfiSystemStatus,
}

/// How an operation reaches its foreign entry point.
#[derive(Clone, Copy, Debug, PartialEq, Eq, Structural)]
pub enum Convention {
    /// A direct call that returns its text without suspending.
    Sync,
    /// One completion-bridge invocation with no parameter.
    AsyncNoParam,
    /// One completion-bridge invocation carrying one text parameter.
    AsyncWithParam,
}

/// The foreign entry point an operation drives.
pub open spec fn entry_of(op: Operation) -> EntryPoint {
    match op {
        Operation::Ping => EntryPoint::FfiPing,
        Operation::PingAsync => EntryPoint::FfiPingAsync,
        Operation::ListImages => EntryPoint::FfiListImages,
        Operation::ListContainers => EntryPoint::FfiListContainers,
        Operation::StartContainer => EntryPoint::FfiStartContainer,
        Operation::StopContainer => EntryPoint::FfiStopContainer,
        Operation::KillContainer => EntryPoint::FfiKillContainer,
        Operation::DeleteContainer => EntryPoint::FfiDeleteContainer,
        Operation::SaveImage => EntryPoint::FfiSaveImage,
        Operation::LoadImage => EntryPoint::FfiLoadImage,
        Operation::PruneImages => EntryPoint::FfiPruneImage,
        Operation::TagImage => EntryPoint::FfiTagImage,
        Operation::DeleteImages => EntryPoint::FfiDeleteImages,
        Operation::SystemStatus => EntryPoint::FfiSystemStatus,
    }
}

/// The calling convention of an operation.
pub open spec fn convention_of(op: Operation) -> Convention {
    match op {
        Operation::Ping => Convention::Sync,
        Operation::PingAsync => Convention::AsyncNoParam,
        Operation::ListImages => Convention::AsyncNoParam,
        Operation::ListContainers => Convention::AsyncNoParam,
        Operation::StartContainer => Convention::AsyncWithParam,
        Operation::StopContainer => Convention::AsyncWithParam,
        Operation::KillContainer => Convention::AsyncWithParam,
        Operation::DeleteContainer => Convention::AsyncWithParam,
        Operation::SaveImage => Convention::AsyncWithParam,
        Operation::LoadImage => Convention::AsyncWithParam,
        Operation::PruneImages => Convention::AsyncNoParam,
        Operation::TagImage => Convention::AsyncWithParam,
        Operation::DeleteImages => Convention::AsyncWithParam,
        Operation::SystemStatus => Convention::AsyncNoParam,
    }
}

/// Select the foreign entry point of `op`.
pub fn entry_point(op: Operation) -> (e: EntryPoint)
    ensures
        e == entry_of(op),
{
    match op {
        Operation::Ping => EntryPoint::FfiPing,
        Operation::PingAsync => EntryPoint::FfiPingAsync,
        Operation::ListImages => EntryPoint::FfiListImages,
        Operation::ListContainers => EntryPoint::FfiListContainers,
        Operation::StartContainer => EntryPoint::FfiStartContainer,
        Operation::StopContainer => EntryPoint::FfiStopContainer,
        Operation::KillContainer => EntryPoint::FfiKillContainer,
        Operation::DeleteContainer => EntryPoint::FfiDeleteContainer,
        Operation::SaveImage => EntryPoint::FfiSaveImage,
        Operation::LoadImage => EntryPoint::FfiLoadImage,
        Operation::PruneImages => EntryPoint::FfiPruneImage,
        Operation::TagImage => EntryPoint::FfiTagImage,
        Operation::DeleteImages => EntryPoint::FfiDeleteImages,
        Operation::SystemStatus => EntryPoint::FfiSystemStatus,
    }
}

/// Select the calling convention of `op`.
pub fn convention(op: Operation) -> (c: Convention)
    ensures
        c == convention_of(op),
{
    match op {
        Operation::Ping => Convention::Sync,
        Operation::PingAsync => Convention::AsyncNoParam,
        Operation::ListImages => Convention::AsyncNoParam,
        Operation::ListContainers => Convention::AsyncNoParam,
        Operation::StartContainer => Convention::AsyncWithParam,
        Operation::StopContainer => Convention::AsyncWithParam,
        Operation::KillContainer => Convention::AsyncWithParam,
        Operation::DeleteContainer => Convention::AsyncWithParam,
        Operation::SaveImage => Convention::AsyncWithParam,
        Operation::LoadImage => Convention::AsyncWithParam,
        Operation::PruneImages => Convention::AsyncNoParam,
        Operation::TagImage => Convention::AsyncWithParam,
        Operation::DeleteImages => Convention::AsyncWithParam,
        Operation::SystemStatus => Convention::AsyncNoParam,
    }
}

/// The dispatch table is injective: two operations share an entry point
/// only if they are the same operation, so no operation can drive another
/// operation's foreign entry point.
pub proof fn lemma_dispatch_injective(a: Operation, b: Operation)
    requires
        entry_of(a) == entry_of(b),
    ensures
        a == b,
{
}

} // verus!
