//! The buffered-file backend: how it opens its file, and when a positioned
//! read or write that the host has made counts as done.
use vstd::prelude::*;
use crate::fs::{OpenPlan, VfsError};

verus! {

/// How the backing file is opened: through the page cache, to read and write,
/// created if missing, and never cut short.
pub fn open_plan() -> (plan: OpenPlan)
    ensures
        plan == (OpenPlan {
            read: true,
            write: true,
            create: true,
            truncate: false,
            direct: false,
            owner_only: false,
        }),
{
    OpenPlan {
        read: true,
        write: true,
        create: true,
        truncate: false,
        direct: false,
        owner_only: false,
    }
}

/// What a positioned transfer of `wanted` bytes amounts to when the operating
/// system answered `outcome`: a byte count, or an error number.
pub open spec fn transfer_verdict(wanted: usize, outcome: Result<usize, i32>) -> Result<
    (),
    VfsError,
> {
    match outcome {
        Err(code) => Err(VfsError::Os { code }),
        Ok(moved) => if moved == wanted {
            Ok(())
        } else {
            Err(VfsError::LengthMismatch { expected: wanted, actual: moved })
        },
    }
}

/// Checks a positioned transfer that the host has made. Only a transfer that
/// moved every byte is done; nothing is tried again.
pub fn check_transfer(wanted: usize, outcome: Result<usize, i32>) -> (r: Result<(), VfsError>)
    ensures
        r == transfer_verdict(wanted, outcome),
{
    match outcome {
        Err(code) => Err(VfsError::Os { code }),
        Ok(moved) => if moved == wanted {
            Ok(())
        } else {
            Err(VfsError::LengthMismatch { expected: wanted, actual: moved })
        },
    }
}

/// A transfer is done exactly when the operating system reports that it
/// moved every byte. In particular one of no bytes is done when none moved.
pub proof fn lemma_done_only_when_complete(wanted: usize, outcome: Result<usize, i32>)
    ensures
        transfer_verdict(wanted, outcome) is Ok <==> outcome == Ok::<usize, i32>(wanted),
{
}

} // verus!
