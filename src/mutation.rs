use vstd::prelude::*;

use crate::rpc::RpcError;

verus! {

/// Error during restart of VM
#[derive(Debug)]
pub enum RestartError {
    /// The server took the request and answered that it did not restart the
    /// VM.
    ReportedFail,
    /// The remote call failed.
    Rpc(RpcError),
}

/// Error during revert of VM snapshot
#[derive(Debug)]
pub enum RevertSnapshotError {
    /// The server took the request and answered that it did not revert the
    /// VM.
    ReportedFail,
    /// The remote call failed.
    Rpc(RpcError),
}

/// The result of a restart request, from the server's boolean reply: `true`
/// is success, `false` a refusal, and a failed call stays a failed call.
pub fn restart_outcome(reply: Result<bool, RpcError>) -> (r: Result<(), RestartError>)
    ensures
        match reply {
            Ok(true) => r is Ok,
            Ok(false) => r == Err::<(), RestartError>(RestartError::ReportedFail),
            Err(e) => r == Err::<(), RestartError>(RestartError::Rpc(e)),
        },
{
    match reply {
        Ok(true) => Ok(()),
        Ok(false) => Err(RestartError::ReportedFail),
        Err(e) => Err(RestartError::Rpc(e)),
    }
}

/// The result of a revert request, from the server's boolean reply: `true`
/// is success, `false` a refusal, and a failed call stays a failed call.
pub fn revert_snapshot_outcome(reply: Result<bool, RpcError>) -> (r: Result<
    (),
    RevertSnapshotError,
>)
    ensures
        match reply {
            Ok(true) => r is Ok,
            Ok(false) => r == Err::<(), RevertSnapshotError>(RevertSnapshotError::ReportedFail),
            Err(e) => r == Err::<(), RevertSnapshotError>(RevertSnapshotError::Rpc(e)),
        },
{
    match reply {
        Ok(true) => Ok(()),
        Ok(false) => Err(RevertSnapshotError::ReportedFail),
        Err(e) => Err(RevertSnapshotError::Rpc(e)),
    }
}

} // verus!
