use crate::error::AerError;
use vstd::prelude::*;

verus! {

/// What killing a process tree gives after the first termination request was
/// sent (the polite signal on Unix, the termination of the whole job on
/// Windows): any failure to deliver it is a failed kill, and escalation stops
/// there.
pub fn after_terminate_signal(sent: Result<(), std::io::Error>) -> (r: Result<(), AerError>)
    ensures
        sent is Ok ==> r is Ok,
        sent matches Err(e) ==> r == Err::<(), AerError>(AerError::KillFailed(e)),
{
    match sent {
        Ok(()) => Ok(()),
        Err(e) => Err(AerError::KillFailed(e)),
    }
}

/// What killing a process tree gives after the forced kill signal was sent
/// (once the grace period passed). `os_code` is the raw OS error number of a
/// failed send and `no_such_process` the number the OS uses for "no such
/// process". Delivered, or not delivered because the tree had already exited,
/// is success; any other failure is a failed kill.
pub fn after_kill_signal(
    sent: Result<(), std::io::Error>,
    os_code: Option<i32>,
    no_such_process: i32,
) -> (r: Result<(), AerError>)
    ensures
        r is Ok <==> (sent is Ok || os_code == Some(no_such_process)),
        os_code != Some(no_such_process) ==> (sent matches Err(e) ==> r == Err::<(), AerError>(AerError::KillFailed(e))),
{
    match sent {
        Ok(()) => Ok(()),
        Err(e) => {
            let already_gone = match os_code {
                Some(c) => c == no_such_process,
                None => false,
            };
            if already_gone {
                Ok(())
            } else {
                Err(AerError::KillFailed(e))
            }
        },
    }
}

} // verus!
