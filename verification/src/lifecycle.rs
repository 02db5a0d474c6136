//! Pipe-file naming for the sidecar channel and the shutdown report.
//!
//! The two FIFO files live in the system's temporary directory; they are
//! created at startup and removed, best effort, at shutdown. The calls that
//! create, remove and open them are the surrounding process's job; this
//! module fixes the paths both sides must agree on.

use vstd::prelude::*;
use vstd::string::StrSliceExecFns;
use vstd::string::StringExecFns;

verus! {

/// Joins a directory and a file name with the path separator.
pub fn join_path(dir: &String, file: &str) -> (r: String)
    ensures
        r@ == dir@ + "/"@ + file@,
{
    let joined = dir.clone().concat("/").concat(file);
    proof {
        assert(joined@ =~= dir@ + "/"@ + file@);
    }
    joined
}

/// Path of the FIFO this server writes requests into, under `dir`.
pub fn pipe_in_path(dir: &String) -> (r: String)
    ensures
        r@ == dir@ + "/"@ + "http_service_in.pipe"@,
{
    join_path(dir, "http_service_in.pipe")
}

/// Path of the FIFO this server reads responses from, under `dir`.
pub fn pipe_out_path(dir: &String) -> (r: String)
    ensures
        r@ == dir@ + "/"@ + "http_service_out.pipe"@,
{
    join_path(dir, "http_service_out.pipe")
}

/// The line reported when the server terminates gracefully.
pub fn shutdown_message() -> (r: String)
    ensures
        r@ == "Shutting down"@,
{
    String::from_str("Shutting down")
}

} // verus!
