//! Asset path resolution: where each cache key's bytes live on disk.
//!
//! The content root is the process's working directory; the root path
//! serves the default document. Opening and reading the resolved file is
//! the surrounding process's job: a file that is absent resolves to "no
//! asset" (never cached), while an unreadable open file is treated as
//! fatal there.

use vstd::prelude::*;
use vstd::string::StrSliceExecFns;
use vstd::string::StringExecFns;

verus! {

/// The file a cache key names: the default document for the root path,
/// otherwise the key taken as a path relative to the working directory.
pub fn resolve_asset_path(key: &String) -> (p: String)
    ensures
        key@ == "/"@ ==> p@ == "./html/index.html"@,
        key@ != "/"@ ==> p@ == "."@ + key@,
{
    let root = String::from_str("/");
    if *key == root {
        String::from_str("./html/index.html")
    } else {
        String::from_str(".").concat(key.as_str())
    }
}

/// Whether a key names the default document.
pub fn is_root_key(key: &String) -> (r: bool)
    ensures
        r == (key@ == "/"@),
{
    let root = String::from_str("/");
    *key == root
}

} // verus!
