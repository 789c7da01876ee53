//! Command-surface data model: option records for every subcommand, and the
//! argument validators they share.

use vstd::prelude::*;
use vstd::string::StrSliceExecFns;

pub mod base64;
pub mod genpass;
pub mod http;
pub mod text;

verus! {

/// Relies on std::path::Path::exists: whether the path names an entity that
/// exists on disk at the moment of the call.
#[verifier::external_body]
pub(crate) fn path_exists(name: &str) -> bool {
    std::path::Path::new(name).exists()
}

/// Relies on std::path::Path::is_dir: whether the path names an existing
/// directory at the moment of the call.
#[verifier::external_body]
fn path_is_dir(name: &str) -> bool {
    std::path::Path::new(name).is_dir()
}

/// Accepts `-` (standard input) unconditionally and any other name only when
/// it exists on disk; never alters an accepted name.
pub fn verify_file(filename: &str) -> (r: Result<String, &'static str>)
    ensures
        filename@ == "-"@ ==> (r matches Ok(f) && f@ == filename@),
        r matches Ok(f) ==> f@ == filename@,
        r matches Err(e) ==> e@ == "File does not exist"@ && filename@ != "-"@,
{
    let dash = filename.unicode_len() == 1 && filename.get_char(0) == '-';
    proof {
        reveal_strlit("-");
        if filename@.len() == 1 && filename@[0] == '-' {
            assert(filename@ =~= "-"@);
        }
    }
    if dash || path_exists(filename) {
        Ok(filename.to_owned())
    } else {
        Err("File does not exist")
    }
}

/// Accepts a name only when it denotes an existing directory; never alters an
/// accepted name.
pub fn verify_path(path: &str) -> (r: Result<String, &'static str>)
    ensures
        r matches Ok(p) ==> p@ == path@,
        r matches Err(e) ==> e@ == "File does not exist or is not a directory"@,
{
    if path_exists(path) && path_is_dir(path) {
        Ok(path.to_owned())
    } else {
        Err("File does not exist or is not a directory")
    }
}

} // verus!
