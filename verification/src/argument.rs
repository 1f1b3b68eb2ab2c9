//! Checks on the arguments that name files and directories.
//!
//! Whether a path exists is for the file system to say: the caller asks it
//! and hands the answer over.

use vstd::prelude::*;
use crate::bytes::same_text;

verus! {

/// Whether the name of an input stands for standard input: it is a lone hyphen.
pub open spec fn names_standard_input(input: Seq<char>) -> bool {
    input == "-"@
}

/// Whether the name of an input stands for standard input.
pub fn is_standard_input(input: &str) -> (standard: bool)
    ensures
        standard == names_standard_input(input@),
{
    same_text(input, "-")
}

/// Accepts the name of an input: the name of standard input, or the name of
/// something that exists.
pub fn verify_file(file_name: &str, exists: bool) -> (r: Result<String, &'static str>)
    ensures
        names_standard_input(file_name@) || exists ==> (r matches Ok(name) && name@
            == file_name@),
        !(names_standard_input(file_name@) || exists) ==> (r matches Err(e) && e@
            == "File does not exist"@),
{
    if is_standard_input(file_name) || exists {
        Ok(file_name.to_owned())
    } else {
        Err("File does not exist")
    }
}

/// Accepts the name of an input that exists. Here a hyphen is a name like
/// any other.
pub fn verify_input_file(file_name: &str, exists: bool) -> (r: Result<String, &'static str>)
    ensures
        exists ==> (r matches Ok(name) && name@ == file_name@),
        !exists ==> (r matches Err(e) && e@ == "File does not exists"@),
{
    if exists {
        Ok(file_name.to_owned())
    } else {
        Err("File does not exists")
    }
}

/// Accepts the name of a directory that exists.
pub fn verify_path(path: &str, exists: bool, is_dir: bool) -> (r: Result<String, &'static str>)
    ensures
        exists && is_dir ==> (r matches Ok(name) && name@ == path@),
        !(exists && is_dir) ==> (r matches Err(e) && e@
            == "Path does not exist or is not a directory"@),
{
    if exists && is_dir {
        Ok(path.to_owned())
    } else {
        Err("Path does not exist or is not a directory")
    }
}

} // verus!
