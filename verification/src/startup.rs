//! Startup validation of the command-line arguments.
//!
//! Checked before any server or watcher starts; a failure here ends the
//! process early. In no-recompile mode the given file is served as-is, so it
//! must already be a `.pdf`; and in every mode the file must exist. Whether
//! it exists is read from the filesystem by the binary, which hands the
//! answer in.

use vstd::prelude::*;
use vstd::string::*;

verus! {

/// Why startup was refused.
#[derive(PartialEq, Eq, Structural, Clone, Copy, Debug)]
pub enum StartupError {
    /// No-recompile mode serves the file unchanged, so it must be a `.pdf`.
    NotAPdfFile,
    /// The given file does not exist.
    FileMissing,
}

/// Whether a file name ends in `.pdf`.
pub open spec fn spec_is_pdf_name(s: Seq<char>) -> bool {
    &&& s.len() >= 4
    &&& s[s.len() - 4] == '.'
    &&& s[s.len() - 3] == 'p'
    &&& s[s.len() - 2] == 'd'
    &&& s[s.len() - 1] == 'f'
}

/// Whether `name` ends in `.pdf`.
pub fn is_pdf_name(name: &String) -> (r: bool)
    ensures
        r == spec_is_pdf_name(name@),
{
    let s = name.as_str();
    let n = s.unicode_len();
    if n < 4 {
        return false;
    }
    s.get_char(n - 4) == '.' && s.get_char(n - 3) == 'p' && s.get_char(n - 2) == 'd'
        && s.get_char(n - 1) == 'f'
}

/// Validate the startup arguments: in no-recompile mode the file name must
/// end in `.pdf` (checked first), and the file must exist. Startup proceeds
/// exactly when both hold.
pub fn validate_startup(no_recompile: bool, filename: &String, source_exists: bool) -> (r: Result<
    (),
    StartupError,
>)
    ensures
        r is Ok <==> ((no_recompile ==> spec_is_pdf_name(filename@)) && source_exists),
        r == Err::<(), StartupError>(StartupError::NotAPdfFile) <==> (no_recompile
            && !spec_is_pdf_name(filename@)),
        r == Err::<(), StartupError>(StartupError::FileMissing) <==> ((no_recompile
            ==> spec_is_pdf_name(filename@)) && !source_exists),
{
    if no_recompile && !is_pdf_name(filename) {
        Err(StartupError::NotAPdfFile)
    } else if !source_exists {
        Err(StartupError::FileMissing)
    } else {
        Ok(())
    }
}

} // verus!
