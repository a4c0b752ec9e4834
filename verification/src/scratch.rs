//! Naming of the process-owned scratch artifact file.
//!
//! In recompile mode the served artifact is a scratch file in the system's
//! temporary directory, named `typst-live.<six random alphanumerics>.pdf` so
//! that concurrent sessions do not collide. The directory is the binary's
//! concern; this module builds the file name.

use vstd::prelude::*;
use vstd::string::*;

verus! {

/// How many random characters the scratch file name carries.
pub const SCRATCH_RANDOM_CHARS: usize = 6;

/// Whether `c` is an ASCII letter or digit.
pub open spec fn is_ascii_alphanumeric_char(c: char) -> bool {
    ('0' <= c && c <= '9') || ('a' <= c && c <= 'z') || ('A' <= c && c <= 'Z')
}

/// Relies on fastrand::alphanumeric: it returns a char drawn from
/// `A`-`Z`, `a`-`z` and `0`-`9`.
#[verifier::external_body]
fn random_alphanumeric() -> (c: char)
    ensures
        is_ascii_alphanumeric_char(c),
{
    fastrand::alphanumeric()
}

/// Relies on String::push: it appends the given char to the string.
pub assume_specification[ String::push ](s: &mut String, ch: char)
    ensures
        final(s)@ == old(s)@.push(ch),
;

/// The name of the scratch file this session serves: the fixed stem
/// `typst-live.`, six random alphanumeric characters, and the `.pdf`
/// extension.
pub fn scratch_file_name() -> (name: String)
    ensures
        name@.len() == 11 + SCRATCH_RANDOM_CHARS + 4,
        name@.subrange(0, 11) == "typst-live."@,
        name@.subrange(11 + SCRATCH_RANDOM_CHARS as int, name@.len() as int) == ".pdf"@,
        forall|i: int|
            11 <= i < 11 + SCRATCH_RANDOM_CHARS ==> is_ascii_alphanumeric_char(#[trigger] name@[i]),
{
    proof {
        reveal_strlit("typst-live.");
        reveal_strlit(".pdf");
    }
    let mut name = String::from_str("typst-live.");
    let mut i: usize = 0;
    while i < SCRATCH_RANDOM_CHARS
        invariant
            i <= SCRATCH_RANDOM_CHARS,
            name@.len() == 11 + i,
            name@.subrange(0, 11) =~= "typst-live."@,
            forall|j: int| 11 <= j < 11 + i ==> is_ascii_alphanumeric_char(#[trigger] name@[j]),
        decreases SCRATCH_RANDOM_CHARS - i,
    {
        name.push(random_alphanumeric());
        i = i + 1;
    }
    name.append(".pdf");
    proof {
        assert(name@.subrange(0, 11) =~= "typst-live."@);
        assert(name@.subrange(11 + SCRATCH_RANDOM_CHARS as int, name@.len() as int) =~= ".pdf"@);
    }
    name
}

} // verus!
