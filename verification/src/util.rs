//! Platform-dependent separators and small helpers, all taking the platform
//! as an explicit value.

use vstd::prelude::*;
use crate::rules::OsKind;

verus! {

/// Picks one of two strings by platform, the second on Windows.
pub fn choice_by_os<'a>(os: OsKind, default_choice: &'a str, on_windows: &'a str) -> (r: &'a str)
    ensures
        os == OsKind::Windows ==> r@ == on_windows@,
        os != OsKind::Windows ==> r@ == default_choice@,
{
    if os == OsKind::Windows {
        on_windows
    } else {
        default_choice
    }
}

/// The separator placed between classpath (and argument-array) entries:
/// `;` on Windows, `:` elsewhere.
pub open spec fn spec_java_separator(os: OsKind) -> char {
    if os == OsKind::Windows {
        ';'
    } else {
        ':'
    }
}

/// Returns the platform's path-list separator character.
pub fn java_separator(os: OsKind) -> (r: char)
    ensures
        r == spec_java_separator(os),
{
    if os == OsKind::Windows {
        ';'
    } else {
        ':'
    }
}

/// The separator between path components: `\` on Windows, `/` elsewhere.
pub open spec fn spec_path_separator(os: OsKind) -> char {
    if os == OsKind::Windows {
        '\\'
    } else {
        '/'
    }
}

/// Returns the platform's path-component separator character.
pub fn path_separator(os: OsKind) -> (r: char)
    ensures
        r == spec_path_separator(os),
{
    if os == OsKind::Windows {
        '\\'
    } else {
        '/'
    }
}

} // verus!

