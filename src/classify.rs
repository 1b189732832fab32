//! Classification of input files by the role their extension gives them.

use vstd::prelude::*;
use crate::path::{extension_of, opt_view, path_extension};
use crate::text::same_text;

verus! {

/// The role of an input file. The order of the variants is the order in
/// which their files are emitted into the job script.
#[derive(PartialEq, Eq, Structural, Clone, Copy, Debug)]
pub enum Role {
    /// Fortran-GDR source (`.ftn`).
    Ftn,
    /// Fortran Dubna source (`.fortran`).
    Fortran,
    /// Forex source (`.forex`).
    Forex,
    /// Algol-GDR source (`.algol`).
    Algol,
    /// Pascal source (`.pascal`).
    Pascal,
    /// Madlen assembler source (`.assem`).
    Assem,
    /// Madlen-3.5 assembler source (`.madlen`).
    Madlen,
    /// BEMSH assembler source (`.bemsh`).
    Bemsh,
    /// A pre-built object library (`.obj`).
    Object,
    /// Output of the Pascal translator (`.std`), emitted without a directive.
    Intermediate,
}

/// Why a file cannot be an input.
#[derive(PartialEq, Eq, Structural, Clone, Copy, Debug)]
pub enum Rejection {
    /// The file name has no extension.
    NoExtension,
    /// The file is a finished executable.
    Executable,
    /// The extension is not one the driver knows.
    Unknown,
}

/// The role given by an extension (compared exactly, case included).
pub open spec fn extension_role(ext: Option<Seq<char>>) -> Result<Role, Rejection> {
    match ext {
        None => Err(Rejection::NoExtension),
        Some(e) => {
            if e == "ftn"@ {
                Ok(Role::Ftn)
            } else if e == "fortran"@ {
                Ok(Role::Fortran)
            } else if e == "forex"@ {
                Ok(Role::Forex)
            } else if e == "algol"@ {
                Ok(Role::Algol)
            } else if e == "pascal"@ {
                Ok(Role::Pascal)
            } else if e == "assem"@ {
                Ok(Role::Assem)
            } else if e == "madlen"@ {
                Ok(Role::Madlen)
            } else if e == "bemsh"@ {
                Ok(Role::Bemsh)
            } else if e == "obj"@ {
                Ok(Role::Object)
            } else if e == "std"@ {
                Ok(Role::Intermediate)
            } else if e == "exe"@ {
                Err(Rejection::Executable)
            } else {
                Err(Rejection::Unknown)
            }
        },
    }
}

/// The role of a file, by its path.
pub open spec fn path_role(path: Seq<char>) -> Result<Role, Rejection> {
    extension_role(extension_of(path))
}

/// The position of a role in the emission order of the script.
pub open spec fn rank(r: Role) -> int {
    match r {
        Role::Ftn => 0,
        Role::Fortran => 1,
        Role::Forex => 2,
        Role::Algol => 3,
        Role::Pascal => 4,
        Role::Assem => 5,
        Role::Madlen => 6,
        Role::Bemsh => 7,
        Role::Object => 8,
        Role::Intermediate => 9,
    }
}

/// Number of roles, hence of groups in the script.
pub const ROLE_COUNT: usize = 10;

/// The position of a role in the emission order of the script.
pub fn role_rank(r: Role) -> (k: usize)
    ensures
        k == rank(r),
        k < ROLE_COUNT,
{
    match r {
        Role::Ftn => 0,
        Role::Fortran => 1,
        Role::Forex => 2,
        Role::Algol => 3,
        Role::Pascal => 4,
        Role::Assem => 5,
        Role::Madlen => 6,
        Role::Bemsh => 7,
        Role::Object => 8,
        Role::Intermediate => 9,
    }
}

/// The role that an extension gives, or why it gives none.
pub fn role_of_extension(ext: &Option<String>) -> (r: Result<Role, Rejection>)
    ensures
        r == extension_role(opt_view(*ext)),
{
    match ext {
        None => Err(Rejection::NoExtension),
        Some(e) => {
            let e = e.as_str();
            if same_text(e, "ftn") {
                Ok(Role::Ftn)
            } else if same_text(e, "fortran") {
                Ok(Role::Fortran)
            } else if same_text(e, "forex") {
                Ok(Role::Forex)
            } else if same_text(e, "algol") {
                Ok(Role::Algol)
            } else if same_text(e, "pascal") {
                Ok(Role::Pascal)
            } else if same_text(e, "assem") {
                Ok(Role::Assem)
            } else if same_text(e, "madlen") {
                Ok(Role::Madlen)
            } else if same_text(e, "bemsh") {
                Ok(Role::Bemsh)
            } else if same_text(e, "obj") {
                Ok(Role::Object)
            } else if same_text(e, "std") {
                Ok(Role::Intermediate)
            } else if same_text(e, "exe") {
                Err(Rejection::Executable)
            } else {
                Err(Rejection::Unknown)
            }
        },
    }
}

/// The role of the file at `path`, or why it cannot be an input.
pub fn classify_path(path: &str) -> (r: Result<Role, Rejection>)
    ensures
        r == path_role(path@),
{
    let ext = path_extension(path);
    role_of_extension(&ext)
}

} // verus!
