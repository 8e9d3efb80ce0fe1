//! Shell dialect selection: every dialect name maps to one of two template
//! families, POSIX or nushell.

use vstd::prelude::*;
use crate::text::str_eq;

verus! {

/// The two probe-script template families.
#[derive(Debug, PartialEq, Eq, Structural, Clone, Copy)]
pub enum ShellFamily {
    Posix,
    Nushell,
}

/// The family a dialect name belongs to.  Only the two nushell names select
/// the nushell family; every other name, recognized or not, selects POSIX.
pub open spec fn family_spec(shell: Seq<char>) -> ShellFamily {
    if shell == "nu"@ || shell == "nushell"@ {
        ShellFamily::Nushell
    } else {
        ShellFamily::Posix
    }
}

/// Map a dialect name to its template family.
pub fn shell_family(shell: &str) -> (r: ShellFamily)
    ensures
        r == family_spec(shell@),
{
    if str_eq(shell, "nu") || str_eq(shell, "nushell") {
        ShellFamily::Nushell
    } else {
        ShellFamily::Posix
    }
}

/// Dialect selection is exhaustive and total: every dialect name maps to
/// exactly one of the two families, only the nushell names select the
/// nushell family, and an unrecognized name falls back to POSIX.
pub proof fn lemma_family_total(shell: Seq<char>)
    ensures
        family_spec(shell) == ShellFamily::Posix || family_spec(shell) == ShellFamily::Nushell,
        !(family_spec(shell) == ShellFamily::Posix && family_spec(shell) == ShellFamily::Nushell),
        family_spec(shell) == ShellFamily::Nushell <==> (shell == "nu"@ || shell == "nushell"@),
        family_spec(shell) == ShellFamily::Posix <==> !(shell == "nu"@ || shell == "nushell"@),
{
}

} // verus!
