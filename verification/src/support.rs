use vstd::prelude::*;

verus! {

/// The operating-system family the process runs on, as the unverified
/// shell reports it.
#[derive(Clone, Copy, PartialEq, Eq, Structural, Debug)]
pub enum OsFamily {
    /// A registry-style platform.
    Windows,
    /// A login-item-style platform.
    MacOs,
    /// A desktop-entry-style platform.
    Linux,
    /// Anything else.
    Other,
}

/// The capability probe: whether the given operating-system family is one
/// of the supported ones. Pure and total — no side effects, no failure.
pub fn is_support(os: OsFamily) -> (r: bool)
    ensures
        r <==> os != OsFamily::Other,
{
    match os {
        OsFamily::Windows => true,
        OsFamily::MacOs => true,
        OsFamily::Linux => true,
        OsFamily::Other => false,
    }
}

} // verus!
