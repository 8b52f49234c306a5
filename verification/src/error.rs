use vstd::prelude::*;

verus! {

/// The error kinds surfaced by building an entry and by the drivers'
/// `enable` / `disable` operations.
///
/// The in-memory store models never produce `Access`, `Write` or
/// `Execution`: those arise only when a real native facility refuses an
/// operation, so the unverified shell that talks to the facility maps its
/// failures onto these variants.
#[derive(Debug, PartialEq, Eq)]
pub enum Error {
    /// A required builder field (`app_name` or `app_path`) is missing or empty.
    Config,
    /// The native store could not be opened (e.g. insufficient privilege).
    Access,
    /// The native store was opened but the value could not be written.
    Write,
    /// `disable` found no existing registration to remove.
    NotFound,
    /// The launch target (`app_path`) does not reference an existing file.
    LaunchTarget,
    /// A native helper tool reported a failure; carries its diagnostic text.
    Execution(String),
}

impl Error {
    /// A short description of the error kind, for callers that report it.
    pub fn message(&self) -> (r: &'static str)
        ensures
            r@ == self.spec_message(),
    {
        match self {
            Error::Config => "required field is missing or empty",
            Error::Access => "cannot open the native autostart store",
            Error::Write => "cannot write to the native autostart store",
            Error::NotFound => "no autostart registration was found",
            Error::LaunchTarget => "the launch target does not exist",
            Error::Execution(_) => "a native helper tool reported failure",
        }
    }

    /// What `message` returns for each variant.
    pub open spec fn spec_message(&self) -> Seq<char> {
        match self {
            Error::Config => "required field is missing or empty"@,
            Error::Access => "cannot open the native autostart store"@,
            Error::Write => "cannot write to the native autostart store"@,
            Error::NotFound => "no autostart registration was found"@,
            Error::LaunchTarget => "the launch target does not exist"@,
            Error::Execution(_) => "a native helper tool reported failure"@,
        }
    }
}

} // verus!
