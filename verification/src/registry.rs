use vstd::prelude::*;
use crate::command;
use crate::entry::{AutoLaunch, EntryView};
use crate::error::Error;
use crate::store::FileMap;

verus! {

/// The mathematical content of the two autorun locations of a
/// registry-style platform.
pub struct RegistryView {
    pub user: Map<Seq<char>, Seq<char>>,
    pub system: Map<Seq<char>, Seq<char>>,
}

/// The autorun location an entry targets: the system-wide one when it
/// elevates privileges, the per-user one otherwise. An entry targets the
/// same location every time; the other is never read or written.
pub open spec fn scope_of(v: RegistryView, elevate_privileges: bool) -> Map<Seq<char>, Seq<char>> {
    if elevate_privileges {
        v.system
    } else {
        v.user
    }
}

/// Whether the entry's registration is present in its own scope.
pub open spec fn registry_enabled(v: RegistryView, e: EntryView) -> bool {
    scope_of(v, e.elevate_privileges).contains_key(e.app_name)
}

/// The locations after enabling: the entry's scope gains (or overwrites) a
/// value named after the entry holding its command line; the other scope
/// is untouched.
pub open spec fn registry_after_enable(v: RegistryView, e: EntryView) -> RegistryView {
    if e.elevate_privileges {
        RegistryView { user: v.user, system: v.system.insert(e.app_name, e.command()) }
    } else {
        RegistryView { user: v.user.insert(e.app_name, e.command()), system: v.system }
    }
}

/// The locations after disabling: the value named after the entry is gone
/// from its scope; the other scope is untouched.
pub open spec fn registry_after_disable(v: RegistryView, e: EntryView) -> RegistryView {
    if e.elevate_privileges {
        RegistryView { user: v.user, system: v.system.remove(e.app_name) }
    } else {
        RegistryView { user: v.user.remove(e.app_name), system: v.system }
    }
}

/// The path, below its hive root, of the autorun location an entry
/// targets: the system-wide (elevated) one or the per-user one.
pub fn run_key_path(elevate_privileges: bool) -> (r: &'static str)
    ensures
        elevate_privileges ==> r@ == "SOFTWARE\\WOW6432Node\\Microsoft\\Windows\\CurrentVersion\\Run"@,
        !elevate_privileges ==> r@ == "SOFTWARE\\Microsoft\\Windows\\CurrentVersion\\Run"@,
{
    if elevate_privileges {
        "SOFTWARE\\WOW6432Node\\Microsoft\\Windows\\CurrentVersion\\Run"
    } else {
        "SOFTWARE\\Microsoft\\Windows\\CurrentVersion\\Run"
    }
}

/// The two autorun locations of a registry-style platform, each a store of
/// named string values.
pub struct RegistryRunKeys {
    user: FileMap,
    system: FileMap,
}

impl View for RegistryRunKeys {
    type V = RegistryView;

    closed spec fn view(&self) -> RegistryView {
        RegistryView { user: self.user@, system: self.system@ }
    }
}

impl RegistryRunKeys {
    /// Two empty autorun locations.
    pub fn new() -> (r: RegistryRunKeys)
        ensures
            r@ == (RegistryView {
                user: Map::<Seq<char>, Seq<char>>::empty(),
                system: Map::<Seq<char>, Seq<char>>::empty(),
            }),
    {
        RegistryRunKeys { user: FileMap::new(), system: FileMap::new() }
    }

    /// Sets the value named after the entry, in the entry's scope, to the
    /// entry's command line, overwriting any previous value.
    pub fn enable(&mut self, entry: &AutoLaunch) -> (r: Result<(), Error>)
        ensures
            final(self)@ == registry_after_enable(old(self)@, entry@),
            r is Ok,
    {
        let value = command::build_launch_command(entry.get_app_path(), entry.get_args());
        if entry.is_elevated() {
            self.system.set(entry.get_app_name(), value);
        } else {
            self.user.set(entry.get_app_name(), value);
        }
        Ok(())
    }

    /// Removes the value named after the entry from the entry's scope.
    /// Fails with the not-found error exactly when no such value exists;
    /// the absence is not silently ignored.
    pub fn disable(&mut self, entry: &AutoLaunch) -> (r: Result<(), Error>)
        ensures
            final(self)@ == registry_after_disable(old(self)@, entry@),
            r is Ok <==> registry_enabled(old(self)@, entry@),
            r matches Err(e) ==> e == Error::NotFound,
    {
        let removed = if entry.is_elevated() {
            self.system.remove(entry.get_app_name())
        } else {
            self.user.remove(entry.get_app_name())
        };
        if removed {
            Ok(())
        } else {
            Err(Error::NotFound)
        }
    }

    /// Reports whether a value named after the entry exists in the entry's
    /// scope. Presence is the only observable signal; there is no failure.
    pub fn is_enabled(&self, entry: &AutoLaunch) -> (r: bool)
        ensures
            r == registry_enabled(self@, entry@),
    {
        if entry.is_elevated() {
            self.system.contains(entry.get_app_name())
        } else {
            self.user.contains(entry.get_app_name())
        }
    }

    /// The data stored under a value name in one scope, if any.
    pub fn value_of<'a>(&'a self, elevate_privileges: bool, name: &str) -> (r: Option<&'a String>)
        ensures
            match r {
                Some(v) => scope_of(self@, elevate_privileges).contains_key(name@) && v@ == scope_of(
                    self@,
                    elevate_privileges,
                )[name@],
                None => !scope_of(self@, elevate_privileges).contains_key(name@),
            },
    {
        if elevate_privileges {
            self.system.get(name)
        } else {
            self.user.get(name)
        }
    }
}

} // verus!
