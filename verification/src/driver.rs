use vstd::prelude::*;
use crate::desktop;
use crate::desktop::AutostartDir;
use crate::entry::{AutoLaunch, EntryView};
use crate::error::Error;
use crate::login;
use crate::login::{LoginState, LoginView};
use crate::registry;
use crate::registry::{RegistryRunKeys, RegistryView};

verus! {

/// The native autostart facility an entry operates against, one variant
/// per operating-system family: the pair of registry autorun locations,
/// the login-item list with the agent directory, or the per-user autostart
/// directory of desktop entries.
pub enum NativeStore {
    Registry(RegistryRunKeys),
    LoginItems(LoginState),
    DesktopEntries(AutostartDir),
}

/// The mathematical content of a native autostart facility.
pub enum StoreView {
    Registry(RegistryView),
    LoginItems(LoginView),
    DesktopEntries(Map<Seq<char>, Seq<char>>),
}

impl View for NativeStore {
    type V = StoreView;

    open spec fn view(&self) -> StoreView {
        match self {
            NativeStore::Registry(keys) => StoreView::Registry(keys@),
            NativeStore::LoginItems(state) => StoreView::LoginItems(state@),
            NativeStore::DesktopEntries(dir) => StoreView::DesktopEntries(dir@),
        }
    }
}

/// The facility's own invariant: the scripted login-item list never holds
/// two items of the same name.
pub open spec fn store_wf(s: StoreView) -> bool {
    match s {
        StoreView::LoginItems(v) => login::items_wf(v.items),
        _ => true,
    }
}

/// Whether the entry's registration is present in the facility.
pub open spec fn spec_enabled(s: StoreView, e: EntryView) -> bool {
    match s {
        StoreView::Registry(v) => registry::registry_enabled(v, e),
        StoreView::LoginItems(v) => login::login_enabled(v, e),
        StoreView::DesktopEntries(files) => desktop::desktop_enabled(files, e),
    }
}

/// Whether enabling the entry succeeds: always, except for the agent
/// mechanism's proactive launch-target check.
pub open spec fn spec_enable_ok(s: StoreView, e: EntryView) -> bool {
    match s {
        StoreView::LoginItems(v) => login::login_enable_ok(v, e),
        _ => true,
    }
}

/// The facility after enabling the entry; unchanged when enabling fails.
pub open spec fn spec_enable(s: StoreView, e: EntryView) -> StoreView {
    match s {
        StoreView::Registry(v) => StoreView::Registry(registry::registry_after_enable(v, e)),
        StoreView::LoginItems(v) => StoreView::LoginItems(login::login_after_enable(v, e)),
        StoreView::DesktopEntries(files) => StoreView::DesktopEntries(
            desktop::desktop_after_enable(files, e),
        ),
    }
}

/// Whether disabling the entry succeeds: the registry, scripted and
/// desktop-entry mechanisms want a registration to remove, while deleting
/// an agent descriptor succeeds even on absence.
pub open spec fn spec_disable_ok(s: StoreView, e: EntryView) -> bool {
    match s {
        StoreView::Registry(v) => registry::registry_enabled(v, e),
        StoreView::LoginItems(v) => login::login_disable_ok(v, e),
        StoreView::DesktopEntries(files) => desktop::desktop_enabled(files, e),
    }
}

/// The facility after disabling the entry: its registration is gone.
pub open spec fn spec_disable(s: StoreView, e: EntryView) -> StoreView {
    match s {
        StoreView::Registry(v) => StoreView::Registry(registry::registry_after_disable(v, e)),
        StoreView::LoginItems(v) => StoreView::LoginItems(login::login_after_disable(v, e)),
        StoreView::DesktopEntries(files) => StoreView::DesktopEntries(
            desktop::desktop_after_disable(files, e),
        ),
    }
}

impl AutoLaunch {
    /// Registers this entry with the facility, by the driver the facility
    /// belongs to. Overwrites an existing registration of the same name.
    /// Fails — leaving the facility unchanged — only with the
    /// launch-target error, when the agent mechanism's proactive check
    /// finds no launch target.
    pub fn enable(&self, store: &mut NativeStore) -> (r: Result<(), Error>)
        requires
            store_wf(old(store)@),
        ensures
            final(store)@ == spec_enable(old(store)@, self@),
            store_wf(final(store)@),
            r is Ok <==> spec_enable_ok(old(store)@, self@),
            r matches Err(e) ==> e == Error::LaunchTarget,
    {
        match store {
            NativeStore::Registry(keys) => keys.enable(self),
            NativeStore::LoginItems(state) => state.enable(self),
            NativeStore::DesktopEntries(dir) => dir.enable(self),
        }
    }

    /// Removes this entry's registration from the facility. Fails with the
    /// not-found error exactly when the facility holds none and the driver
    /// does not treat absence as success; the facility is then unchanged.
    pub fn disable(&self, store: &mut NativeStore) -> (r: Result<(), Error>)
        requires
            store_wf(old(store)@),
        ensures
            final(store)@ == spec_disable(old(store)@, self@),
            store_wf(final(store)@),
            r is Ok <==> spec_disable_ok(old(store)@, self@),
            r matches Err(e) ==> e == Error::NotFound,
    {
        match store {
            NativeStore::Registry(keys) => keys.disable(self),
            NativeStore::LoginItems(state) => state.disable(self),
            NativeStore::DesktopEntries(dir) => dir.disable(self),
        }
    }

    /// Reports whether this entry's registration is present. Against these
    /// facilities presence is the only observable signal, so the query
    /// itself never fails; the signature stays fallible for drivers whose
    /// native query tool can.
    pub fn is_enabled(&self, store: &NativeStore) -> (r: Result<bool, Error>)
        ensures
            r == Result::<bool, Error>::Ok(spec_enabled(store@, self@)),
    {
        match store {
            NativeStore::Registry(keys) => Ok(keys.is_enabled(self)),
            NativeStore::LoginItems(state) => Ok(state.is_enabled(self)),
            NativeStore::DesktopEntries(dir) => Ok(dir.is_enabled(self)),
        }
    }
}

} // verus!
