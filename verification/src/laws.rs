use vstd::prelude::*;
use crate::driver::{StoreView, spec_enable, spec_enable_ok, spec_disable, spec_enabled, store_wf};
use crate::entry::EntryView;
use crate::login;
use crate::login::{LoginView, login_after_enable, login_enable_ok, login_enabled};
use crate::registry::{
    RegistryView,
    registry_after_disable,
    registry_after_enable,
    registry_enabled,
};

verus! {

/// Enabling, then querying: a registration just enabled against any
/// facility is reported present.
pub proof fn lemma_enable_then_enabled(s: StoreView, e: EntryView)
    requires
        spec_enable_ok(s, e),
    ensures
        spec_enabled(spec_enable(s, e), e),
{
    if let StoreView::LoginItems(v) = s {
        if !e.use_launch_agent {
            login::lemma_add_from_has(v.items, e.app_name, e.app_path, 0);
        }
    }
}

/// Disabling, then querying: after a disable — even one that failed with
/// not-found because nothing was registered — the registration is
/// reported absent.
pub proof fn lemma_disable_then_not_enabled(s: StoreView, e: EntryView)
    requires
        store_wf(s),
    ensures
        !spec_enabled(spec_disable(s, e), e),
{
    if let StoreView::LoginItems(v) = s {
        if !e.use_launch_agent {
            login::lemma_remove_from_not_has(v.items, e.app_name, 0);
        }
    }
}

/// Enabling twice in succession: the second enable succeeds as well
/// (overwrite semantics) and the registration stays present.
pub proof fn lemma_enable_idempotent(s: StoreView, e: EntryView)
    requires
        spec_enable_ok(s, e),
    ensures
        spec_enable_ok(spec_enable(s, e), e),
        spec_enabled(spec_enable(spec_enable(s, e), e), e),
{
    lemma_enable_then_enabled(spec_enable(s, e), e);
}

/// A proactive launch-target failure creates nothing: enabling an agent
/// entry whose launch target does not exist fails, and the facility — and
/// hence the query's answer — is unchanged.
pub proof fn lemma_enable_missing_target(v: LoginView, e: EntryView)
    requires
        e.use_launch_agent,
        !v.installed.contains(e.app_path),
    ensures
        !login_enable_ok(v, e),
        login_after_enable(v, e) == v,
        login_enabled(login_after_enable(v, e), e) == login_enabled(v, e),
{
}

/// Scope isolation: registry entries of different scopes are independent —
/// enabling or disabling one leaves the other's answer unchanged, whatever
/// their names.
pub proof fn lemma_scope_isolation(v: RegistryView, e1: EntryView, e2: EntryView)
    requires
        e1.elevate_privileges != e2.elevate_privileges,
    ensures
        registry_enabled(registry_after_enable(v, e1), e2) == registry_enabled(v, e2),
        registry_enabled(registry_after_disable(v, e1), e2) == registry_enabled(v, e2),
{
}

} // verus!
