//! Registering an application to start automatically at user login.
//!
//! One immutable [`AutoLaunch`] entry describes a registration; a
//! [`AutoLaunchBuilder`] validates and assembles one. Three drivers persist a
//! registration against the native facility of their operating-system family:
//! a registry run key, a login-item list or agent-descriptor file, and a
//! desktop-entry file. The drivers' state-toggle logic is verified against
//! in-memory models of those facilities; an unverified shell performs the
//! actual native calls with the strings and decisions this crate computes.

mod builder;
mod command;
mod desktop;
mod driver;
mod entry;
mod error;
mod laws;
mod login;
mod registry;
mod store;
mod support;

pub use builder::AutoLaunchBuilder;
pub use builder::BuilderView;
pub use command::join_args;
pub use command::build_launch_command;
pub use desktop::AutostartDir;
pub use desktop::build_desktop_file_name;
pub use desktop::build_desktop_entry_content;
pub use driver::{NativeStore, StoreView};
pub use entry::AutoLaunch;
pub use entry::EntryView;
pub use error::Error;
pub use laws::{
    lemma_enable_then_enabled,
    lemma_disable_then_not_enabled,
    lemma_enable_idempotent,
    lemma_enable_missing_target,
    lemma_scope_isolation,
};
pub use login::{ItemView, LoginItemList, LoginState, LoginView};
pub use login::{build_agent_file_name, build_agent_descriptor_content};
pub use login::lemma_corrected_name_ignores_requested;
pub use registry::RegistryRunKeys;
pub use registry::RegistryView;
pub use registry::run_key_path;
pub use support::{OsFamily, is_support};
