use vstd::prelude::*;
use crate::command;

verus! {

/// The mathematical content of an [`AutoLaunch`] entry.
pub struct EntryView {
    pub app_name: Seq<char>,
    pub app_path: Seq<char>,
    pub args: Seq<Seq<char>>,
    pub elevate_privileges: bool,
    pub use_launch_agent: bool,
}

impl EntryView {
    /// A sealed entry carries a non-empty name and a non-empty path.
    pub open spec fn wf(self) -> bool {
        self.app_name.len() > 0 && self.app_path.len() > 0
    }

    /// The command line this entry's registration persists.
    pub open spec fn command(self) -> Seq<char> {
        command::launch_command(self.app_path, self.args)
    }
}

/// Immutable description of one autostart registration: the name that keys
/// it in the native store, the executable to launch, its startup arguments,
/// and the platform-specific options. The registry-style driver reads
/// `elevate_privileges` (system-wide rather than per-user scope); the
/// login-item-style driver reads `use_launch_agent` (agent-descriptor file
/// rather than the scripted login-item list).
pub struct AutoLaunch {
    pub(crate) app_name: String,
    pub(crate) app_path: String,
    pub(crate) args: Vec<String>,
    pub(crate) elevate_privileges: bool,
    pub(crate) use_launch_agent: bool,
}

impl View for AutoLaunch {
    type V = EntryView;

    closed spec fn view(&self) -> EntryView {
        EntryView {
            app_name: self.app_name@,
            app_path: self.app_path@,
            args: self.args.deep_view(),
            elevate_privileges: self.elevate_privileges,
            use_launch_agent: self.use_launch_agent,
        }
    }
}

/// Copies an argument list, pinning down that the copy reads the same.
pub(crate) fn clone_args(args: &Vec<String>) -> (r: Vec<String>)
    ensures
        r.deep_view() == args.deep_view(),
{
    let mut out: Vec<String> = Vec::new();
    let mut i: usize = 0;
    while i < args.len()
        invariant
            i <= args.len(),
            out@.len() == i,
            forall|j: int| 0 <= j < i ==> out@[j]@ == args@[j]@,
        decreases args.len() - i,
    {
        out.push(args[i].clone());
        i = i + 1;
    }
    proof {
        assert(out.deep_view() =~~= args.deep_view());
    }
    out
}

impl AutoLaunch {
    /// Assembles an entry from already-owned parts, pinning down its view.
    pub(crate) fn from_parts(
        app_name: String,
        app_path: String,
        args: Vec<String>,
        elevate_privileges: bool,
        use_launch_agent: bool,
    ) -> (r: AutoLaunch)
        ensures
            r@ == (EntryView {
                app_name: app_name@,
                app_path: app_path@,
                args: args.deep_view(),
                elevate_privileges,
                use_launch_agent,
            }),
    {
        AutoLaunch { app_name, app_path, args, elevate_privileges, use_launch_agent }
    }

    /// Creates an entry directly from its parts. The entry is sealed: its
    /// target can only be changed by constructing a new entry. No native
    /// facility is touched.
    pub fn new(app_name: &str, app_path: &str, args: &Vec<String>, elevate_privileges: bool) -> (r:
        AutoLaunch)
        requires
            app_name@.len() > 0,
            app_path@.len() > 0,
        ensures
            r@ == (EntryView {
                app_name: app_name@,
                app_path: app_path@,
                args: args.deep_view(),
                elevate_privileges,
                use_launch_agent: false,
            }),
            r@.wf(),
    {
        AutoLaunch {
            app_name: app_name.to_owned(),
            app_path: app_path.to_owned(),
            args: clone_args(args),
            elevate_privileges,
            use_launch_agent: false,
        }
    }

    /// The effective application name: the identifier actually used in the
    /// native store, after any platform-specific correction applied at
    /// construction.
    pub fn get_app_name(&self) -> (r: &str)
        ensures
            r@ == self@.app_name,
    {
        self.app_name.as_str()
    }

    /// The path of the executable this entry launches.
    pub fn get_app_path(&self) -> (r: &str)
        ensures
            r@ == self@.app_path,
    {
        self.app_path.as_str()
    }

    /// The startup arguments of this entry.
    pub fn get_args(&self) -> (r: &Vec<String>)
        ensures
            r.deep_view() == self@.args,
    {
        &self.args
    }

    /// Whether this entry targets the system-wide (elevated) scope.
    pub fn is_elevated(&self) -> (r: bool)
        ensures
            r == self@.elevate_privileges,
    {
        self.elevate_privileges
    }

    /// Whether this entry uses the agent-descriptor-file mechanism.
    pub fn uses_launch_agent(&self) -> (r: bool)
        ensures
            r == self@.use_launch_agent,
    {
        self.use_launch_agent
    }
}

} // verus!
