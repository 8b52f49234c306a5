use vstd::prelude::*;
use crate::entry::{AutoLaunch, EntryView, clone_args};
use crate::error::Error;

verus! {

/// The mathematical content of an [`AutoLaunchBuilder`].
pub struct BuilderView {
    pub app_name: Option<Seq<char>>,
    pub app_path: Option<Seq<char>>,
    pub args: Seq<Seq<char>>,
    pub elevate_privileges: bool,
    pub use_launch_agent: bool,
}

/// A builder holds enough to seal an entry when both required fields are
/// set and non-empty.
pub open spec fn buildable(v: BuilderView) -> bool {
    &&& v.app_name matches Some(n) && n.len() > 0
    &&& v.app_path matches Some(p) && p.len() > 0
}

/// The entry a builder seals when it is buildable.
pub open spec fn built_entry(v: BuilderView) -> EntryView
    recommends
        buildable(v),
{
    EntryView {
        app_name: v.app_name.unwrap(),
        app_path: v.app_path.unwrap(),
        args: v.args,
        elevate_privileges: v.elevate_privileges,
        use_launch_agent: v.use_launch_agent,
    }
}

/// A transient accumulator of optional entry fields. Omitted optional
/// fields default to no arguments, per-user scope, and the scripted
/// login-item mechanism.
pub struct AutoLaunchBuilder {
    app_name: Option<String>,
    app_path: Option<String>,
    args: Vec<String>,
    elevate_privileges: bool,
    use_launch_agent: bool,
}

impl View for AutoLaunchBuilder {
    type V = BuilderView;

    closed spec fn view(&self) -> BuilderView {
        BuilderView {
            app_name: match self.app_name {
                Some(ref n) => Some(n@),
                None => None,
            },
            app_path: match self.app_path {
                Some(ref p) => Some(p@),
                None => None,
            },
            args: self.args.deep_view(),
            elevate_privileges: self.elevate_privileges,
            use_launch_agent: self.use_launch_agent,
        }
    }
}

impl AutoLaunchBuilder {
    /// A builder with nothing set.
    pub fn new() -> (r: AutoLaunchBuilder)
        ensures
            r@ == (BuilderView {
                app_name: None,
                app_path: None,
                args: Seq::empty(),
                elevate_privileges: false,
                use_launch_agent: false,
            }),
    {
        let r = AutoLaunchBuilder {
            app_name: None,
            app_path: None,
            args: Vec::new(),
            elevate_privileges: false,
            use_launch_agent: false,
        };
        proof {
            assert(r@.args =~= Seq::<Seq<char>>::empty());
        }
        r
    }

    /// Sets the application name.
    pub fn set_app_name(&mut self, app_name: &str) -> (r: &mut Self)
        ensures
            (*r)@ == (BuilderView { app_name: Some(app_name@), ..old(self)@ }),
            *final(self) == *final(r),
    {
        self.app_name = Some(app_name.to_owned());
        self
    }

    /// Sets the application path.
    pub fn set_app_path(&mut self, app_path: &str) -> (r: &mut Self)
        ensures
            (*r)@ == (BuilderView { app_path: Some(app_path@), ..old(self)@ }),
            *final(self) == *final(r),
    {
        self.app_path = Some(app_path.to_owned());
        self
    }

    /// Sets the startup arguments.
    pub fn set_args(&mut self, args: &Vec<String>) -> (r: &mut Self)
        ensures
            (*r)@ == (BuilderView { args: args.deep_view(), ..old(self)@ }),
            *final(self) == *final(r),
    {
        self.args = clone_args(args);
        self
    }

    /// Selects system-wide rather than per-user scope (registry-style
    /// drivers).
    pub fn set_elevate_privileges(&mut self, elevate_privileges: bool) -> (r: &mut Self)
        ensures
            (*r)@ == (BuilderView { elevate_privileges, ..old(self)@ }),
            *final(self) == *final(r),
    {
        self.elevate_privileges = elevate_privileges;
        self
    }

    /// Selects the agent-descriptor-file mechanism rather than the scripted
    /// login-item list (login-item-style drivers).
    pub fn set_use_launch_agent(&mut self, use_launch_agent: bool) -> (r: &mut Self)
        ensures
            (*r)@ == (BuilderView { use_launch_agent, ..old(self)@ }),
            *final(self) == *final(r),
    {
        self.use_launch_agent = use_launch_agent;
        self
    }

    /// Seals the accumulated fields into an entry. Fails with the
    /// configuration error exactly when `app_name` or `app_path` is unset
    /// or empty.
    pub fn build(&self) -> (r: Result<AutoLaunch, Error>)
        ensures
            r is Ok <==> buildable(self@),
            r matches Ok(entry) ==> entry@ == built_entry(self@) && entry@.wf(),
            r matches Err(e) ==> e == Error::Config,
    {
        match (&self.app_name, &self.app_path) {
            (Some(name), Some(path)) => {
                if name.as_str().is_empty() || path.as_str().is_empty() {
                    Err(Error::Config)
                } else {
                    Ok(AutoLaunch::from_parts(
                        name.clone(),
                        path.clone(),
                        clone_args(&self.args),
                        self.elevate_privileges,
                        self.use_launch_agent,
                    ))
                }
            },
            _ => Err(Error::Config),
        }
    }
}

} // verus!
