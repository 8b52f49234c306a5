use vstd::prelude::*;
use crate::entry::{AutoLaunch, EntryView, clone_args};
use crate::error::Error;
use crate::store::{FileMap, PathSet};

verus! {

/// The mathematical content of one login item: its display name and the
/// path it launches.
pub struct ItemView {
    pub name: Seq<char>,
    pub path: Seq<char>,
}

/// Whether the list holds an item of this name.
pub open spec fn has_item(items: Seq<ItemView>, name: Seq<char>) -> bool {
    exists|i: int| 0 <= i < items.len() && items[i].name == name
}

/// The scripted list never holds two items of the same name.
pub open spec fn items_wf(items: Seq<ItemView>) -> bool {
    forall|i: int, j: int| 0 <= i < j < items.len() ==> items[i].name != items[j].name
}

/// The list after the scripted add command, scanned from position `i`: the
/// first item of the given name is overwritten, or a new item is appended.
pub open spec fn items_after_add_from(
    items: Seq<ItemView>,
    name: Seq<char>,
    path: Seq<char>,
    i: int,
) -> Seq<ItemView>
    decreases items.len() - i,
{
    if i < 0 || i >= items.len() {
        items.push(ItemView { name, path })
    } else if items[i].name == name {
        items.update(i, ItemView { name, path })
    } else {
        items_after_add_from(items, name, path, i + 1)
    }
}

/// The list after the scripted add command: overwrite by name, or append.
pub open spec fn items_after_add(items: Seq<ItemView>, name: Seq<char>, path: Seq<char>) -> Seq<
    ItemView,
> {
    items_after_add_from(items, name, path, 0)
}

/// The list after the scripted remove command, scanned from position `i`:
/// the first item of the given name is gone; without one, the list is
/// unchanged.
pub open spec fn items_after_remove_from(items: Seq<ItemView>, name: Seq<char>, i: int) -> Seq<
    ItemView,
>
    decreases items.len() - i,
{
    if i < 0 || i >= items.len() {
        items
    } else if items[i].name == name {
        items.remove(i)
    } else {
        items_after_remove_from(items, name, i + 1)
    }
}

/// The list after the scripted remove command.
pub open spec fn items_after_remove(items: Seq<ItemView>, name: Seq<char>) -> Seq<ItemView> {
    items_after_remove_from(items, name, 0)
}

/// The name correction scanned from position `i`.
pub open spec fn corrected_name_from(
    requested: Seq<char>,
    path: Seq<char>,
    items: Seq<ItemView>,
    i: int,
) -> Seq<char>
    decreases items.len() - i,
{
    if i < 0 || i >= items.len() {
        requested
    } else if items[i].path == path {
        items[i].name
    } else {
        corrected_name_from(requested, path, items, i + 1)
    }
}

/// The effective name of a scripted-mechanism entry: when some existing
/// login item already launches the same path, its name is adopted (the
/// first such item's), so no duplicate is created; otherwise the requested
/// name stands.
pub open spec fn corrected_name(
    requested: Seq<char>,
    path: Seq<char>,
    items: Seq<ItemView>,
) -> Seq<char> {
    corrected_name_from(requested, path, items, 0)
}

/// A scan that found no match before position `i` can start there.
proof fn lemma_add_from_prefix(items: Seq<ItemView>, name: Seq<char>, path: Seq<char>, i: int)
    requires
        0 <= i <= items.len(),
        forall|j: int| 0 <= j < i ==> items[j].name != name,
    ensures
        items_after_add(items, name, path) == items_after_add_from(items, name, path, i),
    decreases i,
{
    if i > 0 {
        lemma_add_from_prefix(items, name, path, i - 1);
    }
}

/// A scan that found no match before position `i` can start there.
proof fn lemma_remove_from_prefix(items: Seq<ItemView>, name: Seq<char>, i: int)
    requires
        0 <= i <= items.len(),
        forall|j: int| 0 <= j < i ==> items[j].name != name,
    ensures
        items_after_remove(items, name) == items_after_remove_from(items, name, i),
    decreases i,
{
    if i > 0 {
        lemma_remove_from_prefix(items, name, i - 1);
    }
}

/// A scan that found no match before position `i` can start there.
proof fn lemma_corrected_from_prefix(
    requested: Seq<char>,
    path: Seq<char>,
    items: Seq<ItemView>,
    i: int,
)
    requires
        0 <= i <= items.len(),
        forall|j: int| 0 <= j < i ==> items[j].path != path,
    ensures
        corrected_name(requested, path, items) == corrected_name_from(requested, path, items, i),
    decreases i,
{
    if i > 0 {
        lemma_corrected_from_prefix(requested, path, items, i - 1);
    }
}

/// Whichever name is requested, entries for the same launch path adopt the
/// same effective name whenever some existing item already launches that
/// path.
pub proof fn lemma_corrected_name_ignores_requested(
    requested_a: Seq<char>,
    requested_b: Seq<char>,
    path: Seq<char>,
    items: Seq<ItemView>,
)
    requires
        exists|i: int| 0 <= i < items.len() && items[i].path == path,
    ensures
        corrected_name(requested_a, path, items) == corrected_name(requested_b, path, items),
{
    lemma_corrected_from_same(requested_a, requested_b, path, items, 0);
}

proof fn lemma_corrected_from_same(
    requested_a: Seq<char>,
    requested_b: Seq<char>,
    path: Seq<char>,
    items: Seq<ItemView>,
    i: int,
)
    requires
        0 <= i,
        exists|k: int| i <= k < items.len() && items[k].path == path,
    ensures
        corrected_name_from(requested_a, path, items, i) == corrected_name_from(
            requested_b,
            path,
            items,
            i,
        ),
    decreases items.len() - i,
{
    let k = choose|k: int| i <= k < items.len() && items[k].path == path;
    if items[i].path != path {
        assert(k > i);
        lemma_corrected_from_same(requested_a, requested_b, path, items, i + 1);
    }
}

/// The scripted add command leaves an item of the added name, wherever
/// the scan started.
pub proof fn lemma_add_from_has(items: Seq<ItemView>, name: Seq<char>, path: Seq<char>, i: int)
    requires
        0 <= i,
    ensures
        has_item(items_after_add_from(items, name, path, i), name),
    decreases items.len() - i,
{
    let after = items_after_add_from(items, name, path, i);
    if i >= items.len() {
        assert(after[items.len() as int].name == name);
    } else if items[i].name == name {
        assert(after[i].name == name);
    } else {
        lemma_add_from_has(items, name, path, i + 1);
    }
}

/// After the scripted remove command no item of the removed name is left,
/// provided names were unique and none stood before the scan start.
pub proof fn lemma_remove_from_not_has(items: Seq<ItemView>, name: Seq<char>, i: int)
    requires
        0 <= i,
        items_wf(items),
        forall|j: int| 0 <= j < i ==> items[j].name != name,
    ensures
        !has_item(items_after_remove_from(items, name, i), name),
    decreases items.len() - i,
{
    let after = items_after_remove_from(items, name, i);
    if i >= items.len() {
        assert(forall|j: int| 0 <= j < items.len() ==> items[j].name != name);
    } else if items[i].name == name {
        items.remove_ensures(i);
        assert forall|k: int| 0 <= k < after.len() implies after[k].name != name by {
            if k < i {
                assert(after[k] == items[k]);
            } else {
                assert(after[k] == items[k + 1]);
                assert(items[i].name != items[k + 1].name);
            }
        }
    } else {
        lemma_remove_from_not_has(items, name, i + 1);
    }
}

/// One entry of the scripted login-item list.
pub struct LoginItem {
    name: String,
    path: String,
}

impl View for LoginItem {
    type V = ItemView;

    closed spec fn view(&self) -> ItemView {
        ItemView { name: self.name@, path: self.path@ }
    }
}

impl LoginItem {
    /// An item of this name launching this path.
    pub fn new(name: &str, path: &str) -> (r: LoginItem)
        ensures
            r@ == (ItemView { name: name@, path: path@ }),
    {
        LoginItem { name: name.to_owned(), path: path.to_owned() }
    }
}

/// The operating system's list of login items, as the scripted mechanism
/// sees it: items keyed by name, loosely related to the paths they launch.
pub struct LoginItemList {
    items: Vec<LoginItem>,
}

impl View for LoginItemList {
    type V = Seq<ItemView>;

    closed spec fn view(&self) -> Seq<ItemView> {
        Seq::new(self.items@.len(), |i: int| self.items@[i]@)
    }
}

impl LoginItemList {
    /// An empty list.
    pub fn new() -> (r: LoginItemList)
        ensures
            r@ == Seq::<ItemView>::empty(),
            items_wf(r@),
    {
        let r = LoginItemList { items: Vec::new() };
        proof {
            assert(r@ =~= Seq::<ItemView>::empty());
        }
        r
    }

    /// The position of the item of this name, scanning from the front.
    fn index_of_name(&self, name: &String) -> (r: Option<usize>)
        ensures
            match r {
                Some(i) => 0 <= i < self@.len() && self@[i as int].name == name@ && (forall|j: int|
                    0 <= j < i ==> self@[j].name != name@),
                None => forall|j: int| 0 <= j < self@.len() ==> self@[j].name != name@,
            },
    {
        let mut i: usize = 0;
        while i < self.items.len()
            invariant
                i <= self.items.len(),
                self@.len() == self.items@.len(),
                forall|j: int| 0 <= j < i ==> self@[j].name != name@,
            decreases self.items.len() - i,
        {
            if self.items[i].name == *name {
                return Some(i);
            }
            i = i + 1;
        }
        None
    }

    /// Adds an item of this name launching this path, as the scripted add
    /// command does: an item of the same name is overwritten, otherwise the
    /// item is appended.
    pub fn set_item(&mut self, name: &str, path: &str)
        requires
            items_wf(old(self)@),
        ensures
            final(self)@ == items_after_add(old(self)@, name@, path@),
            items_wf(final(self)@),
    {
        let owned = name.to_owned();
        match self.index_of_name(&owned) {
            Some(i) => {
                self.items.set(i, LoginItem::new(name, path));
                proof {
                    lemma_add_from_prefix(old(self)@, name@, path@, i as int);
                    assert(self@ =~= old(self)@.update(
                        i as int,
                        ItemView { name: name@, path: path@ },
                    ));
                }
            },
            None => {
                self.items.push(LoginItem::new(name, path));
                proof {
                    lemma_add_from_prefix(old(self)@, name@, path@, old(self)@.len() as int);
                    assert(self@ =~= old(self)@.push(ItemView { name: name@, path: path@ }));
                }
            },
        }
    }

    /// Removes the item of this name, as the scripted remove command does;
    /// reports whether one was present.
    pub fn remove_item(&mut self, name: &str) -> (r: bool)
        requires
            items_wf(old(self)@),
        ensures
            final(self)@ == items_after_remove(old(self)@, name@),
            items_wf(final(self)@),
            r == has_item(old(self)@, name@),
    {
        let owned = name.to_owned();
        match self.index_of_name(&owned) {
            Some(i) => {
                self.items.remove(i);
                proof {
                    lemma_remove_from_prefix(old(self)@, name@, i as int);
                    assert(self@ =~= old(self)@.remove(i as int));
                }
                true
            },
            None => {
                proof {
                    lemma_remove_from_prefix(old(self)@, name@, old(self)@.len() as int);
                    assert(self@ =~= old(self)@);
                }
                false
            },
        }
    }

    /// Whether the list holds an item of this name.
    pub fn contains_name(&self, name: &str) -> (r: bool)
        ensures
            r == has_item(self@, name@),
    {
        let owned = name.to_owned();
        match self.index_of_name(&owned) {
            Some(_) => true,
            None => false,
        }
    }

    /// The effective name for a scripted-mechanism entry requesting this
    /// name and path against these existing items.
    pub fn corrected_app_name(&self, requested: &str, app_path: &str) -> (r: String)
        ensures
            r@ == corrected_name(requested@, app_path@, self@),
    {
        let owned_path = app_path.to_owned();
        let mut i: usize = 0;
        while i < self.items.len()
            invariant
                i <= self.items.len(),
                self@.len() == self.items@.len(),
                owned_path@ == app_path@,
                forall|j: int| 0 <= j < i ==> self@[j].path != app_path@,
            decreases self.items.len() - i,
        {
            if self.items[i].path == owned_path {
                proof {
                    lemma_corrected_from_prefix(requested@, app_path@, self@, i as int);
                }
                return self.items[i].name.clone();
            }
            i = i + 1;
        }
        proof {
            lemma_corrected_from_prefix(requested@, app_path@, self@, self@.len() as int);
        }
        requested.to_owned()
    }
}

/// The file name an agent descriptor is stored under, derived from the
/// effective application name.
pub open spec fn agent_file_name(app_name: Seq<char>) -> Seq<char> {
    app_name + ".plist"@
}

/// The argument list rendered as one descriptor element per argument.
pub open spec fn arg_elements(args: Seq<Seq<char>>) -> Seq<char>
    decreases args.len(),
{
    if args.len() == 0 {
        Seq::empty()
    } else {
        arg_elements(args.drop_last()) + "    <string>"@ + args.last() + "</string>\n"@
    }
}

/// The content of the agent descriptor file: a label, the program path and
/// arguments as a list, and the flag marking it to run at login.
pub open spec fn agent_descriptor_content(e: EntryView) -> Seq<char> {
    "<?xml version=\"1.0\" encoding=\"UTF-8\"?>\n<plist version=\"1.0\">\n<dict>\n  <key>Label</key>\n  <string>"@
        + e.app_name
        + "</string>\n  <key>ProgramArguments</key>\n  <array>\n    <string>"@ + e.app_path
        + "</string>\n"@ + arg_elements(e.args)
        + "  </array>\n  <key>RunAtLoad</key>\n  <true/>\n</dict>\n</plist>\n"@
}

/// Builds the file name the entry's agent descriptor is stored under.
pub fn build_agent_file_name(entry: &AutoLaunch) -> (r: String)
    ensures
        r@ == agent_file_name(entry@.app_name),
{
    entry.get_app_name().to_owned().concat(".plist")
}

/// Builds the content of the entry's agent descriptor file.
pub fn build_agent_descriptor_content(entry: &AutoLaunch) -> (r: String)
    ensures
        r@ == agent_descriptor_content(entry@),
{
    let mut s =
        "<?xml version=\"1.0\" encoding=\"UTF-8\"?>\n<plist version=\"1.0\">\n<dict>\n  <key>Label</key>\n  <string>".to_owned();
    s.append(entry.get_app_name());
    s.append("</string>\n  <key>ProgramArguments</key>\n  <array>\n    <string>");
    s.append(entry.get_app_path());
    s.append("</string>\n");
    let args = entry.get_args();
    let mut i: usize = 0;
    while i < args.len()
        invariant
            i <= args.len(),
            args.deep_view() == entry@.args,
            s@ == "<?xml version=\"1.0\" encoding=\"UTF-8\"?>\n<plist version=\"1.0\">\n<dict>\n  <key>Label</key>\n  <string>"@
                + entry@.app_name
                + "</string>\n  <key>ProgramArguments</key>\n  <array>\n    <string>"@
                + entry@.app_path + "</string>\n"@ + arg_elements(entry@.args.take(i as int)),
        decreases args.len() - i,
    {
        s.append("    <string>");
        s.append(args[i].as_str());
        s.append("</string>\n");
        proof {
            assert(entry@.args.take(i as int + 1).drop_last() =~= entry@.args.take(i as int));
            assert(entry@.args.take(i as int + 1).last() == entry@.args[i as int]);
            assert(s@ =~= "<?xml version=\"1.0\" encoding=\"UTF-8\"?>\n<plist version=\"1.0\">\n<dict>\n  <key>Label</key>\n  <string>"@
                + entry@.app_name
                + "</string>\n  <key>ProgramArguments</key>\n  <array>\n    <string>"@
                + entry@.app_path + "</string>\n"@ + arg_elements(entry@.args.take(i as int + 1)));
        }
        i = i + 1;
    }
    s.append("  </array>\n  <key>RunAtLoad</key>\n  <true/>\n</dict>\n</plist>\n");
    proof {
        assert(entry@.args.take(args.len() as int) =~= entry@.args);
        assert(s@ =~= agent_descriptor_content(entry@));
    }
    s
}

/// The mathematical content of a login-item-style platform's state.
pub struct LoginView {
    pub items: Seq<ItemView>,
    pub agents: Map<Seq<char>, Seq<char>>,
    pub installed: Set<Seq<char>>,
}

/// Whether the entry's registration is present: its named item in the
/// scripted list, or its descriptor file in the agent directory, by the
/// entry's mechanism.
pub open spec fn login_enabled(v: LoginView, e: EntryView) -> bool {
    if e.use_launch_agent {
        v.agents.contains_key(agent_file_name(e.app_name))
    } else {
        has_item(v.items, e.app_name)
    }
}

/// Enabling succeeds unless the agent mechanism's proactive check finds
/// that the launch target does not exist.
pub open spec fn login_enable_ok(v: LoginView, e: EntryView) -> bool {
    e.use_launch_agent ==> v.installed.contains(e.app_path)
}

/// The state after enabling: the scripted list gains (or overwrites) the
/// entry's item, or the agent directory gains (or overwrites) the entry's
/// descriptor file; nothing changes when the proactive check fails.
pub open spec fn login_after_enable(v: LoginView, e: EntryView) -> LoginView {
    if e.use_launch_agent {
        if v.installed.contains(e.app_path) {
            LoginView {
                items: v.items,
                agents: v.agents.insert(agent_file_name(e.app_name), agent_descriptor_content(e)),
                installed: v.installed,
            }
        } else {
            v
        }
    } else {
        LoginView {
            items: items_after_add(v.items, e.app_name, e.app_path),
            agents: v.agents,
            installed: v.installed,
        }
    }
}

/// Disabling the scripted mechanism requires an item to remove; deleting
/// an agent descriptor succeeds whether or not the file was present.
pub open spec fn login_disable_ok(v: LoginView, e: EntryView) -> bool {
    if e.use_launch_agent {
        true
    } else {
        has_item(v.items, e.app_name)
    }
}

/// The state after disabling: the entry's item or descriptor file is gone.
pub open spec fn login_after_disable(v: LoginView, e: EntryView) -> LoginView {
    if e.use_launch_agent {
        LoginView {
            items: v.items,
            agents: v.agents.remove(agent_file_name(e.app_name)),
            installed: v.installed,
        }
    } else {
        LoginView {
            items: items_after_remove(v.items, e.app_name),
            agents: v.agents,
            installed: v.installed,
        }
    }
}

/// The state of a login-item-style platform: the scripted login-item list,
/// the per-user agent directory, and which launch targets exist on disk.
pub struct LoginState {
    items: LoginItemList,
    agents: FileMap,
    installed: PathSet,
}

impl View for LoginState {
    type V = LoginView;

    closed spec fn view(&self) -> LoginView {
        LoginView { items: self.items@, agents: self.agents@, installed: self.installed@ }
    }
}

impl LoginState {
    /// An empty login-item list, an empty agent directory, and no known
    /// launch targets.
    pub fn new() -> (r: LoginState)
        ensures
            r@ == (LoginView {
                items: Seq::<ItemView>::empty(),
                agents: Map::<Seq<char>, Seq<char>>::empty(),
                installed: Set::<Seq<char>>::empty(),
            }),
            items_wf(r@.items),
    {
        LoginState { items: LoginItemList::new(), agents: FileMap::new(), installed: PathSet::new() }
    }

    /// Records that a launch target exists on disk.
    pub fn mark_installed(&mut self, path: &str)
        ensures
            final(self)@ == (LoginView {
                items: old(self)@.items,
                agents: old(self)@.agents,
                installed: old(self)@.installed.insert(path@),
            }),
    {
        self.installed.insert(path);
    }

    /// Seeds the scripted login-item list, as an out-of-band registration
    /// by another application would.
    pub fn set_login_item(&mut self, name: &str, path: &str)
        requires
            items_wf(old(self)@.items),
        ensures
            final(self)@ == (LoginView {
                items: items_after_add(old(self)@.items, name@, path@),
                agents: old(self)@.agents,
                installed: old(self)@.installed,
            }),
            items_wf(final(self)@.items),
    {
        self.items.set_item(name, path);
    }

    /// A borrow of the scripted login-item list, for constructing entries
    /// whose name must be corrected against it.
    pub fn login_items(&self) -> (r: &LoginItemList)
        ensures
            r@ == self@.items,
    {
        &self.items
    }

    /// Registers the entry: the scripted mechanism adds its login item;
    /// the agent mechanism first checks that the launch target exists —
    /// failing with the launch-target error and writing nothing when it
    /// does not — and then writes the entry's descriptor file.
    pub fn enable(&mut self, entry: &AutoLaunch) -> (r: Result<(), Error>)
        requires
            items_wf(old(self)@.items),
        ensures
            final(self)@ == login_after_enable(old(self)@, entry@),
            items_wf(final(self)@.items),
            r is Ok <==> login_enable_ok(old(self)@, entry@),
            r matches Err(e) ==> e == Error::LaunchTarget,
    {
        if entry.uses_launch_agent() {
            if !self.installed.contains(entry.get_app_path()) {
                return Err(Error::LaunchTarget);
            }
            let name = build_agent_file_name(entry);
            let content = build_agent_descriptor_content(entry);
            self.agents.set(name.as_str(), content);
            Ok(())
        } else {
            self.items.set_item(entry.get_app_name(), entry.get_app_path());
            Ok(())
        }
    }

    /// Unregisters the entry: the scripted mechanism removes its login
    /// item, failing with the not-found error when there is none; the
    /// agent mechanism deletes the descriptor file if present and succeeds
    /// either way (the corresponding running agent is stopped outside this
    /// model, best effort, its failure swallowed).
    pub fn disable(&mut self, entry: &AutoLaunch) -> (r: Result<(), Error>)
        requires
            items_wf(old(self)@.items),
        ensures
            final(self)@ == login_after_disable(old(self)@, entry@),
            items_wf(final(self)@.items),
            r is Ok <==> login_disable_ok(old(self)@, entry@),
            r matches Err(e) ==> e == Error::NotFound,
    {
        if entry.uses_launch_agent() {
            let name = build_agent_file_name(entry);
            self.agents.remove(name.as_str());
            Ok(())
        } else {
            if self.items.remove_item(entry.get_app_name()) {
                Ok(())
            } else {
                Err(Error::NotFound)
            }
        }
    }

    /// Reports whether the entry's registration is present, by the entry's
    /// mechanism.
    pub fn is_enabled(&self, entry: &AutoLaunch) -> (r: bool)
        ensures
            r == login_enabled(self@, entry@),
    {
        if entry.uses_launch_agent() {
            let name = build_agent_file_name(entry);
            self.agents.contains(name.as_str())
        } else {
            self.items.contains_name(entry.get_app_name())
        }
    }

    /// The content of the agent descriptor file of this name, if any.
    pub fn agent_content_of<'a>(&'a self, file_name: &str) -> (r: Option<&'a String>)
        ensures
            match r {
                Some(v) => self@.agents.contains_key(file_name@) && v@ == self@.agents[file_name@],
                None => !self@.agents.contains_key(file_name@),
            },
    {
        self.agents.get(file_name)
    }
}

impl AutoLaunch {
    /// Creates an entry for a login-item-style platform. For the scripted
    /// mechanism the requested name is corrected against the existing
    /// login items, which the caller looks up and injects: an item already
    /// launching the same path lends the entry its name, so that later
    /// operations find that item rather than creating a duplicate. The
    /// agent mechanism keeps the requested name.
    pub fn new_login_item(
        app_name: &str,
        app_path: &str,
        args: &Vec<String>,
        use_launch_agent: bool,
        existing: &LoginItemList,
    ) -> (r: AutoLaunch)
        requires
            app_name@.len() > 0,
            app_path@.len() > 0,
        ensures
            r@ == (EntryView {
                app_name: if use_launch_agent {
                    app_name@
                } else {
                    corrected_name(app_name@, app_path@, existing@)
                },
                app_path: app_path@,
                args: args.deep_view(),
                elevate_privileges: false,
                use_launch_agent,
            }),
    {
        let name = if use_launch_agent {
            app_name.to_owned()
        } else {
            existing.corrected_app_name(app_name, app_path)
        };
        AutoLaunch::from_parts(name, app_path.to_owned(), clone_args(args), false, use_launch_agent)
    }
}

} // verus!
