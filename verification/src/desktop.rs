use vstd::prelude::*;
use crate::command;
use crate::entry::{AutoLaunch, EntryView};
use crate::error::Error;
use crate::store::FileMap;

verus! {

/// The file name a desktop entry is stored under, derived from the
/// effective application name.
pub open spec fn desktop_file_name(app_name: Seq<char>) -> Seq<char> {
    app_name + ".desktop"@
}

/// The content of the desktop-entry file: a type marker, a human-readable
/// name field, and the executable command line.
pub open spec fn desktop_entry_content(e: EntryView) -> Seq<char> {
    "[Desktop Entry]\nType=Application\nName="@ + e.app_name + "\nExec="@ + e.command() + "\n"@
}

/// Whether the entry's descriptor file is present in the directory.
pub open spec fn desktop_enabled(files: Map<Seq<char>, Seq<char>>, e: EntryView) -> bool {
    files.contains_key(desktop_file_name(e.app_name))
}

/// The directory after enabling: the entry's descriptor file holds its
/// content, overwriting any pre-existing file of the same name.
pub open spec fn desktop_after_enable(files: Map<Seq<char>, Seq<char>>, e: EntryView) -> Map<
    Seq<char>,
    Seq<char>,
> {
    files.insert(desktop_file_name(e.app_name), desktop_entry_content(e))
}

/// The directory after disabling: the entry's descriptor file is gone.
pub open spec fn desktop_after_disable(files: Map<Seq<char>, Seq<char>>, e: EntryView) -> Map<
    Seq<char>,
    Seq<char>,
> {
    files.remove(desktop_file_name(e.app_name))
}

/// Builds the file name the entry's desktop entry is stored under.
pub fn build_desktop_file_name(entry: &AutoLaunch) -> (r: String)
    ensures
        r@ == desktop_file_name(entry@.app_name),
{
    entry.get_app_name().to_owned().concat(".desktop")
}

/// Builds the content of the entry's desktop-entry file.
pub fn build_desktop_entry_content(entry: &AutoLaunch) -> (r: String)
    ensures
        r@ == desktop_entry_content(entry@),
{
    let mut s = "[Desktop Entry]\nType=Application\nName=".to_owned();
    s.append(entry.get_app_name());
    s.append("\nExec=");
    let cmd = command::build_launch_command(entry.get_app_path(), entry.get_args());
    s.append(cmd.as_str());
    s.append("\n");
    proof {
        assert(s@ =~= desktop_entry_content(entry@));
    }
    s
}

/// The per-user autostart directory of a desktop-entry-style platform:
/// descriptor files keyed by file name.
pub struct AutostartDir {
    files: FileMap,
}

impl View for AutostartDir {
    type V = Map<Seq<char>, Seq<char>>;

    closed spec fn view(&self) -> Map<Seq<char>, Seq<char>> {
        self.files@
    }
}

impl AutostartDir {
    /// An empty autostart directory.
    pub fn new() -> (r: AutostartDir)
        ensures
            r@ == Map::<Seq<char>, Seq<char>>::empty(),
    {
        AutostartDir { files: FileMap::new() }
    }

    /// Writes the entry's descriptor file, overwriting any pre-existing
    /// file with the same name.
    pub fn enable(&mut self, entry: &AutoLaunch) -> (r: Result<(), Error>)
        ensures
            final(self)@ == desktop_after_enable(old(self)@, entry@),
            r is Ok,
    {
        let name = build_desktop_file_name(entry);
        let content = build_desktop_entry_content(entry);
        self.files.set(name.as_str(), content);
        Ok(())
    }

    /// Deletes the entry's descriptor file. Fails with the not-found error
    /// exactly when the file is absent.
    pub fn disable(&mut self, entry: &AutoLaunch) -> (r: Result<(), Error>)
        ensures
            final(self)@ == desktop_after_disable(old(self)@, entry@),
            r is Ok <==> desktop_enabled(old(self)@, entry@),
            r matches Err(e) ==> e == Error::NotFound,
    {
        let name = build_desktop_file_name(entry);
        if self.files.remove(name.as_str()) {
            Ok(())
        } else {
            Err(Error::NotFound)
        }
    }

    /// Reports whether the entry's descriptor file exists; its content is
    /// not validated.
    pub fn is_enabled(&self, entry: &AutoLaunch) -> (r: bool)
        ensures
            r == desktop_enabled(self@, entry@),
    {
        let name = build_desktop_file_name(entry);
        self.files.contains(name.as_str())
    }

    /// The content of the descriptor file of this name, if any.
    pub fn content_of<'a>(&'a self, file_name: &str) -> (r: Option<&'a String>)
        ensures
            match r {
                Some(v) => self@.contains_key(file_name@) && v@ == self@[file_name@],
                None => !self@.contains_key(file_name@),
            },
    {
        self.files.get(file_name)
    }
}

} // verus!
