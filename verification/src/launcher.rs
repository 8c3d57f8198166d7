//! Applications that can be launched: what they are, how the command that
//! starts one is put together, and how they are read from desktop entries.
//!
//! Nothing here starts a process or reads a file. `launch` works out the
//! command for a platform, and `locate_apps` takes the texts of the desktop
//! entry files; spawning and reading are the caller's part.

pub mod desktop;

use crate::filter::Entry;
use crate::words::{fields, space_mask, split_whitespace, views};
use vstd::prelude::*;
use vstd::string::StrSliceExecFns;

verus! {

/// An application: a name to search by and the descriptor it is launched
/// with.
#[derive(Debug, PartialEq, Eq)]
pub struct LaunchableApp {
    pub name: String,
    pub exec_handle: String,
}

/// An application as mathematics.
pub struct AppEntry {
    pub name: Seq<char>,
    pub exec_handle: Seq<char>,
}

/// The platform an application is launched on.
#[derive(Clone, Copy, Debug, PartialEq, Eq, Structural)]
pub enum Platform {
    Windows,
    Linux,
    /// A platform that applications cannot be launched on.
    Other,
}

/// Why an application cannot be launched.
#[derive(Clone, Copy, Debug, PartialEq, Eq, Structural)]
pub enum LaunchError {
    UnsupportedPlatform,
}

impl LaunchError {
    /// The error in words.
    pub fn message(&self) -> (r: String)
        ensures
            r@ == "Unsupported OS for launching applications"@,
    {
        "Unsupported OS for launching applications".to_owned()
    }
}

/// Why the applications cannot be located: the text of a desktop entry file
/// is not an INI document.
#[derive(Debug, PartialEq, Eq)]
pub struct LocateError {
    /// What the INI parser said.
    pub message: String,
}

impl View for LaunchableApp {
    type V = AppEntry;

    open spec fn view(&self) -> AppEntry {
        AppEntry { name: self.name@, exec_handle: self.exec_handle@ }
    }
}

/// The views of a list of applications.
pub open spec fn app_views(apps: Seq<LaunchableApp>) -> Seq<AppEntry> {
    apps.map_values(|app: LaunchableApp| app@)
}

/// A field of a launch descriptor that stands for something the desktop
/// would fill in, such as `%u` or `%F`.
pub open spec fn is_field_code(field: Seq<char>) -> bool {
    field.len() > 0 && field[0] == '%'
}

/// The predicate that keeps the fields that are no field codes.
pub open spec fn no_field_code() -> spec_fn(Seq<char>) -> bool {
    |field: Seq<char>| !is_field_code(field)
}

/// The command of a launch descriptor on Linux: its fields between white
/// space, without the field codes. The first is the program, the rest are its
/// arguments.
pub open spec fn linux_command(handle: Seq<char>) -> Seq<Seq<char>> {
    fields(handle, space_mask(handle)).filter(no_field_code())
}

/// The command of a launch descriptor on Windows: the shell's `start` with
/// an empty window title and the descriptor.
pub open spec fn windows_command(handle: Seq<char>) -> Seq<Seq<char>> {
    seq!["cmd"@, "/C"@, "start"@, ""@, handle]
}

/// The command that launches an application with this descriptor, or the
/// reason why there is none. An empty command means that there is nothing to
/// start.
pub open spec fn launch_command(handle: Seq<char>, platform: Platform) -> Result<
    Seq<Seq<char>>,
    LaunchError,
> {
    match platform {
        Platform::Windows => Ok(windows_command(handle)),
        Platform::Linux => Ok(linux_command(handle)),
        Platform::Other => Err(LaunchError::UnsupportedPlatform),
    }
}

/// Whether a field is a field code.
pub fn starts_with_percent(field: &str) -> (r: bool)
    ensures
        r == is_field_code(field@),
{
    !field.is_empty() && field.get_char(0) == '%'
}

/// The fields that are no field codes, in order.
pub fn drop_field_codes(all: Vec<String>) -> (r: Vec<String>)
    ensures
        views(r@) == views(all@).filter(no_field_code()),
{
    let mut out: Vec<String> = Vec::new();
    let mut i: usize = 0;
    proof {
        reveal(Seq::filter);
        assert(views(all@.take(0)) =~= Seq::<Seq<char>>::empty());
        assert(views(out@) =~= Seq::<Seq<char>>::empty());
    }
    while i < all.len()
        invariant
            i <= all@.len(),
            views(out@) == views(all@.take(i as int)).filter(no_field_code()),
        decreases all@.len() - i,
    {
        proof {
            reveal(Seq::filter);
            assert(views(all@.take(i + 1)).drop_last() =~= views(all@.take(i as int)));
        }
        if !starts_with_percent(all[i].as_str()) {
            let ghost before = out@;
            out.push(all[i].clone());
            assert(views(out@) =~= views(before).push(all@[i as int]@));
        }
        i += 1;
    }
    assert(all@.take(i as int) =~= all@);
    out
}

impl LaunchableApp {
    /// An application with the given name and launch descriptor.
    pub fn new(name: &str, exec_handle: &str) -> (r: Self)
        ensures
            r.name@ == name@,
            r.exec_handle@ == exec_handle@,
    {
        LaunchableApp { name: name.to_owned(), exec_handle: exec_handle.to_owned() }
    }

    /// The command that launches the application on `platform`: the program
    /// first, then its arguments. An empty command means that there is
    /// nothing to start. The caller spawns it and does not wait for it.
    pub fn launch(&self, platform: Platform) -> (r: Result<Vec<String>, LaunchError>)
        ensures
            match launch_command(self.exec_handle@, platform) {
                Ok(command) => r matches Ok(argv) && views(argv@) == command,
                Err(why) => r == Err::<Vec<String>, LaunchError>(why),
            },
    {
        match platform {
            Platform::Windows => Ok(self.launch_windows()),
            Platform::Linux => Ok(self.launch_linux()),
            Platform::Other => Err(LaunchError::UnsupportedPlatform),
        }
    }

    /// The command that launches the application on Windows.
    pub fn launch_windows(&self) -> (argv: Vec<String>)
        ensures
            views(argv@) == windows_command(self.exec_handle@),
    {
        let mut argv: Vec<String> = Vec::new();
        argv.push("cmd".to_owned());
        argv.push("/C".to_owned());
        argv.push("start".to_owned());
        argv.push("".to_owned());
        argv.push(self.exec_handle.clone());
        assert(views(argv@) =~= windows_command(self.exec_handle@));
        argv
    }

    /// The command that launches the application on Linux.
    pub fn launch_linux(&self) -> (argv: Vec<String>)
        ensures
            views(argv@) == linux_command(self.exec_handle@),
    {
        drop_field_codes(split_whitespace(self.exec_handle.as_str()))
    }
}

impl Clone for LaunchableApp {
    fn clone(&self) -> (r: Self)
        ensures
            r == *self,
    {
        LaunchableApp { name: self.name.clone(), exec_handle: self.exec_handle.clone() }
    }
}

impl Entry for LaunchableApp {
    open spec fn name_view(&self) -> Seq<char> {
        self.name@
    }

    fn name(&self) -> (r: &str) {
        self.name.as_str()
    }

    fn duplicate(&self) -> (r: Self) {
        self.clone()
    }
}

} // verus!
