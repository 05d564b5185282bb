//! Finding out whether an application that can open files is installed.
//!
//! Looking at the disk and asking the system is the caller's business; what
//! stands here is what to look for and what the answers amount to.

use crate::chars::{opt_str_view, strings_view};
use vstd::prelude::*;
use vstd::string::StringExecFns;

verus! {

/// The operating systems that the application runs on.
#[derive(Clone, Copy, Debug, PartialEq, Eq, Structural)]
pub enum Platform {
    Windows,
    MacOs,
    Linux,
}

/// On Linux every application counts as installed: whether it can be
/// started shows when it is opened.
pub fn check_linux_app(app_name: &str) -> (installed: bool)
    ensures
        installed,
{
    true
}

/// The bundle of the application `app_name` in the directory `folder`.
pub open spec fn bundle_text(folder: Seq<char>, app_name: Seq<char>) -> Seq<char> {
    folder + "/"@ + app_name + ".app"@
}

/// The places where macOS keeps the bundle of an application, in the order
/// in which they are looked at: the shared folder, the system folder, and the
/// user's own folder if the home directory is known.
pub open spec fn macos_locations_text(app_name: Seq<char>, home: Option<Seq<char>>) -> Seq<
    Seq<char>,
> {
    let shared = seq![
        bundle_text("/Applications"@, app_name),
        bundle_text("/System/Applications"@, app_name),
    ];
    match home {
        Some(home) => shared.push(bundle_text(home + "/Applications"@, app_name)),
        None => shared,
    }
}

/// Builds the name of the bundle of `app_name` in `folder`.
fn bundle_path(folder: String, app_name: &str) -> (path: String)
    ensures
        path@ == bundle_text(folder@, app_name@),
{
    let mut path = folder;
    path.append("/");
    path.append(app_name);
    path.append(".app");
    path
}

/// Lists the places where the bundle of `app_name` may be on macOS.
pub fn macos_app_locations(app_name: &str, home: Option<&str>) -> (locations: Vec<String>)
    ensures
        strings_view(locations@) == macos_locations_text(app_name@, opt_str_view(home)),
{
    let mut locations: Vec<String> = Vec::new();
    locations.push(bundle_path(String::from_str("/Applications"), app_name));
    locations.push(bundle_path(String::from_str("/System/Applications"), app_name));
    match home {
        Some(home) => {
            let mut folder = String::from_str(home);
            folder.append("/Applications");
            locations.push(bundle_path(folder, app_name));
            assert(strings_view(locations@) =~= macos_locations_text(app_name@, Some(home@)));
        },
        None => {
            assert(strings_view(locations@) =~= macos_locations_text(app_name@, None));
        },
    }
    locations
}

/// Whether an application counts as installed on macOS: its bundle lies in
/// one of the known places, or a command of its name is on the search path.
pub fn check_macos_app(bundle_found: bool, on_search_path: bool) -> (installed: bool)
    ensures
        installed == (bundle_found || on_search_path),
{
    bundle_found || on_search_path
}

/// Whether an application counts as installed on Windows: the search for
/// its program has found one.
pub fn check_windows_app(found: &Option<String>) -> (installed: bool)
    ensures
        installed == (*found is Some),
{
    found.is_some()
}

/// What to hand to the opener for the application `app_name`.  Outside
/// Windows the name itself will do; on Windows it is the program that the
/// search for `app_name` came up with, if it found one.
pub fn resolve_app_path(platform: Platform, app_name: &str, found_on_windows: Option<String>) -> (path:
    Option<String>)
    ensures
        match platform {
            Platform::Windows => path == found_on_windows,
            _ => path is Some && path->0@ == app_name@,
        },
{
    match platform {
        Platform::Windows => found_on_windows,
        _ => Some(String::from_str(app_name)),
    }
}

} // verus!
