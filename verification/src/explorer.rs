//! Showing a path in the platform's file manager: which program is asked,
//! and what is said when that cannot be done. Starting the program is left
//! to the caller.

use vstd::prelude::*;

verus! {

/// The platforms whose file manager is known.
#[derive(Clone, Copy, PartialEq, Eq, Structural, Debug)]
pub enum Platform {
    Windows,
    MacOs,
    Linux,
}

/// The program that shows a path on the platform.
pub open spec fn opener_name(platform: Platform) -> Seq<char> {
    match platform {
        Platform::Windows => "explorer"@,
        Platform::MacOs => "open"@,
        Platform::Linux => "xdg-open"@,
    }
}

/// The words that introduce the system's own text where the program could
/// not be started.
pub open spec fn opener_complaint(platform: Platform) -> Seq<char> {
    match platform {
        Platform::Windows => "Failed to open file explorer: "@,
        Platform::MacOs => "Failed to open Finder: "@,
        Platform::Linux => "Failed to open file manager: "@,
    }
}

/// What is said of a path that is not there.
pub open spec fn missing_path_text() -> Seq<char> {
    "Path does not exist"@
}

/// The program to start for a path, or what to say where the path is not
/// there.
pub fn opener_for(platform: Platform, path_exists: bool) -> (choice: Result<&'static str, String>)
    ensures
        path_exists ==> choice is Ok && choice->Ok_0@ == opener_name(platform),
        !path_exists ==> choice is Err && choice->Err_0@ == missing_path_text(),
{
    if !path_exists {
        return Err(String::from_str("Path does not exist"));
    }
    match platform {
        Platform::Windows => Ok("explorer"),
        Platform::MacOs => Ok("open"),
        Platform::Linux => Ok("xdg-open"),
    }
}

/// What to say where the program could not be started; `detail` is the
/// system's own text.
pub fn opener_failure(platform: Platform, detail: &str) -> (text: String)
    ensures
        text@ == opener_complaint(platform) + detail@,
{
    let words = match platform {
        Platform::Windows => "Failed to open file explorer: ",
        Platform::MacOs => "Failed to open Finder: ",
        Platform::Linux => "Failed to open file manager: ",
    };
    String::from_str(words).concat(detail)
}

} // verus!
