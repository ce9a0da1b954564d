//! Core logic of a desktop-sharing bridge: monitor resolution and
//! normalized-coordinate mapping for input injection, injection-event
//! planning, and the clipboard synchronisation guard that suppresses
//! feedback loops between local writes and change detection.

pub mod clipboard;
pub mod input;
pub mod monitor;

use vstd::prelude::*;

verus! {

/// Static application metadata.
pub struct AppInfo {
    pub name: String,
    pub version: String,
    pub description: String,
}

/// Returns the application's static metadata; never fails.
pub fn get_app_info() -> (r: AppInfo)
    ensures
        r.name@ == "P2D"@,
        r.version@ == "0.1.0"@,
        r.description@ == "P2P Desktop Sharing Application"@,
{
    AppInfo {
        name: "P2D".to_owned(),
        version: "0.1.0".to_owned(),
        description: "P2P Desktop Sharing Application".to_owned(),
    }
}

} // verus!
