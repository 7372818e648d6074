//! The application's own icons.

use vstd::prelude::*;

verus! {

/// An icon of the application.
#[derive(Clone, Copy, Debug, PartialEq, Eq, Structural)]
pub enum AppIcon {
    Database,
    Ai,
    Save,
    History,
    Code,
    Refresh,
}

impl AppIcon {
    /// The asset path of the icon's SVG file.
    pub fn path(self) -> (p: &'static str)
        ensures
            p@ == match self {
                AppIcon::Database => "icons/database.svg"@,
                AppIcon::Ai => "icons/ai.svg"@,
                AppIcon::Save => "icons/save.svg"@,
                AppIcon::History => "icons/history.svg"@,
                AppIcon::Code => "icons/code.svg"@,
                AppIcon::Refresh => "icons/refresh.svg"@,
            },
    {
        match self {
            AppIcon::Database => "icons/database.svg",
            AppIcon::Ai => "icons/ai.svg",
            AppIcon::Save => "icons/save.svg",
            AppIcon::History => "icons/history.svg",
            AppIcon::Code => "icons/code.svg",
            AppIcon::Refresh => "icons/refresh.svg",
        }
    }
}

} // verus!
