//! Where the label font is looked for.

use vstd::prelude::*;

verus! {

/// The kind of system the program runs on.
#[derive(Clone, Copy, Debug, PartialEq, Eq)]
pub enum Platform {
    /// Microsoft Windows.
    Windows,
    /// Apple macOS.
    MacOs,
    /// Anything else; Linux is assumed.
    Other,
}

/// The path of the monospace font that each platform is expected to have.
pub open spec fn spec_system_font_path(platform: Platform) -> Seq<char> {
    match platform {
        Platform::Windows => "C:\\Windows\\Fonts\\consola.ttf"@,
        Platform::MacOs => "/System/Library/Fonts/Monaco.ttf"@,
        Platform::Other => "/usr/share/fonts/truetype/dejavu/DejaVuSansMono.ttf"@,
    }
}

/// The path at which the label font is looked for on `platform`.
pub fn system_font_path(platform: Platform) -> (path: &'static str)
    ensures
        path@ == spec_system_font_path(platform),
{
    match platform {
        Platform::Windows => "C:\\Windows\\Fonts\\consola.ttf",
        Platform::MacOs => "/System/Library/Fonts/Monaco.ttf",
        Platform::Other => "/usr/share/fonts/truetype/dejavu/DejaVuSansMono.ttf",
    }
}

} // verus!
