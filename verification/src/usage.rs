//! The usage text.

use vstd::prelude::*;

verus! {

/// The text that explains the commands.
pub const USAGE: &'static str =
    "USAGE\n\nCOMMANDS\t\t\tls, set, slideshow\n\nls\t\t\t\tlist wallpapers on attached monitors\nls n\t\t\t\tlist wallpaper on monitor at index n\nls all\t\t\t\tlist wallpapers on all monitors\n\nset n {path}\t\t\tsets wallpaper of monitor n to path\nset n random {directory}\tsets wallpaper of monitor n to a random image from directory\n\nslideshow\t\t\tshow details of wallpaper slideshow\nslideshow advance\t\tadvance slideshow to next wallpaper\n";

/// The usage text, to be shown where the arguments name no command or a
/// command is malformed.
pub fn usage() -> (text: &'static str)
    ensures
        text@ == USAGE@,
{
    USAGE
}

} // verus!
