//! Slideshow status, options and the `slideshow` command.

use crate::command::text_eq;
use crate::helpers::text_of;
use crate::monitor::Monitor;
use vstd::prelude::*;

verus! {

/// Provider state bit: the slideshow feature is enabled.
pub const DSS_ENABLED: i32 = 1;

/// Provider state bit: the desktop currently runs as a slideshow.
pub const DSS_SLIDESHOW: i32 = 2;

/// Provider option value: images are shown in shuffled order.
pub const DSO_SHUFFLEIMAGES: i32 = 1;

/// Milliseconds in a minute.
pub const TICKS_PER_MINUTE: u32 = 60000;

/// A provider state counts as a running slideshow when it is exactly the
/// combination of the two state bits: neither bit alone is enough, and no
/// further bit may be set.
pub open spec fn slideshow_enabled(state: int) -> bool {
    state == DSS_ENABLED + DSS_SLIDESHOW
}

/// Whether the provider-reported `state` is a running slideshow.
pub fn is_slideshow(state: i32) -> (enabled: bool)
    ensures
        enabled == slideshow_enabled(state as int),
{
    state == DSS_ENABLED + DSS_SLIDESHOW
}

/// Whether the options say that the slideshow is shuffled. The options
/// are compared with the shuffle value as a whole, not bit by bit: with any
/// other bit set beside it the answer is no.
pub fn is_slideshow_shuffle(options: i32) -> (shuffle: bool)
    ensures
        shuffle == (options == DSO_SHUFFLEIMAGES),
{
    options == DSO_SHUFFLEIMAGES
}

/// The whole minutes in an interval of `tick` milliseconds.
pub fn interval_whole_minutes(tick: u32) -> (minutes: u32)
    ensures
        minutes == tick / TICKS_PER_MINUTE,
{
    tick / TICKS_PER_MINUTE
}

/// The milliseconds of an interval that do not fill a minute.
pub fn interval_remaining_ticks(tick: u32) -> (rest: u32)
    ensures
        rest == tick % TICKS_PER_MINUTE,
        rest < TICKS_PER_MINUTE,
        interval_whole_minutes_spec(tick) * TICKS_PER_MINUTE + rest == tick,
{
    tick % TICKS_PER_MINUTE
}

/// The whole minutes in an interval of `tick` milliseconds.
pub open spec fn interval_whole_minutes_spec(tick: u32) -> int {
    tick as int / TICKS_PER_MINUTE as int
}

/// The direction in which a slideshow moves.
#[derive(Clone, Copy, Debug, PartialEq, Eq, Structural)]
pub enum Direction {
    Forward,
    Backward,
}

/// The provider call that moves the slideshow on.
#[derive(Debug, PartialEq, Eq)]
pub struct Advance {
    /// The monitor to advance; `None` advances the whole rotation.
    pub monitor: Option<crate::helpers::WideString>,
    /// The direction to move in.
    pub direction: Direction,
}

/// The call that advances the slideshow: always the whole rotation, and
/// always forward.
pub fn advance_slideshow() -> (call: Advance)
    ensures
        call.monitor is None,
        call.direction == Direction::Forward,
{
    Advance { monitor: None, direction: Direction::Forward }
}

/// What the `slideshow` command asks for.
#[derive(Debug, PartialEq, Eq)]
pub enum SlideshowRequest {
    /// The desktop runs no slideshow: report that, and do nothing else.
    NotSlideshow,
    /// Make this call to move the slideshow on.
    Advance(Advance),
    /// Read the options and show the details.
    Details,
}

/// The keyword that asks to move the slideshow on.
pub open spec fn advance_keyword() -> Seq<char> {
    "advance"@
}

/// Whether the arguments ask to move the slideshow on.
pub open spec fn asks_advance(args: Seq<String>) -> bool {
    args.len() > 1 && args[1]@ == advance_keyword()
}

/// Decides the `slideshow` command from the provider-reported `state` and
/// the arguments, of which the first is the command's own name. Outside a
/// running slideshow nothing is advanced or shown.
pub fn slideshow(state: i32, args: &[String]) -> (request: SlideshowRequest)
    ensures
        !slideshow_enabled(state as int) ==> request is NotSlideshow,
        slideshow_enabled(state as int) && asks_advance(args@) ==> (request matches SlideshowRequest::Advance(
            call,
        ) && call.monitor is None && call.direction == Direction::Forward),
        slideshow_enabled(state as int) && !asks_advance(args@) ==> request is Details,
{
    if is_slideshow(state) {
        if args.len() > 1 && text_eq(args[1].as_str(), "advance") {
            SlideshowRequest::Advance(advance_slideshow())
        } else {
            SlideshowRequest::Details
        }
    } else {
        SlideshowRequest::NotSlideshow
    }
}

/// What the file system says of a wallpaper path.
#[derive(Debug, PartialEq, Eq)]
pub struct PathProbe {
    /// Whether the path exists.
    pub exists: bool,
    /// Whether the path names a regular file.
    pub is_file: bool,
    /// The path without its last component, where it has one.
    pub parent: Option<String>,
    /// Whether the parent is a directory.
    pub parent_is_dir: bool,
}

/// The directory of a slideshow, derived from a monitor's wallpaper and
/// the probe of its path: the parent of the wallpaper, where the wallpaper
/// decodes, exists and is a file, and the parent is a directory.
pub open spec fn slideshow_directory(monitor: Monitor, probe: PathProbe) -> Option<Seq<char>> {
    if monitor.wallpaper.text() is Some && probe.exists && probe.is_file && probe.parent_is_dir {
        text_of(probe.parent)
    } else {
        None
    }
}

/// Derives the slideshow directory from `monitor`, given the probe of its
/// wallpaper path.
pub fn get_slideshow_directory(monitor: &Monitor, probe: &PathProbe) -> (directory: Option<String>)
    ensures
        text_of(directory) == slideshow_directory(*monitor, *probe),
{
    match monitor.wallpaper_to_pathbuf() {
        Some(_) => {
            if probe.exists && probe.is_file && probe.parent_is_dir {
                match &probe.parent {
                    Some(parent) => Some(parent.clone()),
                    None => None,
                }
            } else {
                None
            }
        },
        None => None,
    }
}

/// The details of a running slideshow.
#[derive(Debug, PartialEq, Eq)]
pub struct SlideshowDetails {
    /// Whether images come in shuffled order.
    pub shuffle: bool,
    /// The time between two images, in milliseconds.
    pub interval_ticks: u32,
    /// The directory of the images, or the reason why there is none to show.
    pub directory: Result<String, String>,
}

/// The text shown where the slideshow directory cannot be derived.
pub open spec fn directory_failure(monitor: Monitor) -> Seq<char> {
    "failed to get slideshow directory for '"@ + monitor.id_text() + "'"@
}

/// Gathers the details of the slideshow from the provider's options and
/// tick count, the first monitor of the snapshot and the probe of that
/// monitor's wallpaper path.
pub fn show_slideshow_details(
    options: i32,
    tick: u32,
    monitors: &[Monitor],
    probe: &PathProbe,
) -> (details: SlideshowDetails)
    requires
        monitors@.len() > 0,
    ensures
        details.shuffle == (options == DSO_SHUFFLEIMAGES),
        details.interval_ticks == tick,
        match slideshow_directory(monitors@[0], *probe) {
            Some(directory) => details.directory matches Ok(shown) && shown@ == directory,
            None => details.directory matches Err(reason) && reason@ == directory_failure(
                monitors@[0],
            ),
        },
{
    let first = &monitors[0];
    let directory = match get_slideshow_directory(first, probe) {
        Some(directory) => Ok(directory),
        None => {
            let id = first.monitor_id_to_string();
            let mut reason = String::from_str("failed to get slideshow directory for '");
            reason.append(id.as_str());
            reason.append("'");
            Err(reason)
        },
    };
    SlideshowDetails { shuffle: is_slideshow_shuffle(options), interval_ticks: tick, directory }
}

} // verus!
