//! The `set` command: which wallpaper to bind to which monitor, and the
//! choice of a random image from a directory.

use crate::command::{index_value, parse_index, text_eq};
use crate::error::ErrorKind;
use crate::helpers::{
    lemma_terminated_text, lemma_wide_round_trip, nul_free, terminated, text_of, utf16_decode,
    wide_text, IntoPCWSTR, WideString,
};
use crate::monitor::Monitor;
use rand::Rng;
use vstd::prelude::*;

verus! {

/// One entry of a directory listing, as the file system reported it.
#[derive(Debug, PartialEq, Eq)]
pub struct DirEntry {
    /// The entry's path.
    pub path: String,
    /// Whether the entry is a regular file.
    pub is_file: bool,
    /// The extension of the file name, without the dot, where it has one.
    pub extension: Option<String>,
}

/// The extensions of image files, compared with regard to case.
pub open spec fn valid_extension(extension: Option<Seq<char>>) -> bool {
    match extension {
        Some(e) => e == "jpg"@ || e == "jpeg"@ || e == "png"@,
        None => false,
    }
}

/// The view of an optional text.
pub open spec fn str_of(text: Option<&str>) -> Option<Seq<char>> {
    match text {
        Some(s) => Some(s@),
        None => None,
    }
}

/// Whether a file with this extension counts as an image.
pub fn is_valid_extension(extension: Option<&str>) -> (valid: bool)
    ensures
        valid == valid_extension(str_of(extension)),
{
    match extension {
        Some(e) => text_eq(e, "jpg") || text_eq(e, "jpeg") || text_eq(e, "png"),
        None => false,
    }
}

/// An entry that a random choice may fall on: a regular file with an image
/// extension.
pub open spec fn eligible(entry: DirEntry) -> bool {
    entry.is_file && valid_extension(text_of(entry.extension))
}

/// The eligible entries of a listing, in listing order.
pub open spec fn eligible_entries(entries: Seq<DirEntry>) -> Seq<DirEntry> {
    entries.filter(|e: DirEntry| eligible(e))
}

/// Every entry among the eligible ones is eligible and comes from the
/// listing.
pub proof fn lemma_eligible_entries(entries: Seq<DirEntry>)
    ensures
        eligible_entries(entries).len() <= entries.len(),
        forall|i: int|
            0 <= i < eligible_entries(entries).len() ==> eligible(
                #[trigger] eligible_entries(entries)[i],
            ) && entries.contains(eligible_entries(entries)[i]),
{
    let pred = |e: DirEntry| eligible(e);
    entries.lemma_filter_len(pred);
    assert forall|i: int| 0 <= i < eligible_entries(entries).len() implies eligible(
        #[trigger] eligible_entries(entries)[i],
    ) && entries.contains(eligible_entries(entries)[i]) by {
        entries.lemma_filter_pred(pred, i);
        assert(eligible_entries(entries).contains(eligible_entries(entries)[i]));
        entries.lemma_filter_contains_rev(pred, eligible_entries(entries)[i]);
    }
}

/// Whether `entry` is eligible.
pub fn is_eligible(entry: &DirEntry) -> (yes: bool)
    ensures
        yes == eligible(*entry),
{
    entry.is_file && match &entry.extension {
        Some(e) => is_valid_extension(Some(e.as_str())),
        None => false,
    }
}

/// References to the eligible entries, in listing order.
pub fn eligible_images<'a>(entries: &'a [DirEntry]) -> (files: Vec<&'a DirEntry>)
    ensures
        files@.map_values(|e: &DirEntry| *e) == eligible_entries(entries@),
{
    let mut files: Vec<&DirEntry> = Vec::new();
    let mut i: usize = 0;
    proof {
        reveal(Seq::filter);
        assert(files@.map_values(|e: &DirEntry| *e) =~= eligible_entries(entries@.take(0)));
    }
    while i < entries.len()
        invariant
            i <= entries.len(),
            files@.map_values(|e: &DirEntry| *e) == eligible_entries(entries@.take(i as int)),
        decreases entries.len() - i,
    {
        let ghost before = files@.map_values(|e: &DirEntry| *e);
        proof {
            reveal(Seq::filter);
            assert(entries@.take(i + 1).drop_last() =~= entries@.take(i as int));
        }
        if is_eligible(&entries[i]) {
            files.push(&entries[i]);
            assert(files@.map_values(|e: &DirEntry| *e) =~= before.push(entries@[i as int]));
        }
        i += 1;
    }
    assert(entries@.take(entries.len() as int) =~= entries@);
    files
}

/// How many of `count` candidates a random choice can fall on. Of two or
/// more candidates the last is never chosen; a single candidate always is.
pub open spec fn choice_bound(count: nat) -> nat {
    if count >= 2 {
        (count - 1) as nat
    } else {
        count
    }
}

/// `rand::thread_rng().gen_range(0..bound)`: some index below `bound`.
/// Which one is left open. An empty range is excluded, since the call
/// panics on it.
#[verifier::external_body]
fn random_below(bound: usize) -> (roll: usize)
    requires
        bound > 0,
    ensures
        roll < bound,
{
    rand::thread_rng().gen_range(0..bound)
}

/// The candidate that a roll selects: none of no candidates, the only one
/// of one, and otherwise the one at the position rolled.
pub fn choose_image<'a>(files: &Vec<&'a DirEntry>, roll: usize) -> (choice: Option<&'a DirEntry>)
    requires
        files.len() >= 2 ==> roll < files.len() - 1,
    ensures
        files.len() == 0 ==> choice is None,
        files.len() == 1 ==> choice == Some(files[0]),
        files.len() >= 2 ==> choice == Some(files[roll as int]),
{
    if files.len() == 0 {
        None
    } else if files.len() == 1 {
        Some(files[0])
    } else {
        Some(files[roll])
    }
}

/// Picks an image at random from a directory listing: `None` exactly where
/// no entry is eligible, and otherwise the path of an eligible entry at a
/// position below the choice bound.
pub fn get_random_image(entries: &[DirEntry]) -> (image: Option<String>)
    ensures
        match image {
            None => eligible_entries(entries@).len() == 0,
            Some(path) => exists|i: int|
                0 <= i < choice_bound(eligible_entries(entries@).len()) && (
                #[trigger] eligible_entries(entries@)[i]).path@ == path@,
        },
{
    let files = eligible_images(entries);
    let ghost shown = files@.map_values(|e: &DirEntry| *e);
    let roll = if files.len() >= 2 {
        random_below(files.len() - 1)
    } else {
        0
    };
    match choose_image(&files, roll) {
        None => None,
        Some(entry) => {
            let ghost at: int = if files.len() == 1 {
                0
            } else {
                roll as int
            };
            assert(shown[at] == *entry);
            Some(entry.path.clone())
        },
    }
}

/// What the `set` command asks for, once its arguments are read.
#[derive(Debug, PartialEq, Eq)]
pub enum SetRequest {
    /// The arguments are no `set` command: show the usage text.
    Usage,
    /// Bind the file at `path` to the monitor at `monitor`, once the file
    /// is known to exist.
    File { monitor: usize, path: String },
    /// Bind a random image of `directory` to the monitor at `monitor`.
    Random { monitor: usize, directory: String },
}

/// A request as mathematical values.
pub enum SetRequestView {
    Usage,
    File { monitor: nat, path: Seq<char> },
    Random { monitor: nat, directory: Seq<char> },
}

impl View for SetRequest {
    type V = SetRequestView;

    open spec fn view(&self) -> SetRequestView {
        match *self {
            SetRequest::Usage => SetRequestView::Usage,
            SetRequest::File { monitor, path } => SetRequestView::File {
                monitor: monitor as nat,
                path: path@,
            },
            SetRequest::Random { monitor, directory } => SetRequestView::Random {
                monitor: monitor as nat,
                directory: directory@,
            },
        }
    }
}

/// The keyword that asks for a random image.
pub open spec fn random_keyword() -> Seq<char> {
    "random"@
}

/// The rule of `set`, for a snapshot of `count` monitors. `args` starts
/// with the command's own name.
///
/// The token after it must name an index within the snapshot, and a path
/// must follow; after the keyword `random` a directory must follow. Every
/// other form is a usage error.
pub open spec fn set_spec(count: nat, args: Seq<String>) -> SetRequestView {
    if args.len() < 3 {
        SetRequestView::Usage
    } else {
        match index_value(args[1]@) {
            None => SetRequestView::Usage,
            Some(monitor) => if monitor >= count {
                SetRequestView::Usage
            } else if args[2]@ == random_keyword() {
                if args.len() < 4 {
                    SetRequestView::Usage
                } else {
                    SetRequestView::Random { monitor, directory: args[3]@ }
                }
            } else {
                SetRequestView::File { monitor, path: args[2]@ }
            },
        }
    }
}

/// Reads the arguments of `set` against the snapshot `monitors`.
pub fn set(monitors: &[Monitor], args: &[String]) -> (request: SetRequest)
    ensures
        request@ == set_spec(monitors@.len(), args@),
{
    if args.len() < 3 {
        return SetRequest::Usage;
    }
    match parse_index(args[1].as_str()) {
        None => SetRequest::Usage,
        Some(monitor) => {
            if monitor >= monitors.len() {
                SetRequest::Usage
            } else if text_eq(args[2].as_str(), "random") {
                if args.len() < 4 {
                    SetRequest::Usage
                } else {
                    SetRequest::Random { monitor, directory: args[3].clone() }
                }
            } else {
                SetRequest::File { monitor, path: args[2].clone() }
            }
        },
    }
}

/// The provider call that binds a wallpaper to a monitor. Both strings end
/// with a NUL.
#[derive(Debug, PartialEq, Eq)]
pub struct Mutation {
    /// The device path of the monitor.
    pub monitor_id: WideString,
    /// The path of the image.
    pub wallpaper: WideString,
}

/// Why a `set` command binds nothing.
#[derive(Clone, Copy, Debug, PartialEq, Eq, Structural)]
pub enum SetFailure {
    /// The path names no regular file: "file does not exist".
    FileMissing,
    /// The directory holds no eligible image: "failed to set wallpaper".
    NoImage,
}

impl SetFailure {
    /// Both failures are of the not-found kind.
    pub fn kind(self) -> (kind: ErrorKind)
        ensures
            kind == ErrorKind::NotFound,
    {
        ErrorKind::NotFound
    }
}

/// The call that binds `path` to `monitor`.
pub open spec fn mutation_for(monitor: Monitor, path: Seq<char>, mutation: Mutation) -> bool {
    &&& mutation.monitor_id@ == wide_text(monitor.monitor_id@) + seq![0u16]
    &&& mutation.wallpaper@ == terminated(path)
}

/// The call that binds a path to a monitor names that monitor: the text of
/// its first string is the text of the monitor's id.
pub proof fn lemma_mutation_targets_monitor(monitor: Monitor, path: Seq<char>, mutation: Mutation)
    requires
        mutation_for(monitor, path, mutation),
    ensures
        wide_text(mutation.monitor_id@) == wide_text(monitor.monitor_id@),
{
    lemma_terminated_text(monitor.monitor_id@);
}

/// The path that a call binds reads back as text. Where the provider hands
/// out, as a monitor's wallpaper, a string with the text that the call gave
/// it, a monitor enumerated with that string has `path` as its wallpaper.
/// This holds of a path without NUL characters.
pub proof fn lemma_applied_wallpaper_reads_back(
    monitor: Monitor,
    path: Seq<char>,
    mutation: Mutation,
    enumerated: Monitor,
)
    requires
        mutation_for(monitor, path, mutation),
        nul_free(path),
        wide_text(enumerated.wallpaper@) == wide_text(mutation.wallpaper@),
    ensures
        utf16_decode(wide_text(mutation.wallpaper@)) == Some(path),
        enumerated.wallpaper.text() == Some(path),
{
    lemma_wide_round_trip(path);
}

/// Makes the call that binds `path` to `monitor`: the monitor's id and the
/// path, each as a terminated wide string.
pub fn set_wallpaper(monitor: &Monitor, path: &str) -> (mutation: Mutation)
    ensures
        mutation_for(*monitor, path@, mutation),
{
    Mutation { monitor_id: monitor.monitor_id.to_terminated(), wallpaper: path.into_pcwstr() }
}

/// Decides a `set` with a path, given whether the path names a regular
/// file: the call to make, or the failure to report.
pub fn set_file(monitor: &Monitor, path: &str, is_regular_file: bool) -> (outcome: Result<
    Mutation,
    SetFailure,
>)
    ensures
        match outcome {
            Ok(mutation) => is_regular_file && mutation_for(*monitor, path@, mutation),
            Err(failure) => !is_regular_file && failure == SetFailure::FileMissing,
        },
{
    if is_regular_file {
        Ok(set_wallpaper(monitor, path))
    } else {
        Err(SetFailure::FileMissing)
    }
}

/// Decides a `set` with a random image, given the listing of the
/// directory. Where no entry is eligible no call is made and the failure is
/// reported; otherwise the call binds an eligible entry's path.
pub fn set_random_wallpaper(monitor: &Monitor, entries: &[DirEntry]) -> (outcome: Result<
    Mutation,
    SetFailure,
>)
    ensures
        match outcome {
            Err(failure) => eligible_entries(entries@).len() == 0 && failure
                == SetFailure::NoImage,
            Ok(mutation) => exists|i: int|
                0 <= i < choice_bound(eligible_entries(entries@).len()) && mutation_for(
                    *monitor,
                    (#[trigger] eligible_entries(entries@)[i]).path@,
                    mutation,
                ),
        },
{
    match get_random_image(entries) {
        None => Err(SetFailure::NoImage),
        Some(path) => {
            let mutation = set_wallpaper(monitor, path.as_str());
            Ok(mutation)
        },
    }
}

} // verus!
