//! The `ls` command: which monitors of the snapshot to show.

use crate::command::{index_value, parse_index, text_eq};
use crate::error::ErrorKind;
use crate::monitor::Monitor;
use vstd::prelude::*;

verus! {

/// What `ls` asks to be shown.
#[derive(Debug, PartialEq, Eq)]
pub enum Listing<'a> {
    /// These monitors, in this order.
    Monitors(Vec<&'a Monitor>),
    /// A message that no monitor stands at this index, and nothing else.
    NoMonitor(usize),
    /// The usage text: the arguments are no `ls` command.
    Usage,
}

/// A listing as mathematical values.
pub enum ListingView {
    Monitors(Seq<Monitor>),
    NoMonitor(nat),
    Usage,
}

impl<'a> View for Listing<'a> {
    type V = ListingView;

    open spec fn view(&self) -> ListingView {
        match *self {
            Listing::Monitors(shown) => ListingView::Monitors(
                shown@.map_values(|m: &Monitor| *m),
            ),
            Listing::NoMonitor(index) => ListingView::NoMonitor(index as nat),
            Listing::Usage => ListingView::Usage,
        }
    }
}

impl<'a> Listing<'a> {
    /// The failure that the listing reports, where it reports one.
    pub fn error(&self) -> (kind: Option<ErrorKind>)
        ensures
            kind == match self@ {
                ListingView::Monitors(_) => None,
                ListingView::NoMonitor(_) => Some(ErrorKind::NotFound),
                ListingView::Usage => Some(ErrorKind::Usage),
            },
    {
        match self {
            Listing::Monitors(_) => None,
            Listing::NoMonitor(_) => Some(ErrorKind::NotFound),
            Listing::Usage => Some(ErrorKind::Usage),
        }
    }
}

/// The attached monitors of a snapshot, in snapshot order.
pub open spec fn attached(monitors: Seq<Monitor>) -> Seq<Monitor> {
    monitors.filter(|m: Monitor| m.is_attached)
}

/// The keyword that asks for every monitor.
pub open spec fn all_keyword() -> Seq<char> {
    "all"@
}

/// The rule of `ls`. `args` starts with the command's own name.
///
/// Without a further token the attached monitors are listed. A token that
/// names an index selects the monitor at it, or reports that there is none;
/// only a token that names no index is compared with the keyword `all`.
pub open spec fn ls_spec(monitors: Seq<Monitor>, args: Seq<String>) -> ListingView {
    if args.len() == 0 {
        ListingView::Usage
    } else if args.len() == 1 {
        ListingView::Monitors(attached(monitors))
    } else {
        match index_value(args[1]@) {
            Some(index) => if index < monitors.len() {
                ListingView::Monitors(seq![monitors[index as int]])
            } else {
                ListingView::NoMonitor(index)
            },
            None => if args[1]@ == all_keyword() {
                ListingView::Monitors(monitors)
            } else {
                ListingView::Usage
            },
        }
    }
}

/// What is shown of one monitor.
#[derive(Debug, PartialEq, Eq)]
pub struct MonitorReport {
    /// The monitor's position in the snapshot.
    pub index: usize,
    /// The monitor id as text.
    pub id: String,
    /// The wallpaper path, or the failure text where there is none to show.
    pub wallpaper: String,
    /// Whether the monitor is attached; shown only of a monitor that is not.
    pub is_attached: bool,
}

/// The text shown as the wallpaper of a monitor: its path, or a failure
/// text that names the monitor where the path does not decode.
pub open spec fn wallpaper_label(monitor: Monitor) -> Seq<char> {
    match monitor.wallpaper.text() {
        Some(path) => path,
        None => "failed to get wallpaper path for '"@ + monitor.id_text() + "'"@,
    }
}

/// Gathers what is shown of `monitor`.
pub fn describe_monitor(monitor: &Monitor) -> (report: MonitorReport)
    ensures
        report.index == monitor.index,
        report.id@ == monitor.id_text(),
        report.wallpaper@ == wallpaper_label(*monitor),
        report.is_attached == monitor.is_attached,
{
    let id = monitor.monitor_id_to_string();
    let wallpaper = match monitor.wallpaper_to_pathbuf() {
        Some(path) => path,
        None => {
            let mut text = String::from_str("failed to get wallpaper path for '");
            text.append(id.as_str());
            text.append("'");
            text
        },
    };
    MonitorReport { index: monitor.index, id, wallpaper, is_attached: monitor.is_attached }
}

/// The keyword `all` names no index.
pub proof fn lemma_all_is_no_index()
    ensures
        index_value(all_keyword()) is None,
{
    reveal_strlit("all");
    let token = all_keyword();
    assert(token.len() == 3);
    assert(token[0] == 'a');
    assert(!crate::command::is_digit(token[0]));
}

/// `ls` without a further token shows attached monitors only.
pub proof fn lemma_ls_shows_attached_only(monitors: Seq<Monitor>, args: Seq<String>)
    requires
        args.len() == 1,
    ensures
        ls_spec(monitors, args) == ListingView::Monitors(attached(monitors)),
        forall|i: int|
            0 <= i < attached(monitors).len() ==> (#[trigger] attached(monitors)[i]).is_attached,
{
    let pred = |m: Monitor| m.is_attached;
    assert forall|i: int| 0 <= i < attached(monitors).len() implies (#[trigger] attached(
        monitors,
    )[i]).is_attached by {
        monitors.lemma_filter_pred(pred, i);
    }
}

/// `ls all` shows the whole snapshot: every monitor that `ls` alone shows,
/// and every monitor that is not attached.
pub proof fn lemma_ls_all_includes_ls(monitors: Seq<Monitor>, plain: Seq<String>, all: Seq<String>)
    requires
        plain.len() == 1,
        all.len() >= 2,
        all[1]@ == all_keyword(),
    ensures
        ls_spec(monitors, all) == ListingView::Monitors(monitors),
        ls_spec(monitors, plain) == ListingView::Monitors(attached(monitors)),
        forall|m: Monitor| #[trigger] attached(monitors).contains(m) ==> monitors.contains(m),
        forall|i: int|
            0 <= i < monitors.len() && !monitors[i].is_attached ==> monitors.contains(
                #[trigger] monitors[i],
            ),
{
    lemma_all_is_no_index();
    let pred = |m: Monitor| m.is_attached;
    assert forall|m: Monitor| #[trigger] attached(monitors).contains(m) implies monitors.contains(
        m,
    ) by {
        monitors.lemma_filter_contains_rev(pred, m);
    }
}

/// `ls` with an index at or beyond the end of the snapshot reports that no
/// monitor stands there, and shows no monitor.
pub proof fn lemma_ls_index_out_of_range(monitors: Seq<Monitor>, args: Seq<String>, index: nat)
    requires
        args.len() >= 2,
        index_value(args[1]@) == Some(index),
        index >= monitors.len(),
    ensures
        ls_spec(monitors, args) == ListingView::NoMonitor(index),
{
}

/// References to the attached monitors, in snapshot order.
fn attached_monitors<'a>(monitors: &'a [Monitor]) -> (shown: Vec<&'a Monitor>)
    ensures
        shown@.map_values(|m: &Monitor| *m) == attached(monitors@),
{
    let mut shown: Vec<&Monitor> = Vec::new();
    let mut i: usize = 0;
    proof {
        reveal(Seq::filter);
        assert(shown@.map_values(|m: &Monitor| *m) =~= attached(monitors@.take(0)));
    }
    while i < monitors.len()
        invariant
            i <= monitors.len(),
            shown@.map_values(|m: &Monitor| *m) == attached(monitors@.take(i as int)),
        decreases monitors.len() - i,
    {
        let ghost before = shown@.map_values(|m: &Monitor| *m);
        proof {
            reveal(Seq::filter);
            assert(monitors@.take(i + 1).drop_last() =~= monitors@.take(i as int));
        }
        if monitors[i].is_attached {
            shown.push(&monitors[i]);
            assert(shown@.map_values(|m: &Monitor| *m) =~= before.push(monitors@[i as int]));
        }
        i += 1;
    }
    assert(monitors@.take(monitors.len() as int) =~= monitors@);
    shown
}

/// References to all monitors, in snapshot order.
fn all_monitors<'a>(monitors: &'a [Monitor]) -> (shown: Vec<&'a Monitor>)
    ensures
        shown@.map_values(|m: &Monitor| *m) == monitors@,
{
    let mut shown: Vec<&Monitor> = Vec::new();
    let mut i: usize = 0;
    assert(shown@.map_values(|m: &Monitor| *m) =~= monitors@.take(0));
    while i < monitors.len()
        invariant
            i <= monitors.len(),
            shown@.map_values(|m: &Monitor| *m) == monitors@.take(i as int),
        decreases monitors.len() - i,
    {
        let ghost before = shown@.map_values(|m: &Monitor| *m);
        shown.push(&monitors[i]);
        proof {
            assert(shown@.map_values(|m: &Monitor| *m) =~= before.push(monitors@[i as int]));
            assert(monitors@.take(i + 1) =~= monitors@.take(i as int).push(monitors@[i as int]));
        }
        i += 1;
    }
    assert(monitors@.take(monitors.len() as int) =~= monitors@);
    shown
}

/// Decides what `ls` shows for the snapshot `monitors` and the arguments
/// `args`, of which the first is the command's own name.
pub fn ls<'a>(monitors: &'a [Monitor], args: &[String]) -> (listing: Listing<'a>)
    ensures
        listing@ == ls_spec(monitors@, args@),
{
    if args.len() == 0 {
        Listing::Usage
    } else if args.len() == 1 {
        Listing::Monitors(attached_monitors(monitors))
    } else {
        match parse_index(args[1].as_str()) {
            Some(index) => {
                if index < monitors.len() {
                    let mut shown: Vec<&Monitor> = Vec::new();
                    shown.push(&monitors[index]);
                    assert(shown@.map_values(|m: &Monitor| *m) =~= seq![monitors@[index as int]]);
                    Listing::Monitors(shown)
                } else {
                    Listing::NoMonitor(index)
                }
            },
            None => {
                if text_eq(args[1].as_str(), "all") {
                    Listing::Monitors(all_monitors(monitors))
                } else {
                    Listing::Usage
                }
            },
        }
    }
}

} // verus!
