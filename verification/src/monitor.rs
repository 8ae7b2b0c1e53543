//! Monitors and the enumeration that builds the snapshot of them.
//!
//! The snapshot is built once per run from the provider's answers. The
//! enumeration is written as a sequence of steps: each step says what to ask
//! the provider next, and takes the answer to get to the following step.

use crate::helpers::{text_of, WideString};
use vstd::prelude::*;

verus! {

/// A failed provider call, with the provider's result code.
#[derive(Clone, Copy, Debug, PartialEq, Eq, Structural)]
pub struct ProviderError {
    pub code: i32,
}

/// One display output known to the provider, as it was at enumeration time.
#[derive(Debug, PartialEq, Eq)]
pub struct Monitor {
    /// Position in the snapshot, counted from zero.
    pub index: usize,
    /// The device path by which the provider addresses the monitor.
    pub monitor_id: WideString,
    /// The path of the current wallpaper.
    pub wallpaper: WideString,
    /// Whether the monitor has a display rectangle.
    pub is_attached: bool,
}

/// The text shown in place of a monitor id that does not decode.
pub open spec fn undecodable_id_text() -> Seq<char> {
    "failed: invalid utf-16: lone surrogate found"@
}

impl Monitor {
    /// The monitor id as text, or the failure text where it does not decode.
    pub open spec fn id_text(&self) -> Seq<char> {
        match self.monitor_id.text() {
            Some(text) => text,
            None => undecodable_id_text(),
        }
    }

    /// The monitor id for display.
    pub fn monitor_id_to_string(&self) -> (id: String)
        ensures
            id@ == self.id_text(),
    {
        match self.monitor_id.to_text() {
            Some(id) => id,
            None => String::from_str("failed: invalid utf-16: lone surrogate found"),
        }
    }

    /// The wallpaper path as text; `None` where it does not decode.
    pub fn wallpaper_to_pathbuf(&self) -> (path: Option<String>)
        ensures
            text_of(path) == self.wallpaper.text(),
    {
        self.wallpaper.to_text()
    }
}

/// A snapshot in which every monitor stands at the position its index names.
pub open spec fn contiguous(monitors: Seq<Monitor>) -> bool {
    forall|i: int| 0 <= i < monitors.len() ==> (#[trigger] monitors[i]).index == i
}

/// Some monitor of the snapshot has the index `k`.
pub open spec fn index_occurs(monitors: Seq<Monitor>, k: int) -> bool {
    exists|i: int| 0 <= i < monitors.len() && (#[trigger] monitors[i]).index == k
}

/// In a contiguous snapshot of `n` monitors the indices are exactly
/// `0..n`: each is below `n`, none occurs twice and none is missing.
pub proof fn lemma_contiguous_indices(monitors: Seq<Monitor>)
    requires
        contiguous(monitors),
    ensures
        forall|i: int| 0 <= i < monitors.len() ==> (#[trigger] monitors[i]).index < monitors.len(),
        forall|i: int, j: int|
            0 <= i < monitors.len() && 0 <= j < monitors.len() && i != j ==> (
            #[trigger] monitors[i]).index != (#[trigger] monitors[j]).index,
        forall|k: int| 0 <= k < monitors.len() ==> #[trigger] index_occurs(monitors, k),
{
    assert forall|k: int| 0 <= k < monitors.len() implies #[trigger] index_occurs(monitors, k) by {
        assert(monitors[k].index == k);
    }
}

/// The display rectangle of an attached monitor.
#[derive(Clone, Copy, Debug, PartialEq, Eq, Structural)]
pub struct MonitorRect {
    pub left: i32,
    pub top: i32,
    pub right: i32,
    pub bottom: i32,
}

/// Enumeration waits for the device path of the next monitor.
#[derive(Debug, PartialEq, Eq)]
pub struct AwaitId {
    count: u32,
    monitors: Vec<Monitor>,
}

/// Enumeration waits for the wallpaper of the monitor whose id it holds.
#[derive(Debug, PartialEq, Eq)]
pub struct AwaitWallpaper {
    count: u32,
    monitors: Vec<Monitor>,
    monitor_id: WideString,
}

/// Enumeration waits for the display rectangle of the monitor whose id and
/// wallpaper it holds.
#[derive(Debug, PartialEq, Eq)]
pub struct AwaitRect {
    count: u32,
    monitors: Vec<Monitor>,
    monitor_id: WideString,
    wallpaper: WideString,
}

/// Where an enumeration stands: what to ask the provider next, or how it
/// ended.
#[derive(Debug, PartialEq, Eq)]
pub enum Enumeration {
    /// Ask for the device path at the index the step names.
    NeedId(AwaitId),
    /// Ask for the wallpaper of the monitor the step names.
    NeedWallpaper(AwaitWallpaper),
    /// Ask for the display rectangle of the monitor the step names.
    NeedRect(AwaitRect),
    /// Every monitor was read: the complete snapshot.
    Done(Vec<Monitor>),
    /// A provider call failed: there is no snapshot.
    Failed(ProviderError),
}

/// The monitor that an enumeration adds once id, wallpaper and rectangle
/// answer are in: a failed rectangle call means that it is not attached.
pub open spec fn enumerated_monitor(
    index: nat,
    monitor_id: WideString,
    wallpaper: WideString,
    rect: Result<MonitorRect, ProviderError>,
) -> Monitor {
    Monitor { index: index as usize, monitor_id, wallpaper, is_attached: rect is Ok }
}

/// Starts an enumeration from the provider's answer to the monitor count.
/// A failed count ends it; with no monitors the snapshot is empty.
pub fn get_monitors(count: Result<u32, ProviderError>) -> (step: Enumeration)
    ensures
        match count {
            Err(e) => step == Enumeration::Failed(e),
            Ok(n) => if n == 0 {
                step matches Enumeration::Done(monitors) && monitors@.len() == 0
            } else {
                step matches Enumeration::NeedId(next) && next.count() == n && next.monitors().len()
                    == 0
            },
        },
{
    match count {
        Err(e) => Enumeration::Failed(e),
        Ok(n) => {
            let monitors: Vec<Monitor> = Vec::new();
            if n == 0 {
                Enumeration::Done(monitors)
            } else {
                Enumeration::NeedId(AwaitId { count: n, monitors })
            }
        },
    }
}

impl AwaitId {
    #[verifier::type_invariant]
    spec fn inv(self) -> bool {
        self.monitors@.len() < self.count && contiguous(self.monitors@)
    }

    /// Number of monitors that the provider announced.
    pub closed spec fn count(self) -> nat {
        self.count as nat
    }

    /// The monitors read so far.
    pub closed spec fn monitors(self) -> Seq<Monitor> {
        self.monitors@
    }

    /// The index to ask the device path for: the next position in the
    /// snapshot.
    pub fn index(&self) -> (index: u32)
        ensures
            index == self.monitors().len(),
            index < self.count(),
    {
        proof {
            use_type_invariant(self);
        }
        self.monitors.len() as u32
    }

    /// Takes the provider's answer. A failure ends the enumeration.
    pub fn answer(self, reply: Result<WideString, ProviderError>) -> (step: Enumeration)
        ensures
            match reply {
                Err(e) => step == Enumeration::Failed(e),
                Ok(id) => step matches Enumeration::NeedWallpaper(next) && next.count()
                    == self.count() && next.monitors() == self.monitors() && next.monitor_id()
                    == id,
            },
    {
        proof {
            use_type_invariant(&self);
        }
        match reply {
            Err(e) => Enumeration::Failed(e),
            Ok(monitor_id) => Enumeration::NeedWallpaper(
                AwaitWallpaper { count: self.count, monitors: self.monitors, monitor_id },
            ),
        }
    }
}

impl AwaitWallpaper {
    #[verifier::type_invariant]
    spec fn inv(self) -> bool {
        self.monitors@.len() < self.count && contiguous(self.monitors@)
    }

    /// Number of monitors that the provider announced.
    pub closed spec fn count(self) -> nat {
        self.count as nat
    }

    /// The monitors read so far.
    pub closed spec fn monitors(self) -> Seq<Monitor> {
        self.monitors@
    }

    /// The device path of the monitor being read.
    pub closed spec fn monitor_id(self) -> WideString {
        self.monitor_id
    }

    /// The device path to ask the wallpaper for.
    pub fn id(&self) -> (id: &WideString)
        ensures
            *id == self.monitor_id(),
    {
        &self.monitor_id
    }

    /// Takes the provider's answer. A failure ends the enumeration.
    pub fn answer(self, reply: Result<WideString, ProviderError>) -> (step: Enumeration)
        ensures
            match reply {
                Err(e) => step == Enumeration::Failed(e),
                Ok(wallpaper) => step matches Enumeration::NeedRect(next) && next.count()
                    == self.count() && next.monitors() == self.monitors() && next.monitor_id()
                    == self.monitor_id() && next.wallpaper() == wallpaper,
            },
    {
        proof {
            use_type_invariant(&self);
        }
        match reply {
            Err(e) => Enumeration::Failed(e),
            Ok(wallpaper) => Enumeration::NeedRect(
                AwaitRect {
                    count: self.count,
                    monitors: self.monitors,
                    monitor_id: self.monitor_id,
                    wallpaper,
                },
            ),
        }
    }
}

impl AwaitRect {
    #[verifier::type_invariant]
    spec fn inv(self) -> bool {
        self.monitors@.len() < self.count && contiguous(self.monitors@)
    }

    /// Number of monitors that the provider announced.
    pub closed spec fn count(self) -> nat {
        self.count as nat
    }

    /// The monitors read so far.
    pub closed spec fn monitors(self) -> Seq<Monitor> {
        self.monitors@
    }

    /// The device path of the monitor being read.
    pub closed spec fn monitor_id(self) -> WideString {
        self.monitor_id
    }

    /// The wallpaper of the monitor being read.
    pub closed spec fn wallpaper(self) -> WideString {
        self.wallpaper
    }

    /// The snapshot once the monitor being read is added with the given
    /// rectangle answer.
    pub open spec fn extended(self, rect: Result<MonitorRect, ProviderError>) -> Seq<Monitor> {
        self.monitors().push(
            enumerated_monitor(self.monitors().len(), self.monitor_id(), self.wallpaper(), rect),
        )
    }

    /// The device path to ask the display rectangle for.
    pub fn id(&self) -> (id: &WideString)
        ensures
            *id == self.monitor_id(),
    {
        &self.monitor_id
    }

    /// Takes the provider's answer and adds the monitor to the snapshot. A
    /// failure is no error here: it marks the monitor as not attached. After
    /// the last monitor the enumeration is done.
    pub fn answer(self, rect: Result<MonitorRect, ProviderError>) -> (step: Enumeration)
        ensures
            if self.extended(rect).len() == self.count() {
                step matches Enumeration::Done(monitors) && monitors@ == self.extended(rect)
            } else {
                step matches Enumeration::NeedId(next) && next.count() == self.count()
                    && next.monitors() == self.extended(rect)
            },
            contiguous(self.extended(rect)),
    {
        proof {
            use_type_invariant(&self);
        }
        let is_attached = rect.is_ok();
        let mut monitors = self.monitors;
        let index = monitors.len();
        monitors.push(
            Monitor { index, monitor_id: self.monitor_id, wallpaper: self.wallpaper, is_attached },
        );
        if monitors.len() == self.count as usize {
            Enumeration::Done(monitors)
        } else {
            Enumeration::NeedId(AwaitId { count: self.count, monitors })
        }
    }
}

} // verus!
