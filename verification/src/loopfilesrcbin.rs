//! The looping file source bin: a `splitmuxsrc` fed the same file again at
//! every fragment start, followed by a `streamsynchronizer`, whose source
//! pads are exposed without a duration so that playback never ends.

use vstd::prelude::*;
use crate::element::{same_name, PadDirection, StateChange};

verus! {

/// The bin, as a value: its `location` property and whether its inner
/// elements exist.
pub struct LoopFileSrcBinView {
    pub location: Seq<char>,
    pub started: bool,
}

/// The settings and state of the looping file source bin.
pub struct LoopFileSrcBin {
    location: String,
    started: bool,
}

impl View for LoopFileSrcBin {
    type V = LoopFileSrcBinView;

    closed spec fn view(&self) -> LoopFileSrcBinView {
        LoopFileSrcBinView { location: self.location@, started: self.started }
    }
}

/// The kind of a message posted inside the bin.
#[derive(Debug, Clone, Copy, PartialEq, Eq, Structural)]
pub enum MessageKind {
    /// A message specific to an element.
    Element,
    /// Any other message.
    Other,
}

/// What to do with a message posted inside the bin.
#[derive(Debug, PartialEq, Eq)]
pub enum MessageAction {
    /// Pass it on to the parent bin.
    Forward,
    /// Queue the file at this location as the next fragment; the message
    /// goes no further.
    Enqueue(String),
    /// Drop it.
    Consume,
}

/// The steps of a state change around the parent's own.
#[derive(Debug, Clone, Copy, PartialEq, Eq, Structural)]
pub struct TransitionPlan {
    /// Create the inner elements before the parent changes state.
    pub start_before: bool,
    /// Remove the inner elements after the parent changed state.
    pub stop_after: bool,
}

/// The kind of a query sent to an exposed pad.
#[derive(Debug, Clone, Copy, PartialEq, Eq, Structural)]
pub enum QueryKind {
    Duration,
    Other,
}

/// The answer of an exposed pad to a query.
#[derive(Debug, Clone, Copy, PartialEq, Eq, Structural)]
pub enum QueryHandling {
    /// Refuse to answer: the looped stream has no duration.
    Refuse,
    /// Answer as a pad does by default.
    Default,
}

/// The parts of a segment event that the exposed pads look at.
#[derive(Debug, Clone, Copy, PartialEq, Eq, Structural)]
pub struct SegmentInfo {
    /// The segment is in time format.
    pub time_format: bool,
    /// Where the segment stops, if it says.
    pub stop: Option<u64>,
    /// How long the segment lasts, if it says.
    pub duration: Option<u64>,
}

/// What the segment probe of an exposed pad does with an event.
#[derive(Debug, Clone, Copy, PartialEq, Eq, Structural)]
pub enum ProbeAction {
    /// Let the event through.
    Pass,
    /// Drop the event and send this segment in its place, with the probe
    /// removed and registered again around the sending.
    Replace(SegmentInfo),
}

/// The name of the message that `splitmuxsrc` posts when it starts a fragment.
pub open spec fn fragment_started() -> Seq<char> {
    "splitmuxsrc-fragment-started"@
}

impl LoopFileSrcBin {
    /// A bin with an empty location, not started.
    pub fn new() -> (b: Self)
        ensures
            b@.location == Seq::<char>::empty(),
            !b@.started,
    {
        LoopFileSrcBin { location: String::new(), started: false }
    }

    /// Sets a property; `location` is the only one.
    pub fn set_property(&mut self, name: &str, value: String)
        requires
            name@ == "location"@,
        ensures
            final(self)@.location == value@,
            final(self)@.started == old(self)@.started,
    {
        self.location = value;
    }

    /// Reads a property; `location` is the only one.
    pub fn property(&self, name: &str) -> (r: String)
        requires
            name@ == "location"@,
        ensures
            r@ == self@.location,
    {
        self.location.clone()
    }

    /// Decides what to do with a message posted inside the bin: an element
    /// message announcing a new fragment queues the file again if the inner
    /// elements exist, and is not passed on; every other message is.
    pub fn handle_message(&self, kind: MessageKind, name: &str) -> (r: MessageAction)
        ensures
            (kind == MessageKind::Element && name@ == fragment_started()) ==> (if self@.started {
                r matches MessageAction::Enqueue(l) && l@ == self@.location
            } else {
                r == MessageAction::Consume
            }),
            !(kind == MessageKind::Element && name@ == fragment_started()) ==> r
                == MessageAction::Forward,
    {
        match kind {
            MessageKind::Other => MessageAction::Forward,
            MessageKind::Element => {
                if !same_name(name, "splitmuxsrc-fragment-started") {
                    MessageAction::Forward
                } else if self.started {
                    MessageAction::Enqueue(self.location.clone())
                } else {
                    MessageAction::Consume
                }
            },
        }
    }

    /// Records that the inner elements were created and added; the answer
    /// is the file to queue as the first fragment.
    pub fn start(&mut self) -> (r: String)
        ensures
            final(self)@.started,
            final(self)@.location == old(self)@.location,
            r@ == old(self)@.location,
    {
        self.started = true;
        self.location.clone()
    }

    /// Records that the inner elements and exposed pads were removed.
    pub fn stop(&mut self)
        ensures
            !final(self)@.started,
            final(self)@.location == old(self)@.location,
    {
        self.started = false;
    }
}

/// The steps of a state change: the inner elements are created when going
/// from null to ready, before the parent changes state, and removed after
/// going from ready to null.
pub fn transition_plan(transition: StateChange) -> (p: TransitionPlan)
    ensures
        p.start_before == (transition == StateChange::NullToReady),
        p.stop_after == (transition == StateChange::ReadyToNull),
{
    TransitionPlan {
        start_before: transition == StateChange::NullToReady,
        stop_after: transition == StateChange::ReadyToNull,
    }
}

/// How an exposed pad answers a query: it refuses duration queries.
pub fn query_handling(kind: QueryKind) -> (h: QueryHandling)
    ensures
        kind == QueryKind::Duration ==> h == QueryHandling::Refuse,
        kind == QueryKind::Other ==> h == QueryHandling::Default,
{
    match kind {
        QueryKind::Duration => QueryHandling::Refuse,
        QueryKind::Other => QueryHandling::Default,
    }
}

/// What the segment probe of an exposed pad does with an event: a probe
/// without an id, an event that is no segment, and a segment in time
/// format pass; any other segment is sent again without stop and duration.
pub fn segment_probe(has_id: bool, segment: Option<SegmentInfo>) -> (a: ProbeAction)
    ensures
        (!has_id || segment is None || segment->0.time_format) ==> a == ProbeAction::Pass,
        (has_id && segment is Some && !segment->0.time_format) ==> a == ProbeAction::Replace(
            SegmentInfo { time_format: segment->0.time_format, stop: None, duration: None },
        ),
{
    if !has_id {
        return ProbeAction::Pass;
    }
    match segment {
        None => ProbeAction::Pass,
        Some(info) => {
            if info.time_format {
                ProbeAction::Pass
            } else {
                ProbeAction::Replace(
                    SegmentInfo { time_format: info.time_format, stop: None, duration: None },
                )
            }
        },
    }
}

/// Whether a new pad of the `streamsynchronizer` is exposed: its sink pads
/// are not, every other pad is.
pub fn exposes_synchronizer_pad(direction: PadDirection) -> (r: bool)
    ensures
        r == (direction != PadDirection::Sink),
{
    direction != PadDirection::Sink
}

} // verus!
