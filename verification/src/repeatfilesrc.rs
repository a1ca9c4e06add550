//! The repeating file source: a bin around a `splitmuxsrc` that is fed the
//! same file again each time it starts playing a fragment.

use vstd::prelude::*;
use crate::element::{opt_view, same_name, StateChange, StateChangeError};

verus! {

/// Whether the inner `splitmuxsrc` exists yet.
#[derive(Debug, Clone, Copy, PartialEq, Eq, Structural)]
pub enum SourceState {
    Initial,
    Running,
}

/// The source, as a value: its `location` property and its state.
pub struct RepeatFileSrcView {
    pub location: Option<Seq<char>>,
    pub state: SourceState,
}

/// The settings and state of the repeating file source.
pub struct RepeatFileSrc {
    location: Option<String>,
    state: SourceState,
}

impl View for RepeatFileSrc {
    type V = RepeatFileSrcView;

    closed spec fn view(&self) -> RepeatFileSrcView {
        RepeatFileSrcView { location: opt_view(self.location), state: self.state }
    }
}

/// The name of the message that `splitmuxsrc` posts when it starts a fragment.
pub open spec fn fragment_started() -> Seq<char> {
    "splitmuxsrc-fragment-started"@
}

impl RepeatFileSrc {
    /// A source without a location, not started.
    pub fn new() -> (s: Self)
        ensures
            s@.location == None::<Seq<char>>,
            s@.state == SourceState::Initial,
    {
        RepeatFileSrc { location: None, state: SourceState::Initial }
    }

    /// Sets the file to read.
    pub fn set_location(&mut self, location: Option<String>)
        ensures
            final(self)@.location == opt_view(location),
            final(self)@.state == old(self)@.state,
    {
        self.location = location;
    }

    /// The file to read.
    pub fn get_location(&self) -> (r: Option<String>)
        ensures
            opt_view(r) == self@.location,
    {
        match &self.location {
            Some(l) => Some(l.clone()),
            None => None,
        }
    }

    /// Sets a property; `location` is the only one.
    pub fn set_property(&mut self, name: &str, value: Option<String>)
        requires
            name@ == "location"@,
        ensures
            final(self)@.location == opt_view(value),
            final(self)@.state == old(self)@.state,
    {
        self.set_location(value);
    }

    /// Reads a property; `location` is the only one.
    pub fn property(&self, name: &str) -> (r: Option<String>)
        requires
            name@ == "location"@,
        ensures
            opt_view(r) == self@.location,
    {
        self.get_location()
    }

    /// Decides a state change. Going from null to ready needs a location:
    /// without one the change is refused; with one the answer is the file
    /// to start the inner source with. Other changes need nothing.
    pub fn change_state(&self, transition: StateChange) -> (r: Result<Option<String>, StateChangeError>)
        ensures
            transition == StateChange::NullToReady ==> match self@.location {
                None => r == Err::<Option<String>, StateChangeError>(StateChangeError),
                Some(l) => (r matches Ok(Some(path)) && path@ == l),
            },
            transition != StateChange::NullToReady ==> r == Ok::<Option<String>, StateChangeError>(
                None,
            ),
    {
        match transition {
            StateChange::NullToReady => match self.get_location() {
                None => Err(StateChangeError),
                Some(location) => Ok(Some(location)),
            },
            _ => Ok(None),
        }
    }

    /// Records that the inner source was created and added.
    pub fn set_running(&mut self)
        ensures
            final(self)@.state == SourceState::Running,
            final(self)@.location == old(self)@.location,
    {
        self.state = SourceState::Running;
    }

    /// The fragment to add to the inner source for `path`: there is one
    /// only while the source runs.
    pub fn append_fragment(&self, path: String) -> (r: Option<String>)
        ensures
            self@.state == SourceState::Running ==> r == Some(path),
            self@.state == SourceState::Initial ==> r == None::<String>,
    {
        match self.state {
            SourceState::Running => Some(path),
            SourceState::Initial => None,
        }
    }

    /// Decides what a message from inside the bin asks for: when the inner
    /// source starts a fragment, the file is queued again, provided a
    /// location is set and the source runs. Every message is then passed
    /// on to the parent.
    pub fn handle_message(&self, name: &str) -> (r: Option<String>)
        ensures
            (name@ == fragment_started() && self@.state == SourceState::Running
                && self@.location is Some) ==> (r matches Some(path) && path@ == self@.location->0),
            !(name@ == fragment_started() && self@.state == SourceState::Running
                && self@.location is Some) ==> r == None::<String>,
    {
        if same_name(name, "splitmuxsrc-fragment-started") {
            match self.get_location() {
                Some(location) => self.append_fragment(location),
                None => None,
            }
        } else {
            None
        }
    }
}

} // verus!
