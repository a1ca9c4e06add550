//! The public enums of the WebRTC sink and the settings of its sink pads.

use vstd::prelude::*;
use crate::element::{opt_view, same_name};

verus! {

/// Errors of the WebRTC sink.
#[derive(Debug)]
pub enum WebRTCSinkError {
    NoSessionWithId(String),
    ConsumerRefusedMedia { session_id: String, media_idx: u32 },
    ConsumerNoValidPayload { session_id: String, media_idx: u32 },
    MandatorySdpMlineIndex,
    DuplicateSessionId(String),
    SessionPipelineError { session_id: String, peer_id: String, details: String },
}

impl WebRTCSinkError {
    /// The message of the error.
    pub fn message(&self) -> (m: &'static str)
        ensures
            m@ == match self {
                WebRTCSinkError::NoSessionWithId(..) => "no session with id"@,
                WebRTCSinkError::ConsumerRefusedMedia { .. } => "consumer refused media"@,
                WebRTCSinkError::ConsumerNoValidPayload {
                    ..
                } => "consumer did not provide valid payload for media"@,
                WebRTCSinkError::MandatorySdpMlineIndex => "SDP mline index is currently mandatory"@,
                WebRTCSinkError::DuplicateSessionId(..) => "duplicate session id"@,
                WebRTCSinkError::SessionPipelineError {
                    ..
                } => "error setting up consumer pipeline"@,
            },
    {
        match self {
            WebRTCSinkError::NoSessionWithId(..) => "no session with id",
            WebRTCSinkError::ConsumerRefusedMedia { .. } => "consumer refused media",
            WebRTCSinkError::ConsumerNoValidPayload {
                ..
            } => "consumer did not provide valid payload for media",
            WebRTCSinkError::MandatorySdpMlineIndex => "SDP mline index is currently mandatory",
            WebRTCSinkError::DuplicateSessionId(..) => "duplicate session id",
            WebRTCSinkError::SessionPipelineError { .. } => "error setting up consumer pipeline",
        }
    }
}

/// The congestion control applied by the WebRTC sink.
#[derive(Debug, Eq, PartialEq, Ord, PartialOrd, Hash, Clone, Copy, Structural)]
pub enum WebRTCSinkCongestionControl {
    /// No congestion control is applied.
    Disabled,
    /// A simple sender-side heuristic.
    Homegrown,
    /// The Google Congestion Control algorithm.
    GoogleCongestionControl,
}

/// The registered value of each congestion control.
pub open spec fn cc_value(c: WebRTCSinkCongestionControl) -> u32 {
    match c {
        WebRTCSinkCongestionControl::Disabled => 0,
        WebRTCSinkCongestionControl::Homegrown => 1,
        WebRTCSinkCongestionControl::GoogleCongestionControl => 2,
    }
}

/// The registered nick of each congestion control.
pub open spec fn cc_nick(c: WebRTCSinkCongestionControl) -> Seq<char> {
    match c {
        WebRTCSinkCongestionControl::Disabled => "disabled"@,
        WebRTCSinkCongestionControl::Homegrown => "homegrown"@,
        WebRTCSinkCongestionControl::GoogleCongestionControl => "gcc"@,
    }
}

impl WebRTCSinkCongestionControl {
    /// The value under which the enum is registered.
    pub fn value(self) -> (v: u32)
        ensures
            v == cc_value(self),
    {
        match self {
            WebRTCSinkCongestionControl::Disabled => 0,
            WebRTCSinkCongestionControl::Homegrown => 1,
            WebRTCSinkCongestionControl::GoogleCongestionControl => 2,
        }
    }

    /// The congestion control registered under `value`, if any.
    pub fn from_value(value: u32) -> (c: Option<Self>)
        ensures
            match c {
                Some(c) => cc_value(c) == value,
                None => value > 2,
            },
    {
        match value {
            0 => Some(WebRTCSinkCongestionControl::Disabled),
            1 => Some(WebRTCSinkCongestionControl::Homegrown),
            2 => Some(WebRTCSinkCongestionControl::GoogleCongestionControl),
            _ => None,
        }
    }

    /// The short name under which the value is registered.
    pub fn nick(self) -> (n: &'static str)
        ensures
            n@ == cc_nick(self),
    {
        match self {
            WebRTCSinkCongestionControl::Disabled => "disabled",
            WebRTCSinkCongestionControl::Homegrown => "homegrown",
            WebRTCSinkCongestionControl::GoogleCongestionControl => "gcc",
        }
    }

    /// The description under which the value is registered.
    pub fn description(self) -> (d: &'static str)
        ensures
            d@ == match self {
                WebRTCSinkCongestionControl::Disabled => "Disabled: no congestion control is applied"@,
                WebRTCSinkCongestionControl::Homegrown => "Homegrown: simple sender-side heuristic"@,
                WebRTCSinkCongestionControl::GoogleCongestionControl => "Google Congestion Control algorithm"@,
            },
    {
        match self {
            WebRTCSinkCongestionControl::Disabled => "Disabled: no congestion control is applied",
            WebRTCSinkCongestionControl::Homegrown => "Homegrown: simple sender-side heuristic",
            WebRTCSinkCongestionControl::GoogleCongestionControl => "Google Congestion Control algorithm",
        }
    }

    /// The congestion control whose nick is `nick`, if any.
    pub fn from_nick(nick: &str) -> (c: Option<Self>)
        ensures
            match c {
                Some(c) => cc_nick(c) == nick@,
                None => nick@ != "disabled"@ && nick@ != "homegrown"@ && nick@ != "gcc"@,
            },
    {
        if same_name(nick, "disabled") {
            Some(WebRTCSinkCongestionControl::Disabled)
        } else if same_name(nick, "homegrown") {
            Some(WebRTCSinkCongestionControl::Homegrown)
        } else if same_name(nick, "gcc") {
            Some(WebRTCSinkCongestionControl::GoogleCongestionControl)
        } else {
            None
        }
    }
}

/// Each congestion control has its own value, and its value leads back to it.
pub proof fn lemma_cc_value_round_trip(c: WebRTCSinkCongestionControl, d: WebRTCSinkCongestionControl)
    ensures
        cc_value(c) <= 2,
        cc_value(c) == cc_value(d) ==> c == d,
{
}

/// Each congestion control has its own nick, and its nick leads back to it.
pub proof fn lemma_cc_nick_round_trip(c: WebRTCSinkCongestionControl, d: WebRTCSinkCongestionControl)
    ensures
        cc_nick(c) == "disabled"@ || cc_nick(c) == "homegrown"@ || cc_nick(c) == "gcc"@,
        cc_nick(c) == cc_nick(d) ==> c == d,
{
    reveal_strlit("disabled");
    reveal_strlit("homegrown");
    reveal_strlit("gcc");
    assert("disabled"@.len() == 8);
    assert("homegrown"@.len() == 9);
    assert("gcc"@.len() == 3);
}

/// The settings of a WebRTC sink pad, as a value.
pub struct PadSettingsView {
    pub msid: Option<Seq<char>>,
    pub mid: Option<Seq<char>>,
    pub rid: Option<Seq<char>>,
}

/// The properties of a WebRTC sink pad.
pub open spec fn is_pad_property(name: Seq<char>) -> bool {
    name == "msid"@ || name == "mid"@ || name == "rid"@
}

/// The value of the property `name`.
pub open spec fn pad_property(s: PadSettingsView, name: Seq<char>) -> Option<Seq<char>> {
    if name == "msid"@ {
        s.msid
    } else if name == "mid"@ {
        s.mid
    } else {
        s.rid
    }
}

/// The settings with the property `name` set to `value`.
pub open spec fn with_pad_property(
    s: PadSettingsView,
    name: Seq<char>,
    value: Option<Seq<char>>,
) -> PadSettingsView {
    if name == "msid"@ {
        PadSettingsView { msid: value, ..s }
    } else if name == "mid"@ {
        PadSettingsView { mid: value, ..s }
    } else {
        PadSettingsView { rid: value, ..s }
    }
}

/// A sink pad of the WebRTC sink and its media identifiers.
pub struct WebRTCSinkPad {
    msid: Option<String>,
    mid: Option<String>,
    rid: Option<String>,
}

impl View for WebRTCSinkPad {
    type V = PadSettingsView;

    closed spec fn view(&self) -> PadSettingsView {
        PadSettingsView { msid: opt_view(self.msid), mid: opt_view(self.mid), rid: opt_view(self.rid) }
    }
}

fn clone_opt(s: &Option<String>) -> (r: Option<String>)
    ensures
        opt_view(r) == opt_view(*s),
{
    match s {
        Some(v) => Some(v.clone()),
        None => None,
    }
}

impl WebRTCSinkPad {
    /// A pad with none of its identifiers set.
    pub fn new() -> (p: Self)
        ensures
            p@.msid == None::<Seq<char>>,
            p@.mid == None::<Seq<char>>,
            p@.rid == None::<Seq<char>>,
    {
        WebRTCSinkPad { msid: None, mid: None, rid: None }
    }

    /// Sets the property `name`, one of `msid`, `mid` and `rid`.
    pub fn set_property(&mut self, name: &str, value: Option<String>)
        requires
            is_pad_property(name@),
        ensures
            final(self)@ == with_pad_property(old(self)@, name@, opt_view(value)),
    {
        if same_name(name, "msid") {
            self.msid = value;
        } else if same_name(name, "mid") {
            self.mid = value;
        } else {
            self.rid = value;
        }
    }

    /// Reads the property `name`, one of `msid`, `mid` and `rid`.
    pub fn property(&self, name: &str) -> (r: Option<String>)
        requires
            is_pad_property(name@),
        ensures
            opt_view(r) == pad_property(self@, name@),
    {
        if same_name(name, "msid") {
            clone_opt(&self.msid)
        } else if same_name(name, "mid") {
            clone_opt(&self.mid)
        } else {
            clone_opt(&self.rid)
        }
    }
}

/// A property reads back what was last written to it, and writing one
/// property leaves the others as they were.
pub proof fn lemma_pad_property_read_after_write(
    s: PadSettingsView,
    name: Seq<char>,
    other: Seq<char>,
    value: Option<Seq<char>>,
)
    requires
        is_pad_property(name),
        is_pad_property(other),
    ensures
        pad_property(with_pad_property(s, name, value), name) == value,
        other != name ==> pad_property(with_pad_property(s, name, value), other) == pad_property(
            s,
            other,
        ),
{
    reveal_strlit("msid");
    reveal_strlit("mid");
    reveal_strlit("rid");
}

} // verus!
