use gstplugins::webrtcsink::WebRTCSinkCongestionControl::{Disabled, GoogleCongestionControl, Homegrown};
use gstplugins::webrtcsink::{WebRTCSinkCongestionControl, WebRTCSinkError, WebRTCSinkPad};

#[test]
fn error_messages() {
    assert_eq!(
        WebRTCSinkError::NoSessionWithId("a".into()).message(),
        "no session with id"
    );
    assert_eq!(
        WebRTCSinkError::ConsumerRefusedMedia { session_id: "a".into(), media_idx: 1 }.message(),
        "consumer refused media"
    );
    assert_eq!(
        WebRTCSinkError::ConsumerNoValidPayload { session_id: "a".into(), media_idx: 1 }
            .message(),
        "consumer did not provide valid payload for media"
    );
    assert_eq!(
        WebRTCSinkError::MandatorySdpMlineIndex.message(),
        "SDP mline index is currently mandatory"
    );
    assert_eq!(
        WebRTCSinkError::DuplicateSessionId("a".into()).message(),
        "duplicate session id"
    );
    assert_eq!(
        WebRTCSinkError::SessionPipelineError {
            session_id: "a".into(),
            peer_id: "b".into(),
            details: "c".into()
        }
        .message(),
        "error setting up consumer pipeline"
    );
}

#[test]
fn congestion_control_values_and_nicks() {
    assert_eq!(Disabled.value(), 0);
    assert_eq!(Homegrown.value(), 1);
    assert_eq!(GoogleCongestionControl.value(), 2);
    assert_eq!(Disabled.nick(), "disabled");
    assert_eq!(Homegrown.nick(), "homegrown");
    assert_eq!(GoogleCongestionControl.nick(), "gcc");
    assert_eq!(
        Disabled.description(),
        "Disabled: no congestion control is applied"
    );
    assert_eq!(
        Homegrown.description(),
        "Homegrown: simple sender-side heuristic"
    );
    assert_eq!(
        GoogleCongestionControl.description(),
        "Google Congestion Control algorithm"
    );
}

#[test]
fn congestion_control_round_trips() {
    for c in [Disabled, Homegrown, GoogleCongestionControl] {
        assert_eq!(WebRTCSinkCongestionControl::from_value(c.value()), Some(c));
        assert_eq!(WebRTCSinkCongestionControl::from_nick(c.nick()), Some(c));
    }
    assert_eq!(WebRTCSinkCongestionControl::from_value(3), None);
    assert_eq!(WebRTCSinkCongestionControl::from_nick("GCC"), None);
    assert_eq!(WebRTCSinkCongestionControl::from_nick(""), None);
}

#[test]
fn congestion_control_order_follows_declaration() {
    assert!(Disabled < Homegrown);
    assert!(Homegrown < GoogleCongestionControl);
}

#[test]
fn pad_properties_read_back() {
    let mut pad = WebRTCSinkPad::new();
    assert_eq!(pad.property("msid"), None);
    assert_eq!(pad.property("mid"), None);
    assert_eq!(pad.property("rid"), None);
    pad.set_property("msid", Some("stream".into()));
    pad.set_property("mid", Some("video0".into()));
    assert_eq!(pad.property("msid"), Some("stream".into()));
    assert_eq!(pad.property("mid"), Some("video0".into()));
    assert_eq!(pad.property("rid"), None);
    pad.set_property("rid", Some("h".into()));
    pad.set_property("msid", None);
    assert_eq!(pad.property("msid"), None);
    assert_eq!(pad.property("mid"), Some("video0".into()));
    assert_eq!(pad.property("rid"), Some("h".into()));
}
