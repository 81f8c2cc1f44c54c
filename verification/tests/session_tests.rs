use rileyviewer::artifact::{PlotContent, PlotMessage};
use rileyviewer::session::{Session, SessionAction, SessionEvent, SessionPhase};
use rileyviewer::store::{Delivery, PlotState, FEED_CAPACITY};

fn plot(n: u64) -> PlotMessage {
    PlotMessage { id: format!("plot-{n}"), timestamp: n, content: PlotContent::Html(format!("<p>{n}</p>")) }
}

#[test]
fn connection_without_token_is_rejected() {
    let mut state = PlotState::new(5);
    state.push(plot(1));
    let mut session = Session::new();
    assert_eq!(session.phase(), SessionPhase::Connecting);
    let action = session.authorize(&mut state, &Some("abc".to_string()), None);
    assert_eq!(action, SessionAction::Reject);
    assert_eq!(session.phase(), SessionPhase::Rejected);
    assert_eq!(state.poll(0), Delivery::Closed);
    assert_eq!(session.advance(&mut state, SessionEvent::Woken), SessionAction::Close);
    assert_eq!(session.phase(), SessionPhase::Rejected);
}

#[test]
fn connection_with_wrong_token_is_rejected() {
    let mut state = PlotState::new(5);
    let mut session = Session::new();
    let action = session.authorize(&mut state, &Some("abc".to_string()), Some("abd"));
    assert_eq!(action, SessionAction::Reject);
    assert_eq!(state.subscribe(), 0);
}

#[test]
fn connection_with_token_replays_an_empty_history() {
    let mut state = PlotState::new(5);
    let mut session = Session::new();
    let action = session.authorize(&mut state, &Some("abc".to_string()), Some("abc"));
    assert_eq!(action, SessionAction::Wait);
    assert_eq!(session.phase(), SessionPhase::Streaming);
}

#[test]
fn session_replays_then_streams() {
    let mut state = PlotState::new(5);
    state.push(plot(1));
    state.push(plot(2));
    let mut session = Session::new();
    let token = Some("abc".to_string());
    assert_eq!(
        session.authorize(&mut state, &token, Some("abc")),
        SessionAction::Transmit(plot(1))
    );
    assert_eq!(session.phase(), SessionPhase::Replaying);
    state.push(plot(3));
    assert_eq!(
        session.advance(&mut state, SessionEvent::Transmitted),
        SessionAction::Transmit(plot(2))
    );
    assert_eq!(
        session.advance(&mut state, SessionEvent::Transmitted),
        SessionAction::Transmit(plot(3))
    );
    assert_eq!(session.phase(), SessionPhase::Streaming);
    assert_eq!(session.advance(&mut state, SessionEvent::Transmitted), SessionAction::Wait);
    state.push(plot(4));
    assert_eq!(
        session.advance(&mut state, SessionEvent::Woken),
        SessionAction::Transmit(plot(4))
    );
    assert_eq!(session.advance(&mut state, SessionEvent::Transmitted), SessionAction::Wait);
    assert_eq!(session.advance(&mut state, SessionEvent::Woken), SessionAction::Wait);
}

#[test]
fn every_replayed_artifact_goes_out_as_a_text_that_reads_back() {
    let mut state = PlotState::new(10);
    let contents = vec![
        PlotContent::Png("aGVsbG8=".to_string()),
        PlotContent::Svg("<svg a=\"1\"/>".to_string()),
        PlotContent::Plotly("{\"data\": [1, 2]}".to_string()),
        PlotContent::Vega("{\"mark\": \"bar\"}".to_string()),
        PlotContent::Html("<p>line\nbreak \\ \u{1} é</p>".to_string()),
    ];
    let mut pushed = Vec::new();
    for (n, content) in contents.into_iter().enumerate() {
        let message = PlotMessage { id: format!("id \"{n}\""), timestamp: n as u64, content };
        pushed.push(message.clone());
        state.push(message);
    }
    let mut session = Session::new();
    let mut action = session.authorize(&mut state, &None, None);
    let mut texts = Vec::new();
    while let SessionAction::Transmit(message) = action {
        texts.push(message.encode().unwrap());
        action = session.advance(&mut state, SessionEvent::Transmitted);
    }
    assert_eq!(action, SessionAction::Wait);
    assert_eq!(texts.len(), pushed.len());
    for (text, message) in texts.iter().zip(pushed.iter()) {
        let value: serde_json::Value = serde_json::from_str(text).unwrap();
        assert_eq!(value.get("id").and_then(|v| v.as_str()), Some(message.id.as_str()));
        assert_eq!(value.get("timestamp").and_then(|v| v.as_u64()), Some(message.timestamp));
        let content = value.get("content").unwrap();
        let tag = content.get("type").and_then(|v| v.as_str()).unwrap();
        let data = content.get("data").and_then(|v| v.as_str()).unwrap();
        assert_eq!(tag, message.content.kind().tag());
        assert_eq!(data, message.content.data());
        assert_eq!(PlotContent::from_wire(tag, data.to_string()).as_ref(), Some(&message.content));
    }
}

#[test]
fn open_server_needs_no_token() {
    let mut state = PlotState::new(5);
    state.push(plot(9));
    let mut session = Session::new();
    assert_eq!(session.authorize(&mut state, &None, None), SessionAction::Transmit(plot(9)));
    let mut other = Session::new();
    assert_eq!(
        other.authorize(&mut state, &None, Some("whatever")),
        SessionAction::Transmit(plot(9))
    );
}

#[test]
fn skipped_artifact_does_not_end_the_session() {
    let mut state = PlotState::new(5);
    state.push(plot(1));
    state.push(plot(2));
    let mut session = Session::new();
    assert_eq!(session.authorize(&mut state, &None, None), SessionAction::Transmit(plot(1)));
    assert_eq!(
        session.advance(&mut state, SessionEvent::Skipped),
        SessionAction::Transmit(plot(2))
    );
    assert_eq!(session.advance(&mut state, SessionEvent::Skipped), SessionAction::Wait);
    assert_eq!(session.phase(), SessionPhase::Streaming);
}

#[test]
fn failed_write_closes_and_releases_the_feed() {
    let mut state = PlotState::new(5);
    state.push(plot(1));
    let mut session = Session::new();
    assert_eq!(session.authorize(&mut state, &None, None), SessionAction::Transmit(plot(1)));
    assert_eq!(session.advance(&mut state, SessionEvent::TransmitFailed), SessionAction::Close);
    assert_eq!(session.phase(), SessionPhase::Closed);
    assert_eq!(state.poll(0), Delivery::Closed);
    assert_eq!(session.advance(&mut state, SessionEvent::Woken), SessionAction::Close);
    assert_eq!(state.subscribe(), 0);
}

#[test]
fn disconnect_closes_the_session() {
    let mut state = PlotState::new(5);
    let mut session = Session::new();
    assert_eq!(session.authorize(&mut state, &None, None), SessionAction::Wait);
    assert_eq!(session.advance(&mut state, SessionEvent::Disconnected), SessionAction::Close);
    assert_eq!(session.phase(), SessionPhase::Closed);
}

#[test]
fn lagging_viewer_is_closed_without_harm_to_others() {
    let mut state = PlotState::new(5);
    let mut slow = Session::new();
    let mut quick = Session::new();
    assert_eq!(slow.authorize(&mut state, &None, None), SessionAction::Wait);
    assert_eq!(quick.authorize(&mut state, &None, None), SessionAction::Wait);
    for n in 0..=FEED_CAPACITY as u64 {
        state.push(plot(n));
        assert_eq!(
            quick.advance(&mut state, SessionEvent::Woken),
            SessionAction::Transmit(plot(n))
        );
    }
    assert_eq!(slow.advance(&mut state, SessionEvent::Woken), SessionAction::Close);
    assert_eq!(slow.phase(), SessionPhase::Closed);
    state.push(plot(500));
    assert_eq!(
        quick.advance(&mut state, SessionEvent::Transmitted),
        SessionAction::Transmit(plot(500))
    );
    assert_eq!(state.len(), 5);
}

#[test]
fn authorizing_twice_changes_nothing() {
    let mut state = PlotState::new(5);
    let mut session = Session::new();
    assert_eq!(session.authorize(&mut state, &None, None), SessionAction::Wait);
    assert_eq!(session.authorize(&mut state, &None, None), SessionAction::Close);
    assert_eq!(session.phase(), SessionPhase::Streaming);
    assert_eq!(state.subscribe(), 1);
}

#[test]
fn event_before_authorization_is_answered_with_close() {
    let mut state = PlotState::new(5);
    let mut session = Session::new();
    assert_eq!(session.advance(&mut state, SessionEvent::Woken), SessionAction::Close);
    assert_eq!(session.phase(), SessionPhase::Connecting);
}
