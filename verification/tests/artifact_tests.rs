use rileyviewer::artifact::{
    encode_quoted, frame_wire, millis_from_nanos, ContentKind, EncodeError, PlotContent,
    PlotMessage,
};

fn kinds() -> Vec<ContentKind> {
    vec![
        ContentKind::Png,
        ContentKind::Svg,
        ContentKind::Plotly,
        ContentKind::Vega,
        ContentKind::Html,
    ]
}

#[test]
fn tags_name_the_variants() {
    assert_eq!(ContentKind::Png.tag(), "Png");
    assert_eq!(ContentKind::Svg.tag(), "Svg");
    assert_eq!(ContentKind::Plotly.tag(), "Plotly");
    assert_eq!(ContentKind::Vega.tag(), "Vega");
    assert_eq!(ContentKind::Html.tag(), "Html");
}

#[test]
fn tags_read_back() {
    for kind in kinds() {
        assert_eq!(ContentKind::from_tag(kind.tag()), Some(kind));
    }
    assert_eq!(ContentKind::from_tag("png"), None);
    assert_eq!(ContentKind::from_tag(""), None);
    assert_eq!(ContentKind::from_tag("Jpeg"), None);
    assert_eq!(ContentKind::from_tag("Svg "), None);
}

#[test]
fn content_round_trips_through_tag_and_payload() {
    let payloads = ["", "<svg/>", "{\"a\": [1, 2]}", "line\nbreak \"quoted\" \\ é ✓", "aGVsbG8="];
    for kind in kinds() {
        for payload in payloads {
            let content = PlotContent::from_parts(kind, payload.to_string());
            let tag = content.kind().tag();
            let data = content.data().to_string();
            let back = PlotContent::from_wire(tag, data);
            assert_eq!(back, Some(content));
        }
    }
}

#[test]
fn from_parts_builds_the_named_variant() {
    assert_eq!(
        PlotContent::from_parts(ContentKind::Png, "x".to_string()),
        PlotContent::Png("x".to_string())
    );
    assert_eq!(
        PlotContent::from_parts(ContentKind::Svg, "x".to_string()),
        PlotContent::Svg("x".to_string())
    );
    assert_eq!(
        PlotContent::from_parts(ContentKind::Plotly, "x".to_string()),
        PlotContent::Plotly("x".to_string())
    );
    assert_eq!(
        PlotContent::from_parts(ContentKind::Vega, "x".to_string()),
        PlotContent::Vega("x".to_string())
    );
    assert_eq!(
        PlotContent::from_parts(ContentKind::Html, "x".to_string()),
        PlotContent::Html("x".to_string())
    );
}

#[test]
fn unknown_tag_decodes_to_nothing() {
    assert_eq!(PlotContent::from_wire("Gif", "data".to_string()), None);
    assert_eq!(PlotContent::from_wire("svg", "<svg/>".to_string()), None);
}

#[test]
fn kind_and_data_read_the_content() {
    let content = PlotContent::Vega("{}".to_string());
    assert_eq!(content.kind(), ContentKind::Vega);
    assert_eq!(content.data(), "{}");
}

#[test]
fn milliseconds_round_toward_zero() {
    assert_eq!(millis_from_nanos(0), 0);
    assert_eq!(millis_from_nanos(999_999), 0);
    assert_eq!(millis_from_nanos(1_000_000), 1);
    assert_eq!(millis_from_nanos(1_700_000_000_123_456_789), 1_700_000_000_123);
    assert_eq!(millis_from_nanos(-1), 0);
    assert_eq!(millis_from_nanos(-999_999), 0);
}

#[test]
fn milliseconds_keep_the_low_64_bits() {
    assert_eq!(millis_from_nanos(-1_000_000), u64::MAX);
    assert_eq!(millis_from_nanos(-2_500_000), u64::MAX - 1);
    let beyond: i128 = (1i128 << 64) * 1_000_000;
    assert_eq!(millis_from_nanos(beyond), 0);
    assert_eq!(millis_from_nanos(beyond + 5_000_000), 5);
    assert_eq!(millis_from_nanos(i128::MAX), (i128::MAX / 1_000_000) as u64);
    assert_eq!(millis_from_nanos(i128::MIN), (i128::MIN / 1_000_000) as u64);
}

#[test]
fn assemble_keeps_its_parts() {
    let message = PlotMessage::assemble(
        "id-1".to_string(),
        42_000_000,
        PlotContent::Html("<p>hi</p>".to_string()),
    );
    assert_eq!(message.id, "id-1");
    assert_eq!(message.timestamp, 42);
    assert_eq!(message.content, PlotContent::Html("<p>hi</p>".to_string()));
}

#[test]
fn new_artifacts_get_fresh_identifiers() {
    let first = PlotMessage::new(PlotContent::Svg("<svg/>".to_string()));
    let second = PlotMessage::new(PlotContent::Svg("<svg/>".to_string()));
    assert_eq!(first.id.chars().count(), 36);
    assert_eq!(second.id.chars().count(), 36);
    assert_ne!(first.id, second.id);
    assert_eq!(first.content, PlotContent::Svg("<svg/>".to_string()));
    assert_eq!(first.id.matches('-').count(), 4);
    assert!(first.timestamp > 1_600_000_000_000);
    assert!(second.timestamp >= first.timestamp);
}

#[test]
fn clone_is_equal() {
    let message = PlotMessage::assemble(
        "id-2".to_string(),
        1_000_000,
        PlotContent::Png("aGk=".to_string()),
    );
    let copy = message.clone();
    assert_eq!(copy, message);
}

#[test]
fn frame_puts_the_fields_in_wire_order() {
    let text = frame_wire("\"a\"", 5, ContentKind::Svg, "\"<svg/>\"");
    assert_eq!(
        text,
        "{\"id\":\"a\",\"timestamp\":5,\"content\":{\"type\":\"Svg\",\"data\":\"<svg/>\"}}"
    );
}

#[test]
fn encode_gives_the_wire_text() {
    let message = PlotMessage {
        id: "abc".to_string(),
        timestamp: 1_700_000_000_123,
        content: PlotContent::Plotly("{\"data\":[]}".to_string()),
    };
    assert_eq!(
        message.encode(),
        Ok("{\"id\":\"abc\",\"timestamp\":1700000000123,\"content\":{\"type\":\"Plotly\",\"data\":\"{\\\"data\\\":[]}\"}}".to_string())
    );
}

#[test]
fn encoded_artifact_reads_back_as_json() {
    let payload = "<svg a=\"1\">\n\ttab \\ é ✓ \u{1}</svg>";
    let message = PlotMessage {
        id: "id \"quoted\"".to_string(),
        timestamp: u64::MAX,
        content: PlotContent::Svg(payload.to_string()),
    };
    let text = message.encode().unwrap();
    let value: serde_json::Value = serde_json::from_str(&text).unwrap();
    assert_eq!(value.get("id").and_then(|v| v.as_str()), Some("id \"quoted\""));
    assert_eq!(value.get("timestamp").and_then(|v| v.as_u64()), Some(u64::MAX));
    let content = value.get("content").unwrap();
    let tag = content.get("type").and_then(|v| v.as_str()).unwrap();
    let data = content.get("data").and_then(|v| v.as_str()).unwrap();
    assert_eq!(tag, "Svg");
    assert_eq!(data, payload);
    assert_eq!(
        PlotContent::from_wire(tag, data.to_string()),
        Some(PlotContent::Svg(payload.to_string()))
    );
    assert_eq!(value.as_object().map(|o| o.len()), Some(3));
    assert_eq!(content.as_object().map(|o| o.len()), Some(2));
}

#[test]
fn every_variant_encodes_with_its_tag() {
    for kind in kinds() {
        let message = PlotMessage {
            id: "i".to_string(),
            timestamp: 0,
            content: PlotContent::from_parts(kind, "d".to_string()),
        };
        let expected = format!(
            "{{\"id\":\"i\",\"timestamp\":0,\"content\":{{\"type\":\"{}\",\"data\":\"d\"}}}}",
            kind.tag()
        );
        assert_eq!(message.encode(), Ok(expected));
    }
}

#[test]
fn encoding_fails_when_a_literal_is_missing() {
    let good: Result<String, ()> = Ok("\"x\"".to_string());
    let bad: Result<String, ()> = Err(());
    assert_eq!(
        encode_quoted(good.clone(), 1, ContentKind::Html, good.clone()),
        Ok("{\"id\":\"x\",\"timestamp\":1,\"content\":{\"type\":\"Html\",\"data\":\"x\"}}".to_string())
    );
    assert_eq!(encode_quoted(bad.clone(), 1, ContentKind::Html, good.clone()), Err(EncodeError::Text));
    assert_eq!(encode_quoted(good, 1, ContentKind::Html, bad.clone()), Err(EncodeError::Text));
    assert_eq!(encode_quoted(bad.clone(), 1, ContentKind::Html, bad), Err(EncodeError::Text));
}
