use rileyviewer::artifact::{ContentKind, PlotContent};
use rileyviewer::assets::{
    asset_name, choose_asset, leading_slashes, names_a_file, AssetChoice, INDEX_CONTENT_TYPE,
    INDEX_PAGE,
};
use rileyviewer::publish::{
    publish_submission, status_of, PublishError, STATUS_MALFORMED, STATUS_OK, STATUS_UNAUTHORIZED,
};
use rileyviewer::server::{embedded_config, start_server_with, BindOutcome};
use rileyviewer::store::PlotState;

#[test]
fn leading_slashes_are_counted() {
    assert_eq!(leading_slashes(""), 0);
    assert_eq!(leading_slashes("/"), 1);
    assert_eq!(leading_slashes("/assets/app.js"), 1);
    assert_eq!(leading_slashes("///deep/path/"), 3);
    assert_eq!(leading_slashes("no/slash"), 0);
    assert_eq!(leading_slashes("é/"), 0);
}

#[test]
fn empty_path_asks_for_the_index_page() {
    assert_eq!(asset_name(""), "index.html");
    assert_eq!(asset_name("assets/app.js"), "assets/app.js");
    assert_eq!(INDEX_PAGE, "index.html");
    assert_eq!(INDEX_CONTENT_TYPE, "text/html");
    let path = "/";
    assert_eq!(asset_name(&path[leading_slashes(path)..]), "index.html");
}

#[test]
fn a_full_stop_makes_a_file_name() {
    assert!(names_a_file("app.js"));
    assert!(names_a_file(".hidden"));
    assert!(names_a_file("dir.d/file"));
    assert!(!names_a_file("plots/latest"));
    assert!(!names_a_file(""));
}

#[test]
fn asset_requests_are_answered() {
    assert_eq!(choose_asset(true, true, true), AssetChoice::File);
    assert_eq!(choose_asset(true, false, false), AssetChoice::File);
    assert_eq!(choose_asset(false, false, true), AssetChoice::Index);
    assert_eq!(choose_asset(false, true, true), AssetChoice::NotFound);
    assert_eq!(choose_asset(false, false, false), AssetChoice::NotFound);
    assert_eq!(choose_asset(false, true, false), AssetChoice::NotFound);
}

#[test]
fn png_bytes_are_held_as_base64() {
    assert_eq!(PlotContent::png(b"hello"), PlotContent::Png("aGVsbG8=".to_string()));
    assert_eq!(PlotContent::png(b""), PlotContent::Png(String::new()));
    assert_eq!(PlotContent::png(&[0xff, 0xfe, 0xfd]), PlotContent::Png("//79".to_string()));
    assert_eq!(PlotContent::png(&[0x89, b'P', b'N', b'G']).kind(), ContentKind::Png);
    assert_eq!(PlotContent::png(&[0xfb, 0xff]), PlotContent::Png("+/8=".to_string()));
}

#[test]
fn embedded_server_defaults() {
    let config = embedded_config(None, None, None);
    assert_eq!(config.host, "127.0.0.1");
    assert_eq!(config.port, 0);
    assert_eq!(config.token, None);
    assert_eq!(config.dist_dir, None);
    assert_eq!(config.history_limit, 200);
    let given = embedded_config(Some("0.0.0.0".to_string()), Some(8000), Some("t".to_string()));
    assert_eq!(given.host, "0.0.0.0");
    assert_eq!(given.port, 8000);
    assert_eq!(given.token, Some("t".to_string()));
}

#[test]
fn enqueue_returns_the_identifier_of_the_stored_artifact() {
    let bound = BindOutcome::Bound("127.0.0.1:5000".to_string());
    let mut handle = start_server_with(embedded_config(None, None, None), bound).ok().unwrap();
    let first = handle.enqueue(PlotContent::Html("<p/>".to_string()));
    let second = handle.enqueue(PlotContent::png(b"png"));
    assert_ne!(first, second);
    let history = handle.history();
    assert_eq!(history.len(), 2);
    assert_eq!(history[0].id, first);
    assert_eq!(history[0].content, PlotContent::Html("<p/>".to_string()));
    assert_eq!(history[1].id, second);
    assert_eq!(history[1].content, PlotContent::Png("cG5n".to_string()));
}

#[test]
fn malformed_submission_is_a_client_error() {
    let mut state = PlotState::new(5);
    let token = Some("abc".to_string());
    let malformed = publish_submission(&mut state, &token, Some("abc"), "Gif", "x".to_string());
    assert_eq!(malformed, Err(PublishError::Malformed));
    assert_eq!(status_of(&malformed), 422);
    let also = publish_submission(&mut state, &token, None, "Gif", "x".to_string());
    assert_eq!(also, Err(PublishError::Malformed));
    assert_eq!(state.len(), 0);
    let refused = publish_submission(&mut state, &token, None, "Svg", "<svg/>".to_string());
    assert_eq!(refused, Err(PublishError::Unauthorized));
    assert_eq!(status_of(&refused), 401);
    assert_eq!(state.len(), 0);
    let accepted = publish_submission(&mut state, &token, Some("abc"), "Svg", "<svg/>".to_string());
    assert_eq!(status_of(&accepted), 200);
    let history = state.snapshot();
    assert_eq!(history.len(), 1);
    assert_eq!(Ok(history[0].id.clone()), accepted);
    assert_eq!(history[0].content, PlotContent::Svg("<svg/>".to_string()));
    assert_eq!((STATUS_OK, STATUS_UNAUTHORIZED, STATUS_MALFORMED), (200, 401, 422));
}

#[test]
fn handle_receives_submissions_from_the_wire() {
    let bound = BindOutcome::Bound("127.0.0.1:5000".to_string());
    let config = embedded_config(None, None, Some("abc".to_string()));
    let mut handle = start_server_with(config, bound).ok().unwrap();
    assert_eq!(handle.receive(Some("abc"), "Nope", String::new()), Err(PublishError::Malformed));
    assert_eq!(handle.receive(None, "Vega", "{}".to_string()), Err(PublishError::Unauthorized));
    assert!(handle.history().is_empty());
    let id = handle.receive(Some("abc"), "Vega", "{}".to_string()).unwrap();
    let history = handle.history();
    assert_eq!(history.len(), 1);
    assert_eq!(history[0].id, id);
    assert_eq!(history[0].content, PlotContent::Vega("{}".to_string()));
}
