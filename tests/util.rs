use autotiling::frame::{get_message_text, Frame};
use autotiling::util::{is_tiling_toggleable, read_document, TilingError};

#[test]
fn test_get_message_text() {
    let msg = Frame::Text("Hello, world!".into());
    assert_eq!(
        get_message_text(msg),
        Some("Hello, world!".into()),
        "Expected text message to be extracted"
    );

    let msg = Frame::Binary(vec![1, 2, 3]);
    assert_eq!(
        get_message_text(msg),
        None,
        "Expected binary message to be ignored"
    );
}

#[test]
fn test_is_tiling_toggleable() {
    let json = r#"{"data":{"managedWindow":{"tilingSize":0.5}}}"#;
    assert_eq!(
        is_tiling_toggleable(json).unwrap(),
        true,
        "Expected tiling size to be toggleable"
    );

    let json = r#"{"data":{"managedWindow":{"tilingSize":0.501}}}"#;
    assert_eq!(
        is_tiling_toggleable(json).unwrap(),
        false,
        "Expected tiling size to be not toggleable"
    );
}

#[test]
fn control_and_other_frames_carry_no_text() {
    assert_eq!(get_message_text(Frame::Ping(vec![7])), None);
    assert_eq!(get_message_text(Frame::Pong(vec![])), None);
    assert_eq!(get_message_text(Frame::Close), None);
    assert_eq!(get_message_text(Frame::Other), None);
    assert_eq!(get_message_text(Frame::Binary(vec![])), None);
    assert_eq!(get_message_text(Frame::Text(String::new())), Some(String::new()));
}

#[test]
fn missing_levels_give_no_decision() {
    assert_eq!(is_tiling_toggleable("{}"), Ok(false));
    assert_eq!(is_tiling_toggleable(r#"{"data":null}"#), Ok(false));
    assert_eq!(is_tiling_toggleable(r#"{"data":{}}"#), Ok(false));
    assert_eq!(is_tiling_toggleable(r#"{"data":{"managedWindow":null}}"#), Ok(false));
    assert_eq!(is_tiling_toggleable(r#"{"data":{"managedWindow":{}}}"#), Ok(false));
    assert_eq!(
        is_tiling_toggleable(r#"{"data":{"managedWindow":{"tilingSize":null}}}"#),
        Ok(false)
    );
    assert_eq!(is_tiling_toggleable(r#"{"other":{"managedWindow":{"tilingSize":0.1}}}"#), Ok(false));
}

#[test]
fn tiling_size_absent_is_no_dispatch() {
    assert_eq!(is_tiling_toggleable(r#"{"data":{"managedWindow":{}}}"#), Ok(false));
}

#[test]
fn malformed_text_is_rejected() {
    assert_eq!(is_tiling_toggleable("not json"), Err(TilingError::Malformed));
    assert_eq!(is_tiling_toggleable(""), Err(TilingError::Malformed));
    assert_eq!(is_tiling_toggleable(r#"{"data":"#), Err(TilingError::Malformed));
}

#[test]
fn wrong_shapes_are_rejected() {
    assert_eq!(is_tiling_toggleable("[1, 2]"), Err(TilingError::Shape));
    assert_eq!(is_tiling_toggleable("0.2"), Err(TilingError::Shape));
    assert_eq!(is_tiling_toggleable(r#"{"data":5}"#), Err(TilingError::Shape));
    assert_eq!(is_tiling_toggleable(r#"{"data":{"managedWindow":[]}}"#), Err(TilingError::Shape));
    assert_eq!(
        is_tiling_toggleable(r#"{"data":{"managedWindow":{"tilingSize":"0.2"}}}"#),
        Err(TilingError::Shape)
    );
}

#[test]
fn integer_and_extreme_sizes() {
    assert_eq!(is_tiling_toggleable(r#"{"data":{"managedWindow":{"tilingSize":0}}}"#), Ok(true));
    assert_eq!(is_tiling_toggleable(r#"{"data":{"managedWindow":{"tilingSize":1}}}"#), Ok(false));
    assert_eq!(is_tiling_toggleable(r#"{"data":{"managedWindow":{"tilingSize":-3}}}"#), Ok(true));
    assert_eq!(
        is_tiling_toggleable(r#"{"data":{"managedWindow":{"tilingSize":0.49999999999999994}}}"#),
        Ok(true)
    );
    assert_eq!(
        is_tiling_toggleable(r#"{"data":{"managedWindow":{"tilingSize":0.5000000000000001}}}"#),
        Ok(false)
    );
    assert_eq!(
        is_tiling_toggleable(r#"{"data":{"managedWindow":{"tilingSize":1e-300},"x":1},"y":[]}"#),
        Ok(true)
    );
}

#[test]
fn read_document_builds_the_model() {
    let doc = read_document(r#"{"data":{"managedWindow":{"tilingSize":0.25}}}"#).unwrap();
    let size = doc.tiling_size().unwrap();
    assert_eq!(size.bits, 0.25f64.to_bits());
    assert!(doc.toggle_decision());

    let doc = read_document(r#"{"data":{"managedWindow":{}}}"#).unwrap();
    assert_eq!(doc.tiling_size(), None);
    assert!(!doc.toggle_decision());

    assert_eq!(read_document("not json"), Err(TilingError::Malformed));
}

#[test]
fn identical_notifications_give_identical_decisions() {
    let json = r#"{"data":{"managedWindow":{"tilingSize":0.3}}}"#;
    let first = is_tiling_toggleable(json);
    let second = is_tiling_toggleable(json);
    assert_eq!(first, Ok(true));
    assert_eq!(first, second);
}
