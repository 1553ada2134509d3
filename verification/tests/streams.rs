use gstplugins::pull::{
    announce_stream, dot_file_name, is_pool_child, requested_stream_started, set_caps_error,
    StreamStartProbe,
};
use gstplugins::streams::{select_stream, specified_stream};
use gstplugins::values::{
    FlowError, Stream, STREAM_TYPE_AUDIO, STREAM_TYPE_TEXT, STREAM_TYPE_VIDEO,
};

fn stream(id: Option<&str>, stream_type: u32) -> Stream {
    Stream { id: id.map(String::from), stream_type }
}

fn id(s: &str) -> Option<String> {
    Some(s.to_string())
}

fn collection() -> Vec<Stream> {
    vec![
        stream(None, STREAM_TYPE_VIDEO),
        stream(Some("a"), STREAM_TYPE_AUDIO),
        stream(Some("v1"), STREAM_TYPE_VIDEO),
        stream(Some("v2"), STREAM_TYPE_VIDEO),
        stream(Some("v1"), STREAM_TYPE_AUDIO),
    ]
}

#[test]
fn requested_stream_is_selected() {
    let streams = collection();
    assert_eq!(select_stream(&streams, &id("v2"), STREAM_TYPE_VIDEO), Some(3));
    // Whatever its type, and the first one of that name.
    assert_eq!(select_stream(&streams, &id("a"), STREAM_TYPE_VIDEO), Some(1));
    assert_eq!(select_stream(&streams, &id("v1"), STREAM_TYPE_AUDIO), Some(2));
}

#[test]
fn otherwise_a_stream_of_the_type_is_selected() {
    let streams = collection();
    // The first stream has no identifier to select it by.
    assert_eq!(select_stream(&streams, &None, STREAM_TYPE_VIDEO), Some(2));
    assert_eq!(select_stream(&streams, &id("nope"), STREAM_TYPE_VIDEO), Some(2));
    assert_eq!(select_stream(&streams, &None, STREAM_TYPE_TEXT), None);
    assert_eq!(select_stream(&streams, &None, STREAM_TYPE_VIDEO | STREAM_TYPE_AUDIO), None);
    assert_eq!(select_stream(&vec![], &id("v1"), STREAM_TYPE_VIDEO), None);
}

#[test]
fn stream_is_started_once_the_pad_shows_it() {
    let selected = Some(stream(Some("v1"), STREAM_TYPE_VIDEO));
    assert!(requested_stream_started(&selected, &id("v1")));
    assert!(!requested_stream_started(&selected, &id("v2")));
    assert!(!requested_stream_started(&selected, &None));
    assert!(!requested_stream_started(&None, &id("v1")));
}

#[test]
fn requested_identifier_is_announced() {
    let selected = stream(Some("v1"), STREAM_TYPE_VIDEO);
    assert!(matches!(
        announce_stream(&id("wanted"), &selected, Some(4)),
        StreamStartProbe::Replace { stream_id, group_id: Some(4) } if stream_id == "wanted"
    ));
    assert!(matches!(
        announce_stream(&None, &selected, None),
        StreamStartProbe::Replace { stream_id, group_id: None } if stream_id == "v1"
    ));
}

#[test]
fn names_are_composed() {
    assert_eq!(dot_file_name("3", "src0", "pipeline1"), "3-src0-pipeline1.dot");
    assert!(is_pool_child("pool"));
    assert!(!is_pool_child("pools"));
}

#[test]
fn refused_caps_tell_why() {
    assert_eq!(set_caps_error(true), FlowError::Flushing);
    assert_eq!(set_caps_error(false), FlowError::NotNegotiated);
}

#[test]
fn type_is_ignored_where_a_stream_is_requested() {
    let streams = collection();
    assert_eq!(specified_stream(&streams, &id("v2"), STREAM_TYPE_AUDIO), Some(3));
    assert_eq!(specified_stream(&streams, &id("v1"), STREAM_TYPE_AUDIO), Some(2));
    assert_eq!(specified_stream(&streams, &id("nope"), STREAM_TYPE_VIDEO), None);
    assert_eq!(specified_stream(&streams, &None, STREAM_TYPE_VIDEO), Some(2));
    assert_eq!(specified_stream(&streams, &None, STREAM_TYPE_AUDIO), Some(1));
    assert_eq!(specified_stream(&streams, &None, STREAM_TYPE_TEXT), None);
}
