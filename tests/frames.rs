use server_events::{filter_frame, filter_frames, filter_item, RawFrame};

fn data(event_type: &str, payload: &str) -> RawFrame {
    RawFrame::DataEvent {
        event_type: event_type.to_string(),
        payload: payload.to_string(),
    }
}

fn event(event_type: &str, data: Option<&str>) -> (String, Option<String>) {
    (event_type.to_string(), data.map(|d| d.to_string()))
}

fn sample_frames() -> Vec<RawFrame> {
    vec![
        data("message", "hello"),
        RawFrame::Comment,
        data("keep-alive", ""),
        data("update", "null"),
    ]
}

#[test]
fn mixed_frames_without_keep_alives() {
    let out = filter_frames(&sample_frames(), false);
    assert_eq!(out, vec![event("message", Some("hello")), event("update", None)]);
}

#[test]
fn mixed_frames_with_keep_alives() {
    let out = filter_frames(&sample_frames(), true);
    assert_eq!(
        out,
        vec![
            event("message", Some("hello")),
            event("keep-alive", Some("")),
            event("update", None),
        ]
    );
}

#[test]
fn same_frame_gives_same_result() {
    for flag in [false, true] {
        for frame in sample_frames() {
            assert_eq!(filter_frame(&frame, flag), filter_frame(&frame, flag));
        }
    }
}

#[test]
fn concatenated_input_gives_concatenated_output() {
    let a = sample_frames();
    let b = vec![data("tick", "1"), RawFrame::ConnectionNotice, data("tick", "2")];
    let mut ab = a.clone();
    ab.extend(b.clone());
    let mut expected = filter_frames(&a, false);
    expected.extend(filter_frames(&b, false));
    assert_eq!(filter_frames(&ab, false), expected);
}

#[test]
fn sentinel_payload_becomes_absent_data() {
    assert_eq!(filter_frame(&data("update", "null"), false), Some(event("update", None)));
    assert_eq!(filter_frame(&data("update", "null"), true), Some(event("update", None)));
}

#[test]
fn other_payloads_are_kept_verbatim() {
    for payload in ["", "NULL", "\"null\"", "null ", " null", "{\"a\": null}", "nul"] {
        assert_eq!(
            filter_frame(&data("update", payload), false),
            Some(event("update", Some(payload)))
        );
    }
}

#[test]
fn keep_alive_dropped_unless_friendly() {
    for payload in ["", "ping", "null"] {
        assert_eq!(filter_frame(&data("keep-alive", payload), false), None);
    }
    assert_eq!(
        filter_frame(&data("keep-alive", "ping"), true),
        Some(event("keep-alive", Some("ping")))
    );
    assert_eq!(
        filter_frame(&data("keep-alive", "null"), true),
        Some(event("keep-alive", None))
    );
}

#[test]
fn keep_alive_match_is_exact() {
    assert_eq!(
        filter_frame(&data("Keep-Alive", "x"), false),
        Some(event("Keep-Alive", Some("x")))
    );
    assert_eq!(
        filter_frame(&data("keep-alive ", "x"), false),
        Some(event("keep-alive ", Some("x")))
    );
}

#[test]
fn non_data_frames_never_emitted() {
    for flag in [false, true] {
        assert_eq!(filter_frame(&RawFrame::Comment, flag), None);
        assert_eq!(filter_frame(&RawFrame::ConnectionNotice, flag), None);
    }
    let only_noise = vec![RawFrame::Comment, RawFrame::ConnectionNotice, RawFrame::Comment];
    assert!(filter_frames(&only_noise, true).is_empty());
}

#[test]
fn surviving_frames_keep_their_order() {
    let frames = vec![
        data("c", "3"),
        RawFrame::ConnectionNotice,
        data("a", "1"),
        data("keep-alive", ""),
        RawFrame::Comment,
        data("b", "null"),
        data("a", "2"),
    ];
    assert_eq!(
        filter_frames(&frames, false),
        vec![
            event("c", Some("3")),
            event("a", Some("1")),
            event("b", None),
            event("a", Some("2")),
        ]
    );
}

#[test]
fn empty_input_gives_empty_output() {
    assert!(filter_frames(&Vec::new(), false).is_empty());
    assert!(filter_frames(&Vec::new(), true).is_empty());
}

#[test]
fn transport_errors_pass_through() {
    let item: Result<RawFrame, u32> = Err(7);
    assert_eq!(filter_item(item, false), Some(Err(7)));
    let item: Result<RawFrame, u32> = Ok(data("message", "hi"));
    assert_eq!(filter_item(item, false), Some(Ok(event("message", Some("hi")))));
    let item: Result<RawFrame, u32> = Ok(RawFrame::Comment);
    assert_eq!(filter_item(item, true), None);
    let item: Result<RawFrame, u32> = Ok(data("keep-alive", "x"));
    assert_eq!(filter_item(item, false), None);
}

