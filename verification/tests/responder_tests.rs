use streamer2::commands::{ClientMessage, StreamingResponse};
use streamer2::control::LoopControl;
use streamer2::responder::{
    get_last_message_id, plan_deliveries, response_delivery, response_payloads,
    response_stream_id, ReplyAction, ResponderEvent, ResponderLoop, StreamEntry, StreamKey,
    StreamReadReply, LATEST_ENTRY_CURSOR, READ_BLOCK_MS, READ_COUNT, RESPONSE_FIELD,
};

fn s(x: &str) -> String {
    x.to_string()
}

fn entry(id: &str, fields: &[(&str, Option<&str>)]) -> StreamEntry {
    StreamEntry {
        id: s(id),
        fields: fields.iter().map(|(k, v)| (s(k), v.map(s))).collect(),
    }
}

fn sample_reply() -> StreamReadReply {
    StreamReadReply {
        keys: vec![
            StreamKey {
                key: s("streaming_tasks_queue:responses:i1"),
                ids: vec![
                    entry("1-0", &[("json", Some("{\"a\":1}"))]),
                    entry("2-0", &[("other", Some("x")), ("json", None)]),
                ],
            },
            StreamKey {
                key: s("second"),
                ids: vec![entry("9-0", &[("other", Some("y"))])],
            },
        ],
    }
}

#[test]
fn constants_of_the_response_stream() {
    assert_eq!(LATEST_ENTRY_CURSOR, "$");
    assert_eq!(RESPONSE_FIELD, "json");
    assert_eq!(READ_BLOCK_MS, 500);
    assert_eq!(READ_COUNT, 20);
}

#[test]
fn stream_id_names_the_instance() {
    assert_eq!(response_stream_id(&s("abc")), "streaming_tasks_queue:responses:abc");
    assert_eq!(response_stream_id(&s("")), "streaming_tasks_queue:responses:");
}

#[test]
fn entry_field_lookup() {
    let e = entry("1-0", &[("a", Some("x")), ("json", Some("doc")), ("json", Some("later"))]);
    assert_eq!(e.field(&s("json")), Some(s("doc")));
    assert_eq!(e.field(&s("a")), Some(s("x")));
    assert_eq!(e.field(&s("missing")), None);
    let f = entry("1-0", &[("json", None)]);
    assert_eq!(f.field(&s("json")), None);
}

#[test]
fn payloads_follow_entries_in_order() {
    let p = response_payloads(&sample_reply());
    assert_eq!(p, vec![Some(s("{\"a\":1}")), None, None]);
    assert_eq!(response_payloads(&StreamReadReply { keys: vec![] }), Vec::<Option<String>>::new());
}

#[test]
fn last_message_id_is_from_first_stream() {
    assert_eq!(get_last_message_id(&sample_reply()), Some(s("2-0")));
    assert_eq!(get_last_message_id(&StreamReadReply { keys: vec![] }), None);
    let first_empty = StreamReadReply {
        keys: vec![
            StreamKey { key: s("k"), ids: vec![] },
            StreamKey { key: s("k2"), ids: vec![entry("5-0", &[])] },
        ],
    };
    assert_eq!(get_last_message_id(&first_empty), None);
}

#[test]
fn delivery_goes_to_named_client() {
    let (cid, msg) = response_delivery(StreamingResponse { client_id: s("c1"), translated: s("hola") });
    assert_eq!(cid, "c1");
    assert_eq!(msg, ClientMessage::SendTextResponse(s("hola")));
}

#[test]
fn plan_delivers_readable_and_reports_others() {
    let reply = sample_reply();
    let responses = vec![
        Some(StreamingResponse { client_id: s("c1"), translated: s("t1") }),
        None,
        Some(StreamingResponse { client_id: s("c2"), translated: s("t2") }),
    ];
    let actions = plan_deliveries(&reply, &responses);
    assert_eq!(
        actions,
        vec![
            ReplyAction::Deliver { client_id: s("c1"), message: ClientMessage::SendTextResponse(s("t1")) },
            ReplyAction::Unreadable { entry_id: s("2-0") },
            ReplyAction::Unreadable { entry_id: s("9-0") },
        ]
    );
}

#[test]
fn plan_reports_entries_without_response_field() {
    let reply = StreamReadReply {
        keys: vec![StreamKey {
            key: s("k"),
            ids: vec![
                entry("1-0", &[("other", Some("x"))]),
                entry("2-0", &[("json", Some("{}"))]),
            ],
        }],
    };
    let responses = vec![
        Some(StreamingResponse { client_id: s("c1"), translated: s("t1") }),
        None,
    ];
    assert_eq!(
        plan_deliveries(&reply, &responses),
        vec![
            ReplyAction::Unreadable { entry_id: s("1-0") },
            ReplyAction::Unreadable { entry_id: s("2-0") },
        ]
    );
}

#[test]
fn responder_loop_moves_cursor_and_stops() {
    let mut l = ResponderLoop::new(&s("inst"));
    assert_eq!(l.stream_id, "streaming_tasks_queue:responses:inst");
    assert_eq!(l.read_cursor, "$");
    assert_eq!(l.step(&ResponderEvent::Replied(sample_reply())), LoopControl::Continue);
    assert_eq!(l.read_cursor, "2-0");
    assert_eq!(l.step(&ResponderEvent::Replied(StreamReadReply { keys: vec![] })), LoopControl::Continue);
    assert_eq!(l.read_cursor, "2-0");
    assert_eq!(l.step(&ResponderEvent::ReadFailed), LoopControl::Stop);
    assert_eq!(l.step(&ResponderEvent::ShutdownClosed), LoopControl::Stop);
    assert_eq!(l.read_cursor, "2-0");
    assert_eq!(l.stream_id, "streaming_tasks_queue:responses:inst");
}

#[test]
fn cursor_ignores_later_streams_when_first_is_empty() {
    let mut l = ResponderLoop::new(&s("inst"));
    let reply = StreamReadReply {
        keys: vec![
            StreamKey { key: s("k"), ids: vec![] },
            StreamKey { key: s("k2"), ids: vec![entry("5-0", &[("json", Some("{}"))])] },
        ],
    };
    assert_eq!(l.step(&ResponderEvent::Replied(reply)), LoopControl::Continue);
    assert_eq!(l.read_cursor, "$");
}
