use mediasoup_elixir::delivery::{completion_message, event_message, message_term, ResultTag};
use mediasoup_elixir::events::{event_kind_from_name, all_events, supports_event, EventKind, ResourceKind, SubscriptionSet};
use mediasoup_elixir::executor::{pool_thread_count, worker_thread_count};
use mediasoup_elixir::json_serde::{JsonSerdeWrap, SerNumSctpStreams};
use mediasoup_elixir::logger::{ignore_log, log_enabled, proxy_record, LogLevel, NifLevel, NifLevelFilter};
use mediasoup_elixir::resource::{DisposableResourceWrapper, ResourceError, Slot};
use mediasoup_elixir::settings::{
    log_level_from_string, log_tag_from_string, log_tags_from_strings, SettingsError, WorkerLogLevel,
    WorkerLogTag, WorkerSettingsStruct, WorkerUpdateableSettingsStruct,
};
use mediasoup_elixir::text::{ends_with_text, same_text};
use mediasoup_elixir::transcode::{decode, encode, Document, Entry, Field, SchemaError, Term};
use std::sync::Arc;

fn s(x: &str) -> String {
    x.to_string()
}

fn field(name: &str, value: Document) -> Field {
    Field { name: s(name), value }
}

fn entry(key: Term, value: Term) -> Entry {
    Entry { key, value }
}

// ---- disposable handle ----

#[test]
fn wrap_then_acquire_gives_the_native_object() {
    let h = DisposableResourceWrapper::new(Arc::new(41u32));
    let got = h.get_resource().unwrap();
    assert_eq!(*got, 41);
    assert!(!h.is_disposed());
}

#[test]
fn accessor_after_dispose_is_terminated() {
    let h = DisposableResourceWrapper::new(Arc::new(String::from("router")));
    h.close();
    assert_eq!(h.get_resource().err(), Some(ResourceError::Terminated));
    assert!(h.is_disposed());
}

#[test]
fn disposal_is_monotonic() {
    let h = DisposableResourceWrapper::new(7u64);
    h.close();
    for _ in 0..100 {
        assert_eq!(h.get_resource(), Err(ResourceError::Terminated));
    }
    let other = DisposableResourceWrapper::new(8u64);
    other.close();
    assert_eq!(h.get_resource(), Err(ResourceError::Terminated));
}

#[test]
fn dispose_is_idempotent() {
    let h = DisposableResourceWrapper::new(1i32);
    for _ in 0..5 {
        h.close();
    }
    assert_eq!(h.get_resource(), Err(ResourceError::Terminated));
}

#[test]
fn in_flight_operation_survives_dispose() {
    // Wrap X, start an operation with token T1, dispose before it completes.
    let h = DisposableResourceWrapper::new(Arc::new(vec![3i128, 4]));
    let acquired = h.get_resource().unwrap();
    h.close();
    assert_eq!(h.get_resource().err(), Some(ResourceError::Terminated));
    let result = Document::Int(acquired.iter().sum());
    let m = completion_message(Term::Atom(s("t1")), Ok(result));
    assert_eq!(m.tag, ResultTag::Success);
    assert_eq!(m.token, Some(Term::Atom(s("t1"))));
    assert_eq!(m.payload, Term::Integer(7));
}

#[test]
fn slot_acquire_and_dispose() {
    let mut slot = Slot::wrap(5u8);
    assert_eq!(slot.acquire(), Ok(5));
    assert!(!slot.is_disposed());
    slot.dispose();
    slot.dispose();
    assert!(slot.is_disposed());
    assert_eq!(slot.acquire(), Err(ResourceError::Terminated));
}

// ---- event subscription ----

#[test]
fn subscribing_twice_attaches_one_listener() {
    let h = DisposableResourceWrapper::new(Arc::new(0u8));
    let (_, first) = h.subscribe(ResourceKind::Consumer, &vec![EventKind::OnClose]).unwrap();
    let (_, second) = h.subscribe(ResourceKind::Consumer, &vec![EventKind::OnClose]).unwrap();
    assert_eq!(first, vec![EventKind::OnClose]);
    assert!(second.is_empty());
    // One attached callback fires once: one "closed" message reaches the actor.
    let mut mailbox = Vec::new();
    for kind in first.iter().chain(second.iter()) {
        if *kind == EventKind::OnClose {
            mailbox.push(event_message(*kind, None));
        }
    }
    assert_eq!(mailbox.len(), 1);
    assert_eq!(mailbox[0].payload, Term::Tuple(vec![Term::Atom(s("on_close"))]));
}

#[test]
fn subscription_skips_repeats_and_unsupported_kinds() {
    let mut set = SubscriptionSet::new();
    let attach = set.subscribe(
        ResourceKind::Worker,
        &vec![EventKind::OnDead, EventKind::OnScore, EventKind::OnDead, EventKind::OnClose],
    );
    assert_eq!(attach, vec![EventKind::OnDead, EventKind::OnClose]);
    assert!(set.is_subscribed(EventKind::OnDead));
    assert!(!set.is_subscribed(EventKind::OnScore));
    let again = set.subscribe(ResourceKind::Worker, &vec![EventKind::OnClose, EventKind::OnDead]);
    assert!(again.is_empty());
}

#[test]
fn subscribe_on_disposed_handle_is_terminated() {
    let h = DisposableResourceWrapper::new(1u8);
    h.close();
    assert_eq!(
        h.subscribe(ResourceKind::Router, &vec![EventKind::OnClose]).err(),
        Some(ResourceError::Terminated)
    );
}

#[test]
fn event_names_round_trip() {
    for k in all_events() {
        assert_eq!(event_kind_from_name(k.name()), Some(k));
    }
    assert_eq!(event_kind_from_name("on_close"), Some(EventKind::OnClose));
    assert_eq!(event_kind_from_name("on_nothing"), None);
    assert_eq!(all_events().len(), 17);
    assert!(supports_event(ResourceKind::Producer, EventKind::OnVideoOrientationChange));
    assert!(!supports_event(ResourceKind::WebRtcServer, EventKind::OnClose));
}

// ---- transcoder ----

fn sample_record() -> Document {
    Document::Record(vec![
        field("id", Document::Str(s("a1"))),
        field("paused", Document::Null),
        field(
            "layers",
            Document::Sequence(vec![
                Document::Record(vec![field("spatial", Document::Int(2)), field("temporal", Document::Int(-1))]),
                Document::Record(vec![field("spatial", Document::Int(0)), field("active", Document::Bool(true))]),
            ]),
        ),
        field("score", Document::Float(s("0.5"))),
    ])
}

#[test]
fn record_with_absent_field_and_nested_records_round_trips() {
    let v = sample_record();
    let t = encode(&v);
    assert_eq!(decode(&t), Ok(sample_record()));
}

#[test]
fn encode_maps_shapes_structurally() {
    assert_eq!(encode(&Document::Null), Term::Nil);
    assert_eq!(encode(&Document::Bool(false)), Term::Boolean(false));
    assert_eq!(encode(&Document::Int(18446744073709551615)), Term::Integer(18446744073709551615));
    assert_eq!(encode(&Document::Str(s("x"))), Term::Binary(s("x")));
    assert_eq!(
        encode(&Document::Record(vec![field("k", Document::Sequence(vec![Document::Int(1)]))])),
        Term::Mapping(vec![entry(Term::Binary(s("k")), Term::List(vec![Term::Integer(1)]))])
    );
    assert_eq!(encode(&Document::Sequence(vec![])), Term::List(vec![]));
}

#[test]
fn decode_reads_atoms_tuples_and_atom_keys() {
    assert_eq!(decode(&Term::Atom(s("send_only"))), Ok(Document::Str(s("send_only"))));
    assert_eq!(
        decode(&Term::Tuple(vec![Term::Integer(-3), Term::Nil])),
        Ok(Document::Sequence(vec![Document::Int(-3), Document::Null]))
    );
    assert_eq!(
        decode(&Term::Mapping(vec![entry(Term::Atom(s("os")), Term::Integer(1024))])),
        Ok(Document::Record(vec![field("os", Document::Int(1024))]))
    );
}

#[test]
fn decode_rejects_what_has_no_document_shape() {
    assert_eq!(decode(&Term::Opaque), Err(SchemaError));
    assert_eq!(
        decode(&Term::Mapping(vec![entry(Term::Integer(1), Term::Nil)])),
        Err(SchemaError)
    );
    assert_eq!(
        decode(&Term::List(vec![Term::Integer(1), Term::Tuple(vec![Term::Opaque])])),
        Err(SchemaError)
    );
}

#[test]
fn serialize_with_flatten() {
    // A wrapped record is written exactly as the record itself.
    let value = Document::Record(vec![field("v", Document::Str(String::from("value")))]);
    let wraped = JsonSerdeWrap::new(value);
    let json = document_json(wraped.get());
    assert_eq!(String::from("{\"v\":\"value\"}"), json);
    let p = decode(&encode(wraped.get())).unwrap();
    assert_eq!(p, Document::Record(vec![field("v", Document::Str(s("value")))]));

    let value = Document::Str(String::from("value"));
    let wraped = JsonSerdeWrap::new(value);
    let json = document_json(wraped.get());
    assert_eq!(String::from("\"value\""), json);
    let p = wraped.into_inner();
    assert_eq!(Document::Str(s("value")), p);
}

fn document_json(d: &Document) -> String {
    serde_json::to_string(&to_json(d)).unwrap()
}

fn to_json(d: &Document) -> serde_json::Value {
    match d {
        Document::Null => serde_json::Value::Null,
        Document::Bool(b) => serde_json::Value::Bool(*b),
        Document::Int(n) => serde_json::Value::from(*n as i64),
        Document::Float(t) => serde_json::Value::from(t.parse::<f64>().unwrap()),
        Document::Str(t) => serde_json::Value::String(t.clone()),
        Document::Sequence(items) => serde_json::Value::Array(items.iter().map(to_json).collect()),
        Document::Record(fields) => {
            let mut m = serde_json::Map::new();
            for f in fields {
                m.insert(f.name.clone(), to_json(&f.value));
            }
            serde_json::Value::Object(m)
        }
    }
}

// ---- delivery ----

#[test]
fn each_completion_carries_its_own_token() {
    let tokens = [s("ref-a"), s("ref-b"), s("ref-c")];
    let outcomes = [Ok(Document::Int(1)), Err(s("negotiation rejected")), Ok(Document::Bool(true))];
    // Completions arrive in the order 2, 0, 1.
    let order = [2usize, 0, 1];
    let mut messages = Vec::new();
    for &i in &order {
        let outcome = match &outcomes[i] {
            Ok(Document::Int(n)) => Ok(Document::Int(*n)),
            Ok(Document::Bool(b)) => Ok(Document::Bool(*b)),
            Err(e) => Err(e.clone()),
            Ok(_) => unreachable!(),
        };
        messages.push(completion_message(Term::Atom(tokens[i].clone()), outcome));
    }
    assert_eq!(messages[0].token, Some(Term::Atom(s("ref-c"))));
    assert_eq!(messages[0].payload, Term::Boolean(true));
    assert_eq!(messages[1].token, Some(Term::Atom(s("ref-a"))));
    assert_eq!(messages[1].payload, Term::Integer(1));
    assert_eq!(messages[2].token, Some(Term::Atom(s("ref-b"))));
    assert_eq!(messages[2].tag, ResultTag::Failure);
    assert_eq!(messages[2].payload, Term::Binary(s("negotiation rejected")));
}

#[test]
fn message_term_is_tag_token_payload() {
    let m = completion_message(Term::Integer(12), Ok(Document::Null));
    assert_eq!(
        message_term(m),
        Term::Tuple(vec![Term::Atom(s("ok")), Term::Integer(12), Term::Nil])
    );
    let e = event_message(EventKind::OnScore, Some(Document::Int(10)));
    assert_eq!(e.token, None);
    assert_eq!(
        message_term(e),
        Term::Tuple(vec![
            Term::Atom(s("event")),
            Term::Nil,
            Term::Tuple(vec![Term::Atom(s("on_score")), Term::Integer(10)]),
        ])
    );
    let f = completion_message(Term::Nil, Err(s("boom")));
    assert_eq!(
        message_term(f),
        Term::Tuple(vec![Term::Atom(s("error")), Term::Nil, Term::Binary(s("boom"))])
    );
}

// ---- executor pool ----

#[test]
fn pool_has_at_least_two_threads() {
    assert_eq!(worker_thread_count(0), 2);
    assert_eq!(worker_thread_count(1), 2);
    assert_eq!(worker_thread_count(2), 2);
    assert_eq!(worker_thread_count(16), 16);
    assert!(pool_thread_count() >= 2);
}

// ---- logger ----

#[test]
fn closed_channel_records_are_dropped() {
    assert!(ignore_log("Channel already closed"));
    assert!(ignore_log("request failed: Channel already closed"));
    assert!(!ignore_log("Channel already closed!"));
    assert!(!ignore_log(""));
    assert_eq!(
        proxy_record(true, LogLevel::Error, s("w"), s("x: Channel already closed"), None, None, None),
        None
    );
    assert_eq!(proxy_record(false, LogLevel::Error, s("w"), s("hello"), None, None, None), None);
    let r = proxy_record(true, LogLevel::Trace, s("w"), s("hello"), Some(s("m")), None, Some(3)).unwrap();
    assert_eq!(r.level, NifLevel::Debug);
    assert_eq!(r.body, s("hello"));
    assert_eq!(r.line, Some(3));
}

#[test]
fn level_mapping_and_filter() {
    assert_eq!(NifLevel::from_level(LogLevel::Warn), NifLevel::Warn);
    assert_eq!(NifLevel::from_level(LogLevel::Trace), NifLevel::Debug);
    assert_eq!(NifLevelFilter::Info.rank(), 3);
    assert!(log_enabled(LogLevel::Error, NifLevelFilter::Info.rank()));
    assert!(!log_enabled(LogLevel::Info, NifLevelFilter::Info.rank()));
    assert!(!log_enabled(LogLevel::Error, NifLevelFilter::Off.rank()));
}

#[test]
fn text_helpers() {
    assert!(same_text("abc", "abc"));
    assert!(!same_text("abc", "abd"));
    assert!(!same_text("ab", "abc"));
    assert!(ends_with_text("abc", "bc"));
    assert!(ends_with_text("abc", ""));
    assert!(!ends_with_text("bc", "abc"));
}

// ---- worker settings ----

#[test]
fn log_levels_and_tags_parse() {
    assert_eq!(log_level_from_string("debug"), Ok(WorkerLogLevel::Debug));
    assert_eq!(log_level_from_string("Err"), Ok(WorkerLogLevel::Error));
    assert_eq!(log_level_from_string("none"), Ok(WorkerLogLevel::Off));
    let e = log_level_from_string("loud").unwrap_err();
    assert_eq!(e, SettingsError::InvalidLogLevel(s("loud")));
    assert_eq!(e.message(), s("invalid type loud for WorkerLogLevel"));
    assert_eq!(log_tag_from_string("simulcast"), Ok(WorkerLogTag::Simulcast));
    assert_eq!(
        log_tags_from_strings(&vec![s("ice"), s("bogus"), s("nope")]),
        Err(SettingsError::InvalidLogTag(s("bogus")))
    );
    assert_eq!(
        log_tags_from_strings(&vec![s("rtp"), s("rtcp")]),
        Ok(vec![WorkerLogTag::Rtp, WorkerLogTag::Rtcp])
    );
}

#[test]
fn worker_settings_default_and_override() {
    let empty = WorkerSettingsStruct {
        log_level: None,
        log_tags: None,
        rtc_min_port: None,
        rtc_max_port: None,
        dtls_certificate_file: None,
        dtls_private_key_file: Some(s("key.pem")),
    };
    let d = empty.try_to_setting().unwrap();
    assert_eq!(d.log_level, WorkerLogLevel::Debug);
    assert_eq!(d.log_tags.len(), 13);
    assert_eq!((d.rtc_min_port, d.rtc_max_port), (10000, 59999));
    assert!(d.dtls_files.is_none());

    let given = WorkerSettingsStruct {
        log_level: Some(JsonSerdeWrap::new(s("warn"))),
        log_tags: Some(JsonSerdeWrap::new(vec![s("info")])),
        rtc_min_port: Some(40000),
        rtc_max_port: None,
        dtls_certificate_file: Some(s("cert.pem")),
        dtls_private_key_file: Some(s("key.pem")),
    };
    let g = given.try_to_setting().unwrap();
    assert_eq!(g.log_level, WorkerLogLevel::Warn);
    assert_eq!(g.log_tags, vec![WorkerLogTag::Info]);
    assert_eq!((g.rtc_min_port, g.rtc_max_port), (40000, 59999));
    let files = g.dtls_files.unwrap();
    assert_eq!(files.certificate, s("cert.pem"));
    assert_eq!(files.private_key, s("key.pem"));

    let bad = WorkerSettingsStruct {
        log_level: Some(JsonSerdeWrap::new(s("warn"))),
        log_tags: Some(JsonSerdeWrap::new(vec![s("info"), s("x")])),
        rtc_min_port: None,
        rtc_max_port: None,
        dtls_certificate_file: None,
        dtls_private_key_file: None,
    };
    assert_eq!(bad.try_to_setting().err(), Some(SettingsError::InvalidLogTag(s("x"))));
}

#[test]
fn updateable_settings() {
    let u = WorkerUpdateableSettingsStruct { log_level: Some(JsonSerdeWrap::new(s("error"))), log_tags: None };
    let r = u.try_to_setting().unwrap();
    assert_eq!(r.log_level, Some(WorkerLogLevel::Error));
    assert_eq!(r.log_tags, None);
    let bad = WorkerUpdateableSettingsStruct { log_level: Some(JsonSerdeWrap::new(s("x"))), log_tags: None };
    assert_eq!(bad.try_to_setting().err(), Some(SettingsError::InvalidLogLevel(s("x"))));
}

#[test]
fn sctp_streams_carry_over() {
    let n = SerNumSctpStreams { os: 1024, mis: 512 }.as_streams();
    assert_eq!((n.os, n.mis), (1024, 512));
}
