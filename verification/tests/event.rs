use splits_io_api::decode::ParseError;
use splits_io_api::event::decode_frame;
use splits_io_api::event::Command;
use splits_io_api::event::ControlKind;
use splits_io_api::event::Envelope;
use splits_io_api::event::Event;
use splits_io_api::event::EventError;
use splits_io_api::event::EventKind;
use splits_io_api::event::Identifier;
use splits_io_api::event::RawMessage;
use splits_io_api::event::Tag;
use splits_io_api::json::quote;
use splits_io_api::json::Json;
use splits_io_api::schema::ChatMessage;
use splits_io_api::schema::Entry;
use splits_io_api::schema::Race;
use splits_io_api::schema::Runner;
use splits_io_api::schema::Visibility;
use splits_io_api::Uuid;

const RACE_ID: &str = "11111111-1111-1111-1111-111111111111";

fn race_channel_text() -> String {
    format!(
        "{{\"channel\":\"Api::V4::RaceChannel\",\"race_id\":\"{}\",\"join_token\":\"abc\"}}",
        RACE_ID
    )
}

fn race_channel() -> Identifier {
    Identifier::RaceChannel {
        race_id: Uuid(0x11111111_1111_1111_1111_111111111111),
        join_token: "abc".to_string(),
    }
}

fn runner_json(name: &str) -> String {
    format!(
        "{{\"avatar\":null,\"created_at\":\"2019-01-01T00:00:00Z\",\"display_name\":\"{0}\",\"id\":\"7\",\"name\":\"{0}\",\"twitch_id\":null,\"twitch_name\":null,\"updated_at\":\"2019-01-02T00:00:00Z\",\"extra\":1}}",
        name
    )
}

fn runner(name: &str) -> Runner {
    Runner {
        avatar: None,
        created_at: "2019-01-01T00:00:00Z".to_string(),
        display_name: Some(name.to_string()),
        id: "7".to_string(),
        name: name.to_string(),
        twitch_id: None,
        twitch_name: None,
        updated_at: "2019-01-02T00:00:00Z".to_string(),
    }
}

fn race_json() -> String {
    format!(
        "{{\"attachments\":[],\"category\":null,\"chat_messages\":[],\"created_at\":\"2020-01-01T00:00:00Z\",\"entries\":[{{\"created_at\":\"2020-01-01T00:00:01Z\",\"creator\":{runner},\"finished_at\":null,\"forfeited_at\":null,\"ghost\":false,\"id\":\"22222222-2222-2222-2222-222222222222\",\"readied_at\":\"2020-01-01T00:00:02Z\",\"run\":null,\"runner\":{runner},\"updated_at\":\"2020-01-01T00:00:03Z\"}}],\"game\":null,\"id\":\"{id}\",\"join_token\":null,\"notes\":\"gl hf\",\"owner\":{runner},\"path\":\"/races/1\",\"started_at\":null,\"updated_at\":\"2020-01-01T00:00:04Z\",\"visibility\":\"invite_only\"}}",
        runner = runner_json("cryze92"),
        id = RACE_ID
    )
}

fn race() -> Race {
    Race {
        attachments: vec![],
        category: None,
        chat_messages: vec![],
        created_at: "2020-01-01T00:00:00Z".to_string(),
        entries: vec![Entry {
            created_at: "2020-01-01T00:00:01Z".to_string(),
            creator: runner("cryze92"),
            finished_at: None,
            forfeited_at: None,
            is_ghost: false,
            id: Uuid(0x22222222_2222_2222_2222_222222222222),
            readied_at: Some("2020-01-01T00:00:02Z".to_string()),
            run: None,
            runner: runner("cryze92"),
            updated_at: "2020-01-01T00:00:03Z".to_string(),
        }],
        game: None,
        id: Uuid(0x11111111_1111_1111_1111_111111111111),
        join_token: None,
        notes: Some("gl hf".to_string()),
        owner: runner("cryze92"),
        path: "/races/1".to_string(),
        started_at: None,
        updated_at: "2020-01-01T00:00:04Z".to_string(),
        visibility: Visibility::InviteOnly,
    }
}

fn targeted(channel: &str, message: &str) -> String {
    format!("{{\"identifier\":{},\"message\":{}}}", quote(channel), message)
}

fn carrying(tag: &str, member: &str, payload: &str) -> String {
    targeted(
        &race_channel_text(),
        &format!(
            "{{\"type\":\"{}\",\"data\":{{\"message\":\"ok\",\"{}\":{}}}}}",
            tag, member, payload
        ),
    )
}

fn payload_error() -> EventError {
    EventError::Parse { source: ParseError::Payload }
}

#[test]
fn ping_and_welcome_yield_nothing() {
    assert_eq!(decode_frame("{\"type\":\"ping\"}"), Ok(None));
    assert_eq!(decode_frame("{\"type\":\"welcome\"}"), Ok(None));
    assert_eq!(decode_frame("{\"type\":\"ping\",\"message\":1559}"), Ok(None));
    assert_eq!(decode_frame(" { \"message\" : 1 , \"type\" : \"welcome\" } "), Ok(None));
}

#[test]
fn confirmation_yields_the_channel() {
    let frame = format!(
        "{{\"type\":\"confirm_subscription\",\"identifier\":{}}}",
        quote(&race_channel_text())
    );
    assert_eq!(
        decode_frame(&frame),
        Ok(Some(Event { identifier: race_channel(), kind: EventKind::ConfirmSubscription }))
    );
    let frame = "{\"identifier\":\"{\\\"channel\\\":\\\"Api::V4::GlobalRaceChannel\\\"}\",\"type\":\"confirm_subscription\"}";
    assert_eq!(
        decode_frame(frame),
        Ok(Some(Event {
            identifier: Identifier::GlobalRaceChannel,
            kind: EventKind::ConfirmSubscription
        }))
    );
}

#[test]
fn confirmation_of_no_channel_is_an_error() {
    let frame = "{\"type\":\"confirm_subscription\",\"identifier\":\"{\\\"channel\\\":\\\"Nope\\\"}\"}";
    assert_eq!(decode_frame(frame), Err(EventError::Parse { source: ParseError::Channel }));
    let frame = "{\"type\":\"confirm_subscription\",\"identifier\":\"{not json\"}";
    assert!(matches!(
        decode_frame(frame),
        Err(EventError::Parse { source: ParseError::Syntax { .. } })
    ));
    let frame = "{\"type\":\"confirm_subscription\"}";
    assert_eq!(decode_frame(frame), Err(EventError::Parse { source: ParseError::Envelope }));
    let frame = "{\"type\":\"confirm_subscription\",\"identifier\":5}";
    assert_eq!(decode_frame(frame), Err(EventError::Parse { source: ParseError::Envelope }));
}

#[test]
fn terminal_tags_yield_the_report() {
    let frame = |tag: &str| {
        targeted(
            &race_channel_text(),
            &format!("{{\"type\":\"{}\",\"message\":\"it went wrong\"}}", tag),
        )
    };
    let message = "it went wrong".to_string();
    assert_eq!(
        decode_frame(&frame("race_not_found")),
        Err(EventError::RaceNotFound { message: message.clone() })
    );
    assert_eq!(
        decode_frame(&frame("race_invalid_join_token")),
        Err(EventError::RaceInvalidJoinToken { message: message.clone() })
    );
    assert_eq!(
        decode_frame(&frame("fatal_error")),
        Err(EventError::FatalError { message: message.clone() })
    );
    assert_eq!(
        decode_frame(&frame("connection_error")),
        Err(EventError::ConnectionError { message: message.clone() })
    );
}

#[test]
fn terminal_tag_without_a_report_is_an_error_of_the_frame() {
    let frame = targeted(&race_channel_text(), "{\"type\":\"fatal_error\"}");
    assert_eq!(decode_frame(&frame), Err(payload_error()));
    let frame = targeted(&race_channel_text(), "{\"type\":\"fatal_error\",\"message\":7}");
    assert_eq!(decode_frame(&frame), Err(payload_error()));
}

#[test]
fn unknown_tags_are_dropped() {
    let frame = targeted(&race_channel_text(), "{\"type\":\"race_exploded\",\"data\":{}}");
    assert_eq!(decode_frame(&frame), Ok(None));
    let frame = targeted(&race_channel_text(), "{\"type\":17}");
    assert_eq!(decode_frame(&frame), Ok(None));
    let frame = targeted(&race_channel_text(), "{\"type\":null}");
    assert_eq!(decode_frame(&frame), Ok(None));
    let frame = targeted("this names no channel", "{\"type\":\"race_exploded\"}");
    assert_eq!(decode_frame(&frame), Ok(None));
}

#[test]
fn frames_of_no_shape_are_errors() {
    let envelope = Err(EventError::Parse { source: ParseError::Envelope });
    assert_eq!(decode_frame("{}"), envelope);
    assert_eq!(decode_frame("[]"), envelope);
    assert_eq!(decode_frame("\"ping\""), envelope);
    assert_eq!(decode_frame("{\"type\":\"pong\"}"), envelope);
    assert_eq!(decode_frame("{\"type\":\"ping\",\"identifier\":\"x\"}"), envelope);
    assert_eq!(decode_frame("{\"identifier\":\"x\"}"), envelope);
    assert_eq!(decode_frame("{\"identifier\":\"x\",\"message\":\"text\"}"), envelope);
    assert_eq!(decode_frame("{\"identifier\":\"x\",\"message\":{}}"), envelope);
    assert_eq!(decode_frame("{\"identifier\":7,\"message\":{\"type\":\"x\"}}"), envelope);
    assert!(matches!(
        decode_frame("{\"type\":"),
        Err(EventError::Parse { source: ParseError::Syntax { .. } })
    ));
}

#[test]
fn shapes_are_tried_in_order() {
    // A confirmation stays one, whatever else the frame holds.
    let frame = format!(
        "{{\"type\":\"confirm_subscription\",\"identifier\":{},\"message\":{{\"type\":\"fatal_error\",\"message\":\"m\"}}}}",
        quote(&race_channel_text())
    );
    assert_eq!(
        decode_frame(&frame),
        Ok(Some(Event { identifier: race_channel(), kind: EventKind::ConfirmSubscription }))
    );
    // A ping that names a channel is no control frame: the message decides.
    let frame = format!(
        "{{\"type\":\"ping\",\"identifier\":{},\"message\":{{\"type\":\"fatal_error\",\"message\":\"m\"}}}}",
        quote(&race_channel_text())
    );
    assert_eq!(decode_frame(&frame), Err(EventError::FatalError { message: "m".to_string() }));
}

#[test]
fn targeted_frame_with_a_bad_channel_is_an_error() {
    let frame = targeted("{\"channel\":\"Elsewhere\"}", "{\"type\":\"fatal_error\",\"message\":\"m\"}");
    assert_eq!(decode_frame(&frame), Err(EventError::Parse { source: ParseError::Channel }));
    let frame = targeted("{", "{\"type\":\"fatal_error\",\"message\":\"m\"}");
    assert!(matches!(
        decode_frame(&frame),
        Err(EventError::Parse { source: ParseError::Syntax { .. } })
    ));
    let frame = targeted(
        "{\"channel\":\"Api::V4::RaceChannel\",\"race_id\":\"1\",\"join_token\":\"abc\"}",
        "{\"type\":\"fatal_error\",\"message\":\"m\"}",
    );
    assert_eq!(decode_frame(&frame), Err(EventError::Parse { source: ParseError::Channel }));
    let frame = targeted(
        "{\"channel\":\"Api::V4::RaceChannel\",\"race_id\":\"11111111-1111-1111-1111-111111111111\"}",
        "{\"type\":\"fatal_error\",\"message\":\"m\"}",
    );
    assert_eq!(decode_frame(&frame), Err(EventError::Parse { source: ParseError::Channel }));
}

#[test]
fn race_updated_yields_the_race() {
    let frame = carrying("race_updated", "race", &race_json());
    assert_eq!(
        decode_frame(&frame),
        Ok(Some(Event { identifier: race_channel(), kind: EventKind::RaceUpdated(race()) }))
    );
}

#[test]
fn every_race_tag_yields_its_kind() {
    let decode = |tag: &str| decode_frame(&carrying(tag, "race", &race_json())).unwrap().unwrap();
    assert_eq!(decode("race_created").kind, EventKind::RaceCreated(race()));
    assert_eq!(decode("new_attachment").kind, EventKind::NewAttachment(race()));
    assert_eq!(decode("race_state").kind, EventKind::RaceState(race()));
    assert_eq!(decode("race_start_scheduled").kind, EventKind::RaceStartScheduled(Some(race())));
    assert_eq!(decode("race_ended").kind, EventKind::RaceEnded(Some(race())));
    assert_eq!(decode("race_entries_updated").kind, EventKind::RaceEntriesUpdated(Some(race())));
    assert_eq!(decode("race_created").identifier, race_channel());
}

#[test]
fn global_state_yields_the_races() {
    let frame = targeted(
        "{\"channel\":\"Api::V4::GlobalRaceChannel\"}",
        &format!(
            "{{\"type\":\"global_state\",\"data\":{{\"message\":\"Global race state\",\"races\":[{0},{0}]}}}}",
            race_json()
        ),
    );
    assert_eq!(
        decode_frame(&frame),
        Ok(Some(Event {
            identifier: Identifier::GlobalRaceChannel,
            kind: EventKind::GlobalState(vec![race(), race()])
        }))
    );
    let frame = targeted(
        "{\"channel\":\"Api::V4::GlobalRaceChannel\"}",
        "{\"type\":\"global_state\",\"data\":{\"message\":\"m\",\"races\":[]}}",
    );
    assert_eq!(
        decode_frame(&frame),
        Ok(Some(Event {
            identifier: Identifier::GlobalRaceChannel,
            kind: EventKind::GlobalState(vec![])
        }))
    );
}

#[test]
fn new_message_yields_the_chat_message() {
    let chat = format!(
        "{{\"body\":\"hello\",\"created_at\":\"a\",\"from_entrant\":true,\"updated_at\":\"b\",\"user\":{}}}",
        runner_json("glacials")
    );
    let expected = ChatMessage {
        body: "hello".to_string(),
        created_at: "a".to_string(),
        from_entrant: true,
        updated_at: "b".to_string(),
        user: runner("glacials"),
    };
    let frame = carrying("new_message", "chat_message", &chat);
    assert_eq!(
        decode_frame(&frame),
        Ok(Some(Event { identifier: race_channel(), kind: EventKind::NewMessage(expected) }))
    );
}

#[test]
fn payload_is_found_under_each_of_its_names() {
    for member in ["race", "races", "chat_message"] {
        let frame = carrying("race_updated", member, &race_json());
        assert_eq!(
            decode_frame(&frame),
            Ok(Some(Event { identifier: race_channel(), kind: EventKind::RaceUpdated(race()) }))
        );
    }
    let frame = carrying("race_updated", "payload", &race_json());
    assert_eq!(decode_frame(&frame), Err(payload_error()));
}

#[test]
fn payload_names_are_tried_in_order() {
    // `race` holds no race, so the race under `races` is taken.
    let frame = targeted(
        &race_channel_text(),
        &format!(
            "{{\"type\":\"race_updated\",\"data\":{{\"message\":\"ok\",\"races\":{},\"race\":5}}}}",
            race_json()
        ),
    );
    assert_eq!(
        decode_frame(&frame),
        Ok(Some(Event { identifier: race_channel(), kind: EventKind::RaceUpdated(race()) }))
    );
    // Both hold one: the one under `race` is taken.
    let other = race_json().replace("gl hf", "other");
    let frame = targeted(
        &race_channel_text(),
        &format!(
            "{{\"type\":\"race_updated\",\"data\":{{\"message\":\"ok\",\"races\":{},\"race\":{}}}}}",
            other,
            race_json()
        ),
    );
    assert_eq!(
        decode_frame(&frame),
        Ok(Some(Event { identifier: race_channel(), kind: EventKind::RaceUpdated(race()) }))
    );
}

#[test]
fn optional_race_may_be_absent() {
    for tag in ["race_start_scheduled", "race_ended", "race_entries_updated"] {
        let absent = targeted(
            &race_channel_text(),
            &format!("{{\"type\":\"{}\",\"data\":{{\"message\":\"ok\"}}}}", tag),
        );
        let null = carrying(tag, "race", "null");
        for frame in [absent, null] {
            let event = decode_frame(&frame).unwrap().unwrap();
            assert_eq!(event.identifier, race_channel());
            let kind = match tag {
                "race_start_scheduled" => EventKind::RaceStartScheduled(None),
                "race_ended" => EventKind::RaceEnded(None),
                _ => EventKind::RaceEntriesUpdated(None),
            };
            assert_eq!(event.kind, kind);
        }
        let broken = carrying(tag, "race", "{\"id\":1}");
        assert_eq!(decode_frame(&broken), Err(payload_error()));
    }
}

#[test]
fn required_race_may_not_be_absent() {
    let frame = targeted(
        &race_channel_text(),
        "{\"type\":\"race_updated\",\"data\":{\"message\":\"ok\"}}",
    );
    assert_eq!(decode_frame(&frame), Err(payload_error()));
    let frame = carrying("race_updated", "race", "null");
    assert_eq!(decode_frame(&frame), Err(payload_error()));
    let frame = targeted(&race_channel_text(), "{\"type\":\"race_updated\"}");
    assert_eq!(decode_frame(&frame), Err(payload_error()));
    let frame = targeted(
        &race_channel_text(),
        &format!("{{\"type\":\"race_updated\",\"data\":{{\"race\":{}}}}}", race_json()),
    );
    assert_eq!(decode_frame(&frame), Err(payload_error()));
}

#[test]
fn decode_frame_is_repeatable() {
    let frames = [
        "{\"type\":\"ping\"}".to_string(),
        carrying("race_updated", "race", &race_json()),
        targeted(&race_channel_text(), "{\"type\":\"fatal_error\",\"message\":\"m\"}"),
        "{\"type\":".to_string(),
        "{}".to_string(),
    ];
    for frame in frames.iter() {
        assert_eq!(decode_frame(frame), decode_frame(frame));
    }
}

#[test]
fn identifier_round_trips_through_its_wire_string() {
    for token in ["abc", "", "with \"quotes\" and \\ and \n", "ünï"] {
        for id in [0u128, 0x11111111_1111_1111_1111_111111111111, u128::MAX] {
            let identifier =
                Identifier::RaceChannel { race_id: Uuid(id), join_token: token.to_string() };
            assert_eq!(Identifier::parse(&identifier.encode()), Ok(identifier));
        }
    }
    assert_eq!(
        Identifier::parse(&Identifier::GlobalRaceChannel.encode()),
        Ok(Identifier::GlobalRaceChannel)
    );
}

#[test]
fn identifier_is_written_as_the_service_writes_it() {
    assert_eq!(
        Identifier::GlobalRaceChannel.encode(),
        "{\"channel\":\"Api::V4::GlobalRaceChannel\"}"
    );
    assert_eq!(race_channel().encode(), race_channel_text());
}

#[test]
fn identifier_is_read_whatever_the_order_of_its_members() {
    let text = format!(
        "{{\"join_token\":\"abc\",\"race_id\":\"{}\",\"more\":[1],\"channel\":\"Api::V4::RaceChannel\"}}",
        RACE_ID
    );
    assert_eq!(Identifier::parse(&text), Ok(race_channel()));
    assert_eq!(
        Identifier::parse("{\"channel\":\"Api::V4::GlobalRaceChannel\",\"race_id\":5}"),
        Ok(Identifier::GlobalRaceChannel)
    );
    assert_eq!(Identifier::parse("{\"channel\":5}"), Err(ParseError::Channel));
    assert_eq!(Identifier::parse("[]"), Err(ParseError::Channel));
    assert!(matches!(Identifier::parse("nope"), Err(ParseError::Syntax { .. })));
}

#[test]
fn subscribe_to_the_global_channel_is_this_frame() {
    let command = Command::Subscribe { identifier: Identifier::GlobalRaceChannel };
    assert_eq!(
        command.encode(),
        "{\"command\":\"subscribe\",\"identifier\":\"{\\\"channel\\\":\\\"Api::V4::GlobalRaceChannel\\\"}\"}"
    );
}

#[test]
fn subscribe_to_a_race_names_it_in_a_string() {
    let command = Command::Subscribe { identifier: race_channel() };
    let frame = command.encode();
    assert_eq!(
        frame,
        "{\"command\":\"subscribe\",\"identifier\":\"{\\\"channel\\\":\\\"Api::V4::RaceChannel\\\",\\\"race_id\\\":\\\"11111111-1111-1111-1111-111111111111\\\",\\\"join_token\\\":\\\"abc\\\"}\"}"
    );
    let doc = Json::parse(&frame).unwrap();
    assert_eq!(doc.field("command"), Some(&Json::Text("subscribe".to_string())));
    match doc.field("identifier") {
        Some(Json::Text(channel)) => assert_eq!(Identifier::parse(channel), Ok(race_channel())),
        other => panic!("the channel is no string: {:?}", other),
    }
}

#[test]
fn tags_are_found_by_their_names() {
    let names = [
        ("race_created", Tag::RaceCreated),
        ("global_state", Tag::GlobalState),
        ("race_updated", Tag::RaceUpdated),
        ("new_message", Tag::NewMessage),
        ("new_attachment", Tag::NewAttachment),
        ("race_state", Tag::RaceState),
        ("race_not_found", Tag::RaceNotFound),
        ("race_invalid_join_token", Tag::RaceInvalidJoinToken),
        ("race_start_scheduled", Tag::RaceStartScheduled),
        ("race_ended", Tag::RaceEnded),
        ("race_entries_updated", Tag::RaceEntriesUpdated),
        ("fatal_error", Tag::FatalError),
        ("connection_error", Tag::ConnectionError),
    ];
    for (name, tag) in names {
        assert_eq!(Tag::from_name(name), Some(tag));
    }
    assert_eq!(Tag::from_name("ping"), None);
    assert_eq!(Tag::from_name("Race_Created"), None);
    assert_eq!(Tag::from_name(""), None);
}

#[test]
fn envelope_tells_the_three_shapes_apart() {
    let ping = Json::parse("{\"type\":\"ping\"}").unwrap();
    assert_eq!(Envelope::decode(&ping), Ok(Envelope::Control(ControlKind::Ping)));
    let welcome = Json::parse("{\"type\":\"welcome\"}").unwrap();
    assert_eq!(Envelope::decode(&welcome), Ok(Envelope::Control(ControlKind::Welcome)));
    let body = Json::parse("{\"type\":\"race_ended\",\"data\":{\"message\":\"m\"}}").unwrap();
    let frame = Json::Object(vec![
        ("identifier".to_string(), Json::Text(race_channel_text())),
        ("message".to_string(), Json::parse("{\"type\":\"race_ended\",\"data\":{\"message\":\"m\"}}").unwrap()),
    ]);
    assert_eq!(
        Envelope::decode(&frame),
        Ok(Envelope::Targeted(race_channel(), RawMessage { tag: Tag::RaceEnded, body: &body }))
    );
    let unknown = Json::parse("{\"identifier\":\"x\",\"message\":{\"type\":\"x\"}}").unwrap();
    assert_eq!(Envelope::decode(&unknown), Ok(Envelope::UnknownTargeted));
    assert_eq!(Envelope::decode(&Json::Null), Err(ParseError::Envelope));
}

#[test]
fn classify_reads_what_a_message_tells() {
    let body = Json::parse("{\"type\":\"race_ended\",\"data\":{\"message\":\"m\"}}").unwrap();
    assert_eq!(
        (RawMessage { tag: Tag::RaceEnded, body: &body }).classify(),
        Ok(EventKind::RaceEnded(None))
    );
    // The tag decides, not the name under `type`.
    assert_eq!(
        (RawMessage { tag: Tag::RaceStartScheduled, body: &body }).classify(),
        Ok(EventKind::RaceStartScheduled(None))
    );
    assert_eq!(
        (RawMessage { tag: Tag::RaceUpdated, body: &body }).classify(),
        Err(payload_error())
    );
    let report = Json::parse("{\"message\":\"gone\"}").unwrap();
    assert_eq!(
        (RawMessage { tag: Tag::RaceNotFound, body: &report }).classify(),
        Err(EventError::RaceNotFound { message: "gone".to_string() })
    );
}

#[test]
fn convert_drops_what_does_not_concern_the_reader() {
    assert_eq!(Envelope::Control(ControlKind::Ping).convert(), Ok(None));
    assert_eq!(Envelope::Control(ControlKind::Welcome).convert(), Ok(None));
    assert_eq!(Envelope::UnknownTargeted.convert(), Ok(None));
    assert_eq!(
        Envelope::Control(ControlKind::ConfirmSubscription(race_channel())).convert(),
        Ok(Some(Event { identifier: race_channel(), kind: EventKind::ConfirmSubscription }))
    );
}

#[test]
fn event_errors_say_what_went_wrong() {
    assert_eq!(EventError::RaceNotFound { message: "a".to_string() }.message(), "a");
    assert_eq!(EventError::RaceInvalidJoinToken { message: "b".to_string() }.message(), "b");
    assert_eq!(EventError::FatalError { message: "c".to_string() }.message(), "c");
    assert_eq!(EventError::ConnectionError { message: "d".to_string() }.message(), "d");
    assert_eq!(
        EventError::Parse { source: ParseError::Envelope }.message(),
        "The message could not be parsed."
    );
    assert_eq!(
        EventError::Receive { source: "closed".to_string() }.message(),
        "Failed to receive the message."
    );
}
