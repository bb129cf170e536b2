use splits_io_api::category;
use splits_io_api::client::check_response;
use splits_io_api::client::decode_response;
use splits_io_api::client::DownloadError;
use splits_io_api::decode::ParseError;
use splits_io_api::game;
use splits_io_api::race;
use splits_io_api::race::JoinAs;
use splits_io_api::race::Settings;
use splits_io_api::race::Timestamp;
use splits_io_api::race::Update;
use splits_io_api::race::UpdateSettings;
use splits_io_api::request::Address;
use splits_io_api::request::Method;
use splits_io_api::request::Request;
use splits_io_api::run;
use splits_io_api::run::RunWriter;
use splits_io_api::run::UploadResponse;
use splits_io_api::run::UploadedRun;
use splits_io_api::runner;
use splits_io_api::wrapper::ContainsCategory;
use splits_io_api::Category;
use splits_io_api::Client;
use splits_io_api::Error;
use splits_io_api::Uuid;
use splits_io_api::Visibility;
use splits_io_api::decode::Decode;
use splits_io_api::json::Json;

const RACE: Uuid = Uuid(0x11111111_1111_1111_1111_111111111111);
const ENTRY: Uuid = Uuid(0x22222222_2222_2222_2222_222222222222);

fn url(request: &Request) -> String {
    request.address.url().unwrap()
}

#[test]
fn lifecycle_requests_touch_one_timestamp_each() {
    let address =
        "https://splits.io/api/v4/races/11111111-1111-1111-1111-111111111111/entries/22222222-2222-2222-2222-222222222222";
    let cases = [
        (race::ready_up(RACE, ENTRY), "{\"entry\":{\"readied_at\":\"now\"}}"),
        (race::unready(RACE, ENTRY), "{\"entry\":{\"readied_at\":null}}"),
        (race::finish(RACE, ENTRY), "{\"entry\":{\"finished_at\":\"now\"}}"),
        (race::undo_finish(RACE, ENTRY), "{\"entry\":{\"finished_at\":null}}"),
        (race::forfeit(RACE, ENTRY), "{\"entry\":{\"forfeited_at\":\"now\"}}"),
        (race::undo_forfeit(RACE, ENTRY), "{\"entry\":{\"forfeited_at\":null}}"),
    ];
    for (request, body) in cases {
        assert_eq!(request.method, Method::Patch);
        assert_eq!(url(&request), address);
        assert_eq!(request.body.as_deref(), Some(body));
        assert!(request.headers.is_empty());
    }
    assert_eq!(
        race::update_entry(RACE, ENTRY, Timestamp::FinishedAt, true),
        race::finish(RACE, ENTRY)
    );
}

#[test]
fn race_requests_go_where_they_belong() {
    let base = "https://splits.io/api/v4/races";
    let one = format!("{}/11111111-1111-1111-1111-111111111111", base);
    let request = race::get_active();
    assert_eq!((request.method, url(&request), request.body), (Method::Get, base.to_string(), None));
    let request = race::get(RACE);
    assert_eq!((request.method, url(&request), request.body), (Method::Get, one.clone(), None));
    let request = race::get_entries(RACE);
    assert_eq!((request.method, url(&request)), (Method::Get, format!("{}/entries", one)));
    let request = race::get_entry(RACE);
    assert_eq!((request.method, url(&request)), (Method::Get, format!("{}/entry", one)));
    let request = race::get_chat(RACE);
    assert_eq!((request.method, url(&request)), (Method::Get, format!("{}/chat", one)));
    let request = race::leave(RACE, ENTRY);
    assert_eq!(
        (request.method, url(&request), request.body),
        (Method::Delete, format!("{}/entries/22222222-2222-2222-2222-222222222222", one), None)
    );
    let request = race::send_chat_message(RACE, "gl \"hf\"");
    assert_eq!((request.method, url(&request)), (Method::Post, format!("{}/chat", one)));
    assert_eq!(
        request.body.as_deref(),
        Some("{\"chat_message\":{\"body\":\"gl \\\"hf\\\"\"}}")
    );
}

#[test]
fn join_names_the_token_and_the_ghost() {
    let entries = "https://splits.io/api/v4/races/11111111-1111-1111-1111-111111111111/entries";
    let request = race::join(RACE, JoinAs::Myself, None);
    assert_eq!((request.method, url(&request)), (Method::Post, entries.to_string()));
    assert_eq!(request.body.as_deref(), Some("{}"));
    let request = race::join(RACE, JoinAs::Myself, Some("abc"));
    assert_eq!(request.body.as_deref(), Some("{\"join_token\":\"abc\"}"));
    let request = race::join(RACE, JoinAs::GhostOf("4cg"), None);
    assert_eq!(request.body.as_deref(), Some("{\"entry\":{\"run_id\":\"4cg\"}}"));
    let request = race::join(RACE, JoinAs::GhostOf("4cg"), Some("abc"));
    assert_eq!(
        request.body.as_deref(),
        Some("{\"join_token\":\"abc\",\"entry\":{\"run_id\":\"4cg\"}}")
    );
}

#[test]
fn settings_name_what_is_given() {
    assert_eq!(Settings::default().body(), "{}");
    let settings = Settings {
        game_id: Some("portal"),
        category_id: None,
        notes: Some("a \"note\""),
        visibility: Some(Visibility::Secret),
    };
    assert_eq!(
        settings.body(),
        "{\"game_id\":\"portal\",\"notes\":\"a \\\"note\\\"\",\"visibility\":\"secret\"}"
    );
    let request = race::create(settings);
    assert_eq!((request.method, url(&request)), (Method::Post, "https://splits.io/api/v4/races".to_string()));
    assert_eq!(
        request.body.as_deref(),
        Some("{\"game_id\":\"portal\",\"notes\":\"a \\\"note\\\"\",\"visibility\":\"secret\"}")
    );
    let all = Settings {
        game_id: Some("g"),
        category_id: Some("c"),
        notes: Some("n"),
        visibility: Some(Visibility::InviteOnly),
    };
    assert_eq!(
        all.body(),
        "{\"game_id\":\"g\",\"category_id\":\"c\",\"notes\":\"n\",\"visibility\":\"invite_only\"}"
    );
}

#[test]
fn update_settings_keep_clear_or_change() {
    assert_eq!(UpdateSettings::default().body(), "{}");
    let settings = UpdateSettings {
        game_id: Update::Clear,
        category_id: Update::Change("any"),
        notes: Update::Keep,
        visibility: Some(Visibility::Public),
    };
    assert_eq!(
        settings.body(),
        "{\"game_id\":null,\"category_id\":\"any\",\"visibility\":\"public\"}"
    );
    let request = race::update(RACE, settings);
    assert_eq!(request.method, Method::Patch);
    assert_eq!(
        url(&request),
        "https://splits.io/api/v4/races/11111111-1111-1111-1111-111111111111"
    );
    assert!(Update::<&str>::Keep.is_keep());
    assert!(!Update::<&str>::Clear.is_keep());
    assert!(!Update::Change("x").is_keep());
    assert!(Update::<u8>::default().is_keep());
}

#[test]
fn addresses_encode_their_segments() {
    let request = runner::get("a b/c%d");
    assert_eq!(url(&request), "https://splits.io/api/v4/runners/a%20b%2Fc%25d");
    let request = runner::get_pbs("cryze92");
    assert_eq!(url(&request), "https://splits.io/api/v4/runners/cryze92/pbs");
    let request = runner::search("a&b c");
    assert_eq!(url(&request), "https://splits.io/api/v4/runners?search=a%26b+c");
    let address = Address::new("https://splits.io/api/v4/runs").segment("..").segment("x");
    assert_eq!(address.url().unwrap(), "https://splits.io/api/v4/runs/x");
}

#[test]
fn addresses_that_are_no_base_have_no_text() {
    assert_eq!(Address::new("not an address").segment("x").url(), None);
    assert_eq!(Address::new("mailto:someone@example.org").segment("x").url(), None);
    assert_eq!(Address::new("").url(), None);
    let mut address = Address::new("https://splits.io");
    for _ in 0..17 {
        address = address.segment("x");
    }
    assert_eq!(address.url(), None);
}

#[test]
fn runner_game_and_category_requests() {
    assert_eq!(url(&runner::myself()), "https://splits.io/api/v4/runner");
    assert_eq!(url(&runner::get_runs("x")), "https://splits.io/api/v4/runners/x/runs");
    assert_eq!(url(&runner::get_games("x")), "https://splits.io/api/v4/runners/x/games");
    assert_eq!(url(&runner::get_categories("x")), "https://splits.io/api/v4/runners/x/categories");
    assert_eq!(url(&game::search("port al")), "https://splits.io/api/v4/games?search=port+al");
    assert_eq!(url(&game::get("portal")), "https://splits.io/api/v4/games/portal");
    assert_eq!(url(&game::get_categories("portal")), "https://splits.io/api/v4/games/portal/categories");
    assert_eq!(url(&game::get_runs("portal")), "https://splits.io/api/v4/games/portal/runs");
    assert_eq!(url(&game::get_runners("portal")), "https://splits.io/api/v4/games/portal/runners");
    assert_eq!(url(&category::get("40")), "https://splits.io/api/v4/categories/40");
    assert_eq!(url(&category::get_runners("40")), "https://splits.io/api/v4/categories/40/runners");
    assert_eq!(url(&category::get_runs("40")), "https://splits.io/api/v4/categories/40/runs");
    for request in [runner::myself(), game::get("x"), category::get_runs("y")] {
        assert_eq!(request.method, Method::Get);
        assert_eq!(request.body, None);
        assert!(request.headers.is_empty());
    }
}

#[test]
fn run_requests() {
    let request = run::get("4cg", false);
    assert_eq!((request.method, url(&request)), (Method::Get, "https://splits.io/api/v4/runs/4cg".to_string()));
    let request = run::get("4cg", true);
    assert_eq!(url(&request), "https://splits.io/api/v4/runs/4cg?historic=1");
    let request = run::download("4cg");
    assert_eq!(url(&request), "https://splits.io/api/v4/runs/4cg");
    assert_eq!(
        request.headers,
        vec![("accept".to_string(), "application/original-timer".to_string())]
    );
    let request = run::upload();
    assert_eq!((request.method, url(&request)), (Method::Post, "https://splits.io/api/v4/runs".to_string()));
}

#[test]
fn uploaded_run_has_its_addresses() {
    let uploaded = UploadedRun { id: "4cg".to_string(), claim_token: "t&k".to_string() };
    assert_eq!(uploaded.public_url().url().unwrap(), "https://splits.io/4cg");
    assert_eq!(uploaded.claim_url().url().unwrap(), "https://splits.io/4cg?claim_token=t%26k");
    assert_eq!(url(&uploaded.get(true)), "https://splits.io/api/v4/runs/4cg?historic=1");
}

#[test]
fn upload_fills_in_the_form() {
    let text = "{\"id\":\"4cg\",\"claim_token\":\"tok\",\"presigned_request\":{\"method\":\"POST\",\"uri\":\"https://s3.example.org\",\"fields\":{\"key\":\"k\",\"policy\":\"p\",\"x-amz-credential\":\"c\",\"x-amz-algorithm\":\"a\",\"x-amz-date\":\"d\",\"x-amz-signature\":\"s\"}}}";
    let response = UploadResponse::from_json(&Json::parse(text).unwrap()).unwrap();
    let (form, uploaded) = response.form(vec![1, 2, 3]);
    assert_eq!(form.uri, "https://s3.example.org");
    let pair = |a: &str, b: &str| (a.to_string(), b.to_string());
    assert_eq!(
        form.fields,
        vec![
            pair("key", "k"),
            pair("policy", "p"),
            pair("x-amz-credential", "c"),
            pair("x-amz-algorithm", "a"),
            pair("x-amz-date", "d"),
            pair("x-amz-signature", "s"),
        ]
    );
    assert_eq!(form.file, vec![1, 2, 3]);
    assert_eq!(uploaded, UploadedRun { id: "4cg".to_string(), claim_token: "tok".to_string() });
    let broken = text.replace("x-amz-date", "x-amz-day");
    assert_eq!(UploadResponse::from_json(&Json::parse(&broken).unwrap()), None);
}

#[test]
fn run_writer_keeps_what_is_written() {
    let mut writer = RunWriter::new();
    assert_eq!(writer.write(&[1, 2]), 2);
    assert_eq!(writer.write(&[]), 0);
    writer.flush();
    assert_eq!(writer.write(&[3]), 1);
    assert_eq!(writer.into_bytes(), vec![1, 2, 3]);
}

#[test]
fn client_sends_its_token_as_a_bearer() {
    let mut client = Client::new();
    let request = client.authorize(runner::myself());
    assert!(request.headers.is_empty());
    client.set_access_token("secret");
    let request = client.authorize(run::download("4cg"));
    assert_eq!(
        request.headers,
        vec![
            ("accept".to_string(), "application/original-timer".to_string()),
            ("authorization".to_string(), "Bearer secret".to_string()),
        ]
    );
    client.set_access_token("other");
    let request = client.authorize(runner::myself());
    assert_eq!(
        request.headers,
        vec![("authorization".to_string(), "Bearer other".to_string())]
    );
    assert_eq!(Client::default(), Client::new());
}

#[test]
fn answers_are_checked_by_their_status() {
    assert_eq!(check_response(200, "anything"), Ok(()));
    assert_eq!(check_response(299, ""), Ok(()));
    assert_eq!(check_response(300, ""), Err(Error::Status { status: 300 }));
    assert_eq!(check_response(199, "{}"), Err(Error::Status { status: 199 }));
    assert_eq!(
        check_response(404, "{\"error\":\"No run found.\"}"),
        Err(Error::Api { status: 404, message: "No run found.".to_string() })
    );
    assert_eq!(
        check_response(401, "{\"message\":\"Not allowed.\"}"),
        Err(Error::Api { status: 401, message: "Not allowed.".to_string() })
    );
    assert_eq!(
        check_response(400, "{\"message\":\"second\",\"error\":\"first\"}"),
        Err(Error::Api { status: 400, message: "first".to_string() })
    );
    assert_eq!(check_response(500, "{\"error\":5}"), Err(Error::Status { status: 500 }));
    assert_eq!(check_response(500, "<html>"), Err(Error::Status { status: 500 }));
}

#[test]
fn answers_are_read_from_their_bodies() {
    let body = "{\"category\":{\"created_at\":\"c\",\"id\":\"40\",\"name\":\"Inbounds\",\"updated_at\":\"u\"}}";
    assert_eq!(
        decode_response::<ContainsCategory>(200, body),
        Ok(ContainsCategory {
            category: Category {
                created_at: "c".to_string(),
                id: "40".to_string(),
                name: "Inbounds".to_string(),
                updated_at: "u".to_string(),
            }
        })
    );
    assert_eq!(
        decode_response::<ContainsCategory>(200, "{}"),
        Err(Error::Download { source: DownloadError::Parse { source: ParseError::Payload } })
    );
    assert!(matches!(
        decode_response::<ContainsCategory>(200, "{"),
        Err(Error::Download {
            source: DownloadError::Parse { source: ParseError::Syntax { .. } }
        })
    ));
    assert_eq!(
        decode_response::<ContainsCategory>(404, body),
        Err(Error::Status { status: 404 })
    );
    assert_eq!(
        decode_response::<ContainsCategory>(422, "{\"error\":\"bad\"}"),
        Err(Error::Api { status: 422, message: "bad".to_string() })
    );
}

#[test]
fn errors_say_what_went_wrong() {
    assert_eq!(Error::Status { status: 404 }.message(), "HTTP Status: Not Found");
    assert_eq!(Error::Status { status: 418 }.message(), "HTTP Status: I'm a teapot");
    assert_eq!(Error::Status { status: 299 }.message(), "HTTP Status: 299");
    assert_eq!(Error::Status { status: 999 }.message(), "HTTP Status: 999");
    assert_eq!(Error::Status { status: 7 }.message(), "HTTP Status: 7");
    assert_eq!(Error::Status { status: 0 }.message(), "HTTP Status: 0");
    assert_eq!(Error::Status { status: 65535 }.message(), "HTTP Status: 65535");
    assert_eq!(Error::Api { status: 400, message: "nope".to_string() }.message(), "nope");
    assert_eq!(
        Error::Download { source: DownloadError::Transport { reason: "x".to_string() } }
            .message(),
        "Failed downloading the response."
    );
    assert_eq!(
        Error::UnidentifiableResource.message(),
        "The resource can not be sufficiently identified for finding resources attached to it."
    );
}
