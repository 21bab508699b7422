use distrakt::auth::{
    AccountSettings, DeviceCode, Login, LoginAction, LoginEvent, LoginState, NewUser, PollOutcome, Tokens,
};
use distrakt::embed::{Embed, EmbedField, BOT_RED};
use distrakt::time::UtcTime;

fn s(x: &str) -> String {
    x.to_string()
}

fn code() -> DeviceCode {
    DeviceCode {
        device_code: s("dev-123"),
        user_code: s("ABCD1234"),
        verification_url: s("https://trakt.tv/activate"),
        expires_in: 600,
        interval: 5,
    }
}

fn tokens() -> Tokens {
    Tokens { access_token: s("acc"), refresh_token: s("ref"), expires_in: 7_776_000, created_at: 1_600_000_000 }
}

fn settings() -> AccountSettings {
    AccountSettings {
        slug: Some(s("sean")),
        username: s("sean"),
        name: Some(s("Sean")),
        private: false,
        vip: Some(true),
        cover_image: None,
        avatar: Some(s("https://img/a.png")),
        joined_at: Some(UtcTime { secs: 1_400_000_000, nanos: 0 }),
    }
}

fn t(secs: i64) -> UtcTime {
    UtcTime { secs, nanos: 0 }
}

fn polling_state() -> LoginState {
    LoginState::Polling { discord_id: 42, code: code(), poll_until: t(1_000 + 595) }
}

#[test]
fn start_looks_the_user_up() {
    let (st, a) = Login::start(42);
    assert_eq!(st, LoginState::CheckingAccount { discord_id: 42 });
    assert_eq!(a, LoginAction::QueryAccount { discord_id: 42 });
    let (_, a) = Login::start(u64::MAX);
    assert_eq!(a, LoginAction::QueryAccount { discord_id: -1 });
}

#[test]
fn full_login() {
    let (st, _) = Login::start(42);
    let (st, a) = Login::step(st, LoginEvent::AccountRows(Ok(0)));
    assert_eq!(a, LoginAction::RequestCode);
    let (st, a) = Login::step(st, LoginEvent::CodeIssued { code: Ok(code()), now: t(1_000) });
    assert_eq!(st, LoginState::SendingCode { discord_id: 42, code: code(), poll_until: t(1_595) });
    let dm = match a {
        LoginAction::SendDm(e) => e,
        other => panic!("unexpected {:?}", other),
    };
    let expected = Embed {
        title: Some(s("Login")),
        url: Some(s("https://trakt.tv/activate")),
        description: Some(s("Go to https://trakt.tv/activate and enter this code")),
        color: Some(BOT_RED),
        fields: vec![
            EmbedField { name: s("Code"), value: s("ABCD1234"), inline: true },
            EmbedField { name: s("Expires at"), value: s("00:26:35 UTC"), inline: true },
        ],
        author: None,
        thumbnail: None,
        timestamp: Some(s("1970-01-01T00:26:35+00:00")),
        footer: None,
    };
    assert_eq!(dm, expected);
    let (st, a) = Login::step(st, LoginEvent::DmSent(Ok(())));
    assert_eq!(a, LoginAction::Sleep { secs: 5 });
    let (st, a) = Login::step(st, LoginEvent::Slept);
    assert_eq!(a, LoginAction::PollToken { device_code: s("dev-123") });
    let (st, a) = Login::step(
        st,
        LoginEvent::Polled { outcome: PollOutcome::Status { code: 400, text: s("400 Bad Request") }, now: t(1_010) },
    );
    assert_eq!(a, LoginAction::Sleep { secs: 5 });
    let (st, _) = Login::step(st, LoginEvent::Slept);
    let (st, a) = Login::step(st, LoginEvent::Polled { outcome: PollOutcome::Tokens(tokens()), now: t(1_020) });
    assert_eq!(a, LoginAction::FetchSettings { access_token: s("acc") });
    let (st, a) = Login::step(st, LoginEvent::SettingsFetched(Ok(settings())));
    assert_eq!(st, LoginState::Saving);
    let expected_row = NewUser {
        discord_id: 42,
        access_token: s("acc"),
        refresh_token: s("ref"),
        expires: t(1_600_000_000 + 7_776_000),
        slug: s("sean"),
        username: s("sean"),
        name: Some(s("Sean")),
        private: false,
        vip: Some(true),
        cover_image: None,
        avatar: Some(s("https://img/a.png")),
        joined_at: Some(t(1_400_000_000)),
    };
    assert_eq!(a, LoginAction::SaveUser(expected_row));
    let (st, a) = Login::step(st, LoginEvent::Saved(Ok(())));
    assert_eq!(st, LoginState::Done);
    assert_eq!(a, LoginAction::Finish(Ok(())));
}

#[test]
fn already_logged_in_is_refused() {
    let (st, _) = Login::start(7);
    let (st, a) = Login::step(st, LoginEvent::AccountRows(Ok(1)));
    assert_eq!(st, LoginState::Done);
    assert_eq!(a, LoginAction::Finish(Err(s("You are already logged in"))));
}

#[test]
fn each_failure_ends_the_login_with_its_message() {
    let (st, a) = Login::step(LoginState::CheckingAccount { discord_id: 1 }, LoginEvent::AccountRows(Err(s("db down"))));
    assert_eq!((st, a), (LoginState::Done, LoginAction::Finish(Err(s("db down")))));
    let (st, a) = Login::step(
        LoginState::RequestingCode { discord_id: 1 },
        LoginEvent::CodeIssued { code: Err(s("Couldn't extract api")), now: t(0) },
    );
    assert_eq!((st, a), (LoginState::Done, LoginAction::Finish(Err(s("Couldn't extract api")))));
    let (st, a) = Login::step(
        LoginState::SendingCode { discord_id: 1, code: code(), poll_until: t(10) },
        LoginEvent::DmSent(Err(s("dm closed"))),
    );
    assert_eq!((st, a), (LoginState::Done, LoginAction::Finish(Err(s("dm closed")))));
    let (st, a) = Login::step(polling_state(), LoginEvent::Polled { outcome: PollOutcome::Failed(s("Connection")), now: t(1_000) });
    assert_eq!((st, a), (LoginState::Done, LoginAction::Finish(Err(s("Connection")))));
    let (st, a) = Login::step(
        LoginState::FetchingSettings { discord_id: 1, tokens: tokens() },
        LoginEvent::SettingsFetched(Err(s("Response ( 401 Unauthorized )"))),
    );
    assert_eq!((st, a), (LoginState::Done, LoginAction::Finish(Err(s("Response ( 401 Unauthorized )")))));
    let (st, a) = Login::step(LoginState::Saving, LoginEvent::Saved(Err(s("duplicate key"))));
    assert_eq!((st, a), (LoginState::Done, LoginAction::Finish(Err(s("duplicate key")))));
}

#[test]
fn status_other_than_400_ends_the_login() {
    let (st, a) = Login::step(
        polling_state(),
        LoginEvent::Polled { outcome: PollOutcome::Status { code: 410, text: s("410 Gone") }, now: t(1_000) },
    );
    assert_eq!((st, a), (LoginState::Done, LoginAction::Finish(Err(s("410 Gone")))));
}

#[test]
fn polling_stops_at_the_deadline() {
    let (st, a) = Login::step(
        polling_state(),
        LoginEvent::Polled { outcome: PollOutcome::Status { code: 400, text: s("400 Bad Request") }, now: t(1_595) },
    );
    assert_eq!((st, a), (LoginState::Done, LoginAction::Finish(Err(s("Couldn't log you in")))));
    let (st, a) = Login::step(
        polling_state(),
        LoginEvent::Polled {
            outcome: PollOutcome::Status { code: 400, text: s("400 Bad Request") },
            now: UtcTime { secs: 1_594, nanos: 999_999_999 },
        },
    );
    assert_eq!(a, LoginAction::Sleep { secs: 5 });
    assert_eq!(st, LoginState::Sleeping { discord_id: 42, code: code(), poll_until: t(1_595) });
}

#[test]
fn replies_to_the_user() {
    let ok = Login::reply(&Ok(()));
    assert_eq!(ok.title, Some(s("Success")));
    assert_eq!(ok.description, Some(s("You are now logged in. Have fun!")));
    assert_eq!(ok.color, Some(BOT_RED));
    let err = Login::reply(&Err(s("Couldn't log you in")));
    assert_eq!(err.title, Some(s("Error")));
    assert_eq!(err.description, Some(s("Couldn't log you in")));
    assert_eq!(err.color, Some(BOT_RED));
    assert!(err.fields.is_empty());
}

#[test]
fn ranges_where_the_command_would_panic() {
    assert!(Login::deadline_fits(&t(1_000), 600));
    assert!(Login::deadline_fits(&t(1_000), 0));
    assert!(!Login::deadline_fits(&t(1_000), u64::MAX / 2));
    assert!(Login::deadline_fits(&t(1_000), u64::MAX - 2));
    assert!(!Login::deadline_fits(&t(1_000), 1u64 << 63));
    assert!(Login::expiry_fits(&tokens()));
    assert!(!Login::expiry_fits(&Tokens { created_at: 9_000_000_000_000, ..tokens() }));
    assert!(Login::expiry_fits(&Tokens { created_at: u64::MAX, ..tokens() }));
}

#[test]
fn deadline_of_a_short_lived_code_lies_before_now() {
    let c = DeviceCode { expires_in: 2, ..code() };
    let (st, _) = Login::step(LoginState::RequestingCode { discord_id: 1 }, LoginEvent::CodeIssued { code: Ok(c.clone()), now: t(100) });
    assert_eq!(st, LoginState::SendingCode { discord_id: 1, code: c, poll_until: t(97) });
}

#[test]
fn deadline_counted_from_a_leap_second() {
    // 2016-12-31T23:59:60Z
    let leap = UtcTime { secs: 1_483_228_799, nanos: 1_000_000_000 };
    let c = DeviceCode { expires_in: 2, ..code() };
    assert!(Login::deadline_fits(&leap, 2));
    let (st, _) =
        Login::step(LoginState::RequestingCode { discord_id: 1 }, LoginEvent::CodeIssued { code: Ok(c.clone()), now: leap });
    let until = chrono::DateTime::<chrono::Utc>::from_timestamp(leap.secs, leap.nanos).unwrap() + chrono::TimeDelta::seconds(-3);
    let poll_until = UtcTime { secs: until.timestamp(), nanos: until.timestamp_subsec_nanos() };
    assert_eq!(poll_until, UtcTime { secs: 1_483_228_797, nanos: 0 });
    assert_eq!(st, LoginState::SendingCode { discord_id: 1, code: c, poll_until });
}
