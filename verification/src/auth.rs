//! The login command: the device-code login with trakt, as a state machine whose
//! actions the caller performs and whose events the caller hands back.
use vstd::prelude::*;
use crate::datetime::{chrono_rfc3339, clock, push_clock, rfc3339};
use crate::embed::{BOT_RED, Embed, EmbedView, FieldView, empty_embed, error_embed, error_embed_view, field, fields_view, make_field, new_embed, push_field, rgb, success_embed, success_embed_view};
use crate::time::{MAX_TIMESTAMP, MIN_TIMESTAMP, UtcTime};

verus! {

/// The device code that trakt issues for a login.
#[derive(Clone, Debug, PartialEq, Eq)]
pub struct DeviceCode {
    pub device_code: String,
    pub user_code: String,
    pub verification_url: String,
    pub expires_in: u64,
    pub interval: u64,
}

/// The tokens that trakt returns once the user entered the code.
#[derive(Clone, Debug, PartialEq, Eq)]
pub struct Tokens {
    pub access_token: String,
    pub refresh_token: String,
    pub expires_in: u32,
    pub created_at: u64,
}

/// What the login stores of the user's trakt settings.
#[derive(Clone, Debug, PartialEq, Eq)]
pub struct AccountSettings {
    pub slug: Option<String>,
    pub username: String,
    pub name: Option<String>,
    pub private: bool,
    pub vip: Option<bool>,
    pub cover_image: Option<String>,
    pub avatar: Option<String>,
    pub joined_at: Option<UtcTime>,
}

/// The row that the login inserts into `users`.
#[derive(Clone, Debug, PartialEq, Eq)]
pub struct NewUser {
    pub discord_id: i64,
    pub access_token: String,
    pub refresh_token: String,
    pub expires: UtcTime,
    pub slug: String,
    pub username: String,
    pub name: Option<String>,
    pub private: bool,
    pub vip: Option<bool>,
    pub cover_image: Option<String>,
    pub avatar: Option<String>,
    pub joined_at: Option<UtcTime>,
}

/// What one poll for the tokens gave.
#[derive(Clone, Debug, PartialEq, Eq)]
pub enum PollOutcome {
    /// The user entered the code: the tokens.
    Tokens(Tokens),
    /// trakt answered with an HTTP error status: its code and its text.
    Status { code: u16, text: String },
    /// Any other failure, as text.
    Failed(String),
}

/// Where a login stands.
#[derive(Clone, Debug, PartialEq, Eq)]
pub enum LoginState {
    CheckingAccount { discord_id: i64 },
    RequestingCode { discord_id: i64 },
    SendingCode { discord_id: i64, code: DeviceCode, poll_until: UtcTime },
    Sleeping { discord_id: i64, code: DeviceCode, poll_until: UtcTime },
    Polling { discord_id: i64, code: DeviceCode, poll_until: UtcTime },
    FetchingSettings { discord_id: i64, tokens: Tokens },
    Saving,
    Done,
}

/// What the caller reports back after performing an action.
#[derive(Debug, PartialEq, Eq)]
pub enum LoginEvent {
    /// The number of rows of the user in `users`, or why they could not be read.
    AccountRows(Result<usize, String>),
    /// The device code, or why it could not be had, and the time right after.
    CodeIssued { code: Result<DeviceCode, String>, now: UtcTime },
    /// Whether the direct message with the code went out.
    DmSent(Result<(), String>),
    /// The wait between two polls is over.
    Slept,
    /// What the poll gave, and the time right after.
    Polled { outcome: PollOutcome, now: UtcTime },
    /// The user's settings, or why they could not be had.
    SettingsFetched(Result<AccountSettings, String>),
    /// Whether the row was inserted.
    Saved(Result<(), String>),
}

/// What the caller is to do next.
#[derive(Debug, PartialEq, Eq)]
pub enum LoginAction {
    QueryAccount { discord_id: i64 },
    RequestCode,
    SendDm(Embed),
    Sleep { secs: u64 },
    PollToken { device_code: String },
    FetchSettings { access_token: String },
    SaveUser(NewUser),
    Finish(Result<(), String>),
}

/// The login command (`login`).
pub struct Login;

/// The end of a login that failed with `message`.
pub open spec fn finished_with(s: LoginState, a: LoginAction, message: Seq<char>) -> bool {
    &&& s is Done
    &&& a matches LoginAction::Finish(Err(m)) && m@ == message
}

/// The seconds from the moment the code arrives to the end of polling, as the command
/// computes them: five less than the code's lifetime (with the lifetime read as `i64`).
pub open spec fn poll_window(expires_in: u64) -> i64 {
    ((expires_in as i64) - 5) as i64
}

/// The window fits an `i64` and the end of polling lies in chrono's range, where
/// computing it does not panic.
pub open spec fn deadline_in_range(now: UtcTime, expires_in: u64) -> bool {
    &&& (expires_in as i64) - 5 >= i64::MIN
    &&& MIN_TIMESTAMP <= now.shifted_secs(poll_window(expires_in)) <= MAX_TIMESTAMP
}

/// The expiry of the tokens lies in chrono's range, where computing it does not panic.
pub open spec fn expiry_in_range(tokens: Tokens) -> bool {
    &&& MIN_TIMESTAMP <= (tokens.created_at as i64) <= MAX_TIMESTAMP
    &&& (tokens.created_at as i64) + tokens.expires_in <= MAX_TIMESTAMP
}

/// The instant at which the tokens expire: `created_at` (read as `i64`) plus `expires_in` seconds.
pub open spec fn expiry(tokens: Tokens) -> UtcTime {
    UtcTime { secs: ((tokens.created_at as i64) + tokens.expires_in) as i64, nanos: 0 }
}

/// The direct message that hands out the code.
pub open spec fn code_embed_view(code: DeviceCode, poll_until: UtcTime) -> EmbedView {
    EmbedView {
        title: Some("Login"@),
        url: Some(code.verification_url@),
        description: Some("Go to "@ + code.verification_url@ + " and enter this code"@),
        fields: seq![
            field("Code"@, code.user_code@, true),
            field("Expires at"@, clock(poll_until) + " UTC"@, true),
        ],
        timestamp: Some(chrono_rfc3339(poll_until.secs, poll_until.nanos)),
        color: Some(BOT_RED),
        ..empty_embed()
    }
}

/// The row of a user who logged in with these tokens and settings.
pub open spec fn new_user_row(discord_id: i64, tokens: Tokens, settings: AccountSettings, row: NewUser) -> bool {
    &&& row.discord_id == discord_id
    &&& row.access_token == tokens.access_token
    &&& row.refresh_token == tokens.refresh_token
    &&& row.expires == expiry(tokens)
    &&& row.slug == settings.slug.unwrap()
    &&& row.username == settings.username
    &&& row.name == settings.name
    &&& row.private == settings.private
    &&& row.vip == settings.vip
    &&& row.cover_image == settings.cover_image
    &&& row.avatar == settings.avatar
    &&& row.joined_at == settings.joined_at
}

/// The event is the one that the state waits for, and its numbers are those on which
/// the command does not panic.
pub open spec fn accepts(s: LoginState, e: LoginEvent) -> bool {
    match s {
        LoginState::CheckingAccount { .. } => e is AccountRows,
        LoginState::RequestingCode { .. } => match e {
            LoginEvent::CodeIssued { code, now } => now.wf() && (code matches Ok(c) ==> deadline_in_range(now, c.expires_in)),
            _ => false,
        },
        LoginState::SendingCode { .. } => e is DmSent,
        LoginState::Sleeping { .. } => e is Slept,
        LoginState::Polling { poll_until, .. } => match e {
            LoginEvent::Polled { now, .. } => now.wf() && poll_until.wf(),
            _ => false,
        },
        LoginState::FetchingSettings { tokens, .. } => match e {
            LoginEvent::SettingsFetched(r) => r matches Ok(st) ==> (st.slug is Some && expiry_in_range(tokens)),
            _ => false,
        },
        LoginState::Saving => e is Saved,
        LoginState::Done => false,
    }
}

/// The transition of the login: from `s` on `e` to `s2`, with `a` to do.
pub open spec fn transition(s: LoginState, e: LoginEvent, s2: LoginState, a: LoginAction) -> bool {
    match (s, e) {
        (LoginState::CheckingAccount { discord_id }, LoginEvent::AccountRows(r)) => match r {
            Err(m) => finished_with(s2, a, m@),
            Ok(n) => if n > 0 {
                finished_with(s2, a, "You are already logged in"@)
            } else {
                s2 == LoginState::RequestingCode { discord_id } && a == LoginAction::RequestCode
            },
        },
        (LoginState::RequestingCode { discord_id }, LoginEvent::CodeIssued { code, now }) => match code {
            Err(m) => finished_with(s2, a, m@),
            Ok(c) => {
                let poll_until = now.shifted(poll_window(c.expires_in));
                &&& s2 == LoginState::SendingCode { discord_id, code: c, poll_until }
                &&& a matches LoginAction::SendDm(m) && m@ == code_embed_view(c, poll_until)
            },
        },
        (LoginState::SendingCode { discord_id, code, poll_until }, LoginEvent::DmSent(r)) => match r {
            Err(m) => finished_with(s2, a, m@),
            Ok(_) => s2 == (LoginState::Sleeping { discord_id, code, poll_until })
                && a == (LoginAction::Sleep { secs: code.interval }),
        },
        (LoginState::Sleeping { discord_id, code, poll_until }, LoginEvent::Slept) => {
            &&& s2 == (LoginState::Polling { discord_id, code, poll_until })
            &&& a matches LoginAction::PollToken { device_code } && device_code@ == code.device_code@
        },
        (LoginState::Polling { discord_id, code, poll_until }, LoginEvent::Polled { outcome, now }) => match outcome {
            PollOutcome::Tokens(t) => {
                &&& s2 == (LoginState::FetchingSettings { discord_id, tokens: t })
                &&& a matches LoginAction::FetchSettings { access_token } && access_token@ == t.access_token@
            },
            PollOutcome::Status { code: status, text } => if status != 400 {
                finished_with(s2, a, text@)
            } else if now.earlier_than(poll_until) {
                s2 == (LoginState::Sleeping { discord_id, code, poll_until })
                    && a == (LoginAction::Sleep { secs: code.interval })
            } else {
                finished_with(s2, a, "Couldn't log you in"@)
            },
            PollOutcome::Failed(m) => finished_with(s2, a, m@),
        },
        (LoginState::FetchingSettings { discord_id, tokens }, LoginEvent::SettingsFetched(r)) => match r {
            Err(m) => finished_with(s2, a, m@),
            Ok(st) => s2 is Saving && (a matches LoginAction::SaveUser(row) && new_user_row(discord_id, tokens, st, row)),
        },
        (LoginState::Saving, LoginEvent::Saved(r)) => match r {
            Err(m) => finished_with(s2, a, m@),
            Ok(_) => s2 is Done && a == LoginAction::Finish(Ok(())),
        },
        _ => false,
    }
}

fn finish(message: String) -> (r: (LoginState, LoginAction))
    ensures
        finished_with(r.0, r.1, message@),
{
    (LoginState::Done, LoginAction::Finish(Err(message)))
}

fn code_embed(code: &DeviceCode, poll_until: &UtcTime) -> (e: Embed)
    requires
        poll_until.wf(),
    ensures
        e@ == code_embed_view(*code, *poll_until),
{
    let mut e = new_embed();
    e.title = Some(String::from_str("Login"));
    e.url = Some(code.verification_url.clone());
    let mut d = String::from_str("Go to ");
    d.append(code.verification_url.as_str());
    d.append(" and enter this code");
    e.description = Some(d);
    let mut until = String::new();
    push_clock(&mut until, poll_until);
    let mut fields = Vec::new();
    push_field(&mut fields, make_field("Code", code.user_code.clone(), true));
    push_field(&mut fields, make_field("Expires at", until, true));
    e.fields = fields;
    e.timestamp = Some(rfc3339(poll_until));
    e.color = Some(rgb(237, 28, 36));
    assert(e@.fields =~= code_embed_view(*code, *poll_until).fields);
    e
}

impl Login {
    /// The first state and action of a login by the Discord user `author_id`: look the user up.
    pub fn start(author_id: u64) -> (r: (LoginState, LoginAction))
        ensures
            r.0 == (LoginState::CheckingAccount { discord_id: author_id as i64 }),
            r.1 == (LoginAction::QueryAccount { discord_id: author_id as i64 }),
    {
        let discord_id = author_id as i64;
        (LoginState::CheckingAccount { discord_id }, LoginAction::QueryAccount { discord_id })
    }

    /// The next state and action of a login.
    pub fn step(s: LoginState, e: LoginEvent) -> (r: (LoginState, LoginAction))
        requires
            accepts(s, e),
        ensures
            transition(s, e, r.0, r.1),
    {
        match s {
            LoginState::CheckingAccount { discord_id } => match e {
                LoginEvent::AccountRows(Err(m)) => finish(m),
                LoginEvent::AccountRows(Ok(n)) => {
                    if n > 0 {
                        finish(String::from_str("You are already logged in"))
                    } else {
                        (LoginState::RequestingCode { discord_id }, LoginAction::RequestCode)
                    }
                },
                _ => (LoginState::Done, LoginAction::RequestCode),
            },
            LoginState::RequestingCode { discord_id } => match e {
                LoginEvent::CodeIssued { code: Err(m), .. } => finish(m),
                LoginEvent::CodeIssued { code: Ok(c), now } => {
                    let lifetime: i64 = c.expires_in as i64;
                    let window: i64 = lifetime - 5;
                    let poll_until = now.plus_seconds(window);
                    let dm = code_embed(&c, &poll_until);
                    (LoginState::SendingCode { discord_id, code: c, poll_until }, LoginAction::SendDm(dm))
                },
                _ => (LoginState::Done, LoginAction::RequestCode),
            },
            LoginState::SendingCode { discord_id, code, poll_until } => match e {
                LoginEvent::DmSent(Err(m)) => finish(m),
                _ => {
                    let secs = code.interval;
                    (LoginState::Sleeping { discord_id, code, poll_until }, LoginAction::Sleep { secs })
                },
            },
            LoginState::Sleeping { discord_id, code, poll_until } => {
                let device_code = code.device_code.clone();
                (LoginState::Polling { discord_id, code, poll_until }, LoginAction::PollToken { device_code })
            },
            LoginState::Polling { discord_id, code, poll_until } => match e {
                LoginEvent::Polled { outcome, now } => match outcome {
                    PollOutcome::Tokens(t) => {
                        let access_token = t.access_token.clone();
                        (LoginState::FetchingSettings { discord_id, tokens: t }, LoginAction::FetchSettings { access_token })
                    },
                    PollOutcome::Status { code: status, text } => {
                        if status != 400 {
                            finish(text)
                        } else if now.is_before(&poll_until) {
                            let secs = code.interval;
                            (LoginState::Sleeping { discord_id, code, poll_until }, LoginAction::Sleep { secs })
                        } else {
                            finish(String::from_str("Couldn't log you in"))
                        }
                    },
                    PollOutcome::Failed(m) => finish(m),
                },
                _ => (LoginState::Done, LoginAction::RequestCode),
            },
            LoginState::FetchingSettings { discord_id, tokens } => match e {
                LoginEvent::SettingsFetched(Err(m)) => finish(m),
                LoginEvent::SettingsFetched(Ok(st)) => {
                    let created: i64 = tokens.created_at as i64;
                    let expires = UtcTime { secs: created + tokens.expires_in as i64, nanos: 0 };
                    let row = NewUser {
                        discord_id,
                        access_token: tokens.access_token,
                        refresh_token: tokens.refresh_token,
                        expires,
                        slug: st.slug.unwrap(),
                        username: st.username,
                        name: st.name,
                        private: st.private,
                        vip: st.vip,
                        cover_image: st.cover_image,
                        avatar: st.avatar,
                        joined_at: st.joined_at,
                    };
                    (LoginState::Saving, LoginAction::SaveUser(row))
                },
                _ => (LoginState::Done, LoginAction::RequestCode),
            },
            LoginState::Saving => match e {
                LoginEvent::Saved(Err(m)) => finish(m),
                _ => (LoginState::Done, LoginAction::Finish(Ok(()))),
            },
            LoginState::Done => (LoginState::Done, LoginAction::RequestCode),
        }
    }

    /// The direct message that ends the command: success, or the error.
    pub fn reply(result: &Result<(), String>) -> (e: Embed)
        ensures
            result is Ok ==> e@ == success_embed_view("You are now logged in. Have fun!"@),
            result matches Err(m) ==> e@ == error_embed_view(m@),
    {
        match result {
            Ok(()) => success_embed("You are now logged in. Have fun!"),
            Err(m) => error_embed(m),
        }
    }

    /// Whether the end of polling for a code that lives `expires_in` seconds, counted
    /// from `now`, lies in chrono's range (the command panics where it does not).
    pub fn deadline_fits(now: &UtcTime, expires_in: u64) -> (b: bool)
        requires
            now.wf(),
        ensures
            b == deadline_in_range(*now, expires_in),
    {
        let window: i64 = expires_in as i64;
        if window < i64::MIN + 5 {
            return false;
        }
        let w = window - 5;
        let base: i128 = if now.nanos >= 1_000_000_000 && w < 0 { now.secs as i128 + 1 } else { now.secs as i128 };
        let end = base + w as i128;
        MIN_TIMESTAMP as i128 <= end && end <= MAX_TIMESTAMP as i128
    }

    /// Whether the expiry of the tokens lies in chrono's range (the command panics where it does not).
    pub fn expiry_fits(tokens: &Tokens) -> (b: bool)
        ensures
            b == expiry_in_range(*tokens),
    {
        let created: i64 = tokens.created_at as i64;
        MIN_TIMESTAMP <= created && created <= MAX_TIMESTAMP && created + (tokens.expires_in as i64) <= MAX_TIMESTAMP
    }
}

/// Law: a user who already has a row is refused with "You are already logged in",
/// before anything is asked of trakt.
pub proof fn lemma_existing_account_refused(discord_id: i64, rows: usize, s2: LoginState, a: LoginAction)
    requires
        rows > 0,
        transition(LoginState::CheckingAccount { discord_id }, LoginEvent::AccountRows(Ok(rows)), s2, a),
    ensures
        s2 is Done,
        a matches LoginAction::Finish(Err(m)) && m@ == "You are already logged in"@,
{
}

/// Law: polling goes on only before the deadline. A pending answer (status 400) at or
/// after the deadline ends the login with "Couldn't log you in"; before it, the login
/// waits the code's interval and polls again with the same code and deadline.
pub proof fn lemma_polling_deadline(
    discord_id: i64,
    code: DeviceCode,
    poll_until: UtcTime,
    text: String,
    now: UtcTime,
    s2: LoginState,
    a: LoginAction,
)
    requires
        transition(
            LoginState::Polling { discord_id, code, poll_until },
            LoginEvent::Polled { outcome: PollOutcome::Status { code: 400, text }, now },
            s2,
            a,
        ),
    ensures
        !now.earlier_than(poll_until) ==> (s2 is Done && (a matches LoginAction::Finish(Err(m)) && m@ == "Couldn't log you in"@)),
        now.earlier_than(poll_until) ==> (s2 == LoginState::Sleeping { discord_id, code, poll_until }
            && a == LoginAction::Sleep { secs: code.interval }),
{
}

/// Law: the row that a login stores expires `expires_in` seconds after the tokens were
/// created (on a whole second), carries the caller's id and the tokens that trakt returned,
/// and holds the user's trakt settings unchanged: the slug (not the username) in the slug
/// column, and the username, name, privacy, VIP flag, cover image, avatar and join time
/// each in its own column.
pub proof fn lemma_saved_row(discord_id: i64, tokens: Tokens, settings: AccountSettings, s2: LoginState, a: LoginAction)
    requires
        expiry_in_range(tokens),
        settings.slug is Some,
        transition(LoginState::FetchingSettings { discord_id, tokens }, LoginEvent::SettingsFetched(Ok(settings)), s2, a),
    ensures
        s2 is Saving,
        a matches LoginAction::SaveUser(row) && {
            &&& row.expires.secs == (tokens.created_at as i64) + tokens.expires_in
            &&& row.expires.nanos == 0
            &&& row.discord_id == discord_id
            &&& row.access_token@ == tokens.access_token@
            &&& row.refresh_token@ == tokens.refresh_token@
            &&& row.slug@ == settings.slug.unwrap()@
            &&& row.username@ == settings.username@
            &&& row.name.deep_view() == settings.name.deep_view()
            &&& row.private == settings.private
            &&& row.vip == settings.vip
            &&& row.cover_image.deep_view() == settings.cover_image.deep_view()
            &&& row.avatar.deep_view() == settings.avatar.deep_view()
            &&& row.joined_at == settings.joined_at
        },
{
}

/// Law: every failure ends the login at once with the failure's own text: an error in
/// reading the account, getting the code, sending it, polling (any status but 400 gives
/// the status text), fetching the settings or saving the row. A successful save ends the
/// login with success.
pub proof fn lemma_failures_end_the_login(s: LoginState, e: LoginEvent, s2: LoginState, a: LoginAction)
    requires
        transition(s, e, s2, a),
    ensures
        e matches LoginEvent::AccountRows(Err(m)) ==> s2 is Done && (a matches LoginAction::Finish(Err(x)) && x@ == m@),
        e matches LoginEvent::CodeIssued { code: Err(m), .. } ==> s2 is Done && (a matches LoginAction::Finish(Err(x)) && x@ == m@),
        e matches LoginEvent::DmSent(Err(m)) ==> s2 is Done && (a matches LoginAction::Finish(Err(x)) && x@ == m@),
        e matches LoginEvent::Polled { outcome: PollOutcome::Failed(m), .. } ==> s2 is Done
            && (a matches LoginAction::Finish(Err(x)) && x@ == m@),
        e matches LoginEvent::Polled { outcome: PollOutcome::Status { code, text }, .. } ==> (code != 400 ==> s2 is Done
            && (a matches LoginAction::Finish(Err(x)) && x@ == text@)),
        e matches LoginEvent::SettingsFetched(Err(m)) ==> s2 is Done && (a matches LoginAction::Finish(Err(x)) && x@ == m@),
        e matches LoginEvent::Saved(Err(m)) ==> s2 is Done && (a matches LoginAction::Finish(Err(x)) && x@ == m@),
        e matches LoginEvent::Saved(Ok(_)) ==> s2 is Done && a == LoginAction::Finish(Ok(())),
{
}

/// Law: the way through a login that goes well. A user without a row gets a code asked
/// for; the code is sent to the user in a direct message titled "Login" that links to the
/// verification page and shows the user code and the end of polling, which lies five
/// seconds before the code expires; once sent, the login waits the code's interval, then
/// polls with the device code; the tokens lead to fetching the settings with the access
/// token.
pub proof fn lemma_login_way(s: LoginState, e: LoginEvent, s2: LoginState, a: LoginAction)
    requires
        transition(s, e, s2, a),
    ensures
        s matches LoginState::CheckingAccount { discord_id } ==> (e == LoginEvent::AccountRows(Ok(0))
            ==> s2 == LoginState::RequestingCode { discord_id } && a == LoginAction::RequestCode),
        s matches LoginState::RequestingCode { discord_id } ==> (e matches LoginEvent::CodeIssued { code: Ok(c), now } ==> {
            let poll_until = now.shifted(((c.expires_in as i64) - 5) as i64);
            &&& s2 == LoginState::SendingCode { discord_id, code: c, poll_until }
            &&& a matches LoginAction::SendDm(m) && {
                &&& m@.title == Some("Login"@)
                &&& m@.url == Some(c.verification_url@)
                &&& m@.description == Some("Go to "@ + c.verification_url@ + " and enter this code"@)
                &&& m@.fields == seq![
                    FieldView { name: "Code"@, value: c.user_code@, inline: true },
                    FieldView { name: "Expires at"@, value: clock(poll_until) + " UTC"@, inline: true },
                ]
                &&& m@.timestamp == Some(chrono_rfc3339(poll_until.secs, poll_until.nanos))
                &&& m@.color == Some(BOT_RED)
                &&& m@.author is None && m@.thumbnail is None && m@.footer is None
            }
        }),
        s matches LoginState::SendingCode { discord_id, code, poll_until } ==> (e matches LoginEvent::DmSent(Ok(_))
            ==> s2 == LoginState::Sleeping { discord_id, code, poll_until } && a == LoginAction::Sleep { secs: code.interval }),
        s matches LoginState::Sleeping { discord_id, code, poll_until } ==> (s2 == LoginState::Polling { discord_id, code, poll_until }
            && (a matches LoginAction::PollToken { device_code } && device_code@ == code.device_code@)),
        s matches LoginState::Polling { discord_id, .. } ==> (e matches LoginEvent::Polled { outcome: PollOutcome::Tokens(t), .. }
            ==> s2 == LoginState::FetchingSettings { discord_id, tokens: t }
                && (a matches LoginAction::FetchSettings { access_token } && access_token@ == t.access_token@)),
{
}

/// Law: a finished login takes no further event.
pub proof fn lemma_done_is_final(e: LoginEvent)
    ensures
        !accepts(LoginState::Done, e),
{
}

/// A run of a login by the Discord user `author_id`: the states it passed, the events it
/// was handed (each one that its state waits for) and the actions it gave, starting from
/// `Login::start`.
pub open spec fn is_run(author_id: u64, states: Seq<LoginState>, events: Seq<LoginEvent>, actions: Seq<LoginAction>) -> bool {
    &&& states.len() == events.len() + 1
    &&& actions.len() == events.len() + 1
    &&& states[0] == (LoginState::CheckingAccount { discord_id: author_id as i64 })
    &&& actions[0] == (LoginAction::QueryAccount { discord_id: author_id as i64 })
    &&& forall|i: int| 0 <= i < events.len() ==> accepts(states[i], events[i])
    &&& forall|i: int| 0 <= i < events.len() ==> #[trigger] transition(states[i], events[i], states[i + 1], actions[i + 1])
}

/// The run wrote the user's row: the insert that it asked for was reported done.
pub open spec fn row_saved(events: Seq<LoginEvent>) -> bool {
    exists|i: int| 0 <= i < events.len() && #[trigger] events[i] matches LoginEvent::Saved(Ok(_))
}

proof fn lemma_step_shape(s: LoginState, e: LoginEvent, s2: LoginState, a: LoginAction)
    requires
        transition(s, e, s2, a),
    ensures
        e is Saved ==> s is Saving && s2 is Done,
        e matches LoginEvent::Saved(Ok(_)) ==> a == LoginAction::Finish(Ok(())),
        a matches LoginAction::Finish(Ok(_)) ==> e matches LoginEvent::Saved(Ok(_)),
        a is SaveUser <==> s2 is Saving,
        s is Saving ==> a is Finish,
{
}

/// Law: the user's row is the login's only write, and it is written exactly when the login
/// succeeds. A login that ends in an error never saved a row, one that ends in success
/// saved it, and no run asks for the insert twice.
pub proof fn lemma_failed_login_saves_nothing(
    author_id: u64,
    states: Seq<LoginState>,
    events: Seq<LoginEvent>,
    actions: Seq<LoginAction>,
)
    requires
        is_run(author_id, states, events, actions),
    ensures
        actions.last() matches LoginAction::Finish(Err(_)) ==> !row_saved(events),
        actions.last() matches LoginAction::Finish(Ok(_)) ==> row_saved(events),
        forall|i: int, j: int| 0 <= i < actions.len() && 0 <= j < actions.len()
            && #[trigger] actions[i] is SaveUser && #[trigger] actions[j] is SaveUser ==> i == j,
{
    let n = events.len() as int;
    // A `Saved` event ends the run: after it the login is done and takes no other event.
    assert forall|k: int| 0 <= k < n && #[trigger] events[k] is Saved implies k == n - 1 by {
        lemma_step_shape(states[k], events[k], states[k + 1], actions[k + 1]);
        if k + 1 < n {
            assert(accepts(states[k + 1], events[k + 1]));
        }
    }
    // An insert is asked for only as the last or next to last action.
    assert forall|k: int| 0 <= k < actions.len() && #[trigger] actions[k] is SaveUser implies k >= n - 1 && k >= 1 by {
        if k >= 1 {
            let p = k - 1;
            lemma_step_shape(states[p], events[p], states[p + 1], actions[p + 1]);
            if k < n {
                assert(accepts(states[k], events[k]));
                lemma_step_shape(states[k], events[k], states[k + 1], actions[k + 1]);
                assert(events[k] is Saved);
            }
        }
    }
    if n > 0 {
        let last = n - 1;
        lemma_step_shape(states[last], events[last], states[last + 1], actions[last + 1]);
        if actions.last() matches LoginAction::Finish(Err(_)) {
            if row_saved(events) {
                let k = choose|k: int| 0 <= k < n && #[trigger] events[k] matches LoginEvent::Saved(Ok(_));
                assert(events[k] is Saved);
            }
        }
        if actions.last() matches LoginAction::Finish(Ok(_)) {
            assert(events[n - 1] matches LoginEvent::Saved(Ok(_)));
        }
        assert forall|i: int, j: int| 0 <= i < actions.len() && 0 <= j < actions.len()
            && #[trigger] actions[i] is SaveUser && #[trigger] actions[j] is SaveUser implies i == j by {
            if i != j {
                // Both lie in {n - 1, n}, and the first action asks for no insert, so n >= 2;
                // an insert at n - 1 leaves the login saving, whose next action ends it.
                assert(n >= 2);
                let before = n - 2;
                lemma_step_shape(states[before], events[before], states[before + 1], actions[before + 1]);
                lemma_step_shape(states[last], events[last], states[last + 1], actions[last + 1]);
            }
        }
    }
}

} // verus!
