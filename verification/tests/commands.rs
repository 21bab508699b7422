use distrakt::commands::{Notify, Subscribe, User, UserProfile, WhoAmI};
use distrakt::config::{ping_reply, DistraktConfig};
use distrakt::embed::{EmbedAuthor, EmbedField, BOT_RED};
use distrakt::time::UtcTime;
use distrakt::wrappers::Wrapper;

fn s(x: &str) -> String {
    x.to_string()
}

fn profile() -> UserProfile {
    UserProfile {
        private: false,
        name: None,
        username: s("sean"),
        cover_image: Some(s("https://img/cover.png")),
        joined_at: Some(UtcTime { secs: 1_400_000_000, nanos: 0 }),
        vip: Some(true),
        avatar: None,
    }
}

#[test]
fn whoami_token_and_reply() {
    assert_eq!(WhoAmI::token(vec![]), Err(s("You are not logged in")));
    assert_eq!(WhoAmI::token(vec![s("t1"), s("t2")]), Ok(s("t1")));
    assert_eq!(WhoAmI::reply_text(&s("sean"), &Some(s("Sean"))), "sean (Sean)");
    assert_eq!(WhoAmI::reply_text(&s("sean"), &None), "sean (sean)");
}

#[test]
fn user_lookup() {
    assert_eq!(User::mentioned(&vec![]), Err(s("No user mentioned")));
    assert_eq!(User::mentioned(&vec![5, 6]), Ok(5));
    assert_eq!(User::from_rows(vec![]), Err(s("Couldn't find user")));
    let other = UserProfile { username: s("other"), ..profile() };
    assert_eq!(User::from_rows(vec![profile(), other.clone()]), Ok(other));
}

#[test]
fn user_profile_embed() {
    let e = User::profile(&profile()).unwrap();
    assert_eq!(e.title, Some(s("sean")));
    assert_eq!(e.color, Some(BOT_RED));
    assert_eq!(e.thumbnail, Some(s("https://img/cover.png")));
    assert_eq!(
        e.fields,
        vec![
            EmbedField { name: s("Joined at"), value: s("2014-05-13 16:53:20 UTC"), inline: true },
            EmbedField { name: s("VIP"), value: s("true"), inline: true },
        ]
    );
    assert_eq!(
        e.author,
        Some(EmbedAuthor { name: s("sean"), url: Some(s("https://trakt.tv/users/sean")), icon_url: None })
    );
    let named = UserProfile { name: Some(s("Sean")), joined_at: None, vip: None, ..profile() };
    let e = User::profile(&named).unwrap();
    assert_eq!(e.title, Some(s("Sean")));
    assert!(e.fields.is_empty());
}

#[test]
fn private_user_is_not_shown() {
    let p = UserProfile { private: true, ..profile() };
    assert_eq!(User::profile(&p), Err(s("This user is private")));
}

#[test]
fn notify_and_subscribe_outcomes() {
    assert_eq!(Notify::subscribed(1, 10, 20), Ok((10, 12, 20)));
    assert_eq!(Notify::subscribed(0, 10, 20), Err(s("You are not signed in")));
    let c = Notify::confirmation();
    assert_eq!(c.title, Some(s("Success")));
    assert_eq!(c.description, Some(s("You have successfully subscribed!")));
    assert_eq!(Subscribe::outcome(1), Ok(c));
    assert_eq!(Subscribe::outcome(0), Err(s("You are not signed in")));
}

#[test]
fn config_and_handler_replies() {
    let conf = DistraktConfig {
        prefix: s("!"),
        discord_token: s("SECRET-REDACTED"),
        trakt_id: s("id"),
        trakt_secret: s("secret"),
        owners: vec![1],
    };
    assert_eq!(conf.login_activity(), "!login");
    assert_eq!(ping_reply(&s("ping")), Some(s("Pong!")));
    assert_eq!(ping_reply(&s("Ping")), None);
    assert_eq!(ping_reply(&s("ping ")), None);
}

#[test]
fn wrapper_gives_back_its_content() {
    let w = Wrapper::new(vec![1, 2, 3]);
    assert_eq!(*w, vec![1, 2, 3]);
    assert_eq!(w.len(), 3);
}
