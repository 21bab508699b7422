//! The bot's configuration and the two replies of its event handler.
use vstd::prelude::*;

verus! {

/// The configuration that the bot reads at start.
#[derive(Clone, Debug, PartialEq, Eq)]
pub struct DistraktConfig {
    pub prefix: String,
    pub discord_token: String,
    pub trakt_id: String,
    pub trakt_secret: String,
    pub owners: Vec<u64>,
}

impl DistraktConfig {
    /// The activity the bot shows once connected: "listening to" the login command.
    pub fn login_activity(&self) -> (s: String)
        ensures
            s@ == self.prefix@ + "login"@,
    {
        let mut s = self.prefix.clone();
        s.append("login");
        s
    }
}

/// The answer to a message: `Pong!` to exactly `ping`, nothing to anything else.
pub fn ping_reply(content: &String) -> (r: Option<String>)
    ensures
        r is Some <==> content@ == "ping"@,
        r matches Some(s) ==> s@ == "Pong!"@,
{
    let ping = String::from_str("ping");
    if *content == ping {
        Some(String::from_str("Pong!"))
    } else {
        None
    }
}

} // verus!
