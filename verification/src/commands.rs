//! The account commands: who the caller is on trakt, another user's profile, and the
//! two subscription commands.
use vstd::prelude::*;
use crate::datetime::{chrono_datetime_display, datetime_display};
use crate::embed::{AuthorView, BOT_RED, Embed, EmbedAuthor, EmbedField, EmbedView, FieldView, empty_embed, field, fields_view, make_field, new_embed, present, push_field, rgb, success_embed, success_embed_view};
use crate::notifier::{MOVIES_AND_SHOWS, SyncJob};
use crate::text::{bool_text, bool_to_string};
use crate::time::UtcTime;

verus! {

/// The `whoami` command.
pub struct WhoAmI;

impl WhoAmI {
    /// The caller's token: the first one found, or the error that the caller is not logged in.
    pub fn token(tokens: Vec<String>) -> (r: Result<String, String>)
        ensures
            tokens@.len() == 0 ==> (r matches Err(e) && e@ == "You are not logged in"@),
            tokens@.len() > 0 ==> r == Ok::<String, String>(tokens@[0]),
    {
        if tokens.len() == 0 {
            Err(String::from_str("You are not logged in"))
        } else {
            let mut tokens = tokens;
            let ghost first = tokens@[0];
            let t = tokens.swap_remove(0);
            assert(t == first);
            Ok(t)
        }
    }

    /// The reply: the username, then the name (or again the username) in parentheses.
    pub fn reply_text(username: &String, name: &Option<String>) -> (s: String)
        ensures
            s@ == username@ + " ("@ + match name { Some(n) => n@, None => username@ } + ")"@,
    {
        let mut s = username.clone();
        s.append(" (");
        match name {
            Some(n) => s.append(n.as_str()),
            None => s.append(username.as_str()),
        }
        s.append(")");
        s
    }
}

/// What the `user` command shows of a user, as the `users` table holds it.
#[derive(Clone, Debug, PartialEq, Eq)]
pub struct UserProfile {
    pub private: bool,
    pub name: Option<String>,
    pub username: String,
    pub cover_image: Option<String>,
    pub joined_at: Option<UtcTime>,
    pub vip: Option<bool>,
    pub avatar: Option<String>,
}

/// The `user` command.
pub struct User;

/// The profile embed: the name (or username) as title in the bot's red, the cover image,
/// the join time and VIP flag where known, and the username linking to the profile.
pub open spec fn profile_view(u: UserProfile) -> EmbedView {
    EmbedView {
        title: Some(match u.name { Some(n) => n@, None => u.username@ }),
        color: Some(BOT_RED),
        thumbnail: u.cover_image.deep_view(),
        fields: (match u.joined_at {
            Some(t) => seq![field("Joined at"@, chrono_datetime_display(t.secs, t.nanos), true)],
            None => Seq::<FieldView>::empty(),
        }) + (match u.vip {
            Some(b) => seq![field("VIP"@, bool_text(b), true)],
            None => Seq::<FieldView>::empty(),
        }),
        author: Some(AuthorView {
            name: u.username@,
            url: Some("https://trakt.tv/users/"@ + u.username@),
            icon_url: u.avatar.deep_view(),
        }),
        ..empty_embed()
    }
}

impl User {
    /// The first mentioned user, or the error that nobody was mentioned.
    pub fn mentioned(mentions: &Vec<u64>) -> (r: Result<u64, String>)
        ensures
            mentions@.len() == 0 ==> (r matches Err(e) && e@ == "No user mentioned"@),
            mentions@.len() > 0 ==> r == Ok::<u64, String>(mentions@[0]),
    {
        if mentions.len() == 0 {
            Err(String::from_str("No user mentioned"))
        } else {
            Ok(mentions[0])
        }
    }

    /// The user read from the rows: the last one, or the error that none was found.
    pub fn from_rows(rows: Vec<UserProfile>) -> (r: Result<UserProfile, String>)
        ensures
            rows@.len() == 0 ==> (r matches Err(e) && e@ == "Couldn't find user"@),
            rows@.len() > 0 ==> r == Ok::<UserProfile, String>(rows@.last()),
    {
        let mut rows = rows;
        match rows.pop() {
            Some(u) => Ok(u),
            None => Err(String::from_str("Couldn't find user")),
        }
    }

    /// The profile embed, or the error that the user is private.
    pub fn profile(u: &UserProfile) -> (r: Result<Embed, String>)
        requires
            u.joined_at matches Some(t) ==> t.wf(),
        ensures
            u.private <==> r is Err,
            r matches Err(e) ==> e@ == "This user is private"@,
            r matches Ok(e) ==> e@ == profile_view(*u),
    {
        if u.private {
            return Err(String::from_str("This user is private"));
        }
        let mut e = new_embed();
        e.title = Some(match &u.name {
            Some(n) => n.clone(),
            None => u.username.clone(),
        });
        e.color = Some(rgb(237, 28, 36));
        e.thumbnail = u.cover_image.clone();
        let mut fields: Vec<EmbedField> = Vec::new();
        let ghost start = fields_view(fields@);
        match &u.joined_at {
            Some(t) => push_field(&mut fields, make_field("Joined at", datetime_display(t), true)),
            None => {},
        }
        match u.vip {
            Some(b) => push_field(&mut fields, make_field("VIP", bool_to_string(b), true)),
            None => {},
        }
        e.fields = fields;
        let mut url = String::from_str("https://trakt.tv/users/");
        url.append(u.username.as_str());
        e.author = Some(EmbedAuthor { name: u.username.clone(), url: Some(url), icon_url: u.avatar.clone() });
        assert(e@.fields =~= profile_view(*u).fields);
        Ok(e)
    }
}

/// Law: a public user's profile is titled by their name (their username when they have
/// none), in the bot's red, with their cover image as thumbnail. Its author is the
/// username, linking to the user's trakt page, with the user's avatar as icon (none when
/// they have no avatar). Its fields are, in this order and each only when known, the join
/// time and the VIP flag, both inline; nothing else.
pub proof fn lemma_profile_content(u: UserProfile)
    ensures
        profile_view(u).title == Some(if u.name is Some { u.name.unwrap()@ } else { u.username@ }),
        profile_view(u).color == Some(BOT_RED),
        profile_view(u).thumbnail == u.cover_image.deep_view(),
        profile_view(u).author == Some(AuthorView {
            name: u.username@,
            url: Some("https://trakt.tv/users/"@ + u.username@),
            icon_url: match u.avatar { Some(a) => Some(a@), None => None },
        }),
        profile_view(u).fields.len() == present(u.joined_at) + present(u.vip),
        u.joined_at matches Some(t) ==> profile_view(u).fields[0]
            == (FieldView { name: "Joined at"@, value: chrono_datetime_display(t.secs, t.nanos), inline: true }),
        u.vip matches Some(b) ==> profile_view(u).fields.last()
            == (FieldView { name: "VIP"@, value: if b { "true"@ } else { "false"@ }, inline: true }),
        profile_view(u).url is None,
        profile_view(u).description is None,
        profile_view(u).timestamp is None,
        profile_view(u).footer is None,
{
}

/// The message when the caller has no account row.
pub open spec fn not_signed_in() -> Seq<char> {
    "You are not signed in"@
}

/// The message of a subscription that went through.
pub open spec fn subscribed_text() -> Seq<char> {
    "You have successfully subscribed!"@
}

/// Law: a subscription that went through is confirmed by a success embed saying "You
/// have successfully subscribed!"; one that changed nothing is refused with "You are not
/// signed in".
pub proof fn lemma_subscription_messages()
    ensures
        success_embed_view(subscribed_text()).title == Some("Success"@),
        success_embed_view(subscribed_text()).description == Some("You have successfully subscribed!"@),
        not_signed_in() == "You are not signed in"@,
{
}

/// The `notify` command.
pub struct Notify;

impl Notify {
    /// After inserting the subscription for a channel: the sync of movies and shows for the
    /// caller when a row was inserted, the error that the caller is not signed in otherwise.
    pub fn subscribed(inserted: usize, channel: u64, author: u64) -> (r: Result<(u64, u8, u64), String>)
        ensures
            inserted > 0 ==> r == Ok::<(u64, u8, u64), String>((channel, MOVIES_AND_SHOWS, author)),
            inserted == 0 ==> (r matches Err(e) && e@ == not_signed_in()),
    {
        if inserted > 0 {
            Ok((channel, MOVIES_AND_SHOWS, author))
        } else {
            Err(String::from_str("You are not signed in"))
        }
    }

    /// The direct message that confirms the subscription.
    pub fn confirmation() -> (e: Embed)
        ensures
            e@ == success_embed_view(subscribed_text()),
    {
        success_embed("You have successfully subscribed!")
    }
}

/// The `subscribe` command.
pub struct Subscribe;

impl Subscribe {
    /// After marking the caller as subscribed: the confirmation when a row changed, the
    /// error that the caller is not signed in otherwise.
    pub fn outcome(updated: usize) -> (r: Result<Embed, String>)
        ensures
            updated > 0 ==> (r matches Ok(e) && e@ == success_embed_view(subscribed_text())),
            updated == 0 ==> (r matches Err(e) && e@ == not_signed_in()),
    {
        if updated > 0 {
            Ok(success_embed("You have successfully subscribed!"))
        } else {
            Err(String::from_str("You are not signed in"))
        }
    }
}

} // verus!
