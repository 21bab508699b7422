//! The notifier: which calendars a subscription syncs, which subscriptions the sync
//! loop works on, and the notifications that go out when an episode airs or a movie
//! is released.
use vstd::prelude::*;
use crate::datetime::{chrono_rfc3339, rfc3339};
use crate::embed::{Embed, EmbedField, EmbedView, FieldView, empty_embed, field, fields_view, make_field, new_embed, present, push_field};
use crate::text::{decimal, push_decimal, push_signed_decimal, signed_decimal};
use crate::time::{MAX_TIMESTAMP, UtcTime, valid_day};

verus! {

/// The calendars that one sync of a subscription fetches.
#[derive(Clone, Copy, Debug, PartialEq, Eq, Structural)]
pub struct SyncPlan {
    pub movies: bool,
    pub shows: bool,
}

/// The notification type that subscribes to both movies and shows.
pub const MOVIES_AND_SHOWS: u8 = 12;

/// How many days of the calendar a sync fetches, from today on.
pub const CALENDAR_DAYS: u32 = 4;

/// What a subscription of type `type_` syncs: nothing when the type is odd; otherwise
/// movies when bit 2 is set and shows when bit 3 is set.
pub open spec fn plan_of(type_: u8) -> SyncPlan {
    SyncPlan {
        movies: type_ % 2 == 0 && (type_ / 4) % 2 == 1,
        shows: type_ % 2 == 0 && (type_ / 8) % 2 == 1,
    }
}

/// What a subscription of type `type_` syncs.
pub fn sync_plan(type_: u8) -> (p: SyncPlan)
    ensures
        p == plan_of(type_),
{
    assert((type_ & 4 == 4) == ((type_ / 4) % 2 == 1)) by (bit_vector);
    assert((type_ & 8 == 8) == ((type_ / 8) % 2 == 1)) by (bit_vector);
    if type_ % 2 == 0 {
        SyncPlan { movies: type_ & 4 == 4, shows: type_ & 8 == 8 }
    } else {
        SyncPlan { movies: false, shows: false }
    }
}

/// Law: the type that a new subscription gets syncs both movies and shows, and an odd
/// type syncs nothing.
pub proof fn lemma_plan_types(type_: u8)
    ensures
        plan_of(MOVIES_AND_SHOWS) == (SyncPlan { movies: true, shows: true }),
        type_ % 2 == 1 ==> plan_of(type_) == (SyncPlan { movies: false, shows: false }),
{
}

/// Law: an even subscription type syncs movies exactly when its bit 4 is set and shows
/// exactly when its bit 8 is set; an odd type syncs nothing.
pub proof fn lemma_plan_bits(type_: u8)
    ensures
        plan_of(type_).movies == (type_ % 2 == 0 && type_ & 4 == 4),
        plan_of(type_).shows == (type_ % 2 == 0 && type_ & 8 == 8),
{
    assert((type_ & 4 == 4) == ((type_ / 4) % 2 == 1)) by (bit_vector);
    assert((type_ & 8 == 8) == ((type_ / 8) % 2 == 1)) by (bit_vector);
}

/// One sync to run: for a channel, with a type, for a user and with the user's token.
#[derive(Clone, Debug, PartialEq, Eq)]
pub struct SyncJob {
    pub channel: u64,
    pub type_: u8,
    pub discord_id: u64,
    pub access_token: String,
}

/// The sync for a new subscription: with the user's first token, none when the user has none.
pub fn sync_job_for(channel: u64, type_: u8, discord_id: u64, tokens: Vec<String>) -> (j: Option<SyncJob>)
    ensures
        tokens@.len() == 0 <==> j is None,
        j matches Some(job) ==> job == (SyncJob { channel, type_, discord_id, access_token: tokens@[0] }),
{
    if tokens.len() == 0 {
        None
    } else {
        let mut tokens = tokens;
        let ghost first = tokens@[0];
        let access_token = tokens.swap_remove(0);
        assert(access_token == first);
        Some(SyncJob { channel, type_, discord_id, access_token })
    }
}

/// A subscription as the `notify` table (joined with the user's token) holds it.
#[derive(Clone, Debug, PartialEq, Eq)]
pub struct NotificationRow {
    pub channel: i64,
    pub type_: i32,
    pub data: Option<i64>,
    pub access_token: Option<String>,
}

/// The sync of one subscription row: the numbers read as unsigned (the type truncated to
/// a byte), the user and the token as the row holds them.
pub open spec fn job_of(row: NotificationRow) -> SyncJob {
    SyncJob {
        channel: row.channel as u64,
        type_: row.type_ as u8,
        discord_id: row.data.unwrap() as u64,
        access_token: row.access_token.unwrap(),
    }
}

/// Law: the sync of a subscription row runs for the row's channel, with the row's type
/// (its low byte), for the user that the row names and with that user's token.
pub proof fn lemma_job_of_row(row: NotificationRow)
    requires
        row.data is Some,
        row.access_token is Some,
    ensures
        job_of(row).channel == row.channel as u64,
        job_of(row).type_ == row.type_ as u8,
        job_of(row).discord_id == row.data.unwrap() as u64,
        job_of(row).access_token@ == row.access_token.unwrap()@,
{
}

/// The sync of one subscription row.
pub fn sync_job_of(row: &NotificationRow) -> (job: SyncJob)
    requires
        row.data is Some,
        row.access_token is Some,
    ensures
        job == job_of(*row),
{
    let access_token = match &row.access_token {
        Some(t) => t.clone(),
        None => String::new(),
    };
    let discord_id = match row.data {
        Some(d) => d as u64,
        None => 0,
    };
    SyncJob { channel: row.channel as u64, type_: row.type_ as u8, discord_id, access_token }
}

/// The notification to store after a calendar movie was stored: none when storing it failed.
pub fn movie_notification(channel: u64, trakt_id: Option<u64>, stored: bool) -> (n: Option<(u64, u64)>)
    requires
        trakt_id is Some,
    ensures
        n == (if stored { Some((channel, trakt_id.unwrap())) } else { None::<(u64, u64)> }),
{
    let id = trakt_id.unwrap();
    if stored { Some((channel, id)) } else { None }
}

/// The notification to store for a calendar episode of channel `channel`: it is stored
/// whether or not storing the show and the episode succeeded.
pub fn episode_notification_row(channel: u64, trakt_id: Option<u64>, show_stored: bool, episode_stored: bool) -> (n: (u64, u64))
    requires
        trakt_id is Some,
    ensures
        n == (channel, trakt_id.unwrap()),
{
    let id = trakt_id.unwrap();
    (channel, id)
}

/// The seconds the sync loop waits between two rounds.
pub const SYNC_INTERVAL_SECS: u64 = 60_000;

/// The seconds the notification loop waits between two rounds.
pub const NOTIFY_INTERVAL_SECS: u64 = 300;

/// A stored notification: a channel to tell when the item with this trakt id airs.
#[derive(Clone, Copy, Debug, PartialEq, Eq, Structural)]
pub struct PendingNotification {
    pub channel: i64,
    pub trakt_id: i64,
}

/// The channels that wait for the item `trakt_id`, in the table's order.
pub open spec fn pending_channels(table: Seq<PendingNotification>, trakt_id: i64) -> Seq<i64> {
    table.filter(|n: PendingNotification| n.trakt_id == trakt_id).map_values(|n: PendingNotification| n.channel)
}

/// The table once the notifications of `trakt_id` are forgotten.
pub open spec fn forget(table: Seq<PendingNotification>, trakt_id: i64) -> Seq<PendingNotification> {
    table.filter(|n: PendingNotification| n.trakt_id != trakt_id)
}

/// What the notifier does with an item that airs: send to each channel, in order, and
/// then forget the item's notifications.
#[derive(Debug, PartialEq, Eq)]
pub struct Delivery {
    pub channels: Vec<u64>,
    pub forget: bool,
}

/// The delivery of an item, given the channels that wait for it, or `None` when they
/// could not be read: one message to each channel (sent whether or not an earlier
/// message failed), then the item's notifications are forgotten; nothing when the
/// channels could not be read.
pub fn delivery(found: Option<Vec<i64>>) -> (d: Delivery)
    ensures
        found is None ==> d.channels@.len() == 0 && !d.forget,
        found matches Some(cs) ==> d.forget && d.channels@ == cs@.map_values(|c: i64| c as u64),
{
    match found {
        None => Delivery { channels: Vec::new(), forget: false },
        Some(cs) => {
            let mut channels: Vec<u64> = Vec::new();
            for i in 0..cs.len()
                invariant
                    channels@.len() == i,
                    forall|k: int| 0 <= k < i ==> #[trigger] channels@[k] == cs@[k] as u64,
            {
                channels.push(cs[i] as u64);
            }
            assert(channels@ =~= cs@.map_values(|c: i64| c as u64));
            Delivery { channels, forget: true }
        },
    }
}

/// Law: an item is announced once. Delivering it reads the channels that wait for it,
/// and once its notifications are forgotten no channel waits for it any more, so a later
/// round sends nothing for it; the other items' notifications stay as they were.
pub proof fn lemma_announced_once(table: Seq<PendingNotification>, trakt_id: i64, other: i64)
    requires
        other != trakt_id,
    ensures
        pending_channels(forget(table, trakt_id), trakt_id) == Seq::<i64>::empty(),
        pending_channels(forget(table, trakt_id), other) == pending_channels(table, other),
{
    lemma_forget_filters(table, trakt_id, other);
    assert(pending_channels(forget(table, trakt_id), trakt_id) =~= Seq::<i64>::empty());
}

proof fn lemma_forget_filters(table: Seq<PendingNotification>, trakt_id: i64, other: i64)
    requires
        other != trakt_id,
    ensures
        forget(table, trakt_id).filter(|n: PendingNotification| n.trakt_id == trakt_id).len() == 0,
        forget(table, trakt_id).filter(|n: PendingNotification| n.trakt_id == other)
            == table.filter(|n: PendingNotification| n.trakt_id == other),
    decreases table.len(),
{
    let f = |n: PendingNotification| n.trakt_id == trakt_id;
    let g = |n: PendingNotification| n.trakt_id != trakt_id;
    let h = |n: PendingNotification| n.trakt_id == other;
    if table.len() == 0 {
        assert(table.filter(g) =~= Seq::<PendingNotification>::empty()) by {
            reveal(Seq::filter);
        }
        assert(table.filter(g).filter(f) =~= Seq::<PendingNotification>::empty()) by {
            reveal(Seq::filter);
        }
        assert(table.filter(g).filter(h) =~= table.filter(h)) by {
            reveal(Seq::filter);
        }
    } else {
        let rest = table.drop_last();
        let last = table.last();
        lemma_forget_filters(rest, trakt_id, other);
        assert(table =~= rest.push(last));
        rest.lemma_filter_push(last, g);
        rest.lemma_filter_push(last, h);
        let fr = rest.filter(g);
        fr.lemma_filter_push(last, f);
        fr.lemma_filter_push(last, h);
    }
}

/// The table after a round that delivered the items `delivered` in this order, each one
/// forgotten once its channels were read.
pub open spec fn forget_all(table: Seq<PendingNotification>, delivered: Seq<i64>) -> Seq<PendingNotification>
    decreases delivered.len(),
{
    if delivered.len() == 0 {
        table
    } else {
        forget(forget_all(table, delivered.drop_last()), delivered.last())
    }
}

/// Law: after a round, the notifications left are exactly those of the items that the
/// round did not deliver, in their order; no channel waits for a delivered item any more.
pub proof fn lemma_round_forgets_delivered(table: Seq<PendingNotification>, delivered: Seq<i64>)
    ensures
        forget_all(table, delivered) == table.filter(|n: PendingNotification| !delivered.contains(n.trakt_id)),
        forall|id: i64| #[trigger] delivered.contains(id) ==> pending_channels(forget_all(table, delivered), id).len() == 0,
    decreases delivered.len(),
{
    let kept = |n: PendingNotification| !delivered.contains(n.trakt_id);
    if delivered.len() == 0 {
        assert(table.filter(kept) =~= table) by {
            lemma_filter_all(table, kept);
        }
    } else {
        let rest = delivered.drop_last();
        let last = delivered.last();
        lemma_round_forgets_delivered(table, rest);
        let kept_rest = |n: PendingNotification| !rest.contains(n.trakt_id);
        let other = |n: PendingNotification| n.trakt_id != last;
        lemma_filter_filter(table, kept_rest, other);
        assert forall|n: PendingNotification| #[trigger] kept(n) == (kept_rest(n) && other(n)) by {
            assert(delivered =~= rest.push(last));
            if rest.contains(n.trakt_id) {
                let k = choose|k: int| 0 <= k < rest.len() && rest[k] == n.trakt_id;
                assert(delivered[k] == n.trakt_id);
            }
            if delivered.contains(n.trakt_id) && n.trakt_id != last {
                let k = choose|k: int| 0 <= k < delivered.len() && delivered[k] == n.trakt_id;
                assert(rest[k] == n.trakt_id);
            }
            assert(delivered[delivered.len() - 1] == last);
        }
        assert(kept =~= (|n: PendingNotification| kept_rest(n) && other(n)));
    }
    assert forall|id: i64| #[trigger] delivered.contains(id) implies pending_channels(forget_all(table, delivered), id).len() == 0 by {
        lemma_filter_none(table.filter(kept), id);
    }
}

proof fn lemma_filter_all(table: Seq<PendingNotification>, p: spec_fn(PendingNotification) -> bool)
    requires
        forall|n: PendingNotification| #[trigger] p(n),
    ensures
        table.filter(p) == table,
    decreases table.len(),
{
    reveal(Seq::filter);
    if table.len() > 0 {
        lemma_filter_all(table.drop_last(), p);
    }
    assert(table.filter(p) =~= table);
}

proof fn lemma_filter_filter(
    table: Seq<PendingNotification>,
    p: spec_fn(PendingNotification) -> bool,
    q: spec_fn(PendingNotification) -> bool,
)
    ensures
        table.filter(p).filter(q) == table.filter(|n: PendingNotification| p(n) && q(n)),
    decreases table.len(),
{
    let both = |n: PendingNotification| p(n) && q(n);
    if table.len() == 0 {
        reveal(Seq::filter);
        assert(table.filter(p).filter(q) =~= table.filter(both));
    } else {
        let rest = table.drop_last();
        let last = table.last();
        lemma_filter_filter(rest, p, q);
        assert(table =~= rest.push(last));
        rest.lemma_filter_push(last, p);
        rest.lemma_filter_push(last, both);
        rest.filter(p).lemma_filter_push(last, q);
    }
}

proof fn lemma_filter_none(table: Seq<PendingNotification>, id: i64)
    requires
        forall|k: int| 0 <= k < table.len() ==> #[trigger] table[k].trakt_id != id,
    ensures
        pending_channels(table, id).len() == 0,
    decreases table.len(),
{
    let f = |n: PendingNotification| n.trakt_id == id;
    reveal(Seq::filter);
    if table.len() > 0 {
        lemma_filter_none(table.drop_last(), id);
        assert(table.drop_last().filter(f).len() == 0);
    }
}

/// How far ahead of now the notifier looks for episodes that are about to air, in seconds.
pub const EPISODE_LOOKAHEAD_SECS: i64 = 5 * 60;

/// The window of air times for which the notifier announces episodes: after `now` and
/// before five minutes later.
pub fn episode_window(now: &UtcTime) -> (w: (UtcTime, UtcTime))
    requires
        now.wf(),
        now.shifted_secs(EPISODE_LOOKAHEAD_SECS) <= MAX_TIMESTAMP,
    ensures
        w.0 == *now,
        w.1 == now.shifted(EPISODE_LOOKAHEAD_SECS),
        w.1.wf(),
{
    (*now, now.plus_seconds(EPISODE_LOOKAHEAD_SECS))
}

/// Whether an episode airing at `t` falls in the window of a round that started at `now`:
/// after `now` and before the end of the look-ahead.
pub open spec fn in_episode_window(t: UtcTime, now: UtcTime) -> bool {
    now.earlier_than(t) && t.earlier_than(now.shifted(EPISODE_LOOKAHEAD_SECS))
}

/// Law: the notifier looks at each air time in one round at most. A round that starts a
/// full notification interval (or more) after another sees none of the episodes that the
/// earlier round saw, since the look-ahead is no longer than the interval.
pub proof fn lemma_rounds_see_disjoint_windows(first: UtcTime, second: UtcTime, t: UtcTime)
    requires
        !second.earlier_than(first.shifted(NOTIFY_INTERVAL_SECS as i64)),
        in_episode_window(t, first),
    ensures
        !in_episode_window(t, second),
{
}

/// An episode about to air, with its show, as the notifier reads it.
#[derive(Clone, Debug, PartialEq, Eq)]
pub struct EpisodeRow {
    pub trakt_id: i64,
    pub show_title: String,
    pub season_num: i32,
    pub episode_num: i32,
    pub title: String,
    pub first_aired: Option<UtcTime>,
    pub overview: Option<String>,
    pub runtime: Option<i32>,
}

/// A released movie as the notifier reads it.
#[derive(Clone, Debug, PartialEq, Eq)]
pub struct MovieRow {
    pub trakt_id: i64,
    pub slug: String,
    pub title: String,
    pub overview: Option<String>,
    pub trailer: Option<String>,
    pub homepage: Option<String>,
    pub runtime: Option<i32>,
    /// The release day, as days since the Unix epoch.
    pub released: Option<i64>,
}

/// One field, with the given inline flag, when the value is present; none otherwise.
pub open spec fn opt_field_with(name: Seq<char>, value: Option<Seq<char>>, inline: bool) -> Seq<FieldView> {
    match value {
        Some(v) => seq![field(name, v, inline)],
        None => Seq::empty(),
    }
}

/// The runtime field of a notification: the runtime (read as `u32`) in minutes.
pub open spec fn runtime_minutes(runtime: i32) -> FieldView {
    field("Runtime"@, decimal((runtime as u32) as nat) + " minutes"@, true)
}

/// The notification of an episode: the overview (when there is one), a link to the
/// episode, the show and episode numbers, the runtime and the air time.
pub open spec fn episode_notification_view(ep: EpisodeRow) -> EmbedView {
    let first_aired = ep.first_aired.unwrap();
    EmbedView {
        title: Some("New Episode Notification"@),
        url: Some("https://trakt.tv/episodes/"@ + decimal((ep.trakt_id as u64) as nat)),
        description: Some("**"@ + ep.show_title@ + "**\nEpisode "@ + signed_decimal(ep.season_num as int)
            + "x"@ + signed_decimal(ep.episode_num as int) + " \""@ + ep.title@ + "\""@),
        fields: opt_field_with("Overview"@, ep.overview.deep_view(), false) + seq![runtime_minutes(ep.runtime.unwrap())],
        timestamp: Some(chrono_rfc3339(first_aired.secs, first_aired.nanos)),
        ..empty_embed()
    }
}

/// The notification of a movie: overview, trailer and homepage where present, a link to
/// the movie, its title, its runtime and its release day at midnight.
pub open spec fn movie_notification_view(m: MovieRow) -> EmbedView {
    let midnight = UtcTime::spec_midnight(m.released.unwrap());
    EmbedView {
        title: Some("New Movie Notification"@),
        url: Some("https://trakt.tv/movies/"@ + m.slug@),
        description: Some("Movie \""@ + m.title@ + "\" aired"@),
        fields: opt_field_with("Overview"@, m.overview.deep_view(), false)
            + opt_field_with("Trailer"@, m.trailer.deep_view(), true)
            + opt_field_with("Homepage"@, m.homepage.deep_view(), true)
            + seq![runtime_minutes(m.runtime.unwrap())],
        timestamp: Some(chrono_rfc3339(midnight.secs, midnight.nanos)),
        ..empty_embed()
    }
}

/// Law: the notification of an episode is titled "New Episode Notification", links to the
/// episode by its trakt id, names the show, the season and episode numbers and the title,
/// and carries the air time. Its fields are the overview (not inline) when there is one,
/// then the runtime in minutes (inline), and nothing else.
pub proof fn lemma_episode_notification_content(ep: EpisodeRow)
    requires
        ep.runtime is Some,
        ep.first_aired is Some,
    ensures
        episode_notification_view(ep).title == Some("New Episode Notification"@),
        episode_notification_view(ep).url == Some("https://trakt.tv/episodes/"@ + decimal((ep.trakt_id as u64) as nat)),
        episode_notification_view(ep).description == Some("**"@ + ep.show_title@ + "**\nEpisode "@
            + signed_decimal(ep.season_num as int) + "x"@ + signed_decimal(ep.episode_num as int) + " \""@ + ep.title@ + "\""@),
        episode_notification_view(ep).timestamp
            == Some(chrono_rfc3339(ep.first_aired.unwrap().secs, ep.first_aired.unwrap().nanos)),
        episode_notification_view(ep).fields.len() == present(ep.overview) + 1,
        ep.overview matches Some(o) ==> episode_notification_view(ep).fields[0]
            == (FieldView { name: "Overview"@, value: o@, inline: false }),
        episode_notification_view(ep).fields.last() == (FieldView {
            name: "Runtime"@,
            value: decimal((ep.runtime.unwrap() as u32) as nat) + " minutes"@,
            inline: true,
        }),
        episode_notification_view(ep).color is None,
        episode_notification_view(ep).author is None,
        episode_notification_view(ep).thumbnail is None,
        episode_notification_view(ep).footer is None,
{
}

/// Law: the notification of a movie is titled "New Movie Notification", links to the movie
/// by its slug, says that the movie aired, and carries midnight (UTC) of its release day.
/// Its fields are, in this order and each only when the movie has it, the overview (not
/// inline), the trailer and the homepage (inline), and last the runtime in minutes
/// (inline); nothing else.
pub proof fn lemma_movie_notification_content(m: MovieRow)
    requires
        m.runtime is Some,
        m.released matches Some(d) && valid_day(d),
    ensures
        movie_notification_view(m).title == Some("New Movie Notification"@),
        movie_notification_view(m).url == Some("https://trakt.tv/movies/"@ + m.slug@),
        movie_notification_view(m).description == Some("Movie \""@ + m.title@ + "\" aired"@),
        movie_notification_view(m).timestamp == Some(chrono_rfc3339((m.released.unwrap() * 86_400) as i64, 0)),
        movie_notification_view(m).fields.len() == present(m.overview) + present(m.trailer) + present(m.homepage) + 1,
        m.overview matches Some(o) ==> movie_notification_view(m).fields[0]
            == (FieldView { name: "Overview"@, value: o@, inline: false }),
        m.trailer matches Some(t) ==> movie_notification_view(m).fields[present(m.overview)]
            == (FieldView { name: "Trailer"@, value: t@, inline: true }),
        m.homepage matches Some(h) ==> movie_notification_view(m).fields[present(m.overview) + present(m.trailer)]
            == (FieldView { name: "Homepage"@, value: h@, inline: true }),
        movie_notification_view(m).fields.last() == (FieldView {
            name: "Runtime"@,
            value: decimal((m.runtime.unwrap() as u32) as nat) + " minutes"@,
            inline: true,
        }),
        movie_notification_view(m).color is None,
        movie_notification_view(m).author is None,
        movie_notification_view(m).thumbnail is None,
        movie_notification_view(m).footer is None,
{
}

fn push_opt(fields: &mut Vec<EmbedField>, name: &str, value: Option<String>, inline: bool)
    ensures
        fields_view(final(fields)@) == fields_view(old(fields)@) + opt_field_with(name@, value.deep_view(), inline),
{
    let ghost before = fields_view(fields@);
    match value {
        Some(v) => {
            push_field(fields, make_field(name, v, inline));
        },
        None => {},
    }
    assert(fields_view(fields@) =~= before + opt_field_with(name@, value.deep_view(), inline));
}

fn runtime_field(runtime: i32) -> (f: EmbedField)
    ensures
        f@ == runtime_minutes(runtime),
{
    let mut v = String::new();
    push_decimal(&mut v, (runtime as u32) as u64);
    v.append(" minutes");
    make_field("Runtime", v, true)
}

/// The notification of an episode that is about to air.
pub fn episode_notification(ep: &EpisodeRow) -> (e: Embed)
    requires
        ep.runtime is Some,
        ep.first_aired matches Some(t) && t.wf(),
    ensures
        e@ == episode_notification_view(*ep),
{
    let mut e = new_embed();
    let mut fields = Vec::new();
    push_opt(&mut fields, "Overview", ep.overview.clone(), false);
    e.title = Some(String::from_str("New Episode Notification"));
    let mut url = String::from_str("https://trakt.tv/episodes/");
    push_decimal(&mut url, ep.trakt_id as u64);
    e.url = Some(url);
    let mut d = String::from_str("**");
    d.append(ep.show_title.as_str());
    d.append("**\nEpisode ");
    push_signed_decimal(&mut d, ep.season_num as i64);
    d.append("x");
    push_signed_decimal(&mut d, ep.episode_num as i64);
    d.append(" \"");
    d.append(ep.title.as_str());
    d.append("\"");
    e.description = Some(d);
    push_field(&mut fields, runtime_field(ep.runtime.unwrap()));
    e.fields = fields;
    let first_aired = ep.first_aired.unwrap();
    e.timestamp = Some(rfc3339(&first_aired));
    assert(e@.fields =~= episode_notification_view(*ep).fields);
    e
}

/// The notification of a movie released today.
pub fn movie_release_notification(m: &MovieRow) -> (e: Embed)
    requires
        m.runtime is Some,
        m.released matches Some(d) && valid_day(d),
    ensures
        e@ == movie_notification_view(*m),
{
    let mut e = new_embed();
    let mut fields = Vec::new();
    push_opt(&mut fields, "Overview", m.overview.clone(), false);
    push_opt(&mut fields, "Trailer", m.trailer.clone(), true);
    push_opt(&mut fields, "Homepage", m.homepage.clone(), true);
    e.title = Some(String::from_str("New Movie Notification"));
    let mut url = String::from_str("https://trakt.tv/movies/");
    url.append(m.slug.as_str());
    e.url = Some(url);
    let mut d = String::from_str("Movie \"");
    d.append(m.title.as_str());
    d.append("\" aired");
    e.description = Some(d);
    push_field(&mut fields, runtime_field(m.runtime.unwrap()));
    e.fields = fields;
    let midnight = UtcTime::midnight(m.released.unwrap());
    e.timestamp = Some(rfc3339(&midnight));
    assert(e@.fields =~= movie_notification_view(*m).fields);
    e
}

} // verus!
