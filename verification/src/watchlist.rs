//! The watchlist commands: the cached watchlist, its lines, its pages and the random pick.
use vstd::prelude::*;
use crate::datetime::{chrono_rfc3339, rfc3339};
use crate::embed::{AuthorView, BOT_RED, Embed, EmbedAuthor, EmbedView, empty_embed, new_embed, rgb};
use crate::messages::{MovieInfo, ShowInfo, full_movie, full_movie_view, full_show, full_show_view};
use crate::text::{decimal, push_decimal};
use crate::time::{UtcTime, elapsed, elapsed_nanos, valid_day};

verus! {

/// What a watchlist item is, with what the bot shows of it.
#[derive(Clone, Debug, PartialEq, Eq)]
pub enum ListEntry {
    Movie(MovieInfo),
    Show(ShowInfo),
    Season { show_title: String, number: u32 },
    Episode { title: Option<String>, number: u32 },
    Person { name: String },
}

/// An item of a watchlist and its rank there.
#[derive(Clone, Debug, PartialEq, Eq)]
pub struct ListItem {
    pub rank: u32,
    pub entry: ListEntry,
}

/// A user's watchlist as the cache holds it: the items and when they were fetched.
#[derive(Clone, Debug, PartialEq, Eq)]
pub struct Watchlist {
    pub last_downsync: UtcTime,
    pub list: Vec<ListItem>,
}

impl std::ops::Deref for Watchlist {
    type Target = Vec<ListItem>;

    /// The items of the watchlist.
    fn deref(&self) -> (items: &Vec<ListItem>)
        ensures
            *items == self.list,
    {
        &self.list
    }
}

/// The columns of a logged-in user that the watchlist commands read.
#[derive(Clone, Debug, PartialEq, Eq)]
pub struct UserRow {
    pub slug: String,
    pub access_token: String,
    pub name: Option<String>,
    pub username: String,
    pub avatar: Option<String>,
}

/// How long a cached watchlist is used before it is fetched again, in seconds.
pub const REFRESH_AFTER_SECS: i64 = 3 * 60 * 60;

/// The message when the user has no row.
pub open spec fn not_logged_in() -> Seq<char> {
    "You are not logged in"@
}

/// The message when the watchlist has no item.
pub open spec fn empty_watchlist() -> Seq<char> {
    "Your watchlist is empty"@
}

/// The user's row, or the error that the user is not logged in when there is none.
pub fn logged_in_row(rows: Vec<UserRow>) -> (r: Result<UserRow, String>)
    ensures
        rows@.len() == 0 ==> (r matches Err(e) && e@ == not_logged_in()),
        rows@.len() > 0 ==> r == Ok::<UserRow, String>(rows@[0]),
{
    if rows.len() == 0 {
        Err(String::from_str("You are not logged in"))
    } else {
        let mut rows = rows;
        let ghost first = rows@[0];
        let row = rows.swap_remove(0);
        assert(row == first);
        Ok(row)
    }
}

/// A cached watchlist fetched at `last` is still used at `now`: it is not older than
/// three hours.
pub open spec fn is_fresh(last: UtcTime, now: UtcTime) -> bool {
    elapsed_nanos(last, now) <= REFRESH_AFTER_SECS * 1_000_000_000
}

/// Whether a watchlist fetched at `last` is still fresh at `now`.
pub fn fresh(last: &UtcTime, now: &UtcTime) -> (b: bool)
    requires
        last.wf(),
        now.wf(),
    ensures
        b == is_fresh(*last, *now),
{
    let diff = elapsed(last, now);
    diff <= (REFRESH_AFTER_SECS as i128) * 1_000_000_000
}

/// What the cache lookup decides: the cached watchlist when it was read and is fresh,
/// the read error when it could not be read, and a fetch (`Ok(None)`) otherwise.
pub open spec fn cache_choice(cached: Option<Result<Watchlist, String>>, now: UtcTime) -> Result<Option<Watchlist>, Seq<char>> {
    match cached {
        None => Ok(None),
        Some(Err(e)) => Err(e@),
        Some(Ok(w)) => if is_fresh(w.last_downsync, now) { Ok(Some(w)) } else { Ok(None) },
    }
}

/// Decides on a cache entry (absent, unreadable, or read) at `now`.
pub fn reuse_cached(cached: Option<Result<Watchlist, String>>, now: &UtcTime) -> (r: Result<Option<Watchlist>, String>)
    requires
        now.wf(),
        cached matches Some(Ok(w)) ==> w.last_downsync.wf(),
    ensures
        match (r, cache_choice(cached, *now)) {
            (Ok(a), Ok(b)) => a == b,
            (Err(a), Err(b)) => a@ == b,
            _ => false,
        },
{
    match cached {
        None => Ok(None),
        Some(Err(e)) => Err(e),
        Some(Ok(w)) => {
            if fresh(&w.last_downsync, now) {
                Ok(Some(w))
            } else {
                Ok(None)
            }
        },
    }
}

/// Law: a watchlist stored at `t` is reused at every instant up to three hours after `t`
/// (an instant before `t` included), and fetched again once it is older than three hours.
pub proof fn lemma_cache_window(list: Vec<ListItem>, t: UtcTime, now: UtcTime)
    ensures
        elapsed_nanos(t, now) <= REFRESH_AFTER_SECS * 1_000_000_000 ==>
            cache_choice(Some(Ok(Watchlist { last_downsync: t, list })), now)
                == Ok::<Option<Watchlist>, Seq<char>>(Some(Watchlist { last_downsync: t, list })),
        elapsed_nanos(t, now) > REFRESH_AFTER_SECS * 1_000_000_000 ==>
            cache_choice(Some(Ok(Watchlist { last_downsync: t, list })), now)
                == Ok::<Option<Watchlist>, Seq<char>>(None),
{
}

/// The line that presents an item in the watchlist.
pub open spec fn item_line(item: ListItem) -> Seq<char> {
    let rank = decimal(item.rank as nat);
    match item.entry {
        ListEntry::Movie(m) => ":movie_camera: ["@ + rank + "] "@ + m.title@,
        ListEntry::Show(s) => ":film_frames: ["@ + rank + "] "@ + s.title@,
        ListEntry::Season { show_title, number } =>
            ":film_frames: ["@ + rank + "] "@ + show_title@ + " Season "@ + decimal(number as nat),
        ListEntry::Episode { title, number } => ":film_frames: ["@ + rank + "] "@ + match title {
            Some(t) => t@,
            None => "Episode "@ + decimal(number as nat),
        },
        ListEntry::Person { name } => ":mens: ["@ + rank + "] "@ + name@,
    }
}

fn lead(icon: &str, rank: u32) -> (s: String)
    ensures
        s@ == icon@ + decimal(rank as nat) + "] "@,
{
    let mut s = String::from_str(icon);
    push_decimal(&mut s, rank as u64);
    s.append("] ");
    s
}

/// The line that presents an item in the watchlist.
pub fn watchlist_line(item: &ListItem) -> (s: String)
    ensures
        s@ == item_line(*item),
{
    match &item.entry {
        ListEntry::Movie(m) => {
            let mut s = lead(":movie_camera: [", item.rank);
            s.append(m.title.as_str());
            s
        },
        ListEntry::Show(sh) => {
            let mut s = lead(":film_frames: [", item.rank);
            s.append(sh.title.as_str());
            s
        },
        ListEntry::Season { show_title, number } => {
            let mut s = lead(":film_frames: [", item.rank);
            s.append(show_title.as_str());
            s.append(" Season ");
            push_decimal(&mut s, *number as u64);
            s
        },
        ListEntry::Episode { title, number } => {
            let mut s = lead(":film_frames: [", item.rank);
            match title {
                Some(t) => {
                    s.append(t.as_str());
                },
                None => {
                    s.append("Episode ");
                    push_decimal(&mut s, *number as u64);
                },
            }
            s
        },
        ListEntry::Person { name } => {
            let mut s = lead(":mens: [", item.rank);
            s.append(name.as_str());
            s
        },
    }
}

/// The lines of all items, in the watchlist's order.
pub open spec fn watchlist_lines_view(list: Seq<ListItem>) -> Seq<Seq<char>> {
    list.map_values(|i: ListItem| item_line(i))
}

/// The lines of all items, in the watchlist's order.
pub fn watchlist_lines(list: &Vec<ListItem>) -> (lines: Vec<String>)
    ensures
        lines@.map_values(|s: String| s@) == watchlist_lines_view(list@),
{
    let mut lines: Vec<String> = Vec::new();
    for i in 0..list.len()
        invariant
            lines@.len() == i,
            forall|j: int| 0 <= j < i ==> #[trigger] lines@[j]@ == item_line(list@[j]),
    {
        lines.push(watchlist_line(&list[i]));
    }
    assert(lines@.map_values(|s: String| s@) =~= watchlist_lines_view(list@));
    lines
}

/// Lines joined with a newline between each two.
pub open spec fn join_lines(lines: Seq<Seq<char>>) -> Seq<char>
    decreases lines.len(),
{
    if lines.len() == 0 {
        Seq::empty()
    } else if lines.len() == 1 {
        lines[0]
    } else {
        join_lines(lines.drop_last()) + "\n"@ + lines.last()
    }
}

/// How many lines a page holds at most.
pub const PAGE_LINES: usize = 20;

/// The number of pages the list command sends for `n` lines: one more than the number of
/// full pages of twenty, so that a count that is a multiple of twenty ends in an empty page.
pub open spec fn page_count(n: nat) -> nat {
    n / 20 + 1
}

/// The lines on page `p` (counted from 0).
pub open spec fn page(lines: Seq<Seq<char>>, p: int) -> Seq<Seq<char>> {
    let end = if 20 * p + 20 <= lines.len() { 20 * p + 20 } else { lines.len() as int };
    lines.subrange(20 * p, end)
}

/// All pages of the lines, in order.
pub open spec fn pages(lines: Seq<Seq<char>>) -> Seq<Seq<Seq<char>>> {
    Seq::new(page_count(lines.len()), |p: int| page(lines, p))
}

proof fn lemma_pages_prefix(lines: Seq<Seq<char>>, k: nat)
    requires
        k <= page_count(lines.len()),
    ensures
        Seq::new(k, |p: int| page(lines, p)).flatten()
            =~= lines.subrange(0, if 20 * k <= lines.len() { (20 * k) as int } else { lines.len() as int }),
    decreases k,
{
    let n = lines.len();
    if k == 0 {
        assert(Seq::new(0, |p: int| page(lines, p)) =~= Seq::<Seq<Seq<char>>>::empty());
    } else {
        let k1 = (k - 1) as nat;
        lemma_pages_prefix(lines, k1);
        let prev = Seq::new(k1, |p: int| page(lines, p));
        assert(Seq::new(k, |p: int| page(lines, p)) =~= prev.push(page(lines, k1 as int)));
        prev.lemma_flatten_push(page(lines, k1 as int));
        assert(20 * k1 <= n) by {
            assert(k1 <= n / 20);
        }
    }
}

/// Law: the pages hold every line once, in order, and each page holds at most twenty lines.
pub proof fn lemma_pages_partition(lines: Seq<Seq<char>>)
    ensures
        pages(lines).flatten() == lines,
        pages(lines).len() == lines.len() / 20 + 1,
        forall|p: int| 0 <= p < pages(lines).len() ==> #[trigger] pages(lines)[p].len() <= 20,
{
    lemma_pages_prefix(lines, page_count(lines.len()));
    assert(20 * page_count(lines.len()) > lines.len());
    assert(lines.subrange(0, lines.len() as int) =~= lines);
}

fn join_range(lines: &Vec<String>, start: usize, end: usize) -> (s: String)
    requires
        start <= end <= lines@.len(),
    ensures
        s@ == join_lines(lines@.map_values(|l: String| l@).subrange(start as int, end as int)),
{
    let ghost views = lines@.map_values(|l: String| l@);
    let mut s = String::new();
    let mut j = start;
    assert(views.subrange(start as int, start as int) =~= Seq::<Seq<char>>::empty());
    while j < end
        invariant
            start <= j <= end <= lines@.len(),
            views == lines@.map_values(|l: String| l@),
            s@ == join_lines(views.subrange(start as int, j as int)),
        decreases end - j,
    {
        let ghost sub_next = views.subrange(start as int, j + 1);
        assert(sub_next.drop_last() =~= views.subrange(start as int, j as int));
        if j > start {
            s.append("\n");
        }
        s.append(lines[j].as_str());
        proof {
            if j == start {
                assert(sub_next.len() == 1);
                assert(s@ =~= sub_next[0]);
            }
        }
        j = j + 1;
    }
    s
}

/// The author line of the watchlist embeds: the name (or the username), a link to the
/// profile, and the avatar (empty when the user has none).
pub open spec fn watchlist_author(row: UserRow) -> AuthorView {
    AuthorView {
        name: match row.name { Some(n) => n@, None => row.username@ },
        url: Some("https://trakt.tv/users/"@ + row.username@),
        icon_url: Some(match row.avatar { Some(a) => a@, None => Seq::empty() }),
    }
}

/// The embed of one page of the watchlist.
pub open spec fn list_page_view(row: UserRow, last_downsync: UtcTime, text: Seq<char>) -> EmbedView {
    EmbedView {
        title: Some(":notepad_spiral: W A T C H L I S T"@),
        color: Some(BOT_RED),
        description: Some(text),
        author: Some(watchlist_author(row)),
        url: Some("https://trakt.tv/users/"@ + row.username@ + "/watchlist"@),
        timestamp: Some(chrono_rfc3339(last_downsync.secs, last_downsync.nanos)),
        footer: Some("Gets refreshed when older than 3 hours"@),
        ..empty_embed()
    }
}

/// Law: each page of the list is titled ":notepad_spiral: W A T C H L I S T" in the bot's
/// red and holds its lines as description, has no fields, links to the user's watchlist,
/// carries the time of the last fetch and the footer "Gets refreshed when older than 3
/// hours", and names the user as author: by name (by username when there is none), linking
/// to the profile, with the avatar (empty when there is none) as icon.
pub proof fn lemma_list_page_content(row: UserRow, last_downsync: UtcTime, text: Seq<char>)
    ensures
        list_page_view(row, last_downsync, text).title == Some(":notepad_spiral: W A T C H L I S T"@),
        list_page_view(row, last_downsync, text).color == Some(BOT_RED),
        list_page_view(row, last_downsync, text).description == Some(text),
        list_page_view(row, last_downsync, text).fields.len() == 0,
        list_page_view(row, last_downsync, text).url == Some("https://trakt.tv/users/"@ + row.username@ + "/watchlist"@),
        list_page_view(row, last_downsync, text).timestamp == Some(chrono_rfc3339(last_downsync.secs, last_downsync.nanos)),
        list_page_view(row, last_downsync, text).footer == Some("Gets refreshed when older than 3 hours"@),
        list_page_view(row, last_downsync, text).thumbnail is None,
        list_page_view(row, last_downsync, text).author == Some(AuthorView {
            name: if row.name is Some { row.name.unwrap()@ } else { row.username@ },
            url: Some("https://trakt.tv/users/"@ + row.username@),
            icon_url: Some(if row.avatar is Some { row.avatar.unwrap()@ } else { Seq::empty() }),
        }),
{
}

/// Law: the line of an item is its icon, its rank in brackets and its name: the movie
/// camera and the title for a movie; the film frames and the title for a show, the show's
/// title and " Season " with the number for a season, and the title (or "Episode " with
/// the number) for an episode; the men for a person, with the name.
pub proof fn lemma_item_line_content(item: ListItem)
    ensures
        item.entry matches ListEntry::Movie(m) ==> item_line(item) == ":movie_camera: ["@ + decimal(item.rank as nat) + "] "@ + m.title@,
        item.entry matches ListEntry::Show(s) ==> item_line(item) == ":film_frames: ["@ + decimal(item.rank as nat) + "] "@ + s.title@,
        item.entry matches ListEntry::Season { show_title, number } ==> item_line(item)
            == ":film_frames: ["@ + decimal(item.rank as nat) + "] "@ + show_title@ + " Season "@ + decimal(number as nat),
        item.entry matches ListEntry::Episode { title: Some(t), .. } ==> item_line(item)
            == ":film_frames: ["@ + decimal(item.rank as nat) + "] "@ + t@,
        item.entry matches ListEntry::Episode { title: None, number } ==> item_line(item)
            == ":film_frames: ["@ + decimal(item.rank as nat) + "] "@ + "Episode "@ + decimal(number as nat),
        item.entry matches ListEntry::Person { name } ==> item_line(item) == ":mens: ["@ + decimal(item.rank as nat) + "] "@ + name@,
{
}

fn author_of(row: &UserRow) -> (a: EmbedAuthor)
    ensures
        a@ == watchlist_author(*row),
{
    let name = match &row.name {
        Some(n) => n.clone(),
        None => row.username.clone(),
    };
    let mut url = String::from_str("https://trakt.tv/users/");
    url.append(row.username.as_str());
    let icon = match &row.avatar {
        Some(a) => a.clone(),
        None => String::new(),
    };
    EmbedAuthor { name, url: Some(url), icon_url: Some(icon) }
}

fn watchlist_url(row: &UserRow) -> (s: String)
    ensures
        s@ == "https://trakt.tv/users/"@ + row.username@ + "/watchlist"@,
{
    let mut url = String::from_str("https://trakt.tv/users/");
    url.append(row.username.as_str());
    url.append("/watchlist");
    url
}

/// The list command (`watchlist`).
pub struct WatchlistList;

impl WatchlistList {
    /// The embeds that the list command sends, one per page of twenty lines.
    pub fn pages(row: &UserRow, watchlist: &Watchlist) -> (embeds: Vec<Embed>)
        requires
            watchlist.last_downsync.wf(),
        ensures
            embeds@.len() == page_count(watchlist.list@.len()),
            forall|p: int| 0 <= p < embeds@.len() ==> #[trigger] embeds@[p]@ == list_page_view(
                *row,
                watchlist.last_downsync,
                join_lines(pages(watchlist_lines_view(watchlist.list@))[p]),
            ),
    {
        let lines = watchlist_lines(&watchlist.list);
        let ghost views = watchlist_lines_view(watchlist.list@);
        assert(lines@.map_values(|l: String| l@) == views);
        let n = lines.len();
        let count = n / PAGE_LINES + 1;
        let stamp = rfc3339(&watchlist.last_downsync);
        let mut embeds: Vec<Embed> = Vec::new();
        let mut p: usize = 0;
        while p < count
            invariant
                n == lines@.len() == views.len(),
                lines@.map_values(|l: String| l@) == views,
                count == page_count(n as nat),
                p <= count,
                stamp@ == chrono_rfc3339(watchlist.last_downsync.secs, watchlist.last_downsync.nanos),
                embeds@.len() == p,
                forall|q: int| 0 <= q < p ==> #[trigger] embeds@[q]@ == list_page_view(
                    *row,
                    watchlist.last_downsync,
                    join_lines(pages(views)[q]),
                ),
            decreases count - p,
        {
            assert(20 * p <= n) by {
                assert(p <= n / 20);
            }
            let start = p * PAGE_LINES;
            let end = if n - start < PAGE_LINES { n } else { start + PAGE_LINES };
            let text = join_range(&lines, start, end);
            assert(pages(views)[p as int] == page(views, p as int));
            let mut e = new_embed();
            e.title = Some(String::from_str(":notepad_spiral: W A T C H L I S T"));
            e.color = Some(rgb(237, 28, 36));
            e.description = Some(text);
            e.author = Some(author_of(row));
            e.url = Some(watchlist_url(row));
            e.timestamp = Some(stamp.clone());
            e.footer = Some(String::from_str("Gets refreshed when older than 3 hours"));
            embeds.push(e);
            p = p + 1;
        }
        embeds
    }
}

/// The items whose embeds need a slug and a valid release date have them.
pub open spec fn presentable(item: ListItem) -> bool {
    match item.entry {
        ListEntry::Movie(m) => m.slug is Some && valid_day(m.released),
        ListEntry::Show(s) => s.slug is Some,
        _ => true,
    }
}

/// The embed that the random command sends for the chosen item: the movie or show embed
/// for a movie or show, otherwise the item's line under the watchlist title.
pub open spec fn random_item_view(row: UserRow, item: ListItem) -> EmbedView {
    match item.entry {
        ListEntry::Movie(m) => full_movie_view(m),
        ListEntry::Show(s) => full_show_view(s),
        _ => EmbedView {
            title: Some(":notepad_spiral: W A T C H L I S T"@),
            color: Some(BOT_RED),
            description: Some(item_line(item)),
            author: Some(watchlist_author(row)),
            url: Some("https://trakt.tv/users/"@ + row.username@ + "/watchlist"@),
            ..empty_embed()
        },
    }
}

/// Law: the random command presents a movie by the movie embed and a show by the show
/// embed; any other item by its line, under the watchlist title in the bot's red, with no
/// fields, linking to the user's watchlist, and with the same author as the list pages.
pub proof fn lemma_random_item_content(row: UserRow, item: ListItem)
    ensures
        item.entry matches ListEntry::Movie(m) ==> random_item_view(row, item) == full_movie_view(m),
        item.entry matches ListEntry::Show(s) ==> random_item_view(row, item) == full_show_view(s),
        !(item.entry is Movie) && !(item.entry is Show) ==> {
            &&& random_item_view(row, item).title == Some(":notepad_spiral: W A T C H L I S T"@)
            &&& random_item_view(row, item).color == Some(BOT_RED)
            &&& random_item_view(row, item).description == Some(item_line(item))
            &&& random_item_view(row, item).fields.len() == 0
            &&& random_item_view(row, item).url == Some("https://trakt.tv/users/"@ + row.username@ + "/watchlist"@)
            &&& random_item_view(row, item).author == list_page_view(row, UtcTime { secs: 0, nanos: 0 }, Seq::empty()).author
            &&& random_item_view(row, item).timestamp is None
            &&& random_item_view(row, item).footer is None
            &&& random_item_view(row, item).thumbnail is None
        },
{
}

/// Calls `rand::seq::IteratorRandom::choose` with `rand::thread_rng()` on the indices
/// `0..len`; the contract claims only that the chosen index lies below `len` (the crate
/// returns `Some` on a non-empty iterator). Which index comes out rests on chance.
#[verifier::external_body]
fn random_index(len: usize) -> (i: usize)
    requires
        len > 0,
    ensures
        i < len,
{
    rand::seq::IteratorRandom::choose(0..len, &mut rand::thread_rng()).unwrap()
}

/// The random command (`watchlist random`).
pub struct WatchlistRandom;

impl WatchlistRandom {
    /// The embed for the item at `index`.
    pub fn embed_at(row: &UserRow, watchlist: &Watchlist, index: usize) -> (e: Embed)
        requires
            index < watchlist.list@.len(),
            presentable(watchlist.list@[index as int]),
        ensures
            e@ == random_item_view(*row, watchlist.list@[index as int]),
    {
        let item = &watchlist.list[index];
        match &item.entry {
            ListEntry::Movie(m) => full_movie(m),
            ListEntry::Show(s) => full_show(s),
            _ => {
                let mut e = new_embed();
                e.title = Some(String::from_str(":notepad_spiral: W A T C H L I S T"));
                e.color = Some(rgb(237, 28, 36));
                e.description = Some(watchlist_line(item));
                e.author = Some(author_of(row));
                e.url = Some(watchlist_url(row));
                e
            },
        }
    }

    /// Picks the index of an item at random, or gives the error that the watchlist is empty.
    pub fn pick_index(watchlist: &Watchlist) -> (r: Result<usize, String>)
        ensures
            watchlist.list@.len() == 0 <==> r is Err,
            r matches Err(e) ==> e@ == empty_watchlist(),
            r matches Ok(i) ==> i < watchlist.list@.len(),
    {
        if watchlist.list.len() == 0 {
            return Err(String::from_str("Your watchlist is empty"));
        }
        Ok(random_index(watchlist.list.len()))
    }

    /// Whether the item carries what its embed needs (the command panics on one that does not).
    pub fn is_presentable(item: &ListItem) -> (b: bool)
        ensures
            b == presentable(*item),
    {
        match &item.entry {
            ListEntry::Movie(m) => m.slug.is_some() && crate::time::MIN_DAY <= m.released && m.released <= crate::time::MAX_DAY,
            ListEntry::Show(s) => s.slug.is_some(),
            _ => true,
        }
    }

    /// Picks an item at random and gives its embed, or the error that the watchlist is empty.
    pub fn pick(row: &UserRow, watchlist: &Watchlist) -> (r: Result<Embed, String>)
        requires
            forall|i: int| 0 <= i < watchlist.list@.len() ==> presentable(#[trigger] watchlist.list@[i]),
        ensures
            watchlist.list@.len() == 0 <==> r is Err,
            r matches Err(e) ==> e@ == empty_watchlist(),
            r matches Ok(e) ==> exists|i: int| 0 <= i < watchlist.list@.len()
                && e@ == random_item_view(*row, #[trigger] watchlist.list@[i]),
    {
        let i = Self::pick_index(watchlist)?;
        let e = Self::embed_at(row, watchlist, i);
        assert(e@ == random_item_view(*row, watchlist.list@[i as int]));
        Ok(e)
    }
}

} // verus!
