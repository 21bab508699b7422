use distrakt::embed::{Embed, EmbedAuthor, EmbedField, BOT_RED};
use distrakt::messages::{full_movie, full_show, MovieInfo, ShowInfo};
use distrakt::time::UtcTime;
use distrakt::watchlist::{
    logged_in_row, reuse_cached, watchlist_line, watchlist_lines, ListEntry, ListItem, UserRow,
    Watchlist, WatchlistList, WatchlistRandom,
};

fn s(x: &str) -> String {
    x.to_string()
}

fn field(name: &str, value: &str, inline: bool) -> EmbedField {
    EmbedField { name: s(name), value: s(value), inline }
}

fn movie() -> MovieInfo {
    MovieInfo {
        title: s("Arrival"),
        slug: Some(s("arrival-2016")),
        overview: s("Linguists meet visitors."),
        released: 17_116,
        year: Some(2016),
        homepage: Some(s("https://example.org/arrival")),
        runtime: Some(116),
        trailer: None,
    }
}

fn show() -> ShowInfo {
    ShowInfo {
        title: s("Dark"),
        slug: Some(s("dark")),
        overview: None,
        year: Some(2017),
        homepage: None,
        runtime: Some(60),
        aired_episodes: 26,
    }
}

fn row() -> UserRow {
    UserRow {
        slug: s("sean"),
        access_token: s("token"),
        name: None,
        username: s("sean"),
        avatar: None,
    }
}

fn empty() -> Embed {
    Embed {
        title: None,
        url: None,
        description: None,
        color: None,
        fields: vec![],
        author: None,
        thumbnail: None,
        timestamp: None,
        footer: None,
    }
}

#[test]
fn movie_embed_lists_present_fields_in_order() {
    let e = full_movie(&movie());
    let expected = Embed {
        title: Some(s("[Movie] Arrival")),
        url: Some(s("https://trakt.tv/movies/arrival-2016")),
        description: Some(s("Linguists meet visitors.")),
        fields: vec![
            field("Released", "2016-11-11", true),
            field("Year", "2016", true),
            field("Homepage", "https://example.org/arrival", true),
            field("Runtime", "116 runtimes", true),
        ],
        ..empty()
    };
    assert_eq!(e, expected);
}

#[test]
fn movie_embed_without_optional_fields() {
    let m = MovieInfo { year: None, homepage: None, runtime: None, trailer: Some(s("https://yt/x")), released: 0, ..movie() };
    let e = full_movie(&m);
    assert_eq!(e.fields, vec![field("Released", "1970-01-01", true), field("Trailer", "https://yt/x", true)]);
}

#[test]
fn show_embed() {
    let e = full_show(&show());
    let expected = Embed {
        title: Some(s("[Show] Dark")),
        url: Some(s("https://trakt.tv/shows/dark")),
        fields: vec![
            field("Aired episodes", "26", true),
            field("Year", "2017", true),
            field("Runtime", "60 runtimes", true),
        ],
        ..empty()
    };
    assert_eq!(e, expected);
    let with_overview = ShowInfo { overview: Some(s("Time travel.")), ..show() };
    assert_eq!(full_show(&with_overview).description, Some(s("Time travel.")));
}

#[test]
fn lines_of_each_kind_of_item() {
    let item = |rank: u32, entry: ListEntry| ListItem { rank, entry };
    assert_eq!(watchlist_line(&item(1, ListEntry::Movie(movie()))), ":movie_camera: [1] Arrival");
    assert_eq!(watchlist_line(&item(2, ListEntry::Show(show()))), ":film_frames: [2] Dark");
    assert_eq!(
        watchlist_line(&item(3, ListEntry::Season { show_title: s("Dark"), number: 2 })),
        ":film_frames: [3] Dark Season 2"
    );
    assert_eq!(
        watchlist_line(&item(4, ListEntry::Episode { title: Some(s("Secrets")), number: 1 })),
        ":film_frames: [4] Secrets"
    );
    assert_eq!(
        watchlist_line(&item(5, ListEntry::Episode { title: None, number: 7 })),
        ":film_frames: [5] Episode 7"
    );
    assert_eq!(
        watchlist_line(&item(16, ListEntry::Person { name: s("Denis Villeneuve") })),
        ":mens: [16] Denis Villeneuve"
    );
}

fn persons(n: u32) -> Watchlist {
    Watchlist {
        last_downsync: UtcTime { secs: 0, nanos: 0 },
        list: (1..=n).map(|i| ListItem { rank: i, entry: ListEntry::Person { name: format!("P{}", i) } }).collect(),
    }
}

#[test]
fn lines_keep_the_order() {
    let lines = watchlist_lines(&persons(3).list);
    assert_eq!(lines, vec![":mens: [1] P1", ":mens: [2] P2", ":mens: [3] P3"]);
}

#[test]
fn list_page_embed() {
    let w = persons(2);
    let pages = WatchlistList::pages(&row(), &w);
    assert_eq!(pages.len(), 1);
    let expected = Embed {
        title: Some(s(":notepad_spiral: W A T C H L I S T")),
        color: Some(BOT_RED),
        description: Some(s(":mens: [1] P1\n:mens: [2] P2")),
        author: Some(EmbedAuthor {
            name: s("sean"),
            url: Some(s("https://trakt.tv/users/sean")),
            icon_url: Some(s("")),
        }),
        url: Some(s("https://trakt.tv/users/sean/watchlist")),
        timestamp: Some(s("1970-01-01T00:00:00+00:00")),
        footer: Some(s("Gets refreshed when older than 3 hours")),
        ..empty()
    };
    assert_eq!(pages[0], expected);
}

#[test]
fn list_page_author_uses_name_and_avatar() {
    let r = UserRow { name: Some(s("Sean O.")), avatar: Some(s("https://img/a.png")), ..row() };
    let pages = WatchlistList::pages(&r, &persons(1));
    let author = pages[0].author.clone().unwrap();
    assert_eq!(author.name, "Sean O.");
    assert_eq!(author.icon_url, Some(s("https://img/a.png")));
}

#[test]
fn pages_hold_twenty_lines_each() {
    let descriptions = |n: u32| -> Vec<usize> {
        WatchlistList::pages(&row(), &persons(n))
            .iter()
            .map(|e| {
                let d = e.description.clone().unwrap();
                if d.is_empty() { 0 } else { d.split('\n').count() }
            })
            .collect()
    };
    assert_eq!(descriptions(0), vec![0]);
    assert_eq!(descriptions(5), vec![5]);
    assert_eq!(descriptions(20), vec![20, 0]);
    assert_eq!(descriptions(21), vec![20, 1]);
    assert_eq!(descriptions(45), vec![20, 20, 5]);
    assert_eq!(descriptions(60), vec![20, 20, 20, 0]);
}

#[test]
fn pages_cover_every_line_in_order() {
    let w = persons(45);
    let joined: Vec<String> = WatchlistList::pages(&row(), &w)
        .iter()
        .flat_map(|e| e.description.clone().unwrap().split('\n').map(|l| l.to_string()).collect::<Vec<_>>())
        .collect();
    assert_eq!(joined, watchlist_lines(&w.list));
    let second = WatchlistList::pages(&row(), &w)[1].description.clone().unwrap();
    assert!(second.starts_with(":mens: [21] P21"));
    assert!(second.ends_with(":mens: [40] P40"));
}

#[test]
fn not_logged_in_without_row() {
    assert_eq!(logged_in_row(vec![]), Err(s("You are not logged in")));
    let other = UserRow { slug: s("other"), ..row() };
    assert_eq!(logged_in_row(vec![row(), other]), Ok(row()));
}

fn at(secs: i64, nanos: u32) -> UtcTime {
    UtcTime { secs, nanos }
}

#[test]
fn cached_watchlist_is_reused_for_three_hours() {
    let stored = Watchlist { last_downsync: at(1_000, 0), list: persons(2).list };
    let now = at(1_000 + 3 * 3600 - 1, 999_999_999);
    assert_eq!(reuse_cached(Some(Ok(stored.clone())), &now), Ok(Some(stored.clone())));
    let exactly = at(1_000 + 3 * 3600, 0);
    assert_eq!(reuse_cached(Some(Ok(stored.clone())), &exactly), Ok(Some(stored.clone())));
    let same = at(1_000, 0);
    assert_eq!(reuse_cached(Some(Ok(stored.clone())), &same), Ok(Some(stored.clone())));
}

#[test]
fn cached_watchlist_is_refetched_after_three_hours() {
    let stored = Watchlist { last_downsync: at(1_000, 0), list: persons(2).list };
    assert_eq!(reuse_cached(Some(Ok(stored.clone())), &at(1_000 + 3 * 3600, 1)), Ok(None));
    assert_eq!(reuse_cached(Some(Ok(stored)), &at(1_000_000, 0)), Ok(None));
}

#[test]
fn cache_miss_and_unreadable_entry() {
    assert_eq!(reuse_cached(None, &at(5, 0)), Ok(None));
    assert_eq!(reuse_cached(Some(Err(s("bad cbor"))), &at(5, 0)), Err(s("bad cbor")));
}

#[test]
fn watchlist_from_the_future_is_reused() {
    let stored = Watchlist { last_downsync: at(100_000, 0), list: vec![] };
    assert_eq!(reuse_cached(Some(Ok(stored.clone())), &at(0, 0)), Ok(Some(stored)));
}

#[test]
fn random_pick_of_empty_watchlist() {
    let w = persons(0);
    assert_eq!(WatchlistRandom::pick(&row(), &w), Err(s("Your watchlist is empty")));
}

#[test]
fn random_pick_of_single_movie_is_its_embed() {
    let w = Watchlist { last_downsync: at(0, 0), list: vec![ListItem { rank: 1, entry: ListEntry::Movie(movie()) }] };
    assert_eq!(WatchlistRandom::pick(&row(), &w), Ok(full_movie(&movie())));
}

#[test]
fn random_pick_lands_on_an_item() {
    let w = persons(7);
    let candidates: Vec<Embed> = (0..7).map(|i| WatchlistRandom::embed_at(&row(), &w, i)).collect();
    for _ in 0..50 {
        let e = WatchlistRandom::pick(&row(), &w).unwrap();
        assert!(candidates.contains(&e));
    }
}

#[test]
fn random_embed_of_other_items() {
    let w = persons(3);
    let e = WatchlistRandom::embed_at(&row(), &w, 2);
    let expected = Embed {
        title: Some(s(":notepad_spiral: W A T C H L I S T")),
        color: Some(BOT_RED),
        description: Some(s(":mens: [3] P3")),
        author: Some(EmbedAuthor {
            name: s("sean"),
            url: Some(s("https://trakt.tv/users/sean")),
            icon_url: Some(s("")),
        }),
        url: Some(s("https://trakt.tv/users/sean/watchlist")),
        ..empty()
    };
    assert_eq!(e, expected);
    let ws = Watchlist { last_downsync: at(0, 0), list: vec![ListItem { rank: 1, entry: ListEntry::Show(show()) }] };
    assert_eq!(WatchlistRandom::embed_at(&row(), &ws, 0), full_show(&show()));
}

#[test]
fn random_index_lies_in_the_watchlist() {
    assert_eq!(WatchlistRandom::pick_index(&persons(0)), Err(s("Your watchlist is empty")));
    let w = persons(3);
    let mut seen = [false; 3];
    for _ in 0..200 {
        let i = WatchlistRandom::pick_index(&w).unwrap();
        assert!(i < 3);
        seen[i] = true;
    }
    assert!(seen.iter().all(|b| *b));
    assert_eq!(WatchlistRandom::pick_index(&persons(1)), Ok(0));
}

#[test]
fn items_without_slug_are_not_presentable() {
    let movie_item = ListItem { rank: 1, entry: ListEntry::Movie(movie()) };
    assert!(WatchlistRandom::is_presentable(&movie_item));
    let slugless = ListItem { rank: 1, entry: ListEntry::Movie(MovieInfo { slug: None, ..movie() }) };
    assert!(!WatchlistRandom::is_presentable(&slugless));
    let far = ListItem { rank: 1, entry: ListEntry::Movie(MovieInfo { released: distrakt::time::MAX_DAY + 1, ..movie() }) };
    assert!(!WatchlistRandom::is_presentable(&far));
    let show_item = ListItem { rank: 1, entry: ListEntry::Show(ShowInfo { slug: None, ..show() }) };
    assert!(!WatchlistRandom::is_presentable(&show_item));
    let person = ListItem { rank: 1, entry: ListEntry::Person { name: s("X") } };
    assert!(WatchlistRandom::is_presentable(&person));
}

#[test]
fn watchlist_derefs_to_its_items() {
    let w = persons(4);
    assert_eq!(w.len(), 4);
    assert_eq!(w[2].rank, 3);
}

#[test]
fn release_dates_at_the_ends_of_the_range() {
    let first = MovieInfo { released: distrakt::time::MIN_DAY, ..movie() };
    assert_eq!(full_movie(&first).fields[0].value, "-262143-01-01");
    let last = MovieInfo { released: distrakt::time::MAX_DAY, ..movie() };
    assert_eq!(full_movie(&last).fields[0].value, "+262142-12-31");
}
