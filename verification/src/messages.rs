//! The embeds that present a movie or a show.
use vstd::prelude::*;
use crate::datetime::{chrono_date_display, date_display};
use crate::embed::{Embed, EmbedField, EmbedView, FieldView, empty_embed, field, fields_view, make_field, new_embed, present, push_field};
use crate::text::{decimal, u64_to_decimal};
use crate::time::valid_day;

verus! {

/// What the movie embed shows of a movie.
#[derive(Clone, Debug, PartialEq, Eq)]
pub struct MovieInfo {
    pub title: String,
    pub slug: Option<String>,
    pub overview: String,
    /// The release date, as days since the Unix epoch.
    pub released: i64,
    pub year: Option<u16>,
    pub homepage: Option<String>,
    pub runtime: Option<u32>,
    pub trailer: Option<String>,
}

/// What the show embed shows of a show.
#[derive(Clone, Debug, PartialEq, Eq)]
pub struct ShowInfo {
    pub title: String,
    pub slug: Option<String>,
    pub overview: Option<String>,
    pub year: Option<u16>,
    pub homepage: Option<String>,
    pub runtime: Option<u32>,
    pub aired_episodes: u32,
}

/// One inline field when the value is present, none otherwise.
pub open spec fn opt_field(name: Seq<char>, value: Option<Seq<char>>) -> Seq<FieldView> {
    match value {
        Some(v) => seq![field(name, v, true)],
        None => Seq::empty(),
    }
}

/// The year as the embed writes it.
pub open spec fn year_text(year: Option<u16>) -> Option<Seq<char>> {
    match year {
        Some(y) => Some(decimal(y as nat)),
        None => None,
    }
}

/// The runtime as the embed writes it.
pub open spec fn runtime_text(runtime: Option<u32>) -> Option<Seq<char>> {
    match runtime {
        Some(r) => Some(decimal(r as nat) + " runtimes"@),
        None => None,
    }
}

/// The embed of a movie: title, link, overview, release date, then year, homepage,
/// runtime and trailer where present.
pub open spec fn full_movie_view(movie: MovieInfo) -> EmbedView {
    EmbedView {
        title: Some("[Movie] "@ + movie.title@),
        url: Some("https://trakt.tv/movies/"@ + movie.slug.unwrap()@),
        description: Some(movie.overview@),
        fields: seq![field("Released"@, chrono_date_display(movie.released), true)]
            + opt_field("Year"@, year_text(movie.year))
            + opt_field("Homepage"@, movie.homepage.deep_view())
            + opt_field("Runtime"@, runtime_text(movie.runtime))
            + opt_field("Trailer"@, movie.trailer.deep_view()),
        ..empty_embed()
    }
}

/// The embed of a show: title, link, aired episodes, then overview, year, homepage and
/// runtime where present.
pub open spec fn full_show_view(show: ShowInfo) -> EmbedView {
    EmbedView {
        title: Some("[Show] "@ + show.title@),
        url: Some("https://trakt.tv/shows/"@ + show.slug.unwrap()@),
        description: show.overview.deep_view(),
        fields: seq![field("Aired episodes"@, decimal(show.aired_episodes as nat), true)]
            + opt_field("Year"@, year_text(show.year))
            + opt_field("Homepage"@, show.homepage.deep_view())
            + opt_field("Runtime"@, runtime_text(show.runtime)),
        ..empty_embed()
    }
}

/// Law: the embed of a movie is titled "[Movie] " and the title, links to the movie by its
/// slug and describes it by its overview. Its first field is the release date; then come,
/// in this order and each only when the movie has it, the year, the homepage, the runtime
/// (as "<n> runtimes") and the trailer, every field inline; nothing else.
pub proof fn lemma_full_movie_content(movie: MovieInfo)
    requires
        movie.slug is Some,
    ensures
        full_movie_view(movie).title == Some("[Movie] "@ + movie.title@),
        full_movie_view(movie).url == Some("https://trakt.tv/movies/"@ + movie.slug.unwrap()@),
        full_movie_view(movie).description == Some(movie.overview@),
        full_movie_view(movie).fields.len()
            == 1 + present(movie.year) + present(movie.homepage) + present(movie.runtime) + present(movie.trailer),
        full_movie_view(movie).fields[0]
            == (FieldView { name: "Released"@, value: chrono_date_display(movie.released), inline: true }),
        movie.year matches Some(y) ==> full_movie_view(movie).fields[1]
            == (FieldView { name: "Year"@, value: decimal(y as nat), inline: true }),
        movie.homepage matches Some(h) ==> full_movie_view(movie).fields[1 + present(movie.year)]
            == (FieldView { name: "Homepage"@, value: h@, inline: true }),
        movie.runtime matches Some(r) ==> full_movie_view(movie).fields[1 + present(movie.year) + present(movie.homepage)]
            == (FieldView { name: "Runtime"@, value: decimal(r as nat) + " runtimes"@, inline: true }),
        movie.trailer matches Some(t) ==> full_movie_view(movie).fields.last()
            == (FieldView { name: "Trailer"@, value: t@, inline: true }),
        full_movie_view(movie).color is None,
        full_movie_view(movie).author is None,
        full_movie_view(movie).thumbnail is None,
        full_movie_view(movie).timestamp is None,
        full_movie_view(movie).footer is None,
{
}

/// Law: the embed of a show is titled "[Show] " and the title, links to the show by its
/// slug and describes it by its overview, when it has one. Its first field is the number
/// of aired episodes; then come, in this order and each only when the show has it, the
/// year, the homepage and the runtime (as "<n> runtimes"), every field inline; nothing else.
pub proof fn lemma_full_show_content(show: ShowInfo)
    requires
        show.slug is Some,
    ensures
        full_show_view(show).title == Some("[Show] "@ + show.title@),
        full_show_view(show).url == Some("https://trakt.tv/shows/"@ + show.slug.unwrap()@),
        full_show_view(show).description == show.overview.deep_view(),
        full_show_view(show).fields.len() == 1 + present(show.year) + present(show.homepage) + present(show.runtime),
        full_show_view(show).fields[0]
            == (FieldView { name: "Aired episodes"@, value: decimal(show.aired_episodes as nat), inline: true }),
        show.year matches Some(y) ==> full_show_view(show).fields[1]
            == (FieldView { name: "Year"@, value: decimal(y as nat), inline: true }),
        show.homepage matches Some(h) ==> full_show_view(show).fields[1 + present(show.year)]
            == (FieldView { name: "Homepage"@, value: h@, inline: true }),
        show.runtime matches Some(r) ==> full_show_view(show).fields.last()
            == (FieldView { name: "Runtime"@, value: decimal(r as nat) + " runtimes"@, inline: true }),
        full_show_view(show).color is None,
        full_show_view(show).author is None,
        full_show_view(show).thumbnail is None,
        full_show_view(show).timestamp is None,
        full_show_view(show).footer is None,
{
}

fn push_opt_field(fields: &mut Vec<EmbedField>, name: &str, value: Option<String>)
    ensures
        fields_view(final(fields)@) == fields_view(old(fields)@) + opt_field(name@, value.deep_view()),
{
    let ghost before = fields_view(fields@);
    match value {
        Some(v) => {
            push_field(fields, make_field(name, v, true));
            assert(fields_view(fields@) =~= before + opt_field(name@, value.deep_view()));
        },
        None => {
            assert(fields_view(fields@) =~= before + opt_field(name@, value.deep_view()));
        },
    }
}

fn year_string(year: Option<u16>) -> (s: Option<String>)
    ensures
        s.deep_view() == year_text(year),
{
    match year {
        Some(y) => Some(u64_to_decimal(y as u64)),
        None => None,
    }
}

fn runtime_string(runtime: Option<u32>) -> (s: Option<String>)
    ensures
        s.deep_view() == runtime_text(runtime),
{
    match runtime {
        Some(r) => {
            let mut s = u64_to_decimal(r as u64);
            s.append(" runtimes");
            Some(s)
        },
        None => None,
    }
}

fn prefixed(prefix: &str, rest: &String) -> (s: String)
    ensures
        s@ == prefix@ + rest@,
{
    let mut s = String::from_str(prefix);
    s.append(rest.as_str());
    s
}

/// The embed that presents a movie.
pub fn full_movie(movie: &MovieInfo) -> (e: Embed)
    requires
        movie.slug is Some,
        valid_day(movie.released),
    ensures
        e@ == full_movie_view(*movie),
{
    let mut e = new_embed();
    e.title = Some(prefixed("[Movie] ", &movie.title));
    let slug = movie.slug.as_ref().unwrap();
    e.url = Some(prefixed("https://trakt.tv/movies/", slug));
    e.description = Some(movie.overview.clone());
    let mut fields: Vec<EmbedField> = Vec::new();
    push_field(&mut fields, make_field("Released", date_display(movie.released), true));
    push_opt_field(&mut fields, "Year", year_string(movie.year));
    push_opt_field(&mut fields, "Homepage", movie.homepage.clone());
    push_opt_field(&mut fields, "Runtime", runtime_string(movie.runtime));
    push_opt_field(&mut fields, "Trailer", movie.trailer.clone());
    e.fields = fields;
    assert(e@.fields =~= full_movie_view(*movie).fields);
    e
}

/// The embed that presents a show.
pub fn full_show(show: &ShowInfo) -> (e: Embed)
    requires
        show.slug is Some,
    ensures
        e@ == full_show_view(*show),
{
    let mut e = new_embed();
    e.title = Some(prefixed("[Show] ", &show.title));
    let slug = show.slug.as_ref().unwrap();
    e.url = Some(prefixed("https://trakt.tv/shows/", slug));
    e.description = show.overview.clone();
    let mut fields: Vec<EmbedField> = Vec::new();
    push_field(&mut fields, make_field("Aired episodes", u64_to_decimal(show.aired_episodes as u64), true));
    push_opt_field(&mut fields, "Year", year_string(show.year));
    push_opt_field(&mut fields, "Homepage", show.homepage.clone());
    push_opt_field(&mut fields, "Runtime", runtime_string(show.runtime));
    e.fields = fields;
    assert(e@.fields =~= full_show_view(*show).fields);
    e
}

} // verus!
