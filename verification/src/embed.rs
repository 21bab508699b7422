//! A plain model of a Discord embed, as the bot's messages fill it in.
use vstd::prelude::*;

verus! {

/// The red of the bot's embeds, `(237, 28, 36)` as serenity's `Colour` packs it.
pub const BOT_RED: u32 = 0xED1C24;

/// Packs an RGB triple the way serenity's `Colour::from((r, g, b))` does.
pub fn rgb(r: u8, g: u8, b: u8) -> (c: u32)
    ensures
        c == r * 65536 + g * 256 + b,
{
    (r as u32) * 65536 + (g as u32) * 256 + (b as u32)
}

/// A field of an embed.
#[derive(Clone, Debug, PartialEq, Eq)]
pub struct EmbedField {
    pub name: String,
    pub value: String,
    pub inline: bool,
}

/// The mathematical content of an [`EmbedField`].
pub struct FieldView {
    pub name: Seq<char>,
    pub value: Seq<char>,
    pub inline: bool,
}

impl View for EmbedField {
    type V = FieldView;

    open spec fn view(&self) -> FieldView {
        FieldView { name: self.name@, value: self.value@, inline: self.inline }
    }
}

/// The author line of an embed.
#[derive(Clone, Debug, PartialEq, Eq)]
pub struct EmbedAuthor {
    pub name: String,
    pub url: Option<String>,
    pub icon_url: Option<String>,
}

/// The mathematical content of an [`EmbedAuthor`].
pub struct AuthorView {
    pub name: Seq<char>,
    pub url: Option<Seq<char>>,
    pub icon_url: Option<Seq<char>>,
}

impl View for EmbedAuthor {
    type V = AuthorView;

    open spec fn view(&self) -> AuthorView {
        AuthorView { name: self.name@, url: self.url.deep_view(), icon_url: self.icon_url.deep_view() }
    }
}

/// An embed: what is left unset stays `None` (or, for the fields, empty).
#[derive(Clone, Debug, PartialEq, Eq)]
pub struct Embed {
    pub title: Option<String>,
    pub url: Option<String>,
    pub description: Option<String>,
    pub color: Option<u32>,
    pub fields: Vec<EmbedField>,
    pub author: Option<EmbedAuthor>,
    pub thumbnail: Option<String>,
    pub timestamp: Option<String>,
    pub footer: Option<String>,
}

/// The mathematical content of an [`Embed`].
pub struct EmbedView {
    pub title: Option<Seq<char>>,
    pub url: Option<Seq<char>>,
    pub description: Option<Seq<char>>,
    pub color: Option<u32>,
    pub fields: Seq<FieldView>,
    pub author: Option<AuthorView>,
    pub thumbnail: Option<Seq<char>>,
    pub timestamp: Option<Seq<char>>,
    pub footer: Option<Seq<char>>,
}

/// The views of a sequence of fields.
pub open spec fn fields_view(fields: Seq<EmbedField>) -> Seq<FieldView> {
    fields.map_values(|f: EmbedField| f@)
}

/// The view of an optional author.
pub open spec fn author_view(a: Option<EmbedAuthor>) -> Option<AuthorView> {
    match a {
        Some(a) => Some(a@),
        None => None,
    }
}

impl View for Embed {
    type V = EmbedView;

    open spec fn view(&self) -> EmbedView {
        EmbedView {
            title: self.title.deep_view(),
            url: self.url.deep_view(),
            description: self.description.deep_view(),
            color: self.color,
            fields: fields_view(self.fields@),
            author: author_view(self.author),
            thumbnail: self.thumbnail.deep_view(),
            timestamp: self.timestamp.deep_view(),
            footer: self.footer.deep_view(),
        }
    }
}

/// A field with the given name, value and inline flag.
pub open spec fn field(name: Seq<char>, value: Seq<char>, inline: bool) -> FieldView {
    FieldView { name, value, inline }
}

/// One when the value is there, zero when it is not: the number of fields it adds.
pub open spec fn present<T>(o: Option<T>) -> int {
    if o is Some { 1 } else { 0 }
}

/// An embed with nothing set.
pub open spec fn empty_embed() -> EmbedView {
    EmbedView {
        title: None,
        url: None,
        description: None,
        color: None,
        fields: Seq::empty(),
        author: None,
        thumbnail: None,
        timestamp: None,
        footer: None,
    }
}

/// Makes a field from a name literal and a value.
pub fn make_field(name: &str, value: String, inline: bool) -> (f: EmbedField)
    ensures
        f@ == field(name@, value@, inline),
{
    EmbedField { name: String::from_str(name), value, inline }
}

/// Appends a field to a list of fields.
pub fn push_field(fields: &mut Vec<EmbedField>, f: EmbedField)
    ensures
        fields_view(final(fields)@) == fields_view(old(fields)@).push(f@),
{
    let ghost before = fields@;
    fields.push(f);
    assert(fields_view(fields@) =~= fields_view(before).push(f@));
}

/// An embed with nothing set.
pub fn new_embed() -> (e: Embed)
    ensures
        e@ == empty_embed(),
{
    let e = Embed {
        title: None,
        url: None,
        description: None,
        color: None,
        fields: Vec::new(),
        author: None,
        thumbnail: None,
        timestamp: None,
        footer: None,
    };
    assert(e@.fields =~= Seq::<FieldView>::empty());
    e
}

/// The embed that reports an error: title `Error`, the message as description, in the bot's red.
pub open spec fn error_embed_view(message: Seq<char>) -> EmbedView {
    EmbedView {
        title: Some("Error"@),
        description: Some(message),
        color: Some(BOT_RED),
        ..empty_embed()
    }
}

/// The embed that reports an error to the user.
pub fn error_embed(message: &String) -> (e: Embed)
    ensures
        e@ == error_embed_view(message@),
{
    let mut e = new_embed();
    e.title = Some(String::from_str("Error"));
    e.description = Some(message.clone());
    e.color = Some(rgb(237, 28, 36));
    e
}

/// The embed that reports success: title `Success`, the text as description, in the bot's red.
pub open spec fn success_embed_view(text: Seq<char>) -> EmbedView {
    EmbedView {
        title: Some("Success"@),
        description: Some(text),
        color: Some(BOT_RED),
        ..empty_embed()
    }
}

/// The embed that reports success to the user.
pub fn success_embed(text: &str) -> (e: Embed)
    ensures
        e@ == success_embed_view(text@),
{
    let mut e = new_embed();
    e.title = Some(String::from_str("Success"));
    e.description = Some(String::from_str(text));
    e.color = Some(rgb(237, 28, 36));
    e
}

/// Law: an error embed is titled "Error" and a success embed "Success"; each carries its
/// text as description, in the bot's red, and nothing else.
pub proof fn lemma_error_and_success_embeds(text: Seq<char>)
    ensures
        error_embed_view(text) == (EmbedView {
            title: Some("Error"@),
            url: None,
            description: Some(text),
            color: Some(BOT_RED),
            fields: Seq::empty(),
            author: None,
            thumbnail: None,
            timestamp: None,
            footer: None,
        }),
        success_embed_view(text) == (EmbedView {
            title: Some("Success"@),
            url: None,
            description: Some(text),
            color: Some(BOT_RED),
            fields: Seq::empty(),
            author: None,
            thumbnail: None,
            timestamp: None,
            footer: None,
        }),
        BOT_RED == 0xED1C24,
{
}

} // verus!
