//! The shape of what a command answers with: text content, embeds with
//! fields, rows of buttons, and whether the answer is ephemeral or an update
//! of the message it came from.
use vstd::prelude::*;
use crate::text::string_of;

verus! {

/// The look of a button.
#[derive(PartialEq, Eq, Structural, Clone, Copy, Debug)]
pub enum ButtonStyle {
    Primary,
    Secondary,
    Success,
    Danger,
}

/// A button of a message: what it sends back when pressed, and its label.
#[derive(Debug)]
pub struct Button {
    pub custom_id: String,
    pub label: String,
    pub style: ButtonStyle,
}

pub struct ButtonView {
    pub custom_id: Seq<char>,
    pub label: Seq<char>,
    pub style: ButtonStyle,
}

impl View for Button {
    type V = ButtonView;

    open spec fn view(&self) -> ButtonView {
        ButtonView { custom_id: self.custom_id@, label: self.label@, style: self.style }
    }
}

impl Button {
    /// A button with the given id, label and style.
    pub fn new(custom_id: &str, label: &str, style: ButtonStyle) -> (b: Button)
        ensures
            b@ == (ButtonView { custom_id: custom_id@, label: label@, style }),
    {
        Button { custom_id: string_of(custom_id), label: string_of(label), style }
    }
}

/// A titled field of an embed.
#[derive(Debug)]
pub struct EmbedField {
    pub name: String,
    pub value: String,
    pub inline: bool,
}

pub struct EmbedFieldView {
    pub name: Seq<char>,
    pub value: Seq<char>,
    pub inline: bool,
}

impl View for EmbedField {
    type V = EmbedFieldView;

    open spec fn view(&self) -> EmbedFieldView {
        EmbedFieldView { name: self.name@, value: self.value@, inline: self.inline }
    }
}

impl EmbedField {
    /// A field with the given name, value and layout.
    pub fn new(name: &str, value: &str, inline: bool) -> (f: EmbedField)
        ensures
            f@ == (EmbedFieldView { name: name@, value: value@, inline }),
    {
        EmbedField { name: string_of(name), value: string_of(value), inline }
    }
}

/// The views of a list of fields.
pub open spec fn fields_view(fields: Seq<EmbedField>) -> Seq<EmbedFieldView> {
    fields.map_values(|f: EmbedField| f@)
}

/// An embed: a coloured card with a title, a description, fields and
/// decorations.
#[derive(Debug)]
pub struct EmbedData {
    pub colour: Option<u32>,
    pub title: Option<String>,
    pub url: Option<String>,
    pub description: Option<String>,
    pub author_name: Option<String>,
    pub author_icon_url: Option<String>,
    pub author_url: Option<String>,
    pub footer_text: Option<String>,
    pub footer_icon_url: Option<String>,
    pub image_url: Option<String>,
    pub thumbnail_url: Option<String>,
    pub fields: Vec<EmbedField>,
}

pub struct EmbedView {
    pub colour: Option<u32>,
    pub title: Option<Seq<char>>,
    pub url: Option<Seq<char>>,
    pub description: Option<Seq<char>>,
    pub author_name: Option<Seq<char>>,
    pub author_icon_url: Option<Seq<char>>,
    pub author_url: Option<Seq<char>>,
    pub footer_text: Option<Seq<char>>,
    pub footer_icon_url: Option<Seq<char>>,
    pub image_url: Option<Seq<char>>,
    pub thumbnail_url: Option<Seq<char>>,
    pub fields: Seq<EmbedFieldView>,
}

/// The view of an optional string.
pub open spec fn opt_view(s: Option<String>) -> Option<Seq<char>> {
    match s {
        Some(t) => Some(t@),
        None => None,
    }
}

impl View for EmbedData {
    type V = EmbedView;

    open spec fn view(&self) -> EmbedView {
        EmbedView {
            colour: self.colour,
            title: opt_view(self.title),
            url: opt_view(self.url),
            description: opt_view(self.description),
            author_name: opt_view(self.author_name),
            author_icon_url: opt_view(self.author_icon_url),
            author_url: opt_view(self.author_url),
            footer_text: opt_view(self.footer_text),
            footer_icon_url: opt_view(self.footer_icon_url),
            image_url: opt_view(self.image_url),
            thumbnail_url: opt_view(self.thumbnail_url),
            fields: fields_view(self.fields@),
        }
    }
}

/// An embed with nothing set.
pub open spec fn empty_embed() -> EmbedView {
    EmbedView {
        colour: None,
        title: None,
        url: None,
        description: None,
        author_name: None,
        author_icon_url: None,
        author_url: None,
        footer_text: None,
        footer_icon_url: None,
        image_url: None,
        thumbnail_url: None,
        fields: seq![],
    }
}

impl EmbedData {
    /// An embed with nothing set.
    pub fn new() -> (e: EmbedData)
        ensures
            e@ == empty_embed(),
    {
        let e = EmbedData {
            colour: None,
            title: None,
            url: None,
            description: None,
            author_name: None,
            author_icon_url: None,
            author_url: None,
            footer_text: None,
            footer_icon_url: None,
            image_url: None,
            thumbnail_url: None,
            fields: Vec::new(),
        };
        assert(e@.fields =~= seq![]);
        e
    }

    /// Appends a field (`create_field`).
    pub fn add_field(&mut self, name: &str, value: &str, inline: bool)
        ensures
            final(self)@ == (EmbedView {
                fields: old(self)@.fields.push(EmbedFieldView { name: name@, value: value@, inline }),
                ..old(self)@
            }),
    {
        let f = EmbedField::new(name, value, inline);
        self.fields.push(f);
        assert(final(self)@.fields =~= old(self)@.fields.push(EmbedFieldView { name: name@, value: value@, inline }));
    }
}

/// The views of a row of buttons.
pub open spec fn row_view(row: Seq<Button>) -> Seq<ButtonView> {
    row.map_values(|b: Button| b@)
}

/// What a command answers with.
#[derive(Debug)]
pub struct Reply {
    pub content: Option<String>,
    pub embeds: Vec<EmbedData>,
    pub components: Vec<Vec<Button>>,
    pub ephemeral: bool,
    pub update: bool,
}

pub struct ReplyView {
    pub content: Option<Seq<char>>,
    pub embeds: Seq<EmbedView>,
    pub components: Seq<Seq<ButtonView>>,
    pub ephemeral: bool,
    pub update: bool,
}

impl View for Reply {
    type V = ReplyView;

    open spec fn view(&self) -> ReplyView {
        ReplyView {
            content: opt_view(self.content),
            embeds: self.embeds@.map_values(|e: EmbedData| e@),
            components: self.components@.map_values(|r: Vec<Button>| row_view(r@)),
            ephemeral: self.ephemeral,
            update: self.update,
        }
    }
}

/// A reply with nothing set.
pub open spec fn empty_reply() -> ReplyView {
    ReplyView { content: None, embeds: seq![], components: seq![], ephemeral: false, update: false }
}

impl Reply {
    /// A reply with nothing set.
    pub fn new() -> (r: Reply)
        ensures
            r@ == empty_reply(),
    {
        let r = Reply { content: None, embeds: Vec::new(), components: Vec::new(), ephemeral: false, update: false };
        assert(r@.embeds =~= seq![]);
        assert(r@.components =~= seq![]);
        r
    }

    /// A reply that only holds text.
    pub fn text(content: String) -> (r: Reply)
        ensures
            r@ == (ReplyView { content: Some(content@), ..empty_reply() }),
    {
        let mut r = Reply::new();
        r.content = Some(content);
        r
    }
}

} // verus!
