//! `/embed` and `/modify`: commands that answer with a form.
use vstd::prelude::*;
use crate::response::{empty_embed, empty_reply, opt_view, EmbedData, EmbedView, Reply, ReplyView};
use crate::text::{dec_nat, push_dec_u64, string_of};

verus! {

/// How a text input of a form is laid out.
#[derive(PartialEq, Eq, Structural, Clone, Copy, Debug)]
pub enum TextInputStyle {
    Short,
    Paragraph,
}

/// A text input of a form. A style of `None` is left to the form builder's
/// default; so is `required`.
#[derive(Debug)]
pub struct TextInput {
    pub custom_id: String,
    pub label: String,
    pub placeholder: Option<String>,
    pub style: Option<TextInputStyle>,
    pub required: Option<bool>,
    pub value: Option<String>,
    pub min_length: Option<u16>,
    pub max_length: Option<u16>,
}

pub struct TextInputView {
    pub custom_id: Seq<char>,
    pub label: Seq<char>,
    pub placeholder: Option<Seq<char>>,
    pub style: Option<TextInputStyle>,
    pub required: Option<bool>,
    pub value: Option<Seq<char>>,
    pub min_length: Option<u16>,
    pub max_length: Option<u16>,
}

impl View for TextInput {
    type V = TextInputView;

    open spec fn view(&self) -> TextInputView {
        TextInputView {
            custom_id: self.custom_id@,
            label: self.label@,
            placeholder: opt_view(self.placeholder),
            style: self.style,
            required: self.required,
            value: opt_view(self.value),
            min_length: self.min_length,
            max_length: self.max_length,
        }
    }
}

/// A form: its title, what it sends back, and its inputs, one per row.
#[derive(Debug)]
pub struct Modal {
    pub title: String,
    pub custom_id: String,
    pub inputs: Vec<TextInput>,
}

pub struct ModalView {
    pub title: Seq<char>,
    pub custom_id: Seq<char>,
    pub inputs: Seq<TextInputView>,
}

impl View for Modal {
    type V = ModalView;

    open spec fn view(&self) -> ModalView {
        ModalView {
            title: self.title@,
            custom_id: self.custom_id@,
            inputs: self.inputs@.map_values(|t: TextInput| t@),
        }
    }
}

/// A text input with the given settings.
pub open spec fn input(
    id: Seq<char>,
    label: Seq<char>,
    placeholder: Seq<char>,
    style: Option<TextInputStyle>,
    required: Option<bool>,
    value: Option<Seq<char>>,
) -> TextInputView {
    TextInputView { custom_id: id, label, placeholder: Some(placeholder), style, required, value, min_length: None, max_length: None }
}

fn text_input(
    id: &str,
    label: &str,
    placeholder: &str,
    style: Option<TextInputStyle>,
    required: Option<bool>,
    value: Option<String>,
) -> (t: TextInput)
    ensures
        t@ == input(id@, label@, placeholder@, style, required, opt_view(value)),
{
    TextInput {
        custom_id: string_of(id),
        label: string_of(label),
        placeholder: Some(string_of(placeholder)),
        style,
        required,
        value,
        min_length: None,
        max_length: None,
    }
}

/// `/embed`: send a simple embed.
#[derive(Debug)]
pub struct Embed {}

/// The colour of the embeds `/embed` sends.
pub const EMBED_COLOUR: u32 = 2829617;

impl Embed {
    /// The form asking for the embed's title and description.
    pub fn interaction_command(&self) -> (m: Modal)
        ensures
            m@ == (ModalView {
                title: "Setup a modal below"@,
                custom_id: "embed"@,
                inputs: seq![
                    input("modal-title"@, "Embed Title"@, "hey guys, vsauce here"@, Some(TextInputStyle::Short), None, None),
                    input("embed-description"@, "Embed Description"@, "I'm gonna write the longest shitpost ever..."@, None, None, None),
                ],
            }),
    {
        let mut inputs: Vec<TextInput> = Vec::new();
        inputs.push(text_input("modal-title", "Embed Title", "hey guys, vsauce here", Some(TextInputStyle::Short), None, None));
        inputs.push(text_input("embed-description", "Embed Description", "I'm gonna write the longest shitpost ever...", None, None, None));
        let m = Modal { title: string_of("Setup a modal below"), custom_id: string_of("embed"), inputs };
        assert(m@.inputs =~= seq![
            input("modal-title"@, "Embed Title"@, "hey guys, vsauce here"@, Some(TextInputStyle::Short), None, None),
            input("embed-description"@, "Embed Description"@, "I'm gonna write the longest shitpost ever..."@, None, None, None),
        ]);
        m
    }

    /// The embed sent from the filled form: its description, in the embed
    /// colour.
    pub fn interaction_modal(description: &str) -> (r: Reply)
        ensures
            r@ == (ReplyView {
                embeds: seq![EmbedView { description: Some(description@), colour: Some(EMBED_COLOUR), ..empty_embed() }],
                ..empty_reply()
            }),
    {
        let mut e = EmbedData::new();
        e.description = Some(string_of(description));
        e.colour = Some(EMBED_COLOUR);
        let mut r = Reply::new();
        let ghost ev = e@;
        r.embeds.push(e);
        assert(r@.embeds =~= seq![ev]);
        r
    }
}

/// `/modify`: ADMINISTRATOR: Modify something sent by Luro, such as adding
/// components and modifying embeds.
#[derive(Debug)]
pub struct Modify {}

impl Modify {
    /// The form asking for the new title and description, and which message
    /// in which channel (the current one filled in).
    pub fn interaction_command(&self, channel_id: u64) -> (m: Modal)
        ensures
            m@ == (ModalView {
                title: "Modify an Embed!"@,
                custom_id: "modify-embed"@,
                inputs: seq![
                    input("embed-title"@, "Embed Title"@, "Hey kids, wanna see a dead body?"@, Some(TextInputStyle::Short), Some(false), None),
                    input(
                        "embed-description"@,
                        "Embed Description"@,
                        "Look upon thy field in which thine grow minth fucks, and see that it laythe barren."@,
                        None,
                        Some(false),
                        None,
                    ),
                    input("message-id"@, "Message ID"@, "42069420"@, Some(TextInputStyle::Short), None, None),
                    input("channel-id"@, "Channel ID"@, "42069420"@, Some(TextInputStyle::Short), None, Some(dec_nat(channel_id as nat))),
                ],
            }),
    {
        let mut inputs: Vec<TextInput> = Vec::new();
        inputs.push(text_input("embed-title", "Embed Title", "Hey kids, wanna see a dead body?", Some(TextInputStyle::Short), Some(false), None));
        inputs.push(text_input(
            "embed-description",
            "Embed Description",
            "Look upon thy field in which thine grow minth fucks, and see that it laythe barren.",
            None,
            Some(false),
            None,
        ));
        inputs.push(text_input("message-id", "Message ID", "42069420", Some(TextInputStyle::Short), None, None));
        let mut channel = String::new();
        push_dec_u64(&mut channel, channel_id);
        inputs.push(text_input("channel-id", "Channel ID", "42069420", Some(TextInputStyle::Short), None, Some(channel)));
        let m = Modal { title: string_of("Modify an Embed!"), custom_id: string_of("modify-embed"), inputs };
        assert(m@.inputs =~= seq![
            input("embed-title"@, "Embed Title"@, "Hey kids, wanna see a dead body?"@, Some(TextInputStyle::Short), Some(false), None),
            input(
                "embed-description"@,
                "Embed Description"@,
                "Look upon thy field in which thine grow minth fucks, and see that it laythe barren."@,
                None,
                Some(false),
                None,
            ),
            input("message-id"@, "Message ID"@, "42069420"@, Some(TextInputStyle::Short), None, None),
            input("channel-id"@, "Channel ID"@, "42069420"@, Some(TextInputStyle::Short), None, Some(dec_nat(channel_id as nat))),
        ]);
        m
    }
}

} // verus!
