//! The `/base64` command: converting text to and from standard base64, and
//! the replies that show the result with a button to convert it back.
use base64::Engine;
use vstd::prelude::*;
use vstd::utf8::{decode_utf8, encode_utf8, valid_utf8};
use crate::response::{empty_embed, empty_reply, row_view, Button, ButtonStyle, ButtonView, EmbedData, EmbedView, Reply, ReplyView};
use crate::text::{dec_nat, push_dec_u64, push_str, str_eq, string_of};

verus! {

/// The byte of the standard base64 alphabet for a sextet value in `0..64`.
pub open spec fn b64_symbol(v: int) -> u8 {
    if v < 26 {
        (65 + v) as u8
    } else if v < 52 {
        (71 + v) as u8
    } else if v < 62 {
        (v - 4) as u8
    } else if v == 62 {
        43u8
    } else {
        47u8
    }
}

/// The padding byte `=`.
pub open spec fn pad_byte() -> u8 {
    61u8
}

/// Standard base64 with padding: each group of three bytes becomes four
/// symbols, and a last group of one or two bytes is padded with `=`.
pub open spec fn b64_encode(b: Seq<u8>) -> Seq<u8>
    decreases b.len(),
{
    if b.len() == 0 {
        seq![]
    } else if b.len() == 1 {
        seq![b64_symbol((b[0] as int) / 4), b64_symbol(((b[0] as int) % 4) * 16), pad_byte(), pad_byte()]
    } else if b.len() == 2 {
        seq![
            b64_symbol((b[0] as int) / 4),
            b64_symbol(((b[0] as int) % 4) * 16 + (b[1] as int) / 16),
            b64_symbol(((b[1] as int) % 16) * 4),
            pad_byte(),
        ]
    } else {
        seq![
            b64_symbol((b[0] as int) / 4),
            b64_symbol(((b[0] as int) % 4) * 16 + (b[1] as int) / 16),
            b64_symbol(((b[1] as int) % 16) * 4 + (b[2] as int) / 64),
            b64_symbol((b[2] as int) % 64),
        ] + b64_encode(b.subrange(3, b.len() as int))
    }
}

/// `s` is the base64 encoding of some bytes.
pub open spec fn is_base64(s: Seq<u8>) -> bool {
    exists|b: Seq<u8>| b64_encode(b) == s
}

/// The bytes whose base64 encoding is `s`.
pub open spec fn b64_decoded(s: Seq<u8>) -> Seq<u8> {
    choose|b: Seq<u8>| b64_encode(b) == s
}

proof fn lemma_symbol(v: int, w: int)
    requires
        0 <= v < 64,
        0 <= w < 64,
    ensures
        b64_symbol(v) != pad_byte(),
        b64_symbol(v) == b64_symbol(w) ==> v == w,
{
}

proof fn lemma_group(b0: u8, b1: u8, b2: u8, c0: u8, c1: u8, c2: u8)
    requires
        b0 / 4 == c0 / 4,
        (b0 % 4) * 16 + b1 / 16 == (c0 % 4) * 16 + c1 / 16,
    ensures
        b0 == c0,
        b1 / 16 == c1 / 16,
        ((b1 % 16) * 4 + b2 / 64 == (c1 % 16) * 4 + c2 / 64 && b2 % 64 == c2 % 64) ==> (b1 == c1 && b2 == c2),
        (b1 % 16) * 4 == (c1 % 16) * 4 ==> b1 == c1,
{
}

/// The length of a base64 encoding: four symbols for each started group of
/// three bytes.
pub proof fn lemma_b64_len(b: Seq<u8>)
    ensures
        b64_encode(b).len() == 4 * ((b.len() + 2) / 3),
    decreases b.len(),
{
    if b.len() >= 3 {
        lemma_b64_len(b.subrange(3, b.len() as int));
    }
}

/// Different bytes have different base64 encodings.
pub proof fn lemma_b64_injective(x: Seq<u8>, y: Seq<u8>)
    requires
        b64_encode(x) == b64_encode(y),
    ensures
        x == y,
    decreases x.len(),
{
    let e = b64_encode(x);
    lemma_b64_len(x);
    lemma_b64_len(y);
    if x.len() == 0 {
        assert(y.len() == 0);
        assert(x =~= y);
    } else if x.len() <= 2 || y.len() <= 2 {
        assert(x.len() <= 3 && y.len() <= 3);
        let x0 = x[0] as int;
        let y0 = y[0] as int;
        assert(e[0] == b64_symbol(x0 / 4));
        assert(e[0] == b64_symbol(y0 / 4));
        lemma_symbol(x0 / 4, y0 / 4);
        if x.len() == 1 {
            assert(e[2] == pad_byte());
            if y.len() >= 2 {
                let y1 = y[1] as int;
                if y.len() == 2 {
                    assert(e[2] == b64_symbol((y1 % 16) * 4));
                    lemma_symbol((y1 % 16) * 4, 0);
                } else {
                    let y2 = y[2] as int;
                    assert(e[2] == b64_symbol((y1 % 16) * 4 + y2 / 64));
                    lemma_symbol((y1 % 16) * 4 + y2 / 64, 0);
                }
                assert(false);
            }
            assert(e[1] == b64_symbol((x0 % 4) * 16));
            assert(e[1] == b64_symbol((y0 % 4) * 16));
            lemma_symbol((x0 % 4) * 16, (y0 % 4) * 16);
            lemma_group(x[0], 0, 0, y[0], 0, 0);
            assert(x =~= y);
        } else if x.len() == 2 {
            let x1 = x[1] as int;
            assert(e[2] == b64_symbol((x1 % 16) * 4));
            lemma_symbol((x1 % 16) * 4, 0);
            assert(e[3] == pad_byte());
            if y.len() == 1 {
                assert(e[2] == pad_byte());
                assert(false);
            }
            if y.len() == 3 {
                let y2 = y[2] as int;
                assert(e[3] == b64_symbol(y2 % 64));
                lemma_symbol(y2 % 64, 0);
                assert(false);
            }
            let y1 = y[1] as int;
            assert(e[1] == b64_symbol((x0 % 4) * 16 + x1 / 16));
            assert(e[1] == b64_symbol((y0 % 4) * 16 + y1 / 16));
            lemma_symbol((x0 % 4) * 16 + x1 / 16, (y0 % 4) * 16 + y1 / 16);
            assert(e[2] == b64_symbol((y1 % 16) * 4));
            lemma_symbol((x1 % 16) * 4, (y1 % 16) * 4);
            lemma_group(x[0], x[1], 0, y[0], y[1], 0);
            assert(x =~= y);
        } else {
            // three bytes against one or two: the fourth symbol of x is no padding
            let x2 = x[2] as int;
            assert(e[3] == b64_symbol(x2 % 64));
            lemma_symbol(x2 % 64, 0);
            assert(e[3] == pad_byte());
            assert(false);
        }
    } else {
        let (x0, x1, x2) = (x[0] as int, x[1] as int, x[2] as int);
        let (y0, y1, y2) = (y[0] as int, y[1] as int, y[2] as int);
        assert(e[0] == b64_symbol(x0 / 4) && e[0] == b64_symbol(y0 / 4));
        assert(e[1] == b64_symbol((x0 % 4) * 16 + x1 / 16) && e[1] == b64_symbol((y0 % 4) * 16 + y1 / 16));
        assert(e[2] == b64_symbol((x1 % 16) * 4 + x2 / 64) && e[2] == b64_symbol((y1 % 16) * 4 + y2 / 64));
        assert(e[3] == b64_symbol(x2 % 64) && e[3] == b64_symbol(y2 % 64));
        lemma_symbol(x0 / 4, y0 / 4);
        lemma_symbol((x0 % 4) * 16 + x1 / 16, (y0 % 4) * 16 + y1 / 16);
        lemma_symbol((x1 % 16) * 4 + x2 / 64, (y1 % 16) * 4 + y2 / 64);
        lemma_symbol(x2 % 64, y2 % 64);
        lemma_group(x[0], x[1], x[2], y[0], y[1], y[2]);
        let tx = x.subrange(3, x.len() as int);
        let ty = y.subrange(3, y.len() as int);
        assert(b64_encode(tx) =~= e.subrange(4, e.len() as int));
        assert(b64_encode(ty) =~= e.subrange(4, e.len() as int));
        lemma_b64_injective(tx, ty);
        assert(x =~= seq![x[0], x[1], x[2]] + tx);
        assert(y =~= seq![y[0], y[1], y[2]] + ty);
    }
}

/// The error of `base64` decoding.
#[verifier::external_type_specification]
#[verifier::external_body]
pub struct ExBase64DecodeError(base64::DecodeError);

/// `base64::engine::general_purpose::STANDARD.encode`: the padded standard
/// base64 encoding of the bytes.
#[verifier::external_body]
fn standard_encode(input: &[u8]) -> (r: String)
    ensures
        encode_utf8(r@) == b64_encode(input@),
{
    base64::engine::general_purpose::STANDARD.encode(input)
}

/// `base64::engine::general_purpose::STANDARD.decode` of the bytes of a
/// string: this engine requires canonical padding and rejects set trailing
/// bits, so it succeeds exactly on the encodings that `standard_encode`
/// produces, and gives back the encoded bytes.
#[verifier::external_body]
fn standard_decode(input: &str) -> (r: Result<Vec<u8>, base64::DecodeError>)
    ensures
        r is Ok <==> is_base64(encode_utf8(input@)),
        r matches Ok(b) ==> b64_encode(b@) == encode_utf8(input@),
{
    base64::engine::general_purpose::STANDARD.decode(input)
}

/// The message `String::from_utf8` gives for bytes that are not UTF-8 (its
/// error's `Display`): it depends on the bytes alone.
pub uninterp spec fn utf8_error_reason(bytes: Seq<u8>) -> Seq<char>;

/// `String::from_utf8`: succeeds exactly on valid UTF-8, with the decoded
/// characters; otherwise gives the error's message, which is only named.
#[verifier::external_body]
fn string_from_utf8(bytes: Vec<u8>) -> (r: Result<String, String>)
    ensures
        r is Ok <==> valid_utf8(bytes@),
        r matches Ok(s) ==> s@ == decode_utf8(bytes@),
        r matches Err(m) ==> m@ == utf8_error_reason(bytes@),
{
    String::from_utf8(bytes).map_err(|e| e.to_string())
}

/// Why decoded base64 could not be turned into text.
#[derive(Debug)]
pub enum Base64Error {
    /// The decoded bytes are not UTF-8; `reason` says why, as the standard
    /// library words it.
    InvalidUtf8 { reason: String },
}

/// The words that open the message of a failed conversion.
pub open spec fn utf8_failure_prefix() -> Seq<char> {
    "Failed to convert bytes into string - "@
}

impl Base64Error {
    /// The message of the error, as the bot reports it.
    pub fn message(&self) -> (m: String)
        ensures
            self matches Base64Error::InvalidUtf8 { reason } ==> m@ == utf8_failure_prefix() + reason@,
    {
        match self {
            Base64Error::InvalidUtf8 { reason } => {
                let mut m = string_of("Failed to convert bytes into string - ");
                push_str(&mut m, reason.as_str());
                m
            },
        }
    }
}

/// The reply to text that is not base64.
pub open spec fn not_base64_reply(input: Seq<char>) -> Seq<char> {
    "Don't be a cunt, I know that this is not base64 you bitch\n\n"@ + input
}

/// Encode the passed text: the standard base64 of its UTF-8 bytes.
pub fn encode(input: &str) -> (r: String)
    ensures
        encode_utf8(r@) == b64_encode(encode_utf8(input@)),
        r@ == decode_utf8(b64_encode(encode_utf8(input@))),
{
    let r = standard_encode(input.as_bytes());
    proof {
        vstd::utf8::encode_utf8_decode_utf8(r@);
    }
    r
}

/// Decode the passed text. Text that is not base64 is answered with a rebuke
/// that quotes it; base64 whose bytes are UTF-8 gives that text; other bytes
/// are an error.
pub fn decode(input: &str) -> (r: Result<String, Base64Error>)
    ensures
        !is_base64(encode_utf8(input@)) ==> (r matches Ok(s) && s@ == not_base64_reply(input@)),
        is_base64(encode_utf8(input@)) && valid_utf8(b64_decoded(encode_utf8(input@))) ==>
            (r matches Ok(s) && s@ == decode_utf8(b64_decoded(encode_utf8(input@)))),
        is_base64(encode_utf8(input@)) && !valid_utf8(b64_decoded(encode_utf8(input@))) ==> (r matches Err(
            Base64Error::InvalidUtf8 { reason },
        ) && reason@ == utf8_error_reason(b64_decoded(encode_utf8(input@)))),
{
    match standard_decode(input) {
        Ok(decoded) => {
            proof {
                let s = encode_utf8(input@);
                let c = b64_decoded(s);
                assert(b64_encode(c) == s);
                lemma_b64_injective(decoded@, c);
            }
            match string_from_utf8(decoded) {
                Ok(decoded_string) => Ok(decoded_string),
                Err(reason) => Err(Base64Error::InvalidUtf8 { reason }),
            }
        },
        Err(_) => {
            let mut reply = string_of("Don't be a cunt, I know that this is not base64 you bitch\n\n");
            push_str(&mut reply, input);
            Ok(reply)
        },
    }
}

/// Decoding the encoding of any text gives the text back.
pub proof fn lemma_decode_encode(s: Seq<char>)
    ensures
        is_base64(b64_encode(encode_utf8(s))),
        b64_decoded(b64_encode(encode_utf8(s))) == encode_utf8(s),
        valid_utf8(b64_decoded(b64_encode(encode_utf8(s)))),
        decode_utf8(b64_decoded(b64_encode(encode_utf8(s)))) == s,
{
    let b = encode_utf8(s);
    let e = b64_encode(b);
    assert(b64_encode(b) == e);
    let c = b64_decoded(e);
    lemma_b64_injective(c, b);
    vstd::utf8::encode_utf8_valid_utf8(s);
    vstd::utf8::encode_utf8_decode_utf8(s);
}

} // verus!

verus! {

/// `decode` as a function of the characters: `None` where it fails.
pub open spec fn decode_spec(input: Seq<char>) -> Option<Seq<char>> {
    if !is_base64(encode_utf8(input)) {
        Some(not_base64_reply(input))
    } else if valid_utf8(b64_decoded(encode_utf8(input))) {
        Some(decode_utf8(b64_decoded(encode_utf8(input))))
    } else {
        None
    }
}

/// Why `decode` fails where it does: the message for the decoded bytes.
pub open spec fn decode_failure(input: Seq<char>) -> Seq<char> {
    utf8_error_reason(b64_decoded(encode_utf8(input)))
}

/// `r` is the failure of decoding `input`.
pub open spec fn fails_decoding<T>(r: Result<T, Base64Error>, input: Seq<char>) -> bool {
    r matches Err(Base64Error::InvalidUtf8 { reason }) && reason@ == decode_failure(input)
}

/// `encode` as a function of the characters.
pub open spec fn encode_spec(input: Seq<char>) -> Seq<char> {
    decode_utf8(b64_encode(encode_utf8(input)))
}

/// Text shown in a code block.
pub open spec fn code_block(s: Seq<char>) -> Seq<char> {
    "```\n"@ + s + "\n```"@
}

/// A reply that shows `input` in a code block with one button: text of more
/// than 2000 bytes goes into an embed of the accent colour, shorter text is
/// the content.
pub open spec fn conversion_reply(accent_colour: u32, input: Seq<char>, button: ButtonView) -> ReplyView {
    if encode_utf8(input).len() > 2000 {
        ReplyView {
            embeds: seq![EmbedView { colour: Some(accent_colour), description: Some(code_block(input)), ..empty_embed() }],
            components: seq![seq![button]],
            ..empty_reply()
        }
    } else {
        ReplyView { content: Some(code_block(input)), components: seq![seq![button]], ..empty_reply() }
    }
}

/// The button under decoded text.
pub open spec fn encode_button() -> ButtonView {
    ButtonView { custom_id: "base64-encode"@, label: "Encode"@, style: ButtonStyle::Primary }
}

/// The button under encoded text.
pub open spec fn decode_button() -> ButtonView {
    ButtonView { custom_id: "base64-decode"@, label: "Decode"@, style: ButtonStyle::Primary }
}

fn conversion(accent_colour: u32, input: &str, button: Button) -> (r: Reply)
    ensures
        r@ == conversion_reply(accent_colour, input@, button@),
{
    let mut text = string_of("```\n");
    push_str(&mut text, input);
    push_str(&mut text, "\n```");
    assert(text@ =~= code_block(input@));
    let byte_len = input.as_bytes().len();
    let ghost bv = button@;
    let mut response = Reply::new();
    let mut row: Vec<Button> = Vec::new();
    row.push(button);
    assert(row_view(row@) =~= seq![bv]);
    response.components.push(row);
    assert(response@.components =~= seq![seq![bv]]);
    if byte_len > 2000 {
        let mut embed = EmbedData::new();
        embed.colour = Some(accent_colour);
        embed.description = Some(text);
        response.embeds.push(embed);
        assert(response@.embeds =~= seq![EmbedView { colour: Some(accent_colour), description: Some(code_block(input@)), ..empty_embed() }]);
    } else {
        response.content = Some(text);
        assert(response@.embeds =~= seq![]);
    }
    response
}

/// The reply that shows decoded text, with a button to encode it again.
pub fn decode_response(accent_colour: u32, input: &str) -> (r: Reply)
    ensures
        r@ == conversion_reply(accent_colour, input@, encode_button()),
{
    conversion(accent_colour, input, Button::new("base64-encode", "Encode", ButtonStyle::Primary))
}

/// The reply that shows encoded text, with a button to decode it again.
pub fn encode_response(accent_colour: u32, input: &str) -> (r: Reply)
    ensures
        r@ == conversion_reply(accent_colour, input@, decode_button()),
{
    conversion(accent_colour, input, Button::new("base64-decode", "Decode", ButtonStyle::Primary))
}

} // verus!

verus! {

/// Decoding the text that `encode` gives back returns the original text.
pub proof fn law_decode_encode(s: Seq<char>, e: Seq<char>)
    requires
        encode_utf8(e) == b64_encode(encode_utf8(s)),
    ensures
        decode_spec(e) == Some(s),
{
    lemma_decode_encode(s);
}

/// `/base64 decode`: convert a string from base64.
#[derive(Debug)]
pub struct Decode {
    /// Decode this string from base64
    pub string: String,
}

/// `/base64 encode`: convert a string to base64.
#[derive(Debug)]
pub struct Encode {
    /// Encode this string to base64
    pub string: String,
    /// Set to true if you want to call out someone for clicking decoding this
    pub bait: Option<bool>,
}

/// `/base64`: convert to and from base64.
#[derive(Debug)]
pub enum Base64 {
    Decode(Decode),
    Encode(Encode),
}

impl Decode {
    /// The reply to `/base64 decode`: the decoded text under an encode
    /// button.
    pub fn handle_command(&self, accent_colour: u32) -> (r: Result<Reply, Base64Error>)
        ensures
            decode_spec(self.string@) matches Some(t) ==> (r matches Ok(reply) && reply@ == conversion_reply(accent_colour, t, encode_button())),
            decode_spec(self.string@) is None ==> fails_decoding(r, self.string@),
    {
        let decoded = decode(self.string.as_str())?;
        Ok(decode_response(accent_colour, decoded.as_str()))
    }
}

impl Encode {
    /// The reply to `/base64 encode`: the encoded text under a decode
    /// button.
    pub fn handle_command(&self, accent_colour: u32) -> (r: Reply)
        ensures
            r@ == conversion_reply(accent_colour, encode_spec(self.string@), decode_button()),
    {
        let encoded = encode(self.string.as_str());
        encode_response(accent_colour, encoded.as_str())
    }
}

/// What pressing a button under a base64 reply leads to.
#[derive(Debug)]
pub enum Base64ComponentAction {
    /// The button is not one of ours: nothing is sent.
    NoMatch,
    /// Update the message with `reply`; when `bait` is set, also call out the
    /// one who pressed the button.
    Respond { reply: Reply, bait: bool },
}

/// The text the buttons work on, and whether to bait: `None` where decoding
/// the original input fails.
pub open spec fn component_input(command: Base64) -> Option<(Seq<char>, bool)> {
    match command {
        Base64::Decode(c) => match decode_spec(c.string@) {
            Some(t) => Some((t, false)),
            None => None,
        },
        Base64::Encode(c) => Some((c.string@, c.bait == Some(true))),
    }
}

/// The reply of a conversion button, as an update of the message.
pub open spec fn button_reply(accent_colour: u32, input: Seq<char>, decode_operation: bool) -> ReplyView {
    if decode_operation {
        ReplyView { update: true, ..conversion_reply(accent_colour, input, encode_button()) }
    } else {
        ReplyView { update: true, ..conversion_reply(accent_colour, encode_spec(input), decode_button()) }
    }
}

/// Simply build a response with a few checks: the decoded or encoded view
/// of `input`, as an update of the message.
pub fn response(accent_colour: u32, input: &str, decode_operation: bool) -> (r: Reply)
    ensures
        r@ == button_reply(accent_colour, input@, decode_operation),
{
    let mut response = if decode_operation {
        decode_response(accent_colour, input)
    } else {
        encode_response(accent_colour, encode(input).as_str())
    };
    response.update = true;
    response
}

impl Base64 {
    /// The reply to `/base64`, by subcommand.
    pub fn handle_command(&self, accent_colour: u32) -> (r: Result<Reply, Base64Error>)
        ensures
            self matches Base64::Decode(c) ==> (
                (decode_spec(c.string@) matches Some(t) ==> (r matches Ok(reply) && reply@ == conversion_reply(accent_colour, t, encode_button())))
                && (decode_spec(c.string@) is None ==> fails_decoding(r, c.string@))),
            self matches Base64::Encode(c) ==> (r matches Ok(reply) && reply@ == conversion_reply(accent_colour, encode_spec(c.string@), decode_button())),
    {
        match self {
            Base64::Decode(command) => command.handle_command(accent_colour),
            Base64::Encode(command) => Ok(command.handle_command(accent_colour)),
        }
    }

    /// What a press of `base64-decode` or `base64-encode` under a reply
    /// leads to: the input is always decoded first when it came from
    /// `/base64 decode`, then shown decoded or encoded by the button pressed;
    /// any other button leads to nothing.
    pub fn handle_component(self, command_name: &str, accent_colour: u32) -> (r: Result<Base64ComponentAction, Base64Error>)
        ensures
            self matches Base64::Decode(c) ==> (component_input(self) is None ==> fails_decoding(r, c.string@)),
            component_input(self) matches Some((input, bait)) ==> (r matches Ok(action) && (
                if command_name@ == "base64-decode"@ {
                    action matches Base64ComponentAction::Respond { reply, bait: b } && b == bait
                        && reply@ == button_reply(accent_colour, input, true)
                } else if command_name@ == "base64-encode"@ {
                    action matches Base64ComponentAction::Respond { reply, bait: b } && b == bait
                        && reply@ == button_reply(accent_colour, input, false)
                } else {
                    action is NoMatch
                })),
    {
        let (input, bait) = match self {
            Base64::Decode(command) => (decode(command.string.as_str())?, false),
            Base64::Encode(command) => (command.string, match command.bait { Some(b) => b, None => false }),
        };
        let reply = if str_eq(command_name, "base64-decode") {
            response(accent_colour, input.as_str(), true)
        } else if str_eq(command_name, "base64-encode") {
            response(accent_colour, input.as_str(), false)
        } else {
            return Ok(Base64ComponentAction::NoMatch);
        };
        Ok(Base64ComponentAction::Respond { reply, bait })
    }
}

/// The call-out sent when someone got baited into pressing decode.
pub fn bait_message(author_id: u64) -> (m: String)
    ensures
        m@ == "<@"@ + dec_nat(author_id as nat) + "> got baited..."@,
{
    let mut m = string_of("<@");
    push_dec_u64(&mut m, author_id);
    push_str(&mut m, "> got baited...");
    m
}

} // verus!
