//! `/boop`: a button that counts how often it was pressed, by reading the
//! count back from the message it sits under.
use vstd::prelude::*;
use vstd::utf8::{decode_utf8, encode_utf8, encode_scalar, is_char_boundary};
use crate::number::{law_parse_reads_decimal, parse_i32, parse_i32_spec};
use crate::response::{empty_reply, row_view, Button, ButtonStyle, ButtonView, Reply, ReplyView};
use crate::text::{dec_int, push_dec_i64, string_of};

verus! {

/// `/boop` (first version): boop the bot!
#[derive(Debug)]
pub struct BoopCommand {}

/// `/boop`: boop the bot!
#[derive(Debug)]
pub struct Boop {}

/// The text after the first twelve bytes of a message, where the count
/// stands (`split_at(12)`).
pub open spec fn boop_suffix(content: Seq<char>) -> Seq<char> {
    decode_utf8(encode_utf8(content).subrange(12, encode_utf8(content).len() as int))
}

/// The next count: one more than the number read, or 0 when none is read.
pub open spec fn boop_count(suffix: Seq<char>) -> int {
    match parse_i32_spec(suffix) {
        Some(v) => v + 1,
        None => 0,
    }
}

/// The content of the message for a count.
pub open spec fn boop_text(count: int) -> Seq<char> {
    "Boop Count: "@ + dec_int(count)
}

/// The message first sent: the count at 0 above a "Boop Me!" button.
pub open spec fn boop_start(style: ButtonStyle) -> ReplyView {
    ReplyView {
        content: Some(boop_text(0)),
        components: seq![seq![ButtonView { custom_id: "boop"@, label: "Boop Me!"@, style }]],
        ..empty_reply()
    }
}

/// The update a press makes to the message.
pub open spec fn boop_update(content: Seq<char>) -> ReplyView {
    ReplyView { content: Some(boop_text(boop_count(boop_suffix(content)))), update: true, ..empty_reply() }
}

/// A press can be counted: the message splits at byte 12, and the number
/// read is not already the largest `i32` (adding one would overflow).
pub open spec fn boop_countable(content: Seq<char>) -> bool {
    is_char_boundary(encode_utf8(content), 12) && parse_i32_spec(boop_suffix(content)) != Some(i32::MAX as int)
}

fn start_message(style: ButtonStyle) -> (r: Reply)
    ensures
        r@ == boop_start(style),
{
    let mut text = string_of("Boop Count: ");
    push_dec_i64(&mut text, 0);
    let mut r = Reply::text(text);
    let mut row: Vec<Button> = Vec::new();
    row.push(Button::new("boop", "Boop Me!", style));
    assert(row_view(row@) =~= seq![ButtonView { custom_id: "boop"@, label: "Boop Me!"@, style }]);
    r.components.push(row);
    assert(r@.components =~= boop_start(style).components);
    r
}

/// Get the message and parse the number after its first twelve bytes: the
/// message becomes the count one higher, or 0 if no number is there.
fn count_press(content: &str) -> (r: Reply)
    requires
        boop_countable(content@),
    ensures
        r@ == boop_update(content@),
{
    let (_text, number) = content.split_at(12);
    proof {
        vstd::utf8::encode_utf8_decode_utf8(number@);
    }
    let value_number: i64 = match parse_i32(number) {
        Some(v) => v as i64 + 1,
        None => 0,
    };
    let mut text = string_of("Boop Count: ");
    push_dec_i64(&mut text, value_number);
    let mut r = Reply::text(text);
    r.update = true;
    r
}

impl BoopCommand {
    /// The message with the button, count at 0.
    pub fn run_command(&self) -> (r: Reply)
        ensures
            r@ == boop_start(ButtonStyle::Primary),
    {
        start_message(ButtonStyle::Primary)
    }

    /// The update on a press of the button under `content`.
    pub fn handle_button(&self, content: &str) -> (r: Reply)
        requires
            boop_countable(content@),
        ensures
            r@ == boop_update(content@),
    {
        count_press(content)
    }
}

impl Boop {
    /// The message with the button, count at 0.
    pub fn handle_command(&self) -> (r: Reply)
        ensures
            r@ == boop_start(ButtonStyle::Primary),
    {
        start_message(ButtonStyle::Primary)
    }

    /// The update on a press of the button under `content`.
    pub fn handle_component(content: &str) -> (r: Reply)
        requires
            boop_countable(content@),
        ensures
            r@ == boop_update(content@),
    {
        count_press(content)
    }
}

proof fn lemma_encode_concat(a: Seq<char>, b: Seq<char>)
    ensures
        encode_utf8(a + b) == encode_utf8(a) + encode_utf8(b),
    decreases a.len(),
{
    if a.len() > 0 {
        lemma_encode_concat(a.drop_first(), b);
        assert((a + b).drop_first() =~= a.drop_first() + b);
        assert(encode_utf8(a + b) =~= encode_scalar(a[0] as u32) + encode_utf8(a.drop_first() + b));
        assert(encode_utf8(a) + encode_utf8(b) =~= encode_scalar(a[0] as u32) + (encode_utf8(a.drop_first()) + encode_utf8(b)));
    } else {
        assert(a + b =~= b);
    }
}

/// Pressing the button under a message that shows a count `n` (below the
/// largest `i32`) makes it show `n + 1`.
pub proof fn law_press_increments(n: int)
    requires
        i32::MIN <= n < i32::MAX,
    ensures
        boop_countable(boop_text(n)),
        boop_count(boop_suffix(boop_text(n))) == n + 1,
{
    reveal_strlit("Boop Count: ");
    let prefix = "Boop Count: "@;
    let t = dec_int(n);
    lemma_encode_concat(prefix, t);
    assert(encode_utf8(prefix).len() == 12) by {
        reveal_with_fuel(encode_utf8, 13);
    }
    let e = encode_utf8(prefix + t);
    assert(e.subrange(12, e.len() as int) =~= encode_utf8(t));
    vstd::utf8::encode_utf8_decode_utf8(t);
    law_parse_reads_decimal(n, true, i32::MIN as int, i32::MAX as int);
    assert(is_char_boundary(e, 12)) by {
        vstd::utf8::encode_utf8_valid_utf8(prefix + t);
        crate::number::lemma_dec_first(n);
        let c = t[0];
        assert(encode_utf8(t) =~= encode_scalar(c as u32) + encode_utf8(t.drop_first()));
        assert((c as u32) < 128);
        let v = c as u32;
        assert(((v & 0x7F) as u8) < 128u8) by (bit_vector);
        assert(encode_scalar(v)[0] < 128);
        assert(e[12] == encode_utf8(t)[0]);
        assert(e[12] < 128);
        vstd::utf8::is_char_boundary_iff_not_is_continuation_byte(e, 12);
    }
}

} // verus!
