//! Chatting with a language model: when the bot answers a message, the
//! request it sends, how the streamed answer is put together, and how the
//! answer is shown as it grows.
use vstd::prelude::*;
use vstd::string::StrSliceExecFns;
use vstd::utf8::encode_utf8;
use crate::text::{dec_nat, push_dec_u64, push_str, string_of};

verus! {

/// Whether a message is for the bot: a reply to one of the bot's messages,
/// or, when it replies to nothing, a message that mentions the bot.
pub open spec fn addressed_to_bot(replied_author: Option<u64>, mentions: Seq<u64>, bot: u64) -> bool {
    match replied_author {
        Some(a) => a == bot,
        None => mentions.contains(bot),
    }
}

/// Whether the bot should answer a message: `replied_author` is the author
/// of the message it replies to, if any.
pub fn ai_command_handler(replied_author: Option<u64>, mentions: &Vec<u64>, bot: u64) -> (r: bool)
    ensures
        r == addressed_to_bot(replied_author, mentions@, bot),
{
    match replied_author {
        Some(a) => a == bot,
        None => {
            let n = mentions.len();
            for i in 0..n
                invariant
                    n == mentions@.len(),
                    replied_author is None,
                    forall|k: int| 0 <= k < i ==> mentions@[k] != bot,
            {
                if mentions[i] == bot {
                    assert(mentions@[i as int] == bot);
                    assert(mentions@.contains(bot));
                    return true;
                }
            }
            false
        },
    }
}

/// A message of a chat with the model.
#[derive(Debug)]
pub struct ChatMessage {
    pub role: String,
    pub content: String,
    pub images: Option<String>,
}

/// A chat request: the model and the conversation so far.
#[derive(Debug)]
pub struct ChatRequest {
    pub model: String,
    pub messages: Vec<ChatMessage>,
}

/// The role of a message: the bot's own messages are the assistant's, the
/// others the user's.
pub open spec fn role_of(bot: bool) -> Seq<char> {
    if bot { "assistant"@ } else { "user"@ }
}

/// The conversation in the order it was written: the messages were
/// gathered from the newest back along the replies.
pub open spec fn conversation(gathered: Seq<(String, bool)>) -> Seq<(String, bool)> {
    gathered.reverse()
}

/// The request for a conversation gathered from the newest message back:
/// the messages oldest first, each with its role, to the
/// `wizard-vicuna-uncensored` model.
pub fn ai_request(gathered: Vec<(String, bool)>) -> (r: ChatRequest)
    ensures
        r.model@ == "wizard-vicuna-uncensored"@,
        r.messages@.len() == gathered@.len(),
        forall|k: int| 0 <= k < r.messages@.len() ==> {
            &&& (#[trigger] r.messages@[k]).role@ == role_of(conversation(gathered@)[k].1)
            &&& r.messages@[k].content == conversation(gathered@)[k].0
            &&& r.messages@[k].images is None
        },
{
    let ghost conv = conversation(gathered@);
    let mut rest = gathered;
    let mut messages: Vec<ChatMessage> = Vec::new();
    let n = rest.len();
    while rest.len() > 0
        invariant
            n == conv.len(),
            rest@.len() + messages@.len() == n,
            rest@ == conv.reverse().take(rest@.len() as int),
            forall|k: int| 0 <= k < messages@.len() ==> {
                &&& (#[trigger] messages@[k]).role@ == role_of(conv[k].1)
                &&& messages@[k].content == conv[k].0
                &&& messages@[k].images is None
            },
        decreases rest@.len(),
    {
        let ghost m = messages@.len() as int;
        let ghost before = rest@;
        let (content, bot) = rest.pop().unwrap();
        proof {
            assert(conv.reverse().reverse() =~= conv);
            assert(before[before.len() - 1] == conv.reverse()[before.len() - 1]);
            assert(conv.reverse()[before.len() - 1] == conv[m]);
            assert(rest@ =~= conv.reverse().take(rest@.len() as int));
        }
        let role = if bot { string_of("assistant") } else { string_of("user") };
        messages.push(ChatMessage { role, content, images: None });
    }
    ChatRequest { model: string_of("wizard-vicuna-uncensored"), messages }
}

/// A piece of the model's streamed answer, and the answer put together.
#[derive(Debug)]
pub struct ChatResponse {
    pub created_at: String,
    pub done: bool,
    pub eval_count: Option<i64>,
    pub eval_duration: Option<i64>,
    pub load_duration: Option<i64>,
    pub message: Option<ChatMessage>,
    pub model: String,
    pub prompt_eval_count: Option<i64>,
    pub prompt_eval_duration: Option<i64>,
    pub total_duration: Option<i64>,
}

/// The text of a message, if there is one.
pub open spec fn opt_text(m: Option<ChatMessage>) -> Option<Seq<char>> {
    match m {
        Some(c) => Some(c.content@),
        None => None,
    }
}

impl ChatResponse {
    /// The answer before any piece came.
    pub fn new() -> (r: ChatResponse)
        ensures
            r.created_at@ == Seq::<char>::empty(),
            !r.done,
            r.message is None,
            r.model@ == Seq::<char>::empty(),
            r.eval_count is None && r.eval_duration is None && r.load_duration is None,
            r.prompt_eval_count is None && r.prompt_eval_duration is None && r.total_duration is None,
    {
        ChatResponse {
            created_at: String::new(),
            done: false,
            eval_count: None,
            eval_duration: None,
            load_duration: None,
            message: None,
            model: String::new(),
            prompt_eval_count: None,
            prompt_eval_duration: None,
            total_duration: None,
        }
    }

    /// Takes in the next piece of the answer: its figures replace the ones
    /// held, and its text is appended to the message held (the piece's
    /// message is taken when none is held yet).
    pub fn merge(&mut self, piece: ChatResponse)
        ensures
            final(self).created_at == piece.created_at,
            final(self).done == piece.done,
            final(self).eval_count == piece.eval_count,
            final(self).eval_duration == piece.eval_duration,
            final(self).load_duration == piece.load_duration,
            final(self).model == piece.model,
            final(self).prompt_eval_count == piece.prompt_eval_count,
            final(self).prompt_eval_duration == piece.prompt_eval_duration,
            final(self).total_duration == piece.total_duration,
            opt_text(final(self).message) == merge_text(opt_text(old(self).message), opt_text(piece.message)),
            old(self).message matches Some(m) ==> final(self).message matches Some(f) && f.role == m.role
                && f.images == m.images,
            old(self).message is None ==> final(self).message == piece.message,
    {
        self.created_at = piece.created_at;
        self.done = piece.done;
        self.eval_count = piece.eval_count;
        self.eval_duration = piece.eval_duration;
        self.load_duration = piece.load_duration;
        let held = self.message.take();
        self.message = match held {
            Some(mut m) => match piece.message {
                Some(p) => {
                    push_str(&mut m.content, p.content.as_str());
                    Some(m)
                },
                None => Some(m),
            },
            None => piece.message,
        };
        self.model = piece.model;
        self.prompt_eval_count = piece.prompt_eval_count;
        self.prompt_eval_duration = piece.prompt_eval_duration;
        self.total_duration = piece.total_duration;
    }

    /// The text to show: the answer so far, or that it is still being
    /// generated.
    pub fn shown_text(&self) -> (s: String)
        ensures
            s@ == match self.message {
                Some(m) => m.content@,
                None => "Still generating response..."@,
            },
    {
        match &self.message {
            Some(m) => m.content.clone(),
            None => string_of("Still generating response..."),
        }
    }
}

} // verus!

verus! {

/// The clock is set before the time it is compared with.
#[derive(PartialEq, Eq, Structural, Clone, Copy, Debug)]
pub enum ClockError {
    Earlier,
}

/// Whether the shown answer is due for an update: more than three seconds
/// have passed since the message was last edited (`now` is seconds and
/// nanoseconds since the Unix epoch); an error when `now` is before that.
pub open spec fn update_due_spec(now: (u64, u32), edited_secs: i64) -> Result<bool, ClockError> {
    if (now.0 as int) < edited_secs {
        Err(ClockError::Earlier)
    } else {
        Ok(now.0 - edited_secs > 3 || (now.0 - edited_secs == 3 && now.1 > 0))
    }
}

/// Whether the shown answer is due for an update at time `now`.
pub fn update_due(now: (u64, u32), edited_secs: i64) -> (r: Result<bool, ClockError>)
    requires
        edited_secs >= 0,
    ensures
        r == update_due_spec(now, edited_secs),
{
    let t = edited_secs as u64;
    if now.0 < t {
        Err(ClockError::Earlier)
    } else {
        let d = now.0 - t;
        Ok(d > 3 || (d == 3 && now.1 > 0))
    }
}

/// `SystemTime::now().duration_since(UNIX_EPOCH)`: the time now in seconds
/// and nanoseconds since the Unix epoch, `None` for a clock set before it.
/// Which time comes back is the clock's; only the nanoseconds' range is
/// stated.
#[verifier::external_body]
fn clock_now() -> (r: Option<(u64, u32)>)
    ensures
        r matches Some(t) ==> t.1 < 1000000000,
{
    match std::time::SystemTime::now().duration_since(std::time::UNIX_EPOCH) {
        Ok(d) => Some((d.as_secs(), d.subsec_nanos())),
        Err(_) => None,
    }
}

/// The update decision at some time `now` the clock gave.
pub open spec fn due_at(now: (u64, u32), edited_secs: i64, r: Result<bool, ClockError>) -> bool {
    now.1 < 1000000000 && r == update_due_spec(now, edited_secs)
}

/// Whether the shown answer is due for an update now; an error when the
/// clock is before the last edit (or before the epoch).
pub fn update_due_now(edited_secs: i64) -> (r: Result<bool, ClockError>)
    requires
        edited_secs >= 0,
    ensures
        r is Err || exists|now: (u64, u32)| #[trigger] due_at(now, edited_secs, r),
        r is Err ==> r == Err::<bool, ClockError>(ClockError::Earlier),
{
    match clock_now() {
        None => Err(ClockError::Earlier),
        Some(now) => {
            let r = update_due(now, edited_secs);
            assert(due_at(now, edited_secs, r));
            r
        },
    }
}

/// How an answer is put in a message.
#[derive(Debug)]
pub enum MessageBody {
    /// As the message's text.
    Text(String),
    /// As the description of an embed.
    Embed(String),
    /// As an attached file, with a note as the message's text.
    File { file_name: String, bytes: Vec<u8>, note: String },
}

/// The text shown: an answer shorter than two bytes shows that it is still
/// being generated.
pub open spec fn shown(text: Seq<char>) -> Seq<char> {
    if encode_utf8(text).len() < 2 { "Still generating response..."@ } else { text }
}

/// The note of an answer sent as a file; the one of a new message (not an
/// edit) reads "th response".
pub open spec fn file_note(len: nat, editing: bool) -> Seq<char> {
    "Wow, I created a response with `"@ + dec_nat(len) + (if editing {
        "` characters! You can find the response in the attached file."@
    } else {
        "` characters! You can find th response in the attached file."@
    })
}

/// How to put an answer in a message: as text under 2000 bytes, as an
/// embed under 4096, else as the file `result.txt` with a note giving its
/// length in bytes.
pub fn message_body(text: &str, editing: bool) -> (r: MessageBody)
    ensures
        ({
            let t = shown(text@);
            let len = encode_utf8(t).len();
            match r {
                MessageBody::Text(s) => len < 2000 && s@ == t,
                MessageBody::Embed(s) => 2000 <= len < 4096 && s@ == t,
                MessageBody::File { file_name, bytes, note } => 4096 <= len && file_name@ == "result.txt"@
                    && bytes@ == encode_utf8(t) && note@ == file_note(len, editing),
            }
        }),
{
    let placeholder = "Still generating response...";
    let t = if text.as_bytes().len() < 2 { placeholder } else { text };
    let len = t.as_bytes().len();
    proof {
        reveal_strlit("Still generating response...");
        assert(t@ == shown(text@));
    }
    if len < 2000 {
        MessageBody::Text(string_of(t))
    } else if len < 4096 {
        MessageBody::Embed(string_of(t))
    } else {
        let mut note = string_of("Wow, I created a response with `");
        push_dec_u64(&mut note, len as u64);
        if editing {
            push_str(&mut note, "` characters! You can find the response in the attached file.");
        } else {
            push_str(&mut note, "` characters! You can find th response in the attached file.");
        }
        MessageBody::File { file_name: string_of("result.txt"), bytes: t.as_bytes_vec(), note }
    }
}

} // verus!

verus! {

/// The text held after a piece with text `piece` arrives to a held text.
pub open spec fn merge_text(held: Option<Seq<char>>, piece: Option<Seq<char>>) -> Option<Seq<char>> {
    match held {
        Some(h) => Some(h + match piece { Some(p) => p, None => Seq::<char>::empty() }),
        None => piece,
    }
}

/// The text held after the pieces arrive in order.
pub open spec fn streamed(held: Option<Seq<char>>, pieces: Seq<Option<Seq<char>>>) -> Option<Seq<char>>
    decreases pieces.len(),
{
    if pieces.len() == 0 {
        held
    } else {
        streamed(merge_text(held, pieces[0]), pieces.drop_first())
    }
}

/// The texts one after the other.
pub open spec fn concatenated(texts: Seq<Seq<char>>) -> Seq<char>
    decreases texts.len(),
{
    if texts.len() == 0 {
        seq![]
    } else {
        texts[0] + concatenated(texts.drop_first())
    }
}

/// Pieces that all carry text add up to the text held followed by all of
/// theirs in order: streaming loses and reorders nothing.
pub proof fn law_stream_concatenates(held: Seq<char>, texts: Seq<Seq<char>>)
    ensures
        streamed(Some(held), texts.map_values(|t: Seq<char>| Some(t))) == Some(held + concatenated(texts)),
    decreases texts.len(),
{
    let pieces = texts.map_values(|t: Seq<char>| Some(t));
    if texts.len() == 0 {
        assert(held + concatenated(texts) =~= held);
    } else {
        let rest = texts.drop_first();
        assert(pieces.drop_first() =~= rest.map_values(|t: Seq<char>| Some(t)));
        law_stream_concatenates(held + texts[0], rest);
        assert(held + texts[0] + concatenated(rest) =~= held + concatenated(texts));
    }
}

} // verus!
