//! The profile commands that keep characters in the user's own record:
//! `/character profile` and `/character fetish add`.
use std::collections::BTreeMap;
use vstd::prelude::*;
use vstd::std_specs::iter::IteratorSpec;
use crate::character::profile_nsfw;
use crate::character::profile_nsfw_spec;
use crate::info_command::rows_view;
use crate::response::{
    empty_reply, row_view, Button, ButtonStyle, ButtonView, EmbedData, EmbedFieldView, EmbedView, Reply, ReplyView,
};
use crate::text::{dec_nat, push_dec_u64, push_str, string_of, str_eq};

verus! {

/// How much a character likes a fetish.
#[derive(PartialEq, Eq, Structural, Clone, Copy, Debug)]
pub enum FetishCategory {
    Favourite,
    Love,
    Like,
    Neutral,
    Dislike,
    Hate,
    Limit,
}

/// A fetish of a character.
#[derive(Clone, Debug)]
pub struct Fetish {
    pub category: FetishCategory,
    pub description: String,
}

/// A character as a user's record keeps it: its fetishes by number.
#[derive(Clone, Debug)]
pub struct ClassicCharacter {
    pub short_description: String,
    pub description: String,
    pub nsfw_description: Option<String>,
    pub fetishes: BTreeMap<usize, Fetish>,
}

/// A user's record: their name, avatar and characters by name.
#[derive(Clone, Debug)]
pub struct ClassicUser {
    pub name: String,
    pub avatar: String,
    pub characters: Vec<(String, ClassicCharacter)>,
}

/// `ks` lists the numbers of the fetishes in `fs`, each once, in increasing
/// order.
pub open spec fn keys_in_order(fs: Map<usize, Fetish>, ks: Seq<usize>) -> bool {
    &&& forall|i: int, j: int| 0 <= i < j < ks.len() ==> ks[i] < ks[j]
    &&& forall|i: int| 0 <= i < ks.len() ==> fs.contains_key(#[trigger] ks[i])
    &&& forall|k: usize| fs.contains_key(k) ==> #[trigger] ks.contains(k)
}

/// The numbers of the fetishes in increasing order, the order in which the
/// record walks them.
pub open spec fn fetish_numbers(fs: Map<usize, Fetish>) -> Seq<usize> {
    choose|ks: Seq<usize>| keys_in_order(fs, ks)
}

/// Only one list holds the numbers in increasing order.
proof fn lemma_keys_in_order_unique(fs: Map<usize, Fetish>, a: Seq<usize>, b: Seq<usize>)
    requires
        keys_in_order(fs, a),
        keys_in_order(fs, b),
    ensures
        a == b,
    decreases a.len(),
{
    if a.len() == 0 {
        if b.len() > 0 {
            assert(fs.contains_key(b[0]));
            assert(a.contains(b[0]));
        }
        assert(a =~= b);
    } else {
        if b.len() == 0 {
            assert(fs.contains_key(a[0]));
            assert(b.contains(a[0]));
        }
        let x = a.last();
        let y = b.last();
        assert(fs.contains_key(a[a.len() - 1]));
        assert(fs.contains_key(b[b.len() - 1]));
        assert(b.contains(x));
        assert(a.contains(y));
        let ia = choose|i: int| 0 <= i < a.len() && a[i] == y;
        let ib = choose|i: int| 0 <= i < b.len() && b[i] == x;
        assert(y <= x) by {
            if ia < a.len() - 1 {
                assert(a[ia] < a[a.len() - 1]);
            }
        }
        assert(x <= y) by {
            if ib < b.len() - 1 {
                assert(b[ib] < b[b.len() - 1]);
            }
        }
        let fs2 = fs.remove(x);
        let a2 = a.drop_last();
        let b2 = b.drop_last();
        assert forall|i: int| 0 <= i < a2.len() implies fs2.contains_key(#[trigger] a2[i]) by {
            assert(a[i] == a2[i]);
            assert(fs.contains_key(a[i]));
            assert(a[i] < a[a.len() - 1]);
        }
        assert forall|i: int| 0 <= i < b2.len() implies fs2.contains_key(#[trigger] b2[i]) by {
            assert(b[i] == b2[i]);
            assert(fs.contains_key(b[i]));
            assert(b[i] < b[b.len() - 1]);
        }
        assert forall|k: usize| fs2.contains_key(k) implies #[trigger] a2.contains(k) by {
            assert(a.contains(k));
            let i = choose|i: int| 0 <= i < a.len() && a[i] == k;
            assert(i != a.len() - 1);
            assert(a2[i] == k);
        }
        assert forall|k: usize| fs2.contains_key(k) implies #[trigger] b2.contains(k) by {
            assert(b.contains(k));
            let i = choose|i: int| 0 <= i < b.len() && b[i] == k;
            assert(i != b.len() - 1);
            assert(b2[i] == k);
        }
        assert forall|i: int, j: int| 0 <= i < j < a2.len() implies a2[i] < a2[j] by {
            assert(a2[i] == a[i] && a2[j] == a[j]);
        }
        assert forall|i: int, j: int| 0 <= i < j < b2.len() implies b2[i] < b2[j] by {
            assert(b2[i] == b[i] && b2[j] == b[j]);
        }
        lemma_keys_in_order_unique(fs2, a2, b2);
        assert(a =~= a2.push(x));
        assert(b =~= b2.push(y));
    }
}

/// Once a list in increasing order is known, it is the one the record
/// walks.
proof fn lemma_fetish_numbers(fs: Map<usize, Fetish>, ks: Seq<usize>)
    requires
        keys_in_order(fs, ks),
    ensures
        fetish_numbers(fs) == ks,
{
    lemma_keys_in_order_unique(fs, fetish_numbers(fs), ks);
}

/// The keys of a sorted map's walk increase strictly.
proof fn lemma_walk_increasing(ks: Seq<usize>)
    requires
        vstd::std_specs::btree::increasing_seq(ks),
    ensures
        forall|i: int, j: int| 0 <= i < j < ks.len() ==> ks[i] < ks[j],
{
    assert forall|i: int, j: int| 0 <= i < j < ks.len() implies ks[i] < ks[j] by {
        assert(vstd::std_specs::cmp::OrdSpec::cmp_spec(&ks[i], &ks[j]) is Less);
    }
}

/// Writing a fetish under a number: reading that number gives the fetish
/// written, and every other number what it held before.
pub proof fn law_fetish_written_is_read(fs: Map<usize, Fetish>, k: usize, f: Fetish, other: usize)
    requires
        other != k,
    ensures
        fs.insert(k, f).contains_key(k) && fs.insert(k, f)[k] == f,
        fs.insert(k, f).contains_key(other) == fs.contains_key(other),
        fs.contains_key(other) ==> fs.insert(k, f)[other] == fs[other],
{
}

} // verus!

verus! {

broadcast use vstd::std_specs::btree::group_btree_axioms;

/// The lines of the fetishes numbered `ks` in one category: number and
/// description.
pub open spec fn fetish_lines(fs: Map<usize, Fetish>, ks: Seq<usize>, cat: FetishCategory) -> Seq<char>
    decreases ks.len(),
{
    if ks.len() == 0 {
        seq![]
    } else if fs[ks.last()].category == cat {
        fetish_lines(fs, ks.drop_last(), cat) + "- "@ + dec_nat(ks.last() as nat) + ": "@ + fs[ks.last()].description@ + "\n"@
    } else {
        fetish_lines(fs, ks.drop_last(), cat)
    }
}

/// The lines of a category, in the order of the fetishes' numbers.
pub open spec fn category_lines_spec(fs: Map<usize, Fetish>, cat: FetishCategory) -> Seq<char> {
    fetish_lines(fs, fetish_numbers(fs), cat)
}

/// A category's field, shown when the category has fetishes; whatever the
/// category, it shows the favourites' lines.
pub open spec fn category_field(fs: Map<usize, Fetish>, cat: FetishCategory, label: Seq<char>) -> Seq<EmbedFieldView> {
    if category_lines_spec(fs, cat).len() > 0 {
        seq![EmbedFieldView { name: label, value: category_lines_spec(fs, FetishCategory::Favourite), inline: false }]
    } else {
        seq![]
    }
}

/// The fields of a character's fetishes, by category.
pub open spec fn classic_fetish_fields(fs: Map<usize, Fetish>) -> Seq<EmbedFieldView> {
    category_field(fs, FetishCategory::Favourite, "Favourites"@)
        + category_field(fs, FetishCategory::Love, "Love"@)
        + category_field(fs, FetishCategory::Like, "Like"@)
        + category_field(fs, FetishCategory::Neutral, "Neutral"@)
        + category_field(fs, FetishCategory::Dislike, "Dislike"@)
        + category_field(fs, FetishCategory::Hate, "Hate"@)
        + category_field(fs, FetishCategory::Limit, "Limits"@)
}

/// The numbers of a walk of the record.
pub open spec fn walk_keys(r: Seq<(&usize, &Fetish)>) -> Seq<usize> {
    r.map_values(|kv: (&usize, &Fetish)| *kv.0)
}

fn category_lines(fs: &BTreeMap<usize, Fetish>, cat: FetishCategory) -> (s: String)
    ensures
        s@ == category_lines_spec(fs@, cat),
{
    let mut s = String::new();
    let iter = fs.iter();
    let ghost r = IteratorSpec::remaining(&iter);
    let ghost ks = walk_keys(r);
    for kv in it: iter
        invariant
            it.seq() == r,
            ks == walk_keys(r),
            r == IteratorSpec::remaining(&vstd::std_specs::btree::spec_btree_map_iter(fs)),
            s@ == fetish_lines(fs@, ks.take(it.index() as int), cat),
    {
        let ghost i = it.index() as int;
        proof {
            assert(fs@.contains_key(*r[i].0));
            assert(ks[i] == *kv.0);
            assert(ks.take(i + 1).drop_last() =~= ks.take(i));
            assert(ks.take(i + 1).last() == ks[i]);
        }
        if kv.1.category == cat {
            push_str(&mut s, "- ");
            push_dec_u64(&mut s, *kv.0 as u64);
            push_str(&mut s, ": ");
            push_str(&mut s, kv.1.description.as_str());
            push_str(&mut s, "\n");
        }
    }
    proof {
        assert(ks.take(r.len() as int) =~= ks);
        lemma_walk_increasing(ks);
        assert forall|i: int| 0 <= i < ks.len() implies fs@.contains_key(#[trigger] ks[i]) by {
            assert(fs@.contains_key(*r[i].0));
        }
        assert forall|k: usize| fs@.contains_key(k) implies #[trigger] ks.contains(k) by {
            assert(r.contains((&k, &fs@[k])));
            let i = choose|i: int| 0 <= i < r.len() && r[i] == (&k, &fs@[k]);
            assert(ks[i] == k);
        }
        lemma_fetish_numbers(fs@, ks);
    }
    s
}

fn add_category_field(e: &mut EmbedData, fs: &BTreeMap<usize, Fetish>, cat: FetishCategory, label: &str, fav: &str)
    requires
        fav@ == category_lines_spec(fs@, FetishCategory::Favourite),
    ensures
        final(e)@ == (EmbedView { fields: old(e)@.fields + category_field(fs@, cat, label@), ..old(e)@ }),
{
    let lines = category_lines(fs, cat);
    if lines.as_str().unicode_len() > 0 {
        e.add_field(label, fav, false);
    }
    assert(e@.fields =~= old(e)@.fields + category_field(fs@, cat, label@));
}

/// Adds a field for each category that has fetishes.
pub fn add_classic_fetish_fields(e: &mut EmbedData, fs: &BTreeMap<usize, Fetish>)
    ensures
        final(e)@ == (EmbedView { fields: old(e)@.fields + classic_fetish_fields(fs@), ..old(e)@ }),
{
    let fav = category_lines(fs, FetishCategory::Favourite);
    add_category_field(e, fs, FetishCategory::Favourite, "Favourites", fav.as_str());
    add_category_field(e, fs, FetishCategory::Love, "Love", fav.as_str());
    add_category_field(e, fs, FetishCategory::Like, "Like", fav.as_str());
    add_category_field(e, fs, FetishCategory::Neutral, "Neutral", fav.as_str());
    add_category_field(e, fs, FetishCategory::Dislike, "Dislike", fav.as_str());
    add_category_field(e, fs, FetishCategory::Hate, "Hate", fav.as_str());
    add_category_field(e, fs, FetishCategory::Limit, "Limits", fav.as_str());
    assert(e@.fields =~= old(e)@.fields + classic_fetish_fields(fs@));
}

} // verus!

verus! {

/// The position of the first character called `name`, or the length of the
/// list when there is none.
pub open spec fn first_named(cs: Seq<(String, ClassicCharacter)>, name: Seq<char>) -> int
    decreases cs.len(),
{
    if cs.len() == 0 {
        0
    } else if first_named(cs.drop_last(), name) < cs.len() - 1 {
        first_named(cs.drop_last(), name)
    } else if cs.last().0@ == name {
        cs.len() - 1
    } else {
        cs.len() as int
    }
}

fn find_named(cs: &Vec<(String, ClassicCharacter)>, name: &str) -> (i: usize)
    ensures
        i == first_named(cs@, name@),
        i <= cs@.len(),
{
    let n = cs.len();
    let mut i: usize = 0;
    while i < n
        invariant
            n == cs@.len(),
            i <= n,
            first_named(cs@.take(i as int), name@) == i,
            forall|k: int| 0 <= k < i ==> (#[trigger] cs@[k]).0@ != name@,
        decreases n - i,
    {
        assert(cs@.take(i + 1).drop_last() =~= cs@.take(i as int));
        if str_eq(cs[i].0.as_str(), name) {
            proof {
                lemma_first_named_prefix(cs@, name@, (i + 1) as int);
            }
            return i;
        }
        i = i + 1;
    }
    assert(cs@.take(n as int) =~= cs@);
    i
}

proof fn lemma_first_named_prefix(cs: Seq<(String, ClassicCharacter)>, name: Seq<char>, m: int)
    requires
        0 < m <= cs.len(),
        first_named(cs.take(m), name) == m - 1,
    ensures
        first_named(cs, name) == m - 1,
    decreases cs.len(),
{
    if m < cs.len() {
        assert(cs.drop_last().take(m) =~= cs.take(m));
        lemma_first_named_prefix(cs.drop_last(), name, m);
    } else {
        assert(cs.take(m) =~= cs);
    }
}

/// The list of a user's characters: a line of name and short description
/// for each.
pub open spec fn classic_list(cs: Seq<(String, ClassicCharacter)>) -> Seq<char>
    decreases cs.len(),
{
    if cs.len() == 0 {
        seq![]
    } else {
        classic_list(cs.drop_last()) + "- "@ + cs.last().0@ + ": "@ + cs.last().1.short_description@ + "\n"@
    }
}

fn classic_list_string(cs: &Vec<(String, ClassicCharacter)>) -> (s: String)
    ensures
        s@ == classic_list(cs@),
{
    let mut s = String::new();
    let n = cs.len();
    for i in 0..n
        invariant
            n == cs@.len(),
            s@ == classic_list(cs@.take(i as int)),
    {
        assert(cs@.take(i + 1).drop_last() =~= cs@.take(i as int));
        push_str(&mut s, "- ");
        push_str(&mut s, cs[i].0.as_str());
        push_str(&mut s, ": ");
        push_str(&mut s, cs[i].1.short_description.as_str());
        push_str(&mut s, "\n");
    }
    assert(cs@.take(n as int) =~= cs@);
    s
}

/// The heading of a profile's embed: its title and owner.
pub open spec fn profile_heading(base: EmbedView, name: Seq<char>, user: ClassicUser) -> EmbedView {
    EmbedView {
        title: Some("Character Profile - "@ + name),
        author_icon_url: Some(user.avatar@),
        author_name: Some("Profile by "@ + user.name@),
        ..base
    }
}

fn set_heading(e: &mut EmbedData, name: &str, user: &ClassicUser)
    ensures
        final(e)@ == profile_heading(old(e)@, name@, *user),
{
    let mut title = string_of("Character Profile - ");
    push_str(&mut title, name);
    e.title = Some(title);
    e.author_icon_url = Some(user.avatar.clone());
    let mut author = string_of("Profile by ");
    push_str(&mut author, user.name.as_str());
    e.author_name = Some(author);
}

/// `/character fetish add`: add a fetish to a character profile.
#[derive(Debug)]
pub struct Add {
    /// The character to modify
    pub name: String,
    /// The fetish type to add
    pub fetish: FetishCategory,
    /// Description of that fetish
    pub description: String,
}

/// What adding a fetish answers, and the record to save (when changed).
#[derive(Debug)]
pub struct AddOutcome {
    pub reply: Reply,
    pub record: Option<ClassicUser>,
}

impl Add {
    /// Adds the fetish to the author's character of that name and shows the
    /// character's fetishes by category (each category field holding the
    /// favourites' lines), to the author alone. Without characters, or
    /// without one of that name, the author is told so.
    pub fn run_command(self, user_id: u64, user: ClassicUser, base: EmbedData) -> (r: AddOutcome)
        requires
            forall|i: int| 0 <= i < user.characters@.len() ==> (#[trigger] user.characters@[i]).1.fetishes@.len() < usize::MAX,
        ensures
            user.characters@.len() == 0 ==> r.record is None && r.reply@ == (ReplyView {
                content: Some("Hey <@"@ + dec_nat(user_id as nat) + ">, you must add a character first!!"@),
                ephemeral: true,
                ..empty_reply()
            }),
            user.characters@.len() > 0 && first_named(user.characters@, self.name@) == user.characters@.len() ==> r.record
                is None && r.reply@ == (ReplyView {
                content: Some("I'm afraid that you have no characters with the name `"@ + self.name@
                    + "`! You have the following characters:\n"@ + classic_list(user.characters@)),
                ephemeral: true,
                ..empty_reply()
            }),
            first_named(user.characters@, self.name@) < user.characters@.len() ==> {
                let i = first_named(user.characters@, self.name@);
                let c = user.characters@[i].1;
                let fs = c.fetishes@.insert(
                    (c.fetishes@.len() + 1) as usize,
                    Fetish { category: self.fetish, description: self.description },
                );
                &&& r.record matches Some(u)
                &&& u.name == user.name
                &&& u.avatar == user.avatar
                &&& u.characters@.len() == user.characters@.len()
                &&& forall|k: int| 0 <= k < user.characters@.len() && k != i ==> #[trigger] u.characters@[k] == user.characters@[k]
                &&& u.characters@[i].0 == user.characters@[i].0
                &&& u.characters@[i].1.short_description == c.short_description
                &&& u.characters@[i].1.description == c.description
                &&& u.characters@[i].1.nsfw_description == c.nsfw_description
                &&& u.characters@[i].1.fetishes@ == fs
                &&& r.reply@ == (ReplyView {
                    embeds: seq![EmbedView {
                        fields: base@.fields + classic_fetish_fields(fs),
                        ..profile_heading(base@, self.name@, user)
                    }],
                    ephemeral: true,
                    ..empty_reply()
                })
            },
    {
        let mut e = base;
        set_heading(&mut e, self.name.as_str(), &user);
        if user.characters.len() == 0 {
            let mut s = string_of("Hey <@");
            push_dec_u64(&mut s, user_id);
            push_str(&mut s, ">, you must add a character first!!");
            return AddOutcome { reply: Reply { content: Some(s), ephemeral: true, ..Reply::new() }, record: None };
        }
        let i = find_named(&user.characters, self.name.as_str());
        if i == user.characters.len() {
            let mut s = string_of("I'm afraid that you have no characters with the name `");
            push_str(&mut s, self.name.as_str());
            push_str(&mut s, "`! You have the following characters:\n");
            push_str(&mut s, classic_list_string(&user.characters).as_str());
            return AddOutcome { reply: Reply { content: Some(s), ephemeral: true, ..Reply::new() }, record: None };
        }
        let mut user = user;
        let ghost old_user = user;
        let mut characters = user.characters;
        user.characters = Vec::new();
        let (cname, mut c) = characters.remove(i);
        let ghost c0 = c;
        assert(old_user.characters@[i as int] == (cname, c0));
        let key = c.fetishes.len() + 1;
        let f = Fetish { category: self.fetish, description: self.description };
        c.fetishes.insert(key, f);
        add_classic_fetish_fields(&mut e, &c.fetishes);
        characters.insert(i, (cname, c));
        assert(characters@ =~= old_user.characters@.update(i as int, (cname, c)));
        user.characters = characters;
        let mut r = Reply::new();
        let ghost ev = e@;
        r.embeds.push(e);
        r.ephemeral = true;
        assert(r@.embeds =~= seq![ev]);
        AddOutcome { reply: r, record: Some(user) }
    }
}

} // verus!

verus! {

/// How many rows the buttons are laid out in: at most 26 buttons are
/// looked at, and a row is begun before every fifth.
pub open spec fn rows_begun(n: nat) -> nat {
    let m = if n < 26 { n } else { 26 };
    ((m + 4) / 5) as nat
}

/// The rows the layout gives: a row is handed on each time a new one is
/// begun, so the first row handed on is the empty one the layout starts
/// with, the next ones hold five buttons each, and the row being filled
/// last is never handed on.
pub open spec fn button_rows_spec(bs: Seq<ButtonView>) -> Seq<Seq<ButtonView>> {
    Seq::new(rows_begun(bs.len()), |j: int| if j == 0 { seq![] } else { bs.subrange(5 * (j - 1), 5 * j) })
}

/// Where the row being filled begins once `i` buttons are placed.
spec fn row_start(i: int) -> int {
    if i == 0 { 0 } else { 5 * ((i - 1) / 5) }
}

/// Lays the buttons out in rows of five.
pub fn button_rows(buttons: Vec<Button>) -> (rows: Vec<Vec<Button>>)
    ensures
        rows_view(rows@) == button_rows_spec(row_view(buttons@)),
{
    let ghost bs = row_view(buttons@);
    let n = buttons.len();
    let mut rest = buttons;
    let mut rows: Vec<Vec<Button>> = Vec::new();
    let mut row: Vec<Button> = Vec::new();
    let mut added: usize = 0;
    while added < n && added <= 25
        invariant
            n == bs.len(),
            added <= n,
            added <= 26,
            row_view(rest@) == bs.subrange(added as int, n as int),
            row_view(row@) == bs.subrange(row_start(added as int), added as int),
            rows_view(rows@) == Seq::new(((added + 4) / 5) as nat, |j: int| if j == 0 { seq![] } else { bs.subrange(5 * (j - 1), 5 * j) }),
        decreases n - added,
    {
        let ghost i = added as int;
        let ghost q = i / 5;
        proof {
            assert(i == 5 * q + i % 5 && 0 <= i % 5 < 5) by (nonlinear_arith) requires i >= 0, q == i / 5;
            if i % 5 == 0 {
                assert((i + 4) / 5 == q) by (nonlinear_arith) requires i == 5 * q, q >= 0;
                assert((i + 5) / 5 == q + 1) by (nonlinear_arith) requires i == 5 * q, q >= 0;
                if i > 0 {
                    assert((i - 1) / 5 == q - 1) by (nonlinear_arith) requires i == 5 * q, q >= 1;
                }
            } else {
                assert((i + 4) / 5 == q + 1) by (nonlinear_arith) requires i == 5 * q + i % 5, 0 < i % 5 < 5, q >= 0;
                assert((i + 5) / 5 == q + 1) by (nonlinear_arith) requires i == 5 * q + i % 5, 0 < i % 5 < 5, q >= 0;
                assert((i - 1) / 5 == q) by (nonlinear_arith) requires i == 5 * q + i % 5, 0 < i % 5 < 5, q >= 0;
            }
        }
        if added % 5 == 0 {
            let ghost rv = row_view(row@);
            let ghost before = rows_view(rows@);
            rows.push(row);
            row = Vec::new();
            proof {
                assert(rows_view(rows@) =~= before.push(rv));
                let f = |j: int| if j == 0 { seq![] } else { bs.subrange(5 * (j - 1), 5 * j) };
                assert(before.len() == q);
                if i == 0 {
                    assert(rv =~= f(q));
                } else {
                    assert(row_start(i) == 5 * (q - 1));
                    assert(rv =~= f(q));
                }
                assert(rows_view(rows@) =~= Seq::new(((i + 1 + 4) / 5) as nat, f));
                assert(row_view(row@) =~= bs.subrange(i, i));
            }
        }
        let ghost before_row = row_view(row@);
        let ghost rest_before = rest@;
        assert(rest@.len() == row_view(rest@).len());
        let b = rest.remove(0);
        assert(b == rest_before[0]);
        assert(row_view(rest_before)[0] == b@);
        row.push(b);
        added = added + 1;
        proof {
            assert(row_start(i + 1) == 5 * q);
            assert(row_view(row@) =~= before_row.push(bs[i]));
            assert(row_view(row@) =~= bs.subrange(row_start(i + 1), i + 1));
            assert forall|k: int| 0 <= k < row_view(rest@).len() implies #[trigger] row_view(rest@)[k] == bs.subrange(i + 1, n as int)[k] by {
                assert(rest@[k] == rest_before[k + 1]);
                assert(row_view(rest_before)[k + 1] == rest_before[k + 1]@);
            }
            assert(row_view(rest@) =~= bs.subrange(i + 1, n as int));
        }
    }
    assert(((added + 4) / 5) as nat == rows_begun(n as nat));
    rows
}

/// The classic `/character profile`: fetch a user's character profile.
#[derive(Debug)]
pub struct Profile {
    /// The fursona to get
    pub name: String,
    /// The type of profile to fetch. Defaults to the channel type.
    pub nsfw: Option<bool>,
    /// Fetch the character name from someone else.
    pub user: Option<u64>,
}

/// The profile's description: the short and the detailed description, and
/// the NSFW one for an NSFW profile that has one.
pub open spec fn classic_description(c: ClassicCharacter, nsfw: bool) -> Seq<char> {
    c.short_description@ + "\n- **Description:**\n"@ + c.description@ + match c.nsfw_description {
        Some(d) => if nsfw { "\n- **NSFW Description:**\n"@ + d@ + "\n"@ } else { seq![] },
        None => seq![],
    }
}

/// The fetish button, shown for an NSFW profile with fetishes.
pub open spec fn classic_buttons(c: ClassicCharacter, nsfw: bool) -> Seq<ButtonView> {
    if nsfw && c.fetishes@.len() > 0 {
        seq![ButtonView { custom_id: "character-fetish"@, label: "Fetishes"@, style: ButtonStyle::Danger }]
    } else {
        seq![]
    }
}

/// What the classic profile command answers for `user_id`'s record.
pub open spec fn classic_profile_spec(
    p: Profile,
    user_id: u64,
    user: ClassicUser,
    channel_nsfw: Option<bool>,
    base: EmbedView,
) -> ReplyView {
    match profile_nsfw_spec(p.nsfw, channel_nsfw) {
        None => ReplyView { content: Some("You can't get a NSFW profile in a SFW channel, dork!"@), ..empty_reply() },
        Some(nsfw) => if user.characters@.len() == 0 {
            ReplyView {
                content: Some("Sorry, <@"@ + dec_nat(user_id as nat) + "> has no character profiles configured!"@),
                ephemeral: true,
                ..empty_reply()
            }
        } else if first_named(user.characters@, p.name@) == user.characters@.len() {
            ReplyView {
                content: Some("I'm afraid that user <@"@ + dec_nat(user_id as nat) + "> has no characters with the name `"@
                    + p.name@ + "`! They do however, have the following profiles configured...\n"@
                    + classic_list(user.characters@)),
                ephemeral: true,
                ..empty_reply()
            }
        } else {
            let c = user.characters@[first_named(user.characters@, p.name@)].1;
            ReplyView {
                embeds: seq![EmbedView {
                    description: Some(classic_description(c, nsfw)),
                    ..profile_heading(base, p.name@, user)
                }],
                components: button_rows_spec(classic_buttons(c, nsfw)),
                ..empty_reply()
            }
        },
    }
}

/// A profile shown as SFW never holds the NSFW description: it is the short
/// and the detailed description alone. An NSFW profile adds the NSFW
/// description when the character has one.
pub proof fn law_sfw_description_hides_nsfw(c: ClassicCharacter)
    ensures
        classic_description(c, false) == c.short_description@ + "\n- **Description:**\n"@ + c.description@,
        c.nsfw_description is None ==> classic_description(c, true) == classic_description(c, false),
        c.nsfw_description matches Some(d) ==> classic_description(c, true) == c.short_description@
            + "\n- **Description:**\n"@ + c.description@ + "\n- **NSFW Description:**\n"@ + d@ + "\n"@,
{
    assert(classic_description(c, false) =~= c.short_description@ + "\n- **Description:**\n"@ + c.description@);
}

/// Asked for a SFW profile (or with no choice, outside an NSFW channel), the
/// profile of a character the user has shows its short and detailed
/// descriptions and nothing of its NSFW description, and no fetish button.
pub proof fn law_sfw_profile_shows_no_nsfw(p: Profile, user_id: u64, user: ClassicUser, channel_nsfw: Option<bool>, base: EmbedView)
    requires
        p.nsfw == Some(false) || (p.nsfw is None && channel_nsfw != Some(true)),
        first_named(user.characters@, p.name@) < user.characters@.len(),
    ensures
        ({
            let c = user.characters@[first_named(user.characters@, p.name@)].1;
            let r = classic_profile_spec(p, user_id, user, channel_nsfw, base);
            &&& r.embeds.len() == 1
            &&& r.embeds[0].description == Some(c.short_description@ + "\n- **Description:**\n"@ + c.description@)
            &&& r.components == button_rows_spec(seq![])
        }),
{
    let c = user.characters@[first_named(user.characters@, p.name@)].1;
    law_sfw_description_hides_nsfw(c);
    assert(classic_buttons(c, false) =~= seq![]);
}

impl Profile {
    /// Whose profile is asked for: the user named, else whoever asks.
    pub fn owner(&self, author: Option<u64>) -> (r: Option<u64>)
        ensures
            r == match self.user { Some(u) => Some(u), None => author },
    {
        match self.user {
            Some(u) => Some(u),
            None => author,
        }
    }

    /// The answer for the record of `user_id`, in a channel whose NSFW
    /// setting is `channel_nsfw`.
    pub fn run_command(&self, user_id: u64, user: &ClassicUser, channel_nsfw: Option<bool>, base: EmbedData) -> (r: Reply)
        ensures
            r@ == classic_profile_spec(*self, user_id, *user, channel_nsfw, base@),
            (self.nsfw == Some(false) || (self.nsfw is None && channel_nsfw != Some(true)))
                && first_named(user.characters@, self.name@) < user.characters@.len() ==> {
                let c = user.characters@[first_named(user.characters@, self.name@)].1;
                &&& r@.embeds.len() == 1
                &&& r@.embeds[0].description == Some(c.short_description@ + "\n- **Description:**\n"@ + c.description@)
            },
    {
        proof {
            if (self.nsfw == Some(false) || (self.nsfw is None && channel_nsfw != Some(true)))
                && first_named(user.characters@, self.name@) < user.characters@.len() {
                law_sfw_profile_shows_no_nsfw(*self, user_id, *user, channel_nsfw, base@);
            }
        }
        let nsfw = match profile_nsfw(self.nsfw, channel_nsfw) {
            None => return Reply::text(string_of("You can't get a NSFW profile in a SFW channel, dork!")),
            Some(n) => n,
        };
        if user.characters.len() == 0 {
            let mut s = string_of("Sorry, <@");
            push_dec_u64(&mut s, user_id);
            push_str(&mut s, "> has no character profiles configured!");
            return Reply { content: Some(s), ephemeral: true, ..Reply::new() };
        }
        let i = find_named(&user.characters, self.name.as_str());
        if i == user.characters.len() {
            let mut s = string_of("I'm afraid that user <@");
            push_dec_u64(&mut s, user_id);
            push_str(&mut s, "> has no characters with the name `");
            push_str(&mut s, self.name.as_str());
            push_str(&mut s, "`! They do however, have the following profiles configured...\n");
            push_str(&mut s, classic_list_string(&user.characters).as_str());
            return Reply { content: Some(s), ephemeral: true, ..Reply::new() };
        }
        let c = &user.characters[i].1;
        let mut description = string_of(c.short_description.as_str());
        push_str(&mut description, "\n- **Description:**\n");
        push_str(&mut description, c.description.as_str());
        match &c.nsfw_description {
            Some(d) => if nsfw {
                push_str(&mut description, "\n- **NSFW Description:**\n");
                push_str(&mut description, d.as_str());
                push_str(&mut description, "\n");
            },
            None => {},
        }
        let mut e = base;
        set_heading(&mut e, self.name.as_str(), user);
        e.description = Some(description);
        let mut buttons: Vec<Button> = Vec::new();
        if nsfw && c.fetishes.len() > 0 {
            buttons.push(Button::new("character-fetish", "Fetishes", ButtonStyle::Danger));
        }
        assert(row_view(buttons@) =~= classic_buttons(*c, nsfw));
        assert(description@ =~= classic_description(*c, nsfw));
        let mut r = Reply::new();
        let ghost ev = e@;
        r.embeds.push(e);
        r.components = button_rows(buttons);
        assert(r@.embeds =~= seq![ev]);
        assert(r@.components =~= rows_view(r.components@));
        r
    }
}

} // verus!
