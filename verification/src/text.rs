//! Text building blocks: decimal and hexadecimal rendering, substring search,
//! replacement, padding and joining, all stated over the character view of
//! strings.
use vstd::prelude::*;

verus! {

/// The character of a digit in base 16 (upper case), which for values below
/// ten is the decimal digit.
pub open spec fn digit_char(d: nat) -> char {
    if d == 0 { '0' } else if d == 1 { '1' } else if d == 2 { '2' } else if d == 3 { '3' }
    else if d == 4 { '4' } else if d == 5 { '5' } else if d == 6 { '6' } else if d == 7 { '7' }
    else if d == 8 { '8' } else if d == 9 { '9' } else if d == 10 { 'A' } else if d == 11 { 'B' }
    else if d == 12 { 'C' } else if d == 13 { 'D' } else if d == 14 { 'E' } else { 'F' }
}

/// Decimal rendering of a natural number, as `Display` writes it.
pub open spec fn dec_nat(n: nat) -> Seq<char>
    decreases n,
{
    if n < 10 {
        seq![digit_char(n)]
    } else {
        dec_nat(n / 10).push(digit_char(n % 10))
    }
}

/// Decimal rendering of an integer, with a leading `-` when negative.
pub open spec fn dec_int(i: int) -> Seq<char> {
    if i < 0 {
        seq!['-'] + dec_nat((-i) as nat)
    } else {
        dec_nat(i as nat)
    }
}

/// Upper-case hexadecimal rendering of a natural number, as `{:X}` writes it.
pub open spec fn hex_nat(n: nat) -> Seq<char>
    decreases n,
{
    if n < 16 {
        seq![digit_char(n)]
    } else {
        hex_nat(n / 16).push(digit_char(n % 16))
    }
}

/// `needle` occurs in `hay` starting at position `i`.
pub open spec fn occurs_at(hay: Seq<char>, needle: Seq<char>, i: int) -> bool {
    0 <= i && i + needle.len() <= hay.len() && hay.subrange(i, i + needle.len()) == needle
}

/// `needle` occurs somewhere in `hay` (`str::contains`).
pub open spec fn has_substring(hay: Seq<char>, needle: Seq<char>) -> bool {
    exists|i: int| occurs_at(hay, needle, i)
}

/// `str::replace`: every occurrence of `pat`, found from left to right
/// without overlap, is replaced by `with`.
pub open spec fn replace_spec(s: Seq<char>, pat: Seq<char>, with: Seq<char>) -> Seq<char>
    decreases s.len(),
{
    if s.len() == 0 {
        seq![]
    } else if pat.len() > 0 && occurs_at(s, pat, 0) {
        with + replace_spec(s.subrange(pat.len() as int, s.len() as int), pat, with)
    } else {
        seq![s[0]] + replace_spec(s.subrange(1, s.len() as int), pat, with)
    }
}

/// `n` spaces.
pub open spec fn spaces(n: nat) -> Seq<char> {
    Seq::new(n, |i: int| ' ')
}

/// `{s:<w$}`: `s` followed by spaces up to `w` characters.
pub open spec fn pad_end(s: Seq<char>, w: nat) -> Seq<char> {
    if s.len() < w { s + spaces((w - s.len()) as nat) } else { s }
}

/// `{s:>w$}`: spaces up to `w` characters followed by `s`.
pub open spec fn pad_start(s: Seq<char>, w: nat) -> Seq<char> {
    if s.len() < w { spaces((w - s.len()) as nat) + s } else { s }
}

/// The items joined with `sep` between each two of them.
pub open spec fn join_spec(items: Seq<Seq<char>>, sep: Seq<char>) -> Seq<char>
    decreases items.len(),
{
    if items.len() == 0 {
        seq![]
    } else if items.len() == 1 {
        items[0]
    } else {
        join_spec(items.drop_last(), sep) + sep + items.last()
    }
}

/// Appends a character to a string (`String::push`).
#[verifier::external_body]
pub(crate) fn push_char(s: &mut String, c: char)
    ensures
        final(s)@ == old(s)@.push(c),
{
    s.push(c)
}

/// Appends a string slice.
pub fn push_str(s: &mut String, t: &str)
    ensures
        final(s)@ == old(s)@ + t@,
{
    s.append(t);
}

/// A new string holding `t`.
pub fn string_of(t: &str) -> (s: String)
    ensures
        s@ == t@,
{
    String::from_str(t)
}

fn digit_of(d: u64) -> (c: char)
    requires
        d < 16,
    ensures
        c == digit_char(d as nat),
{
    if d == 0 { '0' } else if d == 1 { '1' } else if d == 2 { '2' } else if d == 3 { '3' }
    else if d == 4 { '4' } else if d == 5 { '5' } else if d == 6 { '6' } else if d == 7 { '7' }
    else if d == 8 { '8' } else if d == 9 { '9' } else if d == 10 { 'A' } else if d == 11 { 'B' }
    else if d == 12 { 'C' } else if d == 13 { 'D' } else if d == 14 { 'E' } else { 'F' }
}

/// Appends the decimal rendering of `n`.
pub fn push_dec_u64(s: &mut String, n: u64)
    ensures
        final(s)@ == old(s)@ + dec_nat(n as nat),
    decreases n,
{
    if n >= 10 {
        push_dec_u64(s, n / 10);
    }
    let c = digit_of(n % 10);
    push_char(s, c);
    proof {
        if n >= 10 {
            assert(dec_nat(n as nat) == dec_nat((n / 10) as nat).push(c));
            assert(final(s)@ =~= old(s)@ + dec_nat(n as nat));
        } else {
            assert(final(s)@ =~= old(s)@ + dec_nat(n as nat));
        }
    }
}

/// Appends the decimal rendering of a 128-bit `n`.
pub fn push_dec_u128(s: &mut String, n: u128)
    ensures
        final(s)@ == old(s)@ + dec_nat(n as nat),
    decreases n,
{
    if n >= 10 {
        push_dec_u128(s, n / 10);
    }
    let c = digit_of((n % 10) as u64);
    push_char(s, c);
    proof {
        if n >= 10 {
            assert(dec_nat(n as nat) == dec_nat((n / 10) as nat).push(c));
        }
        assert(final(s)@ =~= old(s)@ + dec_nat(n as nat));
    }
}

/// Appends the decimal rendering of `n`, with a `-` sign when negative.
pub fn push_dec_i64(s: &mut String, n: i64)
    ensures
        final(s)@ == old(s)@ + dec_int(n as int),
{
    if n < 0 {
        push_char(s, '-');
        let m: u64 = (-(n as i128)) as u64;
        push_dec_u64(s, m);
        assert(final(s)@ =~= old(s)@ + dec_int(n as int));
    } else {
        push_dec_u64(s, n as u64);
    }
}

/// Appends the upper-case hexadecimal rendering of `n`.
pub fn push_hex_u64(s: &mut String, n: u64)
    ensures
        final(s)@ == old(s)@ + hex_nat(n as nat),
    decreases n,
{
    if n >= 16 {
        push_hex_u64(s, n / 16);
    }
    let c = digit_of(n % 16);
    push_char(s, c);
    proof {
        assert(final(s)@ =~= old(s)@ + hex_nat(n as nat));
    }
}

/// The decimal rendering of `n` as a new string.
pub fn dec_string(n: u64) -> (s: String)
    ensures
        s@ == dec_nat(n as nat),
{
    let mut s = String::new();
    push_dec_u64(&mut s, n);
    assert(s@ =~= dec_nat(n as nat));
    s
}

/// The characters of a string, in order.
pub fn chars_of(s: &str) -> (v: Vec<char>)
    ensures
        v@ == s@,
{
    let mut v: Vec<char> = Vec::new();
    for c in it: s.chars()
        invariant
            v@ == it.seq().take(it.index() as int),
    {
        v.push(c);
    }
    v
}

/// Whether `needle` occurs in `hay` at position `i`.
fn match_at(hay: &[char], needle: &[char], i: usize) -> (b: bool)
    ensures
        b == occurs_at(hay@, needle@, i as int),
{
    if i > hay.len() || needle.len() > hay.len() - i {
        return false;
    }
    let n = needle.len();
    for j in 0..n
        invariant
            n == needle@.len(),
            i + n <= hay.len(),
            hay.len() == hay@.len(),
            forall|k: int| 0 <= k < j ==> hay@[i + k] == needle@[k],
    {
        if hay[i + j] != needle[j] {
            assert(hay@.subrange(i as int, i + n)[j as int] != needle@[j as int]);
            return false;
        }
    }
    assert(hay@.subrange(i as int, i + n) =~= needle@);
    true
}

/// Whether `needle` occurs in `hay` (`str::contains`).
pub fn contains_str(hay: &str, needle: &str) -> (b: bool)
    ensures
        b == has_substring(hay@, needle@),
{
    let h = chars_of(hay);
    let n = chars_of(needle);
    let len = h.len();
    if n.len() == 0 {
        assert(hay@.subrange(0, 0) =~= needle@);
        assert(occurs_at(hay@, needle@, 0));
        return true;
    }
    let mut i: usize = 0;
    while i < len
        invariant
            i <= len,
            len == h@.len(),
            h@ == hay@,
            n@ == needle@,
            needle@.len() > 0,
            forall|k: int| 0 <= k < i ==> !occurs_at(hay@, needle@, k),
        decreases len - i,
    {
        if match_at(h.as_slice(), n.as_slice(), i) {
            return true;
        }
        i = i + 1;
    }
    assert forall|k: int| !occurs_at(hay@, needle@, k) by {
        if 0 <= k && occurs_at(hay@, needle@, k) {
            assert(k < i);
        }
    }
    false
}

/// Whether two strings hold the same characters.
pub fn str_eq(a: &str, b: &str) -> (r: bool)
    ensures
        r == (a@ == b@),
{
    let x = chars_of(a);
    let y = chars_of(b);
    if x.len() != y.len() {
        return false;
    }
    let n = x.len();
    for i in 0..n
        invariant
            n == x@.len(),
            n == y@.len(),
            x@ == a@,
            y@ == b@,
            forall|k: int| 0 <= k < i ==> x@[k] == y@[k],
    {
        if x[i] != y[i] {
            return false;
        }
    }
    assert(x@ =~= y@);
    true
}

/// `str::replace` over characters: every occurrence of the non-empty `pat`,
/// from left to right, is replaced by `with`.
pub fn replace_all(s: &str, pat: &str, with: &str) -> (r: String)
    requires
        pat@.len() > 0,
    ensures
        r@ == replace_spec(s@, pat@, with@),
{
    let h = chars_of(s);
    let p = chars_of(pat);
    let len = h.len();
    let mut out = String::new();
    let mut i: usize = 0;
    assert(s@.subrange(0, len as int) =~= s@);
    assert(out@ + replace_spec(s@.subrange(0, len as int), pat@, with@) =~= replace_spec(s@, pat@, with@));
    while i < len
        invariant
            i <= len,
            len == h@.len(),
            h@ == s@,
            p@ == pat@,
            p@.len() > 0,
            out@ + replace_spec(s@.subrange(i as int, len as int), pat@, with@)
                == replace_spec(s@, pat@, with@),
        decreases len - i,
    {
        let ghost rest = s@.subrange(i as int, len as int);
        let m = match_at(h.as_slice(), p.as_slice(), i);
        proof {
            assert(occurs_at(rest, pat@, 0) == occurs_at(s@, pat@, i as int)) by {
                if i + pat@.len() <= len {
                    assert(rest.subrange(0, pat@.len() as int) =~= s@.subrange(i as int, i + pat@.len()));
                }
            }
        }
        if m {
            let ghost out0 = out@;
            push_str(&mut out, with);
            let plen = p.len();
            proof {
                assert(rest.subrange(pat@.len() as int, rest.len() as int)
                    =~= s@.subrange(i + plen, len as int));
                assert(out@ =~= out0 + with@);
            }
            i = i + plen;
        } else {
            let ghost out0 = out@;
            push_char(&mut out, h[i]);
            proof {
                assert(rest.subrange(1, rest.len() as int) =~= s@.subrange(i + 1, len as int));
                assert(out@ =~= out0 + seq![rest[0]]);
            }
            i = i + 1;
        }
    }
    proof {
        assert(s@.subrange(len as int, len as int).len() == 0);
        assert(out@ =~= out@ + replace_spec(s@.subrange(len as int, len as int), pat@, with@));
    }
    out
}

/// Appends `n` spaces.
fn push_spaces(s: &mut String, n: usize)
    ensures
        final(s)@ == old(s)@ + spaces(n as nat),
{
    for i in 0..n
        invariant
            s@ == old(s)@ + spaces(i as nat),
    {
        let ghost before = s@;
        push_char(s, ' ');
        assert(s@ =~= old(s)@ + spaces((i + 1) as nat));
    }
}

/// Appends `t` padded with spaces after it to `w` characters (`{t:<w$}`).
pub fn push_padded_end(s: &mut String, t: &str, w: usize)
    ensures
        final(s)@ == old(s)@ + pad_end(t@, w as nat),
{
    let n = t.unicode_len();
    push_str(s, t);
    if n < w {
        push_spaces(s, w - n);
    }
    assert(s@ =~= old(s)@ + pad_end(t@, w as nat));
}

/// Appends `t` padded with spaces before it to `w` characters (`{t:>w$}`).
pub fn push_padded_start(s: &mut String, t: &str, w: usize)
    ensures
        final(s)@ == old(s)@ + pad_start(t@, w as nat),
{
    let n = t.unicode_len();
    if n < w {
        push_spaces(s, w - n);
    }
    push_str(s, t);
    assert(s@ =~= old(s)@ + pad_start(t@, w as nat));
}

/// Proof that `str::replace` leaves a string without the pattern unchanged.
pub proof fn lemma_replace_absent(s: Seq<char>, pat: Seq<char>, with: Seq<char>)
    requires
        pat.len() > 0,
        !has_substring(s, pat),
    ensures
        replace_spec(s, pat, with) == s,
    decreases s.len(),
{
    if s.len() > 0 {
        let t = s.subrange(1, s.len() as int);
        assert(!occurs_at(s, pat, 0));
        assert forall|i: int| !occurs_at(t, pat, i) by {
            if occurs_at(t, pat, i) {
                assert(s.subrange(i + 1, i + 1 + pat.len()) =~= t.subrange(i, i + pat.len()));
                assert(occurs_at(s, pat, i + 1));
            }
        }
        lemma_replace_absent(t, pat, with);
        assert(seq![s[0]] + t =~= s);
    }
}

} // verus!

verus! {

/// `a` comes no later than `b` in the order of `str` (code point by code
/// point, a prefix first).
pub open spec fn chars_le(a: Seq<char>, b: Seq<char>) -> bool
    decreases a.len(),
{
    if a.len() == 0 {
        true
    } else if b.len() == 0 {
        false
    } else if (a[0] as u32) < (b[0] as u32) {
        true
    } else if (a[0] as u32) > (b[0] as u32) {
        false
    } else {
        chars_le(a.drop_first(), b.drop_first())
    }
}

/// Inserts `x` before the first name that comes after it.
pub open spec fn insert_name(s: Seq<Seq<char>>, x: Seq<char>) -> Seq<Seq<char>>
    decreases s.len(),
{
    if s.len() == 0 {
        seq![x]
    } else if chars_le(x, s[0]) {
        seq![x] + s
    } else {
        seq![s[0]] + insert_name(s.drop_first(), x)
    }
}

/// The names sorted in `str` order.
pub open spec fn sort_names_spec(s: Seq<Seq<char>>) -> Seq<Seq<char>>
    decreases s.len(),
{
    if s.len() == 0 {
        seq![]
    } else {
        insert_name(sort_names_spec(s.drop_last()), s.last())
    }
}

/// The views of a list of strings.
pub open spec fn strings_view(v: Seq<String>) -> Seq<Seq<char>> {
    v.map_values(|s: String| s@)
}

/// Whether `a` comes no later than `b`.
pub fn str_le(a: &str, b: &str) -> (r: bool)
    ensures
        r == chars_le(a@, b@),
{
    let x = chars_of(a);
    let y = chars_of(b);
    let n = x.len();
    let m = y.len();
    let mut i: usize = 0;
    assert(a@.skip(0) =~= a@);
    assert(b@.skip(0) =~= b@);
    while i < n && i < m && (x[i] as u32) == (y[i] as u32)
        invariant
            n == x@.len(),
            m == y@.len(),
            x@ == a@,
            y@ == b@,
            i <= n,
            i <= m,
            chars_le(a@, b@) == chars_le(a@.skip(i as int), b@.skip(i as int)),
        decreases n - i,
    {
        assert(a@.skip(i as int).drop_first() =~= a@.skip(i + 1));
        assert(b@.skip(i as int).drop_first() =~= b@.skip(i + 1));
        assert(a@.skip(i as int)[0] == x@[i as int]);
        assert(b@.skip(i as int)[0] == y@[i as int]);
        i = i + 1;
    }
    if i == n {
        assert(a@.skip(i as int).len() == 0);
        true
    } else if i == m {
        assert(b@.skip(i as int).len() == 0);
        false
    } else {
        assert(a@.skip(i as int)[0] == x@[i as int]);
        assert(b@.skip(i as int)[0] == y@[i as int]);
        (x[i] as u32) < (y[i] as u32)
    }
}

fn insert_string(v: &mut Vec<String>, x: String)
    ensures
        strings_view(final(v)@) == insert_name(strings_view(old(v)@), x@),
{
    let ghost sv = strings_view(old(v)@);
    let n = v.len();
    let mut i: usize = 0;
    assert(sv.skip(0) =~= sv);
    assert(sv.take(0) + insert_name(sv, x@) =~= insert_name(sv, x@));
    while i < n && !str_le(x.as_str(), v[i].as_str())
        invariant
            n == v@.len(),
            v@ == old(v)@,
            sv == strings_view(old(v)@),
            i <= n,
            insert_name(sv, x@) == sv.take(i as int) + insert_name(sv.skip(i as int), x@),
        decreases n - i,
    {
        let ghost rest = sv.skip(i as int);
        assert(rest[0] == v@[i as int]@);
        assert(rest.drop_first() =~= sv.skip(i + 1));
        assert(sv.take(i + 1) =~= sv.take(i as int) + seq![rest[0]]);
        i = i + 1;
    }
    proof {
        let rest = sv.skip(i as int);
        if i == n {
            assert(rest =~= Seq::<Seq<char>>::empty());
        } else {
            assert(rest[0] == v@[i as int]@);
        }
        assert(insert_name(rest, x@) =~= seq![x@] + rest);
    }
    v.insert(i, x);
    assert(strings_view(v@) =~= sv.take(i as int) + (seq![x@] + sv.skip(i as int)));
}

/// Sorts the strings in `str` order.
pub fn sort_strings(names: Vec<String>) -> (r: Vec<String>)
    ensures
        strings_view(r@) == sort_names_spec(strings_view(names@)),
{
    let ghost sv = strings_view(names@);
    let mut r: Vec<String> = Vec::new();
    let mut names = names;
    let n = names.len();
    assert(strings_view(r@) =~= sort_names_spec(sv.take(0)));
    for i in 0..n
        invariant
            n == names@.len(),
            sv == strings_view(names@),
            strings_view(r@) == sort_names_spec(sv.take(i as int)),
    {
        let x = names[i].clone();
        insert_string(&mut r, x);
        assert(sv.take(i + 1).drop_last() =~= sv.take(i as int));
    }
    assert(sv.take(n as int) =~= sv);
    r
}

/// Joins the strings with `sep` between each two of them.
pub fn join_strings(items: &Vec<String>, sep: &str) -> (r: String)
    ensures
        r@ == join_spec(strings_view(items@), sep@),
{
    let ghost sv = strings_view(items@);
    let mut r = String::new();
    let n = items.len();
    for i in 0..n
        invariant
            n == items@.len(),
            sv == strings_view(items@),
            r@ == join_spec(sv.take(i as int), sep@),
    {
        assert(sv.take(i + 1).drop_last() =~= sv.take(i as int));
        if i == 0 {
            push_str(&mut r, items[i].as_str());
            assert(r@ =~= join_spec(sv.take(1), sep@));
        } else {
            push_str(&mut r, sep);
            push_str(&mut r, items[i].as_str());
            assert(r@ =~= join_spec(sv.take(i + 1), sep@));
        }
    }
    assert(sv.take(n as int) =~= sv);
    r
}

} // verus!
