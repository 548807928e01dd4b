//! Small verified string utilities shared by the rest of the library.

use vstd::prelude::*;
use vstd::string::StringSliceAdditionalSpecFns;
use vstd::utf8::{decode_utf8, encode_utf8, valid_utf8};

verus! {

/// The code points that carry the Unicode `White_Space` property.
pub open spec fn is_whitespace_char(c: char) -> bool {
    let u = c as u32;
    ||| 0x09 <= u <= 0x0D
    ||| u == 0x20
    ||| u == 0x85
    ||| u == 0xA0
    ||| u == 0x1680
    ||| 0x2000 <= u <= 0x200A
    ||| u == 0x2028
    ||| u == 0x2029
    ||| u == 0x202F
    ||| u == 0x205F
    ||| u == 0x3000
}

/// Whether `c` is a white-space character.
pub fn is_whitespace(c: char) -> (r: bool)
    ensures
        r == is_whitespace_char(c),
{
    let u: u32 = c as u32;
    (0x09 <= u && u <= 0x0D) || u == 0x20 || u == 0x85 || u == 0xA0 || u == 0x1680 || (0x2000 <= u
        && u <= 0x200A) || u == 0x2028 || u == 0x2029 || u == 0x202F || u == 0x205F || u == 0x3000
}

/// `s` without its leading white space.
pub open spec fn trimmed_start(s: Seq<char>) -> Seq<char>
    decreases s.len(),
{
    if s.len() > 0 && is_whitespace_char(s[0]) {
        trimmed_start(s.drop_first())
    } else {
        s
    }
}

/// `s` without its trailing white space.
pub open spec fn trimmed_end(s: Seq<char>) -> Seq<char>
    decreases s.len(),
{
    if s.len() > 0 && is_whitespace_char(s.last()) {
        trimmed_end(s.drop_last())
    } else {
        s
    }
}

/// `s` without leading and trailing white space.
pub open spec fn trimmed(s: Seq<char>) -> Seq<char> {
    trimmed_end(trimmed_start(s))
}

/// Removes leading and trailing white space.
pub fn trim(s: &str) -> (r: String)
    ensures
        r@ == trimmed(s@),
{
    let n = s.unicode_len();
    let mut i: usize = 0;
    assert(s@.skip(0) =~= s@);
    while i < n && is_whitespace(s.get_char(i))
        invariant
            i <= n,
            n == s@.len(),
            trimmed_start(s@) == trimmed_start(s@.skip(i as int)),
        decreases n - i,
    {
        assert(s@.skip(i as int).drop_first() =~= s@.skip(i + 1));
        i += 1;
    }
    assert(trimmed_start(s@) == s@.skip(i as int));
    assert(s@.skip(i as int) =~= s@.subrange(i as int, n as int));
    let mut j: usize = n;
    while j > i && is_whitespace(s.get_char(j - 1))
        invariant
            i <= j <= n,
            n == s@.len(),
            trimmed(s@) == trimmed_end(s@.subrange(i as int, j as int)),
        decreases j,
    {
        assert(s@.subrange(i as int, j as int).drop_last() =~= s@.subrange(i as int, j - 1));
        j -= 1;
    }
    s.substring_char(i, j).to_owned()
}

/// Whether two strings hold the same characters.
pub fn same(a: &str, b: &str) -> (r: bool)
    ensures
        r == (a@ == b@),
{
    let x = a.as_bytes();
    let y = b.as_bytes();
    proof {
        vstd::utf8::encode_utf8_decode_utf8(a@);
        vstd::utf8::encode_utf8_decode_utf8(b@);
        assert(x@ == encode_utf8(a@));
        assert(y@ == encode_utf8(b@));
    }
    if x.len() != y.len() {
        return false;
    }
    let mut i: usize = 0;
    while i < x.len()
        invariant
            i <= x.len(),
            x.len() == y.len(),
            x@ == encode_utf8(a@),
            y@ == encode_utf8(b@),
            forall|k: int| 0 <= k < i ==> x@[k] == y@[k],
        decreases x.len() - i,
    {
        if x[i] != y[i] {
            return false;
        }
        i += 1;
    }
    assert(x@ =~= y@);
    true
}

/// The rest of `s` after `prefix`, where `s` starts with it.
pub open spec fn stripped_prefix(s: Seq<char>, prefix: Seq<char>) -> Option<Seq<char>> {
    if prefix.is_prefix_of(s) {
        Some(s.skip(prefix.len() as int))
    } else {
        None
    }
}

/// Removes `prefix` from the start of `s`; `None` where `s` does not start
/// with it.
pub fn strip_prefix(s: &str, prefix: &str) -> (r: Option<String>)
    ensures
        r is Some <==> stripped_prefix(s@, prefix@) is Some,
        r is Some ==> r->0@ == stripped_prefix(s@, prefix@)->0,
{
    let n = s.unicode_len();
    let m = prefix.unicode_len();
    if n < m {
        return None;
    }
    let mut i: usize = 0;
    while i < m
        invariant
            i <= m <= n,
            n == s@.len(),
            m == prefix@.len(),
            forall|k: int| 0 <= k < i ==> s@[k] == prefix@[k],
        decreases m - i,
    {
        if s.get_char(i) != prefix.get_char(i) {
            return None;
        }
        i += 1;
    }
    assert(s@.subrange(0, m as int) =~= prefix@);
    assert(s@.skip(m as int) =~= s@.subrange(m as int, n as int));
    Some(s.substring_char(m, n).to_owned())
}

/// The first `length` bytes of `s`, or all of `s` where it is shorter.
pub open spec fn cut(s: Seq<char>, length: nat) -> Seq<char> {
    if encode_utf8(s).len() < length {
        s
    } else {
        decode_utf8(encode_utf8(s).subrange(0, length as int))
    }
}

/// Whether `s` can be cut after `length` bytes without splitting a character.
pub open spec fn can_cut(s: Seq<char>, length: nat) -> bool {
    encode_utf8(s).len() < length || vstd::utf8::is_char_boundary(encode_utf8(s), length as int)
}

/// The bytes of two texts joined are the bytes of the one, then those of
/// the other.
pub proof fn lemma_encode_concat(a: Seq<char>, b: Seq<char>)
    ensures
        encode_utf8(a + b) == encode_utf8(a) + encode_utf8(b),
    decreases a.len(),
{
    if a.len() == 0 {
        assert(a + b =~= b);
        assert(encode_utf8(a) + encode_utf8(b) =~= encode_utf8(b));
    } else {
        lemma_encode_concat(a.drop_first(), b);
        assert((a + b).drop_first() =~= a.drop_first() + b);
        assert((a + b)[0] == a[0]);
        assert(encode_utf8(a + b) =~= encode_utf8(a) + encode_utf8(b));
    }
}

/// A text that was cut after `length` bytes has `length` bytes; a text
/// that is shorter keeps its own.
pub proof fn lemma_cut_length(s: Seq<char>, length: nat)
    requires
        can_cut(s, length),
    ensures
        encode_utf8(cut(s, length)).len() == if encode_utf8(s).len() < length {
            encode_utf8(s).len()
        } else {
            length
        },
{
    let bytes = encode_utf8(s);
    if bytes.len() >= length {
        vstd::utf8::encode_utf8_valid_utf8(s);
        vstd::utf8::valid_utf8_split(bytes, length as int);
        vstd::utf8::decode_utf8_encode_utf8(bytes.subrange(0, length as int));
    }
}

/// Text of ASCII characters can be cut anywhere.
pub proof fn lemma_ascii_can_cut(s: Seq<char>, length: nat)
    requires
        vstd::utf8::is_ascii_chars(s),
    ensures
        can_cut(s, length),
        encode_utf8(s).len() == s.len(),
{
    let bytes = encode_utf8(s);
    vstd::utf8::is_ascii_chars_encode_utf8(s);
    vstd::utf8::encode_utf8_valid_utf8(s);
    if length < bytes.len() {
        let c = s[length as int];
        let b = bytes[length as int];
        assert(b == c as u8);
        assert(c as u32 <= 0x7f);
        assert(!vstd::utf8::is_continuation_byte(b)) by (bit_vector)
            requires
                b <= 0x7fu8,
        ;
        vstd::utf8::is_char_boundary_iff_not_is_continuation_byte(bytes, length as int);
    } else if length == bytes.len() {
        vstd::utf8::is_char_boundary_start_end_of_seq(bytes);
    }
}

/// Lexicographic order on byte strings: `a` comes no later than `b`.
pub open spec fn bytes_le(a: Seq<u8>, b: Seq<u8>) -> bool
    decreases a.len(),
{
    if a.len() == 0 {
        true
    } else if b.len() == 0 {
        false
    } else if a[0] != b[0] {
        a[0] < b[0]
    } else {
        bytes_le(a.drop_first(), b.drop_first())
    }
}

/// The order of strings by their UTF-8 bytes.
pub open spec fn text_le(a: Seq<char>, b: Seq<char>) -> bool {
    bytes_le(encode_utf8(a), encode_utf8(b))
}

/// Any two byte strings are comparable.
pub proof fn lemma_bytes_le_total(a: Seq<u8>, b: Seq<u8>)
    ensures
        bytes_le(a, b) || bytes_le(b, a),
    decreases a.len(),
{
    if a.len() > 0 && b.len() > 0 && a[0] == b[0] {
        lemma_bytes_le_total(a.drop_first(), b.drop_first());
    }
}

/// The order on byte strings is transitive.
pub proof fn lemma_bytes_le_transitive(a: Seq<u8>, b: Seq<u8>, c: Seq<u8>)
    requires
        bytes_le(a, b),
        bytes_le(b, c),
    ensures
        bytes_le(a, c),
    decreases a.len(),
{
    if a.len() > 0 && b.len() > 0 && c.len() > 0 && a[0] == b[0] && b[0] == c[0] {
        lemma_bytes_le_transitive(a.drop_first(), b.drop_first(), c.drop_first());
    }
}

/// Whether `a` comes no later than `b` in the order of strings.
pub fn le(a: &str, b: &str) -> (r: bool)
    ensures
        r == text_le(a@, b@),
{
    let x = a.as_bytes();
    let y = b.as_bytes();
    let mut i: usize = 0;
    assert(x@.skip(0) =~= x@ && y@.skip(0) =~= y@);
    while i < x.len() && i < y.len()
        invariant
            i <= x.len(),
            i <= y.len(),
            x@ == encode_utf8(a@),
            y@ == encode_utf8(b@),
            bytes_le(x@, y@) == bytes_le(x@.skip(i as int), y@.skip(i as int)),
        decreases x.len() - i,
    {
        if x[i] != y[i] {
            return x[i] < y[i];
        }
        assert(x@.skip(i as int).drop_first() =~= x@.skip(i + 1));
        assert(y@.skip(i as int).drop_first() =~= y@.skip(i + 1));
        i += 1;
    }
    i == x.len()
}

/// The characters of a string that may be missing.
pub open spec fn optional(s: Option<String>) -> Option<Seq<char>> {
    match s {
        Some(s) => Some(s@),
        None => None,
    }
}

/// The characters of each string of a list.
pub open spec fn views(v: Seq<String>) -> Seq<Seq<char>> {
    v.map_values(|s: String| s@)
}

/// Whether the strings stand in ascending order.
pub open spec fn ascending(v: Seq<Seq<char>>) -> bool {
    forall|i: int, j: int| 0 <= i <= j < v.len() ==> text_le(v[i], v[j])
}

/// How many strings at the start of `v` come no later than `x`.
pub open spec fn insertion_point(v: Seq<Seq<char>>, x: Seq<char>) -> int
    decreases v.len(),
{
    if v.len() == 0 || !text_le(v[0], x) {
        0
    } else {
        1 + insertion_point(v.drop_first(), x)
    }
}

/// The strings of `v` in ascending order; equal strings keep their order.
pub open spec fn sorted(v: Seq<Seq<char>>) -> Seq<Seq<char>>
    decreases v.len(),
{
    if v.len() == 0 {
        v
    } else {
        let front = sorted(v.drop_last());
        front.insert(insertion_point(front, v.last()), v.last())
    }
}

/// The insertion point lies within the list; all before it come no later
/// than `x`, and the string at it, if any, comes later.
pub proof fn lemma_insertion_point(v: Seq<Seq<char>>, x: Seq<char>)
    ensures
        0 <= insertion_point(v, x) <= v.len(),
        forall|i: int| 0 <= i < insertion_point(v, x) ==> text_le(#[trigger] v[i], x),
        insertion_point(v, x) < v.len() ==> !text_le(v[insertion_point(v, x)], x),
    decreases v.len(),
{
    if v.len() == 0 || !text_le(v[0], x) {
    } else {
        let rest = v.drop_first();
        lemma_insertion_point(rest, x);
        assert forall|i: int| 0 <= i < insertion_point(v, x) implies text_le(
            #[trigger] v[i],
            x,
        ) by {
            if i > 0 {
                assert(v[i] == rest[i - 1]);
            }
        }
    }
}

/// Sorting keeps every string, as often as it occurred, and puts them in
/// ascending order.
pub proof fn lemma_sorted(v: Seq<Seq<char>>)
    ensures
        ascending(sorted(v)),
        sorted(v).to_multiset() == v.to_multiset(),
        sorted(v).len() == v.len(),
    decreases v.len(),
{
    if v.len() == 0 {
    } else {
        let x = v.last();
        let before = sorted(v.drop_last());
        let p = insertion_point(before, x);
        let after = sorted(v);
        lemma_sorted(v.drop_last());
        lemma_insertion_point(before, x);
        assert forall|i: int, j: int| 0 <= i <= j < after.len() implies text_le(
            after[i],
            after[j],
        ) by {
            if i == j {
                lemma_bytes_le_total(encode_utf8(after[i]), encode_utf8(after[i]));
            } else if j == p {
                assert(after[i] == before[i]);
            } else if i == p {
                assert(after[j] == before[j - 1]);
                lemma_bytes_le_total(encode_utf8(before[p]), encode_utf8(x));
                assert(text_le(before[p], before[j - 1]));
                lemma_bytes_le_transitive(
                    encode_utf8(x),
                    encode_utf8(before[p]),
                    encode_utf8(before[j - 1]),
                );
            } else {
                let bi = if i < p { i } else { i - 1 };
                let bj = if j < p { j } else { j - 1 };
                assert(after[i] == before[bi] && after[j] == before[bj]);
            }
        }
        vstd::seq_lib::to_multiset_insert(before, p, x);
        assert(v =~= v.drop_last().push(x));
        vstd::seq_lib::to_multiset_build(v.drop_last(), x);
    }
}

/// Sorts strings into ascending order of their bytes. Every string is
/// kept, as often as it occurred.
pub fn sort(names: &Vec<String>) -> (r: Vec<String>)
    ensures
        views(r@) == sorted(views(names@)),
        ascending(views(r@)),
        views(r@).to_multiset() == views(names@).to_multiset(),
{
    proof {
        lemma_sorted(views(names@));
    }
    let mut out: Vec<String> = Vec::new();
    let mut k: usize = 0;
    assert(views(out@) =~= Seq::empty());
    assert(views(names@).take(0) =~= Seq::empty());
    while k < names.len()
        invariant
            k <= names.len(),
            out.len() == k,
            views(out@) == sorted(views(names@).take(k as int)),
        decreases names.len() - k,
    {
        let item = names[k].clone();
        let ghost before = views(out@);
        let mut p: usize = 0;
        assert(before.skip(0) =~= before);
        while p < out.len() && le(out[p].as_str(), item.as_str())
            invariant
                p <= out.len(),
                before == views(out@),
                insertion_point(before, item@) == p + insertion_point(before.skip(p as int), item@),
            decreases out.len() - p,
        {
            assert(before.skip(p as int).drop_first() =~= before.skip(p + 1));
            p += 1;
        }
        out.insert(p, item);
        proof {
            let upto = views(names@).take(k + 1);
            assert(upto.drop_last() =~= views(names@).take(k as int));
            assert(upto.last() == item@);
            assert(views(out@) =~= before.insert(p as int, item@));
        }
        k += 1;
    }
    assert(views(names@).take(names.len() as int) =~= views(names@));
    out
}

/// Every line, each after a line break.
pub open spec fn stacked(lines: Seq<Seq<char>>) -> Seq<char>
    decreases lines.len(),
{
    if lines.len() == 0 {
        Seq::empty()
    } else {
        stacked(lines.drop_last()) + seq!['\n'] + lines.last()
    }
}

/// Joins the lines into one text, each line after a line break.
pub fn stack(lines: &Vec<String>) -> (r: String)
    ensures
        r@ == stacked(views(lines@)),
{
    let mut out = String::new();
    let mut k: usize = 0;
    assert(views(lines@).take(0) =~= Seq::empty());
    proof {
        reveal_strlit("\n");
        assert("\n"@ =~= seq!['\n']);
    }
    while k < lines.len()
        invariant
            k <= lines.len(),
            "\n"@ == seq!['\n'],
            out@ == stacked(views(lines@).take(k as int)),
        decreases lines.len() - k,
    {
        proof {
            let upto = views(lines@).take(k + 1);
            assert(upto.drop_last() =~= views(lines@).take(k as int));
            assert(upto.last() == lines@[k as int]@);
        }
        out.append("\n");
        out.append(lines[k].as_str());
        k += 1;
    }
    assert(views(lines@).take(lines.len() as int) =~= views(lines@));
    out
}

/// The character of a decimal digit.
pub open spec fn digit_char(d: nat) -> char
    recommends
        d < 10,
{
    if d == 0 {
        '0'
    } else if d == 1 {
        '1'
    } else if d == 2 {
        '2'
    } else if d == 3 {
        '3'
    } else if d == 4 {
        '4'
    } else if d == 5 {
        '5'
    } else if d == 6 {
        '6'
    } else if d == 7 {
        '7'
    } else if d == 8 {
        '8'
    } else {
        '9'
    }
}

/// A number in decimal, without leading zeros.
pub open spec fn decimal(n: nat) -> Seq<char>
    decreases n,
{
    if n < 10 {
        seq![digit_char(n)]
    } else {
        decimal(n / 10).push(digit_char(n % 10))
    }
}

/// The last `width` decimal digits of a number, with leading zeros.
pub open spec fn fixed_width(n: nat, width: nat) -> Seq<char>
    decreases width,
{
    if width == 0 {
        Seq::empty()
    } else {
        fixed_width(n / 10, (width - 1) as nat).push(digit_char(n % 10))
    }
}

/// A decimal digit as text.
pub fn digit(d: u64) -> (r: &'static str)
    requires
        d < 10,
    ensures
        r@ == seq![digit_char(d as nat)],
{
    proof {
        reveal_strlit("0");
        reveal_strlit("1");
        reveal_strlit("2");
        reveal_strlit("3");
        reveal_strlit("4");
        reveal_strlit("5");
        reveal_strlit("6");
        reveal_strlit("7");
        reveal_strlit("8");
        reveal_strlit("9");
    }
    let r = if d == 0 {
        "0"
    } else if d == 1 {
        "1"
    } else if d == 2 {
        "2"
    } else if d == 3 {
        "3"
    } else if d == 4 {
        "4"
    } else if d == 5 {
        "5"
    } else if d == 6 {
        "6"
    } else if d == 7 {
        "7"
    } else if d == 8 {
        "8"
    } else {
        "9"
    };
    assert(r@ =~= seq![digit_char(d as nat)]);
    r
}

/// Writes a number in decimal.
pub fn to_decimal(n: u64) -> (r: String)
    ensures
        r@ == decimal(n as nat),
    decreases n,
{
    if n < 10 {
        digit(n).to_owned()
    } else {
        let mut s = to_decimal(n / 10);
        s.append(digit(n % 10));
        assert(s@ =~= decimal((n / 10) as nat).push(digit_char((n % 10) as nat)));
        s
    }
}

/// Writes the last `width` decimal digits of a number, with leading zeros.
pub fn to_fixed_width(n: u64, width: usize) -> (r: String)
    ensures
        r@ == fixed_width(n as nat, width as nat),
    decreases width,
{
    if width == 0 {
        String::new()
    } else {
        let mut s = to_fixed_width(n / 10, width - 1);
        s.append(digit(n % 10));
        assert(s@ =~= fixed_width((n / 10) as nat, (width - 1) as nat).push(
            digit_char((n % 10) as nat),
        ));
        s
    }
}

/// A whole number in decimal, with a minus sign where it is negative.
pub open spec fn signed_decimal(n: int) -> Seq<char> {
    if n < 0 {
        seq!['-'] + decimal((-n) as nat)
    } else {
        decimal(n as nat)
    }
}

/// Writes a whole number in decimal.
pub fn to_signed_decimal(n: i32) -> (r: String)
    ensures
        r@ == signed_decimal(n as int),
{
    if n < 0 {
        proof {
            reveal_strlit("-");
            assert("-"@ =~= seq!['-']);
        }
        let magnitude: u64 = (-(n as i64)) as u64;
        let mut out = "-".to_owned();
        out.append(to_decimal(magnitude).as_str());
        out
    } else {
        to_decimal(n as u64)
    }
}

/// Joins two texts.
pub fn join(a: &str, b: &str) -> (r: String)
    ensures
        r@ == a@ + b@,
{
    let mut out = a.to_owned();
    out.append(b);
    out
}

/// Reads bytes as UTF-8 text with `String::from_utf8`: the text that the
/// bytes encode where they are valid UTF-8, else a description of what is
/// wrong with them.
#[verifier::external_body]
pub(crate) fn decode(bytes: Vec<u8>) -> (r: Result<String, String>)
    ensures
        r is Ok <==> valid_utf8(bytes@),
        r is Ok ==> r->Ok_0@ == decode_utf8(bytes@),
{
    match String::from_utf8(bytes) {
        Ok(text) => Ok(text),
        Err(err) => Err(err.to_string()),
    }
}

/// `s` without `suffix` at its end, where it ends with it.
pub open spec fn stripped_suffix(s: Seq<char>, suffix: Seq<char>) -> Option<Seq<char>> {
    if suffix.is_suffix_of(s) {
        Some(s.take(s.len() - suffix.len()))
    } else {
        None
    }
}

/// Removes `suffix` from the end of `s`; `None` where `s` does not end
/// with it.
pub fn strip_suffix(s: &str, suffix: &str) -> (r: Option<String>)
    ensures
        optional(r) == stripped_suffix(s@, suffix@),
{
    let n = s.unicode_len();
    let m = suffix.unicode_len();
    if n < m {
        return None;
    }
    let start = n - m;
    let mut i: usize = 0;
    while i < m
        invariant
            i <= m <= n,
            start == n - m,
            n == s@.len(),
            m == suffix@.len(),
            forall|k: int| 0 <= k < i ==> s@[start + k] == suffix@[k],
        decreases m - i,
    {
        if s.get_char(start + i) != suffix.get_char(i) {
            assert(s@.subrange(start as int, n as int)[i as int] != suffix@[i as int]);
            return None;
        }
        i += 1;
    }
    assert(s@.subrange(start as int, n as int) =~= suffix@);
    assert(s@.take(start as int) =~= s@.subrange(0, start as int));
    Some(s.substring_char(0, start).to_owned())
}

} // verus!
