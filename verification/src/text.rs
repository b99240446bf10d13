//! Byte and text helpers: Latin-1 widening of identifier bytes, the
//! whitespace rules that comment text is trimmed by, and the few calls into
//! std's UTF-8 handling that the formatter makes.
use vstd::prelude::*;
use vstd::utf8::*;
use vstd::string::*;

verus! {

broadcast use vstd::seq_lib::group_seq_properties;

/// Line feed.
pub const LF: u8 = 10;
/// `!`
pub const BANG: u8 = 33;
/// `#`
pub const HASH: u8 = 35;
/// `&`
pub const AMP: u8 = 38;
/// `*`
pub const STAR: u8 = 42;
/// `+`
pub const PLUS: u8 = 43;
/// `-`
pub const MINUS: u8 = 45;
/// `/`
pub const SLASH: u8 = 47;
/// `:`
pub const COLON: u8 = 58;
/// `<`
pub const LT: u8 = 60;
/// `=`
pub const EQ: u8 = 61;
/// `>`
pub const GT: u8 = 62;
/// `|`
pub const PIPE: u8 = 124;

/// The bytes of `src` in `span`, or nothing where the span does not lie
/// within `src` (spans that come from the parser always do).
pub open spec fn span_text(src: Seq<u8>, span: crate::syntax::Span) -> Seq<u8> {
    if span.start <= span.end && span.end <= src.len() {
        src.subrange(span.start as int, span.end as int)
    } else {
        Seq::empty()
    }
}

/// The number of bytes that `span` covers (none for an inverted span).
pub open spec fn span_len(span: crate::syntax::Span) -> nat {
    if span.start <= span.end {
        (span.end - span.start) as nat
    } else {
        0
    }
}

/// The UTF-8 encoding of the string whose chars are the given bytes, each read
/// as a Latin-1 code point (`b as char`).
pub open spec fn latin1_text(bytes: Seq<u8>) -> Seq<u8> {
    encode_utf8(bytes.map_values(|b: u8| b as char))
}

/// `bytes` itself where it is valid UTF-8, else `fallback`.
pub open spec fn utf8_or(bytes: Seq<u8>, fallback: Seq<u8>) -> Seq<u8> {
    if valid_utf8(bytes) {
        bytes
    } else {
        fallback
    }
}

/// The chars with Unicode's `White_Space` property, which `char::is_whitespace`
/// and `str::trim` go by.
pub open spec fn is_unicode_whitespace(c: char) -> bool {
    let v = c as u32;
    ||| 0x09 <= v <= 0x0D
    ||| v == 0x20
    ||| v == 0x85
    ||| v == 0xA0
    ||| v == 0x1680
    ||| 0x2000 <= v <= 0x200A
    ||| v == 0x2028
    ||| v == 0x2029
    ||| v == 0x202F
    ||| v == 0x205F
    ||| v == 0x3000
}

/// `cs` without its leading chars equal to `c`.
pub open spec fn strip_leading(cs: Seq<char>, c: char) -> Seq<char>
    decreases cs.len(),
{
    if cs.len() > 0 && cs[0] == c {
        strip_leading(cs.drop_first(), c)
    } else {
        cs
    }
}

/// `cs` without its leading whitespace.
pub open spec fn trim_start_ws(cs: Seq<char>) -> Seq<char>
    decreases cs.len(),
{
    if cs.len() > 0 && is_unicode_whitespace(cs[0]) {
        trim_start_ws(cs.drop_first())
    } else {
        cs
    }
}

/// `cs` without its trailing whitespace.
pub open spec fn trim_end_ws(cs: Seq<char>) -> Seq<char>
    decreases cs.len(),
{
    if cs.len() > 0 && is_unicode_whitespace(cs.last()) {
        trim_end_ws(cs.drop_last())
    } else {
        cs
    }
}

/// `cs` without its leading and trailing whitespace.
pub open spec fn trim_ws(cs: Seq<char>) -> Seq<char> {
    trim_end_ws(trim_start_ws(cs))
}

/// What a comment is printed as after `"# "`: its text without the leading
/// `#` marks and the surrounding whitespace, or nothing where the comment's
/// bytes are not valid UTF-8.
pub open spec fn comment_body(bytes: Seq<u8>) -> Seq<u8> {
    if valid_utf8(bytes) {
        encode_utf8(trim_ws(strip_leading(decode_utf8(bytes), '#')))
    } else {
        Seq::empty()
    }
}

/// The binary operators that a call is printed with spaces around.
pub open spec fn is_binary_operator(s: Seq<u8>) -> bool {
    ||| s == seq![PLUS]
    ||| s == seq![MINUS]
    ||| s == seq![STAR]
    ||| s == seq![SLASH]
    ||| s == seq![EQ, EQ]
    ||| s == seq![BANG, EQ]
    ||| s == seq![GT]
    ||| s == seq![LT]
    ||| s == seq![GT, EQ]
    ||| s == seq![LT, EQ]
    ||| s == seq![AMP, AMP]
    ||| s == seq![PIPE, PIPE]
    ||| s == seq![EQ]
}

/// Whether `b` continues a UTF-8 encoded character (`10xxxxxx`) rather than
/// starting one.
pub open spec fn is_continuation(b: u8) -> bool {
    0x80 <= b < 0xC0
}

/// The number of characters in the UTF-8 text `s`: its bytes that start a
/// character.
pub open spec fn char_count(s: Seq<u8>) -> nat
    decreases s.len(),
{
    if s.len() == 0 {
        0
    } else {
        char_count(s.drop_last()) + if is_continuation(s.last()) { 0nat } else { 1nat }
    }
}

/// The number of line feeds in `s`.
pub open spec fn count_newlines(s: Seq<u8>) -> nat
    decreases s.len(),
{
    if s.len() == 0 {
        0
    } else {
        count_newlines(s.drop_last()) + if s.last() == LF { 1nat } else { 0nat }
    }
}

/// The encoding of one more char extends the encoding of the chars before it.
pub proof fn lemma_encode_utf8_push(cs: Seq<char>, c: char)
    ensures
        encode_utf8(cs.push(c)) == encode_utf8(cs) + encode_scalar(c as u32),
    decreases cs.len(),
{
    if cs.len() == 0 {
        let one = cs.push(c);
        assert(one.drop_first() =~= Seq::<char>::empty());
        assert(encode_utf8(one.drop_first()) == Seq::<u8>::empty());
        assert(encode_utf8(one) == encode_scalar(one[0] as u32) + encode_utf8(one.drop_first()));
        assert(encode_scalar(c as u32) + Seq::<u8>::empty() =~= encode_scalar(c as u32));
        assert(cs =~= Seq::<char>::empty());
        assert(encode_utf8(cs) == Seq::<u8>::empty());
        assert(Seq::<u8>::empty() + encode_scalar(c as u32) =~= encode_scalar(c as u32));
    } else {
        assert(cs.push(c).drop_first() =~= cs.drop_first().push(c));
        lemma_encode_utf8_push(cs.drop_first(), c);
        assert(encode_utf8(cs.push(c)) =~= encode_scalar(cs[0] as u32) + (encode_utf8(
            cs.drop_first(),
        ) + encode_scalar(c as u32)));
    }
}

/// The Latin-1 widening of one more byte extends that of the bytes before it.
pub proof fn lemma_latin1_push(bs: Seq<u8>, b: u8)
    ensures
        latin1_text(bs.push(b)) == latin1_text(bs) + encode_scalar((b as char) as u32),
{
    assert(bs.push(b).map_values(|x: u8| x as char) =~= bs.map_values(|x: u8| x as char).push(
        b as char,
    ));
    lemma_encode_utf8_push(bs.map_values(|x: u8| x as char), b as char);
}

/// A byte below `0x80` is a valid UTF-8 sequence by itself.
pub proof fn lemma_ascii_byte_valid(b: u8)
    requires
        b < 0x80,
    ensures
        valid_utf8(seq![b]),
{
    assert(((b & 0x7F) as u32) < 0x80) by (bit_vector);
    let s = seq![b];
    assert(s[0] == b);
    assert(is_leading_byte_width_1(s[0]));
    assert(valid_leading_and_continuation_bytes_first_codepoint(s));
    assert(decode_first_codepoint(s) == (b & 0x7F) as u32);
    assert(length_of_first_codepoint(s) == 1);
    assert(valid_first_scalar(s));
    assert(pop_first_scalar(s) =~= Seq::<u8>::empty());
    assert(valid_utf8(Seq::<u8>::empty()));
}

/// `n` copies of a byte below `0x80` are valid UTF-8.
pub proof fn lemma_ascii_run_valid(b: u8, n: nat)
    requires
        b < 0x80,
    ensures
        valid_utf8(Seq::new(n, |i: int| b)),
    decreases n,
{
    if n > 0 {
        lemma_ascii_run_valid(b, (n - 1) as nat);
        lemma_ascii_byte_valid(b);
        valid_utf8_concat(seq![b], Seq::new((n - 1) as nat, |i: int| b));
        assert(seq![b] + Seq::new((n - 1) as nat, |i: int| b) =~= Seq::new(n, |i: int| b));
    }
}

/// The Latin-1 widening of a byte, as UTF-8.
pub fn latin1_encode_byte(b: u8) -> (r: Vec<u8>)
    ensures
        r@ == encode_scalar((b as char) as u32),
{
    let mut r: Vec<u8> = Vec::new();
    let c: char = b as char;
    let v: u32 = b as u32;
    assert((c as u32) == v);
    if b < 0x80 {
        r.push(b);
        assert((v & 0x7F) as u8 == b) by (bit_vector)
            requires
                v == b as u32,
                b < 0x80,
        ;
        assert(r@ =~= encode_scalar(v));
    } else {
        let hi: u8 = 0xC0 | (b >> 6);
        let lo: u8 = 0x80 | (b & 0x3F);
        r.push(hi);
        r.push(lo);
        assert(hi == (0xC0 | ((v >> 6) & 0x1F) as u8) && lo == (0x80 | (v & 0x3F) as u8))
            by (bit_vector)
            requires
                v == b as u32,
                hi == 0xC0 | (b >> 6),
                lo == 0x80 | (b & 0x3F),
        ;
        assert(r@ =~= encode_scalar(v));
    }
    r
}

/// The Latin-1 widening of `bytes`, as UTF-8: what
/// `bytes.iter().map(|b| *b as char).collect::<String>()` holds.
pub fn latin1_encode(bytes: &[u8]) -> (r: Vec<u8>)
    ensures
        r@ == latin1_text(bytes@),
        valid_utf8(r@),
{
    let mut r: Vec<u8> = Vec::new();
    let mut i: usize = 0;
    assert(bytes@.take(0) =~= Seq::<u8>::empty());
    assert(latin1_text(Seq::<u8>::empty()) =~= Seq::<u8>::empty());
    while i < bytes.len()
        invariant
            i <= bytes@.len(),
            r@ == latin1_text(bytes@.take(i as int)),
        decreases bytes@.len() - i,
    {
        let mut e = latin1_encode_byte(bytes[i]);
        proof {
            lemma_latin1_push(bytes@.take(i as int), bytes@[i as int]);
            assert(bytes@.take(i as int).push(bytes@[i as int]) =~= bytes@.take(i + 1));
        }
        r.append(&mut e);
        i += 1;
    }
    assert(bytes@.take(bytes@.len() as int) =~= bytes@);
    proof {
        encode_utf8_valid_utf8(bytes@.map_values(|x: u8| x as char));
    }
    r
}

/// Whether `s` is one of the binary operators.
pub fn is_binary_operator_exec(s: &[u8]) -> (r: bool)
    ensures
        r == is_binary_operator(s@),
{
    if s.len() == 1 {
        let c = s[0];
        let r = c == PLUS || c == MINUS || c == STAR || c == SLASH || c == GT || c == LT
            || c == EQ;
        assert(s@ == seq![c]);
        r
    } else if s.len() == 2 {
        let a = s[0];
        let b = s[1];
        assert(s@ == seq![a, b]);
        (a == EQ && b == EQ) || (a == BANG && b == EQ) || (a == GT && b == EQ) || (a
            == LT && b == EQ) || (a == AMP && b == AMP) || (a == PIPE && b == PIPE)
    } else {
        false
    }
}

/// The number of line feeds in `s`.
pub fn count_newlines_exec(s: &[u8]) -> (r: usize)
    ensures
        r == count_newlines(s@),
{
    let mut n: usize = 0;
    let mut i: usize = 0;
    assert(s@.take(0) =~= Seq::<u8>::empty());
    while i < s.len()
        invariant
            i <= s@.len(),
            n == count_newlines(s@.take(i as int)),
            n <= i,
        decreases s@.len() - i,
    {
        assert(s@.take(i + 1).drop_last() =~= s@.take(i as int));
        if s[i] == LF {
            n += 1;
        }
        i += 1;
    }
    assert(s@.take(s@.len() as int) =~= s@);
    n
}

/// The number of characters in the UTF-8 text `s`.
pub fn count_chars_exec(s: &[u8]) -> (r: usize)
    ensures
        r == char_count(s@),
{
    let mut n: usize = 0;
    let mut i: usize = 0;
    assert(s@.take(0) =~= Seq::<u8>::empty());
    while i < s.len()
        invariant
            i <= s@.len(),
            n == char_count(s@.take(i as int)),
            n <= i,
        decreases s@.len() - i,
    {
        assert(s@.take(i + 1).drop_last() =~= s@.take(i as int));
        if s[i] < 0x80 || s[i] >= 0xC0 {
            n += 1;
        }
        i += 1;
    }
    assert(s@.take(s@.len() as int) =~= s@);
    n
}

/// Whether `s` holds the byte `b`.
pub fn contains_byte(s: &[u8], b: u8) -> (r: bool)
    ensures
        r == s@.contains(b),
{
    let mut i: usize = 0;
    while i < s.len()
        invariant
            i <= s@.len(),
            forall|j: int| 0 <= j < i ==> s@[j] != b,
        decreases s@.len() - i,
    {
        if s[i] == b {
            assert(s@[i as int] == b);
            return true;
        }
        i += 1;
    }
    false
}

/// Whether `a` and `b` hold the same bytes.
pub fn bytes_equal(a: &[u8], b: &[u8]) -> (r: bool)
    ensures
        r == (a@ == b@),
{
    if a.len() != b.len() {
        return false;
    }
    let mut i: usize = 0;
    while i < a.len()
        invariant
            i <= a@.len(),
            a@.len() == b@.len(),
            forall|j: int| 0 <= j < i ==> a@[j] == b@[j],
        decreases a@.len() - i,
    {
        if a[i] != b[i] {
            return false;
        }
        i += 1;
    }
    assert(a@ =~= b@);
    true
}

/// The bytes of `src` in `span`, or an empty slice where the span does not lie
/// within `src`.
pub fn span_slice(src: &[u8], span: crate::syntax::Span) -> (r: &[u8])
    ensures
        r@ == span_text(src@, span),
{
    if span.start <= span.end && span.end <= src.len() {
        &src[span.start..span.end]
    } else {
        &[]
    }
}

/// Calls `std::str::from_utf8`, which succeeds exactly on valid UTF-8; the
/// chars of the string it gives are the decoding of the bytes.
#[verifier::external_body]
pub(crate) fn str_from_utf8(v: &[u8]) -> (r: Option<&str>)
    ensures
        r is Some <==> valid_utf8(v@),
        r matches Some(s) ==> s@ == decode_utf8(v@),
{
    std::str::from_utf8(v).ok()
}

/// Calls `String::from_utf8`, which succeeds exactly on valid UTF-8; the
/// chars of the string it gives are the decoding of the bytes.
#[verifier::external_body]
pub(crate) fn string_from_utf8(v: Vec<u8>) -> (r: Option<String>)
    ensures
        r is Some <==> valid_utf8(v@),
        r matches Some(s) ==> s@ == decode_utf8(v@),
{
    String::from_utf8(v).ok()
}

/// Calls `str::trim_start_matches` with `c`: the string without its leading
/// chars equal to `c`.
#[verifier::external_body]
pub(crate) fn str_trim_start_matches(s: &str, c: char) -> (r: &str)
    ensures
        r@ == strip_leading(s@, c),
{
    s.trim_start_matches(c)
}

/// Calls `str::trim`: the string without its leading and trailing chars that
/// have Unicode's `White_Space` property.
#[verifier::external_body]
pub(crate) fn str_trim(s: &str) -> (r: &str)
    ensures
        r@ == trim_ws(s@),
{
    s.trim()
}

/// The printed body of a comment whose bytes are `bytes`.
pub fn comment_body_exec(bytes: &[u8]) -> (r: Vec<u8>)
    ensures
        r@ == comment_body(bytes@),
        valid_utf8(r@),
{
    match str_from_utf8(bytes) {
        Some(s) => {
            let t = str_trim_start_matches(s, '#');
            let u = str_trim(t);
            let b = u.as_bytes();
            proof {
                encode_utf8_valid_utf8(u@);
            }
            slice_to_vec_u8(b)
        },
        None => {
            proof {
                assert(valid_utf8(Seq::<u8>::empty()));
            }
            Vec::new()
        },
    }
}

/// A copy of `s` as a `Vec`.
pub fn slice_to_vec_u8(s: &[u8]) -> (r: Vec<u8>)
    ensures
        r@ == s@,
{
    let mut r: Vec<u8> = Vec::new();
    let mut i: usize = 0;
    while i < s.len()
        invariant
            i <= s@.len(),
            r@ == s@.take(i as int),
        decreases s@.len() - i,
    {
        r.push(s[i]);
        assert(s@.take(i + 1) =~= s@.take(i as int).push(s@[i as int]));
        i += 1;
    }
    assert(s@.take(s@.len() as int) =~= s@);
    r
}

} // verus!
