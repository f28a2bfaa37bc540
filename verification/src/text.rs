//! Text rules shared by the handlers: Unicode white space, trimming, and the
//! UTF-8 length of a message body.
use vstd::prelude::*;
use vstd::utf8::encode_utf8;

verus! {

/// The largest accepted message body, in bytes of UTF-8.
pub const MAX_BODY_BYTES: usize = 2000;

/// Characters with the Unicode `White_Space` property, the set that
/// `char::is_whitespace` and `str::trim` use.
pub open spec fn is_white_space(c: char) -> bool {
    let u = c as u32;
    ||| 0x09 <= u <= 0x0D
    ||| u == 0x20
    ||| u == 0x85
    ||| u == 0xA0
    ||| u == 0x1680
    ||| 0x2000 <= u <= 0x200A
    ||| u == 0x2028
    ||| u == 0x2029
    ||| u == 0x202F
    ||| u == 0x205F
    ||| u == 0x3000
}

/// `s` without its leading white space.
pub open spec fn strip_leading(s: Seq<char>) -> Seq<char>
    decreases s.len(),
{
    if s.len() > 0 && is_white_space(s[0]) {
        strip_leading(s.drop_first())
    } else {
        s
    }
}

/// `s` without its trailing white space.
pub open spec fn strip_trailing(s: Seq<char>) -> Seq<char>
    decreases s.len(),
{
    if s.len() > 0 && is_white_space(s.last()) {
        strip_trailing(s.drop_last())
    } else {
        s
    }
}

/// `s` without leading and trailing white space.
pub open spec fn trimmed(s: Seq<char>) -> Seq<char> {
    strip_trailing(strip_leading(s))
}

/// Whether every character of `s` is white space.
pub open spec fn is_blank(s: Seq<char>) -> bool {
    forall|i: int| 0 <= i < s.len() ==> is_white_space(#[trigger] s[i])
}

/// Number of bytes of the UTF-8 encoding of `s`; a string held in memory
/// always has a byte length that fits in `usize`.
pub open spec fn utf8_len(s: Seq<char>) -> usize {
    encode_utf8(s).len() as usize
}

/// A message body is accepted when it holds a character that is not white
/// space and its UTF-8 encoding is at most `MAX_BODY_BYTES` long.
pub open spec fn body_is_acceptable(body: Seq<char>) -> bool {
    &&& trimmed(body).len() > 0
    &&& utf8_len(body) <= MAX_BODY_BYTES
}

proof fn lemma_strip_leading_empty(s: Seq<char>)
    ensures
        strip_leading(s).len() == 0 <==> is_blank(s),
        strip_leading(s).len() > 0 ==> !is_white_space(strip_leading(s)[0]),
    decreases s.len(),
{
    if s.len() > 0 && is_white_space(s[0]) {
        lemma_strip_leading_empty(s.drop_first());
        if is_blank(s.drop_first()) {
            assert forall|i: int| 0 <= i < s.len() implies is_white_space(#[trigger] s[i]) by {
                if i > 0 {
                    assert(s[i] == s.drop_first()[i - 1]);
                }
            }
        }
        if is_blank(s) {
            assert forall|i: int| 0 <= i < s.drop_first().len() implies is_white_space(
                #[trigger] s.drop_first()[i],
            ) by {
                assert(s.drop_first()[i] == s[i + 1]);
            }
        }
    } else if s.len() > 0 {
        assert(!is_white_space(s[0]));
    }
}

proof fn lemma_strip_trailing_keeps_first(s: Seq<char>)
    requires
        s.len() > 0,
        !is_white_space(s[0]),
    ensures
        strip_trailing(s).len() > 0,
    decreases s.len(),
{
    if is_white_space(s.last()) {
        if s.len() > 1 {
            lemma_strip_trailing_keeps_first(s.drop_last());
        }
    }
}

/// A body trims to nothing exactly when every one of its characters is white
/// space.
pub proof fn lemma_trimmed_empty_iff_blank(s: Seq<char>)
    ensures
        trimmed(s).len() == 0 <==> is_blank(s),
{
    lemma_strip_leading_empty(s);
    if strip_leading(s).len() > 0 {
        lemma_strip_trailing_keeps_first(strip_leading(s));
    }
}

/// `str::trim` from std: the slice of `s` without its leading and trailing
/// characters of the Unicode `White_Space` property.
#[verifier::external_body]
fn trim_white_space(s: &str) -> (r: &str)
    ensures
        r@ == trimmed(s@),
{
    s.trim()
}

/// The body with its leading and trailing white space removed, as the
/// handlers store it.
pub fn trim_body(body: &str) -> (r: String)
    ensures
        r@ == trimmed(body@),
{
    trim_white_space(body).to_owned()
}

/// Whether a message body passes the length rule: not blank, and at most
/// `MAX_BODY_BYTES` bytes long.
pub fn body_is_acceptable_exec(body: &str) -> (ok: bool)
    ensures
        ok == body_is_acceptable(body@),
{
    let t = trim_white_space(body);
    !t.is_empty() && body.len() <= MAX_BODY_BYTES
}

/// The body rule in terms of characters and bytes: a body with a character
/// that is not white space and at most 2000 bytes of UTF-8 is accepted; a body
/// of white space only, or of more than 2000 bytes, is refused.
pub proof fn lemma_body_rule(body: Seq<char>)
    ensures
        (exists|i: int| 0 <= i < body.len() && !is_white_space(#[trigger] body[i]))
            && encode_utf8(body).len() <= 2000 ==> body_is_acceptable(body),
        (forall|i: int| 0 <= i < body.len() ==> is_white_space(#[trigger] body[i]))
            ==> !body_is_acceptable(body),
        2000 < encode_utf8(body).len() <= usize::MAX ==> !body_is_acceptable(body),
{
    lemma_trimmed_empty_iff_blank(body);
}

/// Any one character that is not white space is an accepted body.
pub proof fn lemma_single_character_accepted(c: char)
    requires
        !is_white_space(c),
    ensures
        body_is_acceptable(seq![c]),
{
    let s = seq![c];
    assert(s.drop_first() =~= Seq::<char>::empty());
    assert(encode_utf8(s.drop_first()) =~= Seq::<u8>::empty());
    assert(encode_utf8(s) =~= vstd::utf8::encode_scalar(c as u32));
    assert(s[0] == c);
    lemma_body_rule(s);
}

proof fn lemma_strip_leading_shape(s: Seq<char>) -> (k: int)
    ensures
        0 <= k <= s.len(),
        strip_leading(s) == s.subrange(k, s.len() as int),
        forall|i: int| 0 <= i < k ==> is_white_space(#[trigger] s[i]),
        k < s.len() ==> !is_white_space(s[k]),
    decreases s.len(),
{
    if s.len() > 0 && is_white_space(s[0]) {
        let t = s.drop_first();
        let k1 = lemma_strip_leading_shape(t);
        assert(t.subrange(k1, t.len() as int) =~= s.subrange(k1 + 1, s.len() as int));
        assert forall|i: int| 0 <= i < k1 + 1 implies is_white_space(#[trigger] s[i]) by {
            if i > 0 {
                assert(s[i] == t[i - 1]);
            }
        }
        if k1 + 1 < s.len() {
            assert(s[k1 + 1] == t[k1]);
        }
        k1 + 1
    } else {
        assert(s.subrange(0, s.len() as int) =~= s);
        0
    }
}

proof fn lemma_strip_trailing_shape(s: Seq<char>) -> (m: int)
    ensures
        0 <= m <= s.len(),
        strip_trailing(s) == s.subrange(0, m),
        forall|i: int| m <= i < s.len() ==> is_white_space(#[trigger] s[i]),
        m > 0 ==> !is_white_space(s[m - 1]),
    decreases s.len(),
{
    if s.len() > 0 && is_white_space(s.last()) {
        let t = s.drop_last();
        let m1 = lemma_strip_trailing_shape(t);
        assert(t.subrange(0, m1) =~= s.subrange(0, m1));
        assert forall|i: int| m1 <= i < s.len() implies is_white_space(#[trigger] s[i]) by {
            if i < t.len() {
                assert(s[i] == t[i]);
            }
        }
        if m1 > 0 {
            assert(s[m1 - 1] == t[m1 - 1]);
        }
        m1
    } else {
        assert(s.subrange(0, s.len() as int) =~= s);
        s.len() as int
    }
}

/// Trimming keeps one contiguous piece of the text: everything before and
/// after it is white space, and the piece, unless empty, starts and ends with
/// a character that is not white space.
pub proof fn lemma_trim_keeps_the_inner_text(s: Seq<char>) -> (bounds: (int, int))
    ensures
        0 <= bounds.0 <= bounds.1 <= s.len(),
        trimmed(s) == s.subrange(bounds.0, bounds.1),
        forall|i: int| 0 <= i < bounds.0 ==> is_white_space(#[trigger] s[i]),
        forall|i: int| bounds.1 <= i < s.len() ==> is_white_space(#[trigger] s[i]),
        bounds.0 < bounds.1 ==> !is_white_space(s[bounds.0]) && !is_white_space(s[bounds.1 - 1]),
{
    let k = lemma_strip_leading_shape(s);
    let t = strip_leading(s);
    let m = lemma_strip_trailing_shape(t);
    assert(t.subrange(0, m) =~= s.subrange(k, k + m));
    assert forall|i: int| k + m <= i < s.len() implies is_white_space(#[trigger] s[i]) by {
        assert(s[i] == t[i - k]);
    }
    if m > 0 {
        assert(s[k + m - 1] == t[m - 1]);
        assert(s[k] == t[0]);
    }
    (k, k + m)
}

} // verus!
