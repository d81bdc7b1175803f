//! JSON strings.
use vstd::prelude::*;
use vstd::string::*;

use crate::digest::hex_digit;

verus! {

/// A character as JSON writes it inside a string.
pub open spec fn json_char(c: char) -> Seq<char> {
    if c == '"' || c == '\\' {
        seq!['\\', c]
    } else if c as int == 8 {
        seq!['\\', 'b']
    } else if c as int == 9 {
        seq!['\\', 't']
    } else if c as int == 10 {
        seq!['\\', 'n']
    } else if c as int == 12 {
        seq!['\\', 'f']
    } else if c as int == 13 {
        seq!['\\', 'r']
    } else if (c as int) < 32 {
        seq!['\\', 'u', '0', '0', hex_digit(c as int / 16), hex_digit(c as int % 16)]
    } else {
        seq![c]
    }
}

/// The characters of a text as JSON writes them inside a string.
pub open spec fn json_chars(text: Seq<char>) -> Seq<char>
    decreases text.len(),
{
    if text.len() == 0 {
        Seq::empty()
    } else {
        json_chars(text.drop_last()) + json_char(text.last())
    }
}

/// The JSON string that stands for a text.
pub open spec fn json_string(text: Seq<char>) -> Seq<char> {
    seq!['"'] + json_chars(text) + seq!['"']
}

/// `serde_json::to_string` of a string: writes it between quotes, with quotes,
/// backslashes and control characters escaped. It does not fail on a string.
#[verifier::external_body]
pub(crate) fn quote_json(text: &str) -> (quoted: Option<String>)
    ensures
        match quoted {
            Some(q) => q@ == json_string(text@),
            None => false,
        },
{
    serde_json::to_string(text).ok()
}

proof fn lemma_json_chars_first(text: Seq<char>)
    requires
        text.len() > 0,
    ensures
        json_chars(text) == json_char(text[0]) + json_chars(text.skip(1)),
    decreases text.len(),
{
    let rest = text.skip(1);
    if text.len() == 1 {
        assert(text.drop_last() =~= Seq::empty());
        assert(rest =~= Seq::empty());
        assert(json_chars(text) =~= json_char(text[0]) + json_chars(rest));
    } else {
        let before = text.drop_last();
        lemma_json_chars_first(before);
        assert(before.skip(1) =~= rest.drop_last());
        assert(json_chars(text) =~= json_char(text[0]) + json_chars(rest));
    }
}

/// Of two JSON texts that start with a character each, equal ones start with
/// the same character.
proof fn lemma_json_char_prefix(a: char, x: Seq<char>, b: char, y: Seq<char>)
    requires
        json_char(a) + x == json_char(b) + y,
    ensures
        a == b,
        x == y,
{
    let s = json_char(a) + x;
    let t = json_char(b) + y;
    assert(s[0] == json_char(a)[0]);
    assert(t[0] == json_char(b)[0]);
    if json_char(a).len() > 1 && json_char(b).len() > 1 {
        assert(s[1] == json_char(a)[1]);
        assert(t[1] == json_char(b)[1]);
        if json_char(a).len() > 2 && json_char(b).len() > 2 {
            assert(s[4] == json_char(a)[4]);
            assert(t[4] == json_char(b)[4]);
            assert(s[5] == json_char(a)[5]);
            assert(t[5] == json_char(b)[5]);
            let m = a as int;
            let n = b as int;
            assert(hex_digit(m / 16) as int == hex_digit(n / 16) as int);
            assert(hex_digit(m % 16) as int == hex_digit(n % 16) as int);
            assert(m / 16 == n / 16 && m % 16 == n % 16);
        }
    }
    assert(a as int == b as int);
    assert(s.skip(json_char(a).len() as int) =~= x);
    assert(t.skip(json_char(b).len() as int) =~= y);
}

proof fn lemma_json_chars_injective(left: Seq<char>, right: Seq<char>)
    requires
        json_chars(left) == json_chars(right),
    ensures
        left == right,
    decreases left.len(),
{
    if left.len() > 0 {
        lemma_json_chars_first(left);
        assert(json_chars(left).len() >= json_char(left[0]).len());
    }
    if right.len() > 0 {
        lemma_json_chars_first(right);
        assert(json_chars(right).len() >= json_char(right[0]).len());
    }
    if left.len() > 0 && right.len() > 0 {
        lemma_json_char_prefix(
            left[0],
            json_chars(left.skip(1)),
            right[0],
            json_chars(right.skip(1)),
        );
        lemma_json_chars_injective(left.skip(1), right.skip(1));
        assert(left =~= seq![left[0]] + left.skip(1));
        assert(right =~= seq![right[0]] + right.skip(1));
    } else {
        assert(left =~= right);
    }
}

/// Different texts have different JSON strings.
pub proof fn law_json_strings_determine_texts(left: Seq<char>, right: Seq<char>)
    requires
        json_string(left) == json_string(right),
    ensures
        left == right,
{
    let s = json_string(left);
    let t = json_string(right);
    assert(s.subrange(1, s.len() - 1) =~= json_chars(left));
    assert(t.subrange(1, t.len() - 1) =~= json_chars(right));
    lemma_json_chars_injective(left, right);
}

} // verus!
