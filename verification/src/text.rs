//! Text building blocks: decimal numbers, joined lists, comparison and search.
//!
//! Every message, answer and report line of the library is put together from
//! these, so each has an exact statement over `Seq<char>`.
use vstd::prelude::*;
use vstd::string::*;
use vstd::utf8::encode_utf8_decode_utf8;

verus! {

/// `String::push` appends one character to the end of the string.
pub assume_specification[ std::string::String::push ](text: &mut std::string::String, ch: char)
    ensures
        final(text)@ == old(text)@.push(ch),
;

/// The character that stands for the decimal digit `d`.
pub open spec fn digit_char(d: nat) -> char {
    (48 + d) as char
}

/// `n` written in base ten, without leading zeros.
pub open spec fn decimal(n: nat) -> Seq<char>
    decreases n,
{
    if n < 10 {
        seq![digit_char(n)]
    } else {
        decimal(n / 10).push(digit_char(n % 10))
    }
}

/// `n` written in base ten, with a leading minus sign when it is negative.
pub open spec fn signed_decimal(n: int) -> Seq<char> {
    if n < 0 {
        seq!['-'] + decimal((-n) as nat)
    } else {
        decimal(n as nat)
    }
}

/// `true` or `false`, spelled out.
pub open spec fn flag(b: bool) -> Seq<char> {
    if b {
        "true"@
    } else {
        "false"@
    }
}

/// The contents of a list of strings.
pub open spec fn texts(list: Seq<String>) -> Seq<Seq<char>> {
    Seq::new(list.len(), |i: int| list[i]@)
}

/// The first `n` items of `list`, with `separator` between neighbours.
pub open spec fn joined_first(list: Seq<Seq<char>>, separator: Seq<char>, n: nat) -> Seq<char>
    decreases n,
{
    if n == 0 {
        Seq::empty()
    } else if n == 1 {
        list[0]
    } else {
        joined_first(list, separator, (n - 1) as nat) + separator + list[n - 1]
    }
}

/// All items of `list`, with `separator` between neighbours.
pub open spec fn joined(list: Seq<Seq<char>>, separator: Seq<char>) -> Seq<char> {
    joined_first(list, separator, list.len())
}

/// The ASCII letters in lower case, every other character unchanged.
pub open spec fn ascii_lower_char(c: char) -> char {
    if 'A' <= c && c <= 'Z' {
        (c as u32 + 32) as char
    } else {
        c
    }
}

/// `text` with its ASCII letters in lower case.
pub open spec fn ascii_lower(text: Seq<char>) -> Seq<char> {
    Seq::new(text.len(), |i: int| ascii_lower_char(text[i]))
}

/// `word` stands in `text` from position `at` on.
pub open spec fn occurs_at(text: Seq<char>, word: Seq<char>, at: int) -> bool {
    &&& 0 <= at
    &&& at + word.len() <= text.len()
    &&& forall|k: int| 0 <= k < word.len() ==> #[trigger] text[at + k] == word[k]
}

/// `word` stands somewhere in `text`.
pub open spec fn occurs(text: Seq<char>, word: Seq<char>) -> bool {
    exists|at: int| #[trigger] occurs_at(text, word, at)
}

/// A decimal numeral is one digit or more.
pub proof fn lemma_decimal_digits(n: nat)
    ensures
        decimal(n).len() >= 1,
        forall|i: int| 0 <= i < decimal(n).len() ==> '0' <= #[trigger] decimal(n)[i] <= '9',
    decreases n,
{
    if n >= 10 {
        lemma_decimal_digits(n / 10);
    }
}

/// Different numbers have different numerals.
pub proof fn lemma_decimal_injective(m: nat, n: nat)
    requires
        decimal(m) == decimal(n),
    ensures
        m == n,
    decreases m,
{
    lemma_decimal_digits(m / 10);
    lemma_decimal_digits(n / 10);
    let a = decimal(m);
    let b = decimal(n);
    assert(a.last() == digit_char(m % 10));
    assert(b.last() == digit_char(n % 10));
    assert(m % 10 == n % 10);
    if m >= 10 && n >= 10 {
        assert(a.drop_last() =~= decimal(m / 10));
        assert(b.drop_last() =~= decimal(n / 10));
        lemma_decimal_injective(m / 10, n / 10);
    }
}

/// The characters of a string, as a vector.
pub fn chars_of(text: &str) -> (chars: Vec<char>)
    ensures
        chars@ == text@,
{
    let mut chars: Vec<char> = Vec::new();
    for c in it: text.chars()
        invariant
            chars@ == it.seq().take(it.index()),
            it.seq() == text@,
    {
        proof {
            assert(it.seq().take(it.index() + 1) =~= it.seq().take(it.index()).push(c));
        }
        chars.push(c);
    }
    proof {
        assert(text@.take(text@.len() as int) =~= text@);
    }
    chars
}

/// Two strings hold the same characters.
pub fn same_text(left: &str, right: &str) -> (same: bool)
    ensures
        same == (left@ == right@),
{
    proof {
        encode_utf8_decode_utf8(left@);
        encode_utf8_decode_utf8(right@);
    }
    let a: &[u8] = left.as_bytes();
    let b: &[u8] = right.as_bytes();
    same_bytes(a, b)
}

/// Two byte slices hold the same bytes.
pub fn same_bytes(left: &[u8], right: &[u8]) -> (same: bool)
    ensures
        same == (left@ == right@),
{
    if left.len() != right.len() {
        return false;
    }
    let mut i: usize = 0;
    while i < left.len()
        invariant
            left@.len() == right@.len(),
            i <= left@.len(),
            left@.take(i as int) == right@.take(i as int),
        decreases left@.len() - i,
    {
        if left[i] != right[i] {
            return false;
        }
        proof {
            assert(left@.take(i + 1) =~= left@.take(i as int).push(left@[i as int]));
            assert(right@.take(i + 1) =~= right@.take(i as int).push(right@[i as int]));
        }
        i = i + 1;
    }
    proof {
        assert(left@.take(left@.len() as int) =~= left@);
        assert(right@.take(right@.len() as int) =~= right@);
    }
    true
}

/// The decimal text of a number of any size.
fn wide_decimal_text(n: u128) -> (text: String)
    ensures
        text@ == decimal(n as nat),
    decreases n,
{
    let mut text: String = if n < 10 {
        String::new()
    } else {
        wide_decimal_text(n / 10)
    };
    let digit: u8 = (n % 10) as u8;
    text.push((48 + digit) as char);
    proof {
        assert(n < 10 ==> text@ =~= seq![digit_char(n as nat)]);
    }
    text
}

/// The decimal text of a number.
pub fn decimal_text(n: u64) -> (text: String)
    ensures
        text@ == decimal(n as nat),
{
    wide_decimal_text(n as u128)
}

/// The decimal text of a signed number, with its sign.
pub fn signed_text(n: i128) -> (text: String)
    ensures
        text@ == signed_decimal(n as int),
{
    if n < 0 {
        let magnitude: u128 = (-(n + 1)) as u128 + 1;
        let mut text: String = String::new();
        text.push('-');
        let digits: String = wide_decimal_text(magnitude);
        text.append(digits.as_str());
        proof {
            assert(seq!['-'] =~= Seq::<char>::empty().push('-'));
        }
        text
    } else {
        wide_decimal_text(n as u128)
    }
}

/// `true` or `false`, spelled out.
pub fn flag_text(b: bool) -> (text: &'static str)
    ensures
        text@ == flag(b),
{
    if b {
        "true"
    } else {
        "false"
    }
}

/// Joins a list of strings with `separator` between neighbours.
pub fn join(list: &Vec<String>, separator: &str) -> (text: String)
    ensures
        text@ == joined(texts(list@), separator@),
{
    let mut text: String = String::new();
    let mut i: usize = 0;
    while i < list.len()
        invariant
            i <= list@.len(),
            text@ == joined_first(texts(list@), separator@, i as nat),
        decreases list@.len() - i,
    {
        if i > 0 {
            text.append(separator);
        }
        text.append(list[i].as_str());
        proof {
            if i == 0 {
                assert(text@ =~= texts(list@)[0]);
            }
        }
        i = i + 1;
    }
    text
}

/// `text` with its ASCII letters in lower case.
pub fn to_ascii_lower(text: &str) -> (lower: String)
    ensures
        lower@ == ascii_lower(text@),
{
    let chars: Vec<char> = chars_of(text);
    let mut lower: String = String::new();
    let mut i: usize = 0;
    while i < chars.len()
        invariant
            chars@ == text@,
            i <= chars@.len(),
            lower@ == ascii_lower(text@).take(i as int),
        decreases chars@.len() - i,
    {
        let c: char = chars[i];
        if 'A' <= c && c <= 'Z' {
            let code: u8 = c as u8;
            proof {
                assert(c as u32 == code as u32);
            }
            lower.push((code + 32) as char);
        } else {
            lower.push(c);
        }
        proof {
            assert(ascii_lower(text@).take(i + 1) =~= ascii_lower(text@).take(i as int).push(
                ascii_lower_char(text@[i as int]),
            ));
        }
        i = i + 1;
    }
    proof {
        assert(ascii_lower(text@).take(text@.len() as int) =~= ascii_lower(text@));
    }
    lower
}

/// Whether `word` stands somewhere in `text`.
pub fn contains_word(text: &str, word: &str) -> (found: bool)
    ensures
        found == occurs(text@, word@),
{
    let t: Vec<char> = chars_of(text);
    let w: Vec<char> = chars_of(word);
    let length: usize = t.len();
    let mut at: usize = 0;
    while at <= length && w.len() <= length - at
        invariant
            length == t@.len(),
            t@ == text@,
            w@ == word@,
            at <= t@.len() + 1,
            forall|p: int| 0 <= p < at ==> !#[trigger] occurs_at(text@, word@, p),
        decreases t@.len() + 1 - at,
    {
        let mut k: usize = 0;
        while k < w.len() && t[at + k] == w[k]
            invariant
                length == t@.len(),
                t@ == text@,
                w@ == word@,
                at + w@.len() <= t@.len(),
                k <= w@.len(),
                forall|j: int| 0 <= j < k ==> #[trigger] text@[at + j] == word@[j],
            decreases w@.len() - k,
        {
            k = k + 1;
        }
        if k == w.len() {
            proof {
                assert(occurs_at(text@, word@, at as int));
            }
            return true;
        }
        proof {
            assert(text@[at + k] != word@[k as int]);
            assert(!occurs_at(text@, word@, at as int));
        }
        if at == length {
            return false;
        }
        at = at + 1;
    }
    false
}

// ---------------------------------------------------------------------------
// Lines
// ---------------------------------------------------------------------------
/// The items, each behind the prefix.
pub open spec fn prefixed(prefix: Seq<char>, items: Seq<Seq<char>>) -> Seq<Seq<char>> {
    Seq::new(items.len(), |i: int| prefix + items[i])
}

/// Adds a line.
pub fn push_line(lines: &mut Vec<String>, line: String)
    ensures
        texts(final(lines)@) == texts(old(lines)@).push(line@),
{
    lines.push(line);
    proof {
        assert(texts(lines@) =~= texts(old(lines)@).push(line@));
    }
}

/// Adds a line of two parts.
pub fn push_pair(lines: &mut Vec<String>, head: &str, tail: &str)
    ensures
        texts(final(lines)@) == texts(old(lines)@).push(head@ + tail@),
{
    let mut line: String = String::from_str(head);
    line.append(tail);
    push_line(lines, line);
}

/// Adds a line for each item, behind the prefix.
pub fn push_prefixed(lines: &mut Vec<String>, prefix: &str, items: &Vec<String>)
    ensures
        texts(final(lines)@) == texts(old(lines)@) + prefixed(prefix@, texts(items@)),
{
    let ghost before = texts(lines@);
    let mut i: usize = 0;
    proof {
        assert(before + prefixed(prefix@, texts(items@)).take(0) =~= before);
    }
    while i < items.len()
        invariant
            i <= items@.len(),
            texts(lines@) == before + prefixed(prefix@, texts(items@)).take(i as int),
        decreases items@.len() - i,
    {
        push_pair(lines, prefix, items[i].as_str());
        proof {
            let all = prefixed(prefix@, texts(items@));
            assert(all.take(i + 1) =~= all.take(i as int).push(all[i as int]));
            assert(before + all.take(i + 1) =~= (before + all.take(i as int)).push(all[i as int]));
        }
        i = i + 1;
    }
    proof {
        let all = prefixed(prefix@, texts(items@));
        assert(all.take(i as int) =~= all);
    }
}

} // verus!
