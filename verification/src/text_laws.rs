//! What the texts that messages and reports are put together from stand for.
use vstd::prelude::*;
use vstd::string::*;

use crate::error::{BundleError, ErrorClass};
use crate::text::{
    chars_of, contains_word, decimal, decimal_text, digit_char, flag_text, join, joined,
    joined_first, lemma_decimal_digits, occurs_at, prefixed, push_line, push_pair, push_prefixed,
    same_bytes, same_text, signed_text, texts, to_ascii_lower,
};

verus! {

/// The number that a row of decimal digits stands for.
pub open spec fn digits_value(digits: Seq<char>) -> int
    decreases digits.len(),
{
    if digits.len() == 0 {
        0
    } else {
        10 * digits_value(digits.drop_last()) + (digits.last() as int - '0' as int)
    }
}

/// The text is a number in base ten: digits only, and no zero in front of
/// another digit.
pub open spec fn is_numeral(text: Seq<char>) -> bool {
    &&& text.len() > 0
    &&& forall|i: int| 0 <= i < text.len() ==> '0' <= #[trigger] text[i] && text[i] <= '9'
    &&& text.len() > 1 ==> text[0] != '0'
}

/// The numeral of `n` stands for `n`.
pub proof fn law_numerals_stand_for_their_numbers(n: nat)
    ensures
        is_numeral(decimal(n)),
        digits_value(decimal(n)) == n,
    decreases n,
{
    lemma_decimal_digits(n);
    if n >= 10 {
        law_numerals_stand_for_their_numbers(n / 10);
        let text = decimal(n);
        assert(text.drop_last() =~= decimal(n / 10));
        assert(text.last() == digit_char(n % 10));
        assert(text.last() as int - '0' as int == n % 10);
        assert(text[0] == decimal(n / 10)[0]);
        if n < 100 {
            assert(decimal(n / 10)[0] == digit_char(n / 10));
            assert(digit_char(n / 10) as int == 48 + n / 10);
        } else {
            lemma_decimal_digits((n / 10) / 10);
            assert(decimal(n / 10).len() > 1);
        }
    } else {
        assert(decimal(n).drop_last() =~= Seq::empty());
        assert(digits_value(Seq::<char>::empty()) == 0);
        assert(decimal(n).last() as int - '0' as int == n);
    }
}

/// A number is written as the numeral that stands for it.
pub proof fn law_written_numbers_are_read_back(n: u64, text: String)
    requires
        call_ensures(decimal_text, (n,), text),
    ensures
        is_numeral(text@),
        digits_value(text@) == n,
{
    law_numerals_stand_for_their_numbers(n as nat);
}

/// A signed number is written as the numeral of its size, behind a minus sign
/// exactly if it is negative.
pub proof fn law_written_signed_numbers_are_read_back(n: i128, text: String)
    requires
        call_ensures(signed_text, (n,), text),
    ensures
        text@.len() > 0,
        n < 0 <==> text@[0] == '-',
        n < 0 ==> is_numeral(text@.skip(1)) && digits_value(text@.skip(1)) == -n,
        n >= 0 ==> is_numeral(text@) && digits_value(text@) == n,
{
    if n < 0 {
        law_numerals_stand_for_their_numbers((-n) as nat);
        assert(text@.skip(1) =~= decimal((-n) as nat));
    } else {
        law_numerals_stand_for_their_numbers(n as nat);
    }
}

/// Truth values are written as the words `true` and `false`.
pub proof fn law_truth_values_are_spelled_out(text: &'static str, other: &'static str)
    requires
        call_ensures(flag_text, (true,), text),
        call_ensures(flag_text, (false,), other),
    ensures
        text@ == seq!['t', 'r', 'u', 'e'],
        other@ == seq!['f', 'a', 'l', 's', 'e'],
{
    reveal_strlit("true");
    reveal_strlit("false");
    assert(text@ =~= seq!['t', 'r', 'u', 'e']);
    assert(other@ =~= seq!['f', 'a', 'l', 's', 'e']);
}

/// Comparing texts or bytes tells whether they are equal.
pub proof fn law_comparison_is_equality(
    left: &str,
    right: &str,
    same: bool,
    left_bytes: &[u8],
    right_bytes: &[u8],
    same_content: bool,
)
    requires
        call_ensures(same_text, (left, right), same),
        call_ensures(same_bytes, (left_bytes, right_bytes), same_content),
    ensures
        same <==> left@ == right@,
        same_content <==> left_bytes@ == right_bytes@,
{
}

proof fn lemma_joined_first_same(
    list: Seq<Seq<char>>,
    other: Seq<Seq<char>>,
    separator: Seq<char>,
    n: nat,
)
    requires
        n <= list.len(),
        n <= other.len(),
        forall|i: int| 0 <= i < n ==> list[i] == other[i],
    ensures
        joined_first(list, separator, n) == joined_first(other, separator, n),
    decreases n,
{
    if n > 1 {
        lemma_joined_first_same(list, other, separator, (n - 1) as nat);
    }
}

/// Nothing joined is nothing, one item joined is the item, and another item is
/// joined to some behind one separator.
pub proof fn law_joining_puts_separators_between(
    list: Vec<String>,
    more: Vec<String>,
    separator: &str,
    text: String,
    longer: String,
)
    requires
        call_ensures(join, (&list, separator), text),
        call_ensures(join, (&more, separator), longer),
        more@.len() == list@.len() + 1,
        forall|i: int| 0 <= i < list@.len() ==> list@[i]@ == more@[i]@,
    ensures
        list@.len() == 0 ==> text@.len() == 0 && longer@ == more@[0]@,
        list@.len() > 0 ==> longer@ == text@ + separator@ + more@.last()@,
{
    lemma_joined_first_same(texts(list@), texts(more@), separator@, list@.len());
}

/// Lowering changes the letters `A` to `Z` to those that are 32 codes further
/// on, and nothing else.
pub proof fn law_lowering_changes_capitals_only(text: &str, lower: String, i: int)
    requires
        call_ensures(to_ascii_lower, (text,), lower),
    ensures
        lower@.len() == text@.len(),
        0 <= i < text@.len() ==> if 'A' <= text@[i] && text@[i] <= 'Z' {
            lower@[i] as int == text@[i] as int + 32
        } else {
            lower@[i] == text@[i]
        },
{
    if 0 <= i < text@.len() && 'A' <= text@[i] && text@[i] <= 'Z' {
        assert(((text@[i] as u32 + 32) as char) as int == text@[i] as int + 32);
    }
}

/// A word is found in a text exactly if it is a stretch of the text.
pub proof fn law_found_words_are_stretches(text: &str, word: &str, found: bool)
    requires
        call_ensures(contains_word, (text, word), found),
    ensures
        found <==> exists|at: int|
            0 <= at <= text@.len() - word@.len() && #[trigger] text@.subrange(
                at,
                at + word@.len(),
            ) == word@,
{
    if found {
        let at = choose|at: int| #[trigger] occurs_at(text@, word@, at);
        assert forall|k: int| 0 <= k < word@.len() implies text@.subrange(at, at + word@.len())[k]
            == word@[k] by {
            assert(text@[at + k] == word@[k]);
        }
        assert(text@.subrange(at, at + word@.len()) =~= word@);
    }
    if exists|at: int|
        0 <= at <= text@.len() - word@.len() && #[trigger] text@.subrange(at, at + word@.len())
            == word@ {
        let at = choose|at: int|
            0 <= at <= text@.len() - word@.len() && #[trigger] text@.subrange(
                at,
                at + word@.len(),
            ) == word@;
        assert forall|k: int| 0 <= k < word@.len() implies #[trigger] text@[at + k] == word@[k] by {
            assert(text@.subrange(at, at + word@.len())[k] == text@[at + k]);
        }
        assert(occurs_at(text@, word@, at));
    }
}

/// The characters of a text are its characters.
pub proof fn law_characters_are_kept(text: &str, chars: Vec<char>)
    requires
        call_ensures(chars_of, (text,), chars),
    ensures
        chars@ == text@,
{
}

/// A failure keeps its class, and its message is what it is to say, behind the
/// name of the class if that has one.
pub proof fn law_failures_name_their_class(class: ErrorClass, detail: &str, error: BundleError)
    requires
        call_ensures(BundleError::new, (class, detail), error),
    ensures
        error.class == class,
        class is SchemaVersionMismatch ==> error.message@ == "BundleSchemaVersionMismatch: "@
            + detail@,
        class is HashMismatch ==> error.message@ == "BundleHashMismatch: "@ + detail@,
        class is RebuildMismatch ==> error.message@ == "BundleRebuildMismatch: "@ + detail@,
        class is RebuildFailed ==> error.message@ == "BundleRebuildFailed: "@ + detail@,
        class is PlatformUnsupported ==> error.message@ == "BundlePlatformUnsupported: "@ + detail@,
        class is TraceAgentMismatch ==> error.message@ == "BundleTraceAgentMismatch: "@ + detail@,
        class is ReplayMismatch ==> error.message@ == "BundleReplayMismatch: "@ + detail@,
        class is ReplayUnsupported ==> error.message@ == "BundleReplayUnsupported: "@ + detail@,
        class is SignatureVerifyFailed ==> error.message@ == "BundleSignatureVerifyFailed: "@
            + detail@,
        class is Other ==> error.message@ == detail@,
{
    reveal_strlit("");
    assert(""@ + detail@ =~= detail@);
}

/// A pushed line stands behind the lines that were there, and those are kept.
pub proof fn law_pushed_lines_stand_last(lines: &mut Vec<String>, line: String, i: int)
    requires
        call_ensures(push_line, (lines, line), ()),
    ensures
        final(lines)@.len() == old(lines)@.len() + 1,
        final(lines)@.last()@ == line@,
        0 <= i < old(lines)@.len() ==> final(lines)@[i]@ == old(lines)@[i]@,
{
    let before = texts(old(lines)@);
    let after = texts(final(lines)@);
    assert(before.len() == old(lines)@.len() && after.len() == final(lines)@.len());
    assert(after.last() == line@);
    if 0 <= i < before.len() {
        assert(after[i] == before[i]);
    }
}

/// A line that is pushed in two parts is the first part followed by the second.
pub proof fn law_pushed_pairs_stand_last(
    lines: &mut Vec<String>,
    head: &str,
    tail: &str,
    i: int,
)
    requires
        call_ensures(push_pair, (lines, head, tail), ()),
    ensures
        final(lines)@.len() == old(lines)@.len() + 1,
        final(lines)@.last()@ == head@ + tail@,
        0 <= i < old(lines)@.len() ==> final(lines)@[i]@ == old(lines)@[i]@,
{
    let before = texts(old(lines)@);
    let after = texts(final(lines)@);
    assert(before.len() == old(lines)@.len() && after.len() == final(lines)@.len());
    assert(after.last() == head@ + tail@);
    if 0 <= i < before.len() {
        assert(after[i] == before[i]);
    }
}

/// Each item gives a line with the prefix before it, in the order of the items
/// and behind the lines that were there.
pub proof fn law_items_are_pushed_behind_the_prefix(
    lines: &mut Vec<String>,
    prefix: &str,
    items: Vec<String>,
    i: int,
)
    requires
        call_ensures(push_prefixed, (lines, prefix, &items), ()),
    ensures
        final(lines)@.len() == old(lines)@.len() + items@.len(),
        0 <= i < old(lines)@.len() ==> final(lines)@[i]@ == old(lines)@[i]@,
        0 <= i < items@.len() ==> final(lines)@[old(lines)@.len() + i]@ == prefix@ + items@[i]@,
{
    let before = texts(old(lines)@);
    let after = texts(final(lines)@);
    let more = prefixed(prefix@, texts(items@));
    assert(before.len() == old(lines)@.len() && after.len() == final(lines)@.len());
    assert(more.len() == items@.len());
    assert(after == before + more);
    if 0 <= i < before.len() {
        assert(after[i] == before[i]);
    }
    if 0 <= i < items@.len() {
        assert(after[before.len() + i] == more[i]);
    }
}

} // verus!
