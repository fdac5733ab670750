//! What the functions on texts come to, character by character.
use vstd::prelude::*;

use crate::text::{
    contains_text, decimal_value, eq_ignore_case, find_char, is_space, join, join_texts,
    lemma_first_position, list_has, lower, lower_is, lower_starts_with, occurs_at, occurs_in,
    parse_number, same_text, split_on, split_text, texts, trim, trim_end, trim_start, trimmed,
};

verus! {

/// The two characters are the same letter of the Latin alphabet, or the same
/// character.
pub open spec fn same_letter(a: char, b: char) -> bool {
    ||| a == b
    ||| 'A' <= a && a <= 'Z' && b as u32 == a as u32 + 32
    ||| 'A' <= b && b <= 'Z' && a as u32 == b as u32 + 32
}

/// Lower case changes the Latin capitals, and nothing else.
pub proof fn law_lower_case(text: Seq<char>, i: int)
    requires
        0 <= i < text.len(),
    ensures
        lower(text).len() == text.len(),
        'A' <= text[i] && text[i] <= 'Z' ==> lower(text)[i] as u32 == text[i] as u32 + 32,
        !('A' <= text[i] && text[i] <= 'Z') ==> lower(text)[i] == text[i],
{
}

/// Two texts are equal but for case exactly if they are so letter by letter.
pub proof fn law_equal_but_for_case(a: &str, b: &str, r: bool)
    requires
        call_ensures(eq_ignore_case, (a, b), r),
    ensures
        r <==> a@.len() == b@.len() && forall|i: int|
            0 <= i < a@.len() ==> same_letter(#[trigger] a@[i], b@[i]),
{
    assert(lower(a@).len() == a@.len() && lower(b@).len() == b@.len());
    if a@.len() == b@.len() {
        assert forall|i: int| 0 <= i < a@.len() implies (same_letter(#[trigger] a@[i], b@[i])
            <==> lower(a@)[i] == lower(b@)[i]) by {}
        if forall|i: int| 0 <= i < a@.len() ==> same_letter(#[trigger] a@[i], b@[i]) {
            assert(lower(a@) =~= lower(b@));
        }
        if lower(a@) == lower(b@) {
            assert forall|i: int| 0 <= i < a@.len() implies same_letter(#[trigger] a@[i], b@[i]) by {
                assert(lower(a@)[i] == lower(b@)[i]);
            }
        }
    }
}

/// A text is another in lower case exactly if it is so letter by letter.
pub proof fn law_is_in_lower_case(text: &str, other: &str, r: bool)
    requires
        call_ensures(lower_is, (text, other), r),
    ensures
        r <==> text@.len() == other@.len() && forall|i: int|
            0 <= i < text@.len() ==> other@[i] == #[trigger] lower(text@)[i],
{
    if text@.len() == other@.len() && forall|i: int|
        0 <= i < text@.len() ==> other@[i] == #[trigger] lower(text@)[i] {
        assert(lower(text@) =~= other@);
    }
}

/// A text begins with another in lower case exactly if its first letters are
/// that other, in lower case.
pub proof fn law_begins_in_lower_case(text: &str, prefix: &str, r: bool)
    requires
        call_ensures(lower_starts_with, (text, prefix), r),
    ensures
        r <==> prefix@.len() <= text@.len() && forall|i: int|
            0 <= i < prefix@.len() ==> #[trigger] prefix@[i] == lower(text@)[i],
{
    if prefix@.len() <= text@.len() {
        let head = lower(text@).take(prefix@.len() as int);
        if forall|i: int| 0 <= i < prefix@.len() ==> #[trigger] prefix@[i] == lower(text@)[i] {
            assert(head =~= prefix@);
        }
        if head == prefix@ {
            assert forall|i: int| 0 <= i < prefix@.len() implies #[trigger] prefix@[i] == lower(
                text@,
            )[i] by {
                assert(head[i] == prefix@[i]);
            }
        }
    }
}

/// Two texts are the same exactly if their characters are.
pub proof fn law_the_same_text(a: &str, b: &str, r: bool)
    requires
        call_ensures(same_text, (a, b), r),
    ensures
        r <==> a@.len() == b@.len() && forall|i: int| 0 <= i < a@.len() ==> #[trigger] a@[i] == b@[i],
{
    if a@.len() == b@.len() && forall|i: int| 0 <= i < a@.len() ==> #[trigger] a@[i] == b@[i] {
        assert(a@ =~= b@);
    }
}

/// A list holds a text exactly if some item of it is that text.
pub proof fn law_a_list_has_its_items(list: &[String], text: &str, r: bool)
    requires
        call_ensures(list_has, (list, text), r),
    ensures
        r <==> exists|i: int| 0 <= i < list@.len() && (#[trigger] list@[i])@ == text@,
{
    if exists|i: int| 0 <= i < list@.len() && (#[trigger] list@[i])@ == text@ {
        let i = choose|i: int| 0 <= i < list@.len() && (#[trigger] list@[i])@ == text@;
        assert(texts(list@)[i] == text@);
    }
    if texts(list@).contains(text@) {
        let i = choose|i: int| 0 <= i < texts(list@).len() && texts(list@)[i] == text@;
        assert(list@[i]@ == text@);
    }
}

/// White space: the blank, the tab, the line breaks, and the other characters
/// that Unicode counts as such.
pub open spec fn is_blank(c: char) -> bool {
    ||| c == ' ' || c == '\t' || c == '\n' || c == '\r' || c == '\u{b}' || c == '\u{c}'
    ||| c == '\u{85}' || c == '\u{a0}' || c == '\u{1680}' || c == '\u{2028}' || c == '\u{2029}'
    ||| c == '\u{202f}' || c == '\u{205f}' || c == '\u{3000}'
    ||| '\u{2000}' <= c && c <= '\u{200a}'
}

proof fn lemma_blank(c: char)
    ensures
        is_blank(c) == is_space(c),
{
}

proof fn lemma_trim_start(before: Seq<char>, rest: Seq<char>)
    requires
        forall|i: int| 0 <= i < before.len() ==> is_blank(#[trigger] before[i]),
        rest.len() > 0 ==> !is_blank(rest[0]),
    ensures
        trim_start(before + rest) == rest,
    decreases before.len(),
{
    if before.len() == 0 {
        assert(before + rest =~= rest);
        if rest.len() > 0 {
            lemma_blank(rest[0]);
        }
    } else {
        lemma_blank(before[0]);
        assert((before + rest)[0] == before[0]);
        assert((before + rest).drop_first() =~= before.drop_first() + rest);
        assert forall|i: int| 0 <= i < before.drop_first().len() implies is_blank(
            #[trigger] before.drop_first()[i],
        ) by {
            assert(before.drop_first()[i] == before[i + 1]);
        }
        lemma_trim_start(before.drop_first(), rest);
    }
}

proof fn lemma_trim_end(rest: Seq<char>, after: Seq<char>)
    requires
        forall|i: int| 0 <= i < after.len() ==> is_blank(#[trigger] after[i]),
        rest.len() > 0 ==> !is_blank(rest.last()),
    ensures
        trim_end(rest + after) == rest,
    decreases after.len(),
{
    if after.len() == 0 {
        assert(rest + after =~= rest);
        if rest.len() > 0 {
            lemma_blank(rest.last());
        }
    } else {
        lemma_blank(after[after.len() - 1]);
        assert((rest + after).last() == after.last());
        assert((rest + after).drop_last() =~= rest + after.drop_last());
        assert forall|i: int| 0 <= i < after.drop_last().len() implies is_blank(
            #[trigger] after.drop_last()[i],
        ) by {
            assert(after.drop_last()[i] == after[i]);
        }
        lemma_trim_end(rest, after.drop_last());
    }
}

/// Trimming takes off the white space on both sides, all of it, and nothing else.
pub proof fn law_trimming_takes_off_white_space(
    text: Seq<char>,
    before: Seq<char>,
    core: Seq<char>,
    after: Seq<char>,
)
    requires
        text == before + core + after,
        forall|i: int| 0 <= i < before.len() ==> is_blank(#[trigger] before[i]),
        forall|i: int| 0 <= i < after.len() ==> is_blank(#[trigger] after[i]),
        core.len() > 0 ==> !is_blank(core[0]) && !is_blank(core.last()),
        core.len() == 0 ==> after.len() == 0,
    ensures
        trim(text) == core,
{
    assert(before + core + after =~= before + (core + after));
    lemma_trim_start(before, core + after);
    lemma_trim_end(core, after);
}

/// The same of the function that trims.
pub proof fn law_a_trimmed_text(
    text: &str,
    before: Seq<char>,
    core: Seq<char>,
    after: Seq<char>,
    r: String,
)
    requires
        call_ensures(trimmed, (text,), r),
        text@ == before + core + after,
        forall|i: int| 0 <= i < before.len() ==> is_blank(#[trigger] before[i]),
        forall|i: int| 0 <= i < after.len() ==> is_blank(#[trigger] after[i]),
        core.len() > 0 ==> !is_blank(core[0]) && !is_blank(core.last()),
        core.len() == 0 ==> after.len() == 0,
    ensures
        r@ == core,
{
    law_trimming_takes_off_white_space(text@, before, core, after);
}

proof fn lemma_split_pieces(s: Seq<char>, sep: char)
    ensures
        split_on(s, sep).len() > 0,
        forall|i: int| 0 <= i < split_on(s, sep).len() ==> !(#[trigger] split_on(s, sep)[i]).contains(
            sep,
        ),
        join(split_on(s, sep), seq![sep]) == s,
    decreases s.len(),
{
    let pieces = split_on(s, sep);
    if s.len() == 0 {
        assert(join(pieces, seq![sep]) =~= s);
    } else {
        let init = s.drop_last();
        let before = split_on(init, sep);
        lemma_split_pieces(init, sep);
        if s.last() == sep {
            assert(pieces.drop_last() =~= before);
            assert(join(pieces, seq![sep]) =~= init + seq![sep] + Seq::<char>::empty());
            assert(init + seq![sep] + Seq::<char>::empty() =~= s);
            assert forall|i: int| 0 <= i < pieces.len() implies !(#[trigger] pieces[i]).contains(
                sep,
            ) by {
                if i < before.len() {
                    assert(pieces[i] == before[i]);
                }
            }
        } else {
            let last = before.last();
            assert(pieces.drop_last() =~= before.drop_last());
            assert(pieces.last() == last.push(s.last()));
            assert forall|i: int| 0 <= i < pieces.len() implies !(#[trigger] pieces[i]).contains(
                sep,
            ) by {
                if i < before.len() - 1 {
                    assert(pieces[i] == before[i]);
                } else {
                    assert(!before[before.len() - 1].contains(sep));
                    if last.push(s.last()).contains(sep) {
                        let k = choose|k: int|
                            0 <= k < last.push(s.last()).len() && last.push(s.last())[k] == sep;
                        assert(last[k] == sep);
                    }
                }
            }
            if before.len() == 1 {
                assert(join(before, seq![sep]) == before[0]);
                assert(join(pieces, seq![sep]) == pieces[0]);
                assert(init.push(s.last()) =~= s);
            } else {
                let head = join(before.drop_last(), seq![sep]) + seq![sep];
                assert(join(before, seq![sep]) == head + last);
                assert(join(pieces, seq![sep]) == head + last.push(s.last()));
                assert(head + last.push(s.last()) =~= (head + last).push(s.last()));
                assert(init.push(s.last()) =~= s);
            }
        }
    }
}

/// Splitting a text at a character gives pieces without that character, which
/// make the text again with the character between them.
pub proof fn law_splitting_is_undone_by_joining(text: &str, sep: char, pieces: Vec<String>)
    requires
        call_ensures(split_text, (text, sep), pieces),
    ensures
        pieces@.len() > 0,
        forall|i: int| 0 <= i < pieces@.len() ==> !(#[trigger] pieces@[i])@.contains(sep),
        join(texts(pieces@), seq![sep]) == text@,
{
    lemma_split_pieces(text@, sep);
    assert forall|i: int| 0 <= i < pieces@.len() implies !(#[trigger] pieces@[i])@.contains(sep) by {
        assert(texts(pieces@)[i] == pieces@[i]@);
    }
}

/// Joining writes the texts one after the other, with the separator between
/// neighbours: none makes an empty text, one makes itself, and one more is
/// appended behind a separator.
pub proof fn law_joining_appends(
    list: Vec<String>,
    sep: &str,
    joined: String,
    more: Vec<String>,
    longer: String,
)
    requires
        call_ensures(join_texts, (&list, sep), joined),
        call_ensures(join_texts, (&more, sep), longer),
        more@.len() == list@.len() + 1,
        forall|i: int| 0 <= i < list@.len() ==> (#[trigger] more@[i])@ == list@[i]@,
    ensures
        list@.len() == 0 ==> joined@.len() == 0 && longer@ == more@[0]@,
        list@.len() > 0 ==> longer@ == joined@ + sep@ + more@.last()@,
{
    assert(texts(more@).drop_last() =~= texts(list@));
    assert(texts(more@).last() == more@.last()@);
}

/// Occurring in a text is standing there, character by character.
pub proof fn lemma_occurs(pattern: Seq<char>, text: Seq<char>)
    ensures
        occurs_in(pattern, text) <==> exists|i: int| #[trigger] stands_at(pattern, text, i),
{
    assert forall|i: int| #[trigger] stands_at(pattern, text, i) <==> occurs_at(
        pattern,
        text,
        i,
    ) by {
        if 0 <= i && i + pattern.len() <= text.len() {
            let part = text.subrange(i, i + pattern.len());
            if stands_at(pattern, text, i) {
                assert forall|k: int| 0 <= k < part.len() implies part[k] == pattern[k] by {
                    assert(pattern[k] == text[i + k]);
                }
                assert(part =~= pattern);
            }
            if part == pattern {
                assert forall|k: int| 0 <= k < pattern.len() implies #[trigger] pattern[k] == text[i
                    + k] by {
                    assert(part[k] == text[i + k]);
                }
            }
        }
    }
    if occurs_in(pattern, text) {
        let i = choose|i: int| #[trigger] occurs_at(pattern, text, i);
        assert(stands_at(pattern, text, i));
    }
}

/// A text occurs in another exactly if it stands there, character by character,
/// from some position on.
pub proof fn law_occurrence(text: &str, pattern: &str, r: bool)
    requires
        call_ensures(contains_text, (text, pattern), r),
    ensures
        r <==> exists|i: int| #[trigger] stands_at(pattern@, text@, i),
{
    lemma_occurs(pattern@, text@);
}

/// The characters of `pattern` stand in `text` from position `i` on.
pub open spec fn stands_at(pattern: Seq<char>, text: Seq<char>, i: int) -> bool {
    &&& 0 <= i
    &&& i + pattern.len() <= text.len()
    &&& forall|k: int| 0 <= k < pattern.len() ==> #[trigger] pattern[k] == text[i + k]
}

/// The position of a character is that of its first occurrence, and the length
/// of the text if it does not occur.
pub proof fn law_the_position_of_a_character(text: &str, c: char, at: usize)
    requires
        call_ensures(find_char, (text, c), at),
    ensures
        at <= text@.len(),
        at < text@.len() ==> text@[at as int] == c,
        forall|i: int| 0 <= i < at ==> text@[i] != c,
{
    lemma_first_position(text@, c);
}

/// One decimal digit reads as its value, and a further digit makes a number ten
/// times as large plus its own value, as long as it fits in 64 bits.
pub proof fn law_a_number_is_read_digit_by_digit(
    text: &str,
    r: Option<u64>,
    longer: &str,
    more: Option<u64>,
    digit: char,
    value: u64,
)
    requires
        call_ensures(parse_number, (text,), r),
        call_ensures(parse_number, (longer,), more),
        longer@ == text@.push(digit),
        '0' <= digit && digit <= '9',
        value == digit as u32 - '0' as u32,
    ensures
        text@.len() == 0 ==> r is None && more == Some(value),
        r matches Some(n) ==> more == if n * 10 + value <= u64::MAX {
            Some((n * 10 + value) as u64)
        } else {
            None::<u64>
        },
{
    let (a, b) = (text@, longer@);
    if a.len() == 0 {
        assert(b.drop_last() =~= a);
        assert(b[0] == digit);
        assert(digit != '+');
        assert(decimal_value(b.drop_last()) == 0);
        assert(b.last() == digit);
        assert(decimal_value(b) == value);
        assert forall|i: int| 0 <= i < b.len() implies '0' <= #[trigger] b[i] && b[i] <= '9' by {}
    } else if r is Some {
        let da = if a[0] == '+' {
            a.skip(1)
        } else {
            a
        };
        let db = if b[0] == '+' {
            b.skip(1)
        } else {
            b
        };
        assert(b[0] == a[0]);
        assert(db =~= da.push(digit));
        assert(db.drop_last() =~= da);
        assert(db.last() == digit);
        assert forall|i: int| 0 <= i < db.len() implies '0' <= #[trigger] db[i] && db[i] <= '9' by {
            if i < da.len() {
                assert(da[i] == db[i]);
            }
        }
    }
}

/// A text with anything but decimal digits, apart from one leading plus sign, is
/// no number, and neither is one without a digit.
pub proof fn law_only_digits_make_a_number(text: &str, r: Option<u64>, i: int)
    requires
        call_ensures(parse_number, (text,), r),
        0 <= i < text@.len(),
        !('0' <= text@[i] && text@[i] <= '9'),
        i > 0 || text@[0] != '+' || text@.len() == 1,
    ensures
        r is None,
{
    if text@[0] == '+' {
        if text@.len() > 1 {
            assert(text@.skip(1)[i - 1] == text@[i]);
        }
    }
}

/// A leading plus sign changes nothing.
pub proof fn law_a_plus_sign_changes_nothing(
    text: &str,
    r: Option<u64>,
    signed: &str,
    more: Option<u64>,
)
    requires
        call_ensures(parse_number, (text,), r),
        call_ensures(parse_number, (signed,), more),
        signed@ == seq!['+'] + text@,
        text@.len() > 0 ==> text@[0] != '+',
    ensures
        more == r,
{
    assert(signed@.skip(1) =~= text@);
}

} // verus!
