//! The text operations that header and path handling is made of, over
//! characters.
use vstd::prelude::*;

verus! {

/// The characters of a string literal or a string, in a vector.
pub fn chars_of(text: &str) -> (chars: Vec<char>)
    ensures
        chars@ == text@,
{
    let mut chars: Vec<char> = Vec::new();
    for c in it: text.chars()
        invariant
            it.seq() == text@,
            chars@ == text@.take(it.index()),
    {
        assert(text@.take(it.index() + 1) == text@.take(it.index()).push(text@[it.index()]));
        chars.push(c);
    }
    assert(text@.take(text@.len() as int) == text@);
    chars
}

/// The ASCII lower-case form of one character.
pub open spec fn lower_char(c: char) -> char {
    if 'A' <= c && c <= 'Z' {
        (c as u32 + 32) as char
    } else {
        c
    }
}

/// The text with its ASCII letters in lower case.
pub open spec fn lower(s: Seq<char>) -> Seq<char> {
    Seq::new(s.len(), |i: int| lower_char(s[i]))
}

fn to_lower_char(c: char) -> (r: char)
    ensures
        r == lower_char(c),
{
    if 'A' <= c && c <= 'Z' {
        ((c as u8) + 32) as char
    } else {
        c
    }
}

/// Whether two texts are the same but for the case of ASCII letters.
pub fn eq_ignore_case(a: &str, b: &str) -> (r: bool)
    ensures
        r == (lower(a@) == lower(b@)),
{
    let x: Vec<char> = chars_of(a);
    let y: Vec<char> = chars_of(b);
    if x.len() != y.len() {
        assert(lower(a@).len() != lower(b@).len());
        return false;
    }
    let mut i: usize = 0;
    while i < x.len()
        invariant
            x@ == a@,
            y@ == b@,
            x.len() == y.len(),
            i <= x.len(),
            forall|j: int| 0 <= j < i ==> lower_char(a@[j]) == lower_char(b@[j]),
        decreases x.len() - i,
    {
        if to_lower_char(x[i]) != to_lower_char(y[i]) {
            assert(lower(a@)[i as int] != lower(b@)[i as int]);
            return false;
        }
        i += 1;
    }
    assert(lower(a@) =~= lower(b@));
    true
}

/// `s` begins with `prefix`.
pub open spec fn starts_with(s: Seq<char>, prefix: Seq<char>) -> bool {
    prefix.len() <= s.len() && s.take(prefix.len() as int) == prefix
}

/// Whether `text`, in ASCII lower case, begins with `prefix`.
pub fn lower_starts_with(text: &str, prefix: &str) -> (r: bool)
    ensures
        r == starts_with(lower(text@), prefix@),
{
    let x: Vec<char> = chars_of(text);
    let p: Vec<char> = chars_of(prefix);
    if x.len() < p.len() {
        return false;
    }
    let mut i: usize = 0;
    while i < p.len()
        invariant
            x@ == text@,
            p@ == prefix@,
            i <= p.len() <= x.len(),
            forall|j: int| 0 <= j < i ==> lower_char(text@[j]) == prefix@[j],
        decreases p.len() - i,
    {
        if to_lower_char(x[i]) != p[i] {
            assert(lower(text@).take(prefix@.len() as int)[i as int] != prefix@[i as int]);
            return false;
        }
        i += 1;
    }
    assert(lower(text@).take(prefix@.len() as int) =~= prefix@);
    true
}

/// Whether `text`, in ASCII lower case, is `other`.
pub fn lower_is(text: &str, other: &str) -> (r: bool)
    ensures
        r == (lower(text@) == other@),
{
    let x: Vec<char> = chars_of(text);
    let y: Vec<char> = chars_of(other);
    let begins: bool = lower_starts_with(text, other);
    assert(lower(text@).take(lower(text@).len() as int) == lower(text@));
    x.len() == y.len() && begins
}

/// The characters of the Unicode `White_Space` property.
pub open spec fn is_space(c: char) -> bool {
    let n = c as u32;
    ||| 0x09 <= n <= 0x0d
    ||| n == 0x20
    ||| n == 0x85
    ||| n == 0xa0
    ||| n == 0x1680
    ||| 0x2000 <= n <= 0x200a
    ||| n == 0x2028
    ||| n == 0x2029
    ||| n == 0x202f
    ||| n == 0x205f
    ||| n == 0x3000
}

fn char_is_space(c: char) -> (r: bool)
    ensures
        r == is_space(c),
{
    let n: u32 = c as u32;
    (0x09 <= n && n <= 0x0d) || n == 0x20 || n == 0x85 || n == 0xa0 || n == 0x1680 || (0x2000 <= n
        && n <= 0x200a) || n == 0x2028 || n == 0x2029 || n == 0x202f || n == 0x205f || n == 0x3000
}

/// The text without its leading white space.
pub open spec fn trim_start(s: Seq<char>) -> Seq<char>
    decreases s.len(),
{
    if s.len() > 0 && is_space(s[0]) {
        trim_start(s.drop_first())
    } else {
        s
    }
}

/// The text without its trailing white space.
pub open spec fn trim_end(s: Seq<char>) -> Seq<char>
    decreases s.len(),
{
    if s.len() > 0 && is_space(s.last()) {
        trim_end(s.drop_last())
    } else {
        s
    }
}

/// The text without leading and trailing white space.
pub open spec fn trim(s: Seq<char>) -> Seq<char> {
    trim_end(trim_start(s))
}

/// A copy of the text without leading and trailing white space.
pub fn trimmed(text: &str) -> (r: String)
    ensures
        r@ == trim(text@),
{
    let x: Vec<char> = chars_of(text);
    let mut from: usize = 0;
    assert(x@.skip(0) == x@);
    while from < x.len() && char_is_space(x[from])
        invariant
            x@ == text@,
            from <= x.len(),
            trim_start(text@) == trim_start(x@.skip(from as int)),
        decreases x.len() - from,
    {
        assert(x@.skip(from as int).drop_first() == x@.skip(from + 1));
        from += 1;
    }
    assert(trim_start(text@) == x@.skip(from as int));
    let mut to: usize = x.len();
    assert(x@.subrange(from as int, to as int) == x@.skip(from as int));
    while from < to && char_is_space(x[to - 1])
        invariant
            x@ == text@,
            from <= to <= x.len(),
            trim(text@) == trim_end(x@.subrange(from as int, to as int)),
        decreases to,
    {
        assert(x@.subrange(from as int, to as int).last() == x@[to - 1]);
        assert(x@.subrange(from as int, to as int).drop_last() == x@.subrange(
            from as int,
            to - 1,
        ));
        to -= 1;
    }
    if from < to {
        assert(x@.subrange(from as int, to as int).last() == x@[to - 1]);
    }
    text.substring_char(from, to).to_owned()
}

/// The pieces of `s` between its occurrences of `sep`, in order; one piece
/// more than there are occurrences.
pub open spec fn split_on(s: Seq<char>, sep: char) -> Seq<Seq<char>>
    decreases s.len(),
{
    if s.len() == 0 {
        seq![Seq::<char>::empty()]
    } else {
        let before = split_on(s.drop_last(), sep);
        if s.last() == sep {
            before.push(Seq::<char>::empty())
        } else {
            before.drop_last().push(before.last().push(s.last()))
        }
    }
}

/// The texts of a list of strings.
pub open spec fn texts(list: Seq<String>) -> Seq<Seq<char>> {
    Seq::new(list.len(), |i: int| list[i]@)
}

/// The pieces of `text` between its occurrences of `sep`, as strings.
pub fn split_text(text: &str, sep: char) -> (pieces: Vec<String>)
    ensures
        texts(pieces@) == split_on(text@, sep),
{
    let x: Vec<char> = chars_of(text);
    let mut pieces: Vec<String> = Vec::new();
    let mut from: usize = 0;
    let mut i: usize = 0;
    assert(x@.take(0) == Seq::<char>::empty());
    assert(texts(pieces@).push(x@.subrange(0, 0)) =~= split_on(x@.take(0), sep));
    while i < x.len()
        invariant
            x@ == text@,
            from <= i <= x.len(),
            split_on(x@.take(i as int), sep) == texts(pieces@).push(
                x@.subrange(from as int, i as int),
            ),
        decreases x.len() - i,
    {
        let ghost before = texts(pieces@);
        assert(x@.take(i + 1).drop_last() == x@.take(i as int));
        assert(x@.take(i + 1).last() == x@[i as int]);
        assert(before.push(x@.subrange(from as int, i as int)).drop_last() == before);
        if x[i] == sep {
            pieces.push(text.substring_char(from, i).to_owned());
            from = i + 1;
            assert(texts(pieces@) =~= before.push(pieces@.last()@));
            assert(x@.subrange(i + 1, i + 1) == Seq::<char>::empty());
        } else {
            assert(x@.subrange(from as int, i as int).push(x@[i as int]) == x@.subrange(
                from as int,
                i + 1,
            ));
        }
        i += 1;
    }
    assert(x@.take(x.len() as int) == x@);
    let ghost before = texts(pieces@);
    pieces.push(text.substring_char(from, x.len()).to_owned());
    assert(texts(pieces@) =~= before.push(pieces@.last()@));
    pieces
}

/// The texts of `list` one after the other, with `sep` between neighbours.
pub open spec fn join(list: Seq<Seq<char>>, sep: Seq<char>) -> Seq<char>
    decreases list.len(),
{
    if list.len() == 0 {
        Seq::empty()
    } else if list.len() == 1 {
        list[0]
    } else {
        join(list.drop_last(), sep) + sep + list.last()
    }
}

/// The strings of `list` joined with `sep` between neighbours.
pub fn join_texts(list: &Vec<String>, sep: &str) -> (joined: String)
    ensures
        joined@ == join(texts(list@), sep@),
{
    let mut joined: String = String::new();
    let mut i: usize = 0;
    assert(texts(list@).take(0).len() == 0);
    while i < list.len()
        invariant
            i <= list.len(),
            joined@ == join(texts(list@).take(i as int), sep@),
        decreases list.len() - i,
    {
        let ghost upto = texts(list@).take(i + 1);
        assert(upto.drop_last() == texts(list@).take(i as int));
        assert(upto.last() == list@[i as int]@);
        if i > 0 {
            joined.append(sep);
        }
        joined.append(list[i].as_str());
        if i == 0 {
            assert(joined@ =~= upto[0]);
        }
        i += 1;
    }
    assert(texts(list@).take(list.len() as int) == texts(list@));
    joined
}

/// `pattern` occurs in `s`.
pub open spec fn occurs_in(pattern: Seq<char>, s: Seq<char>) -> bool {
    exists|i: int| #[trigger] occurs_at(pattern, s, i)
}

/// `pattern` occurs in `s` at position `i`.
pub open spec fn occurs_at(pattern: Seq<char>, s: Seq<char>, i: int) -> bool {
    0 <= i && i + pattern.len() <= s.len() && s.subrange(i, i + pattern.len()) == pattern
}

/// Whether `pattern` occurs in `text`.
pub fn contains_text(text: &str, pattern: &str) -> (r: bool)
    ensures
        r == occurs_in(pattern@, text@),
{
    let x: Vec<char> = chars_of(text);
    let p: Vec<char> = chars_of(pattern);
    if x.len() < p.len() {
        return false;
    }
    let mut i: usize = 0;
    while i <= x.len() - p.len()
        invariant
            x@ == text@,
            p@ == pattern@,
            p.len() <= x.len(),
            i <= x.len() - p.len() + 1,
            forall|k: int| 0 <= k < i ==> !occurs_at(pattern@, text@, k),
        decreases x.len() - p.len() + 1 - i,
    {
        let mut j: usize = 0;
        while j < p.len() && x[i + j] == p[j]
            invariant
                x@ == text@,
                p@ == pattern@,
                p.len() <= x.len(),
                i <= x.len() - p.len(),
                j <= p.len(),
                forall|k: int| 0 <= k < j ==> x@[i + k] == p@[k],
            decreases p.len() - j,
        {
            j += 1;
        }
        if j == p.len() {
            assert(text@.subrange(i as int, i + pattern@.len()) =~= pattern@);
            assert(occurs_at(pattern@, text@, i as int));
            return true;
        }
        assert(text@.subrange(i as int, i + pattern@.len())[j as int] != pattern@[j as int]);
        i += 1;
    }
    assert forall|k: int| !#[trigger] occurs_at(pattern@, text@, k) by {
        if occurs_at(pattern@, text@, k) {
            assert(k < i);
        }
    }
    false
}

/// Whether two texts are the same.
pub fn same_text(a: &str, b: &str) -> (r: bool)
    ensures
        r == (a@ == b@),
{
    let x: Vec<char> = chars_of(a);
    let y: Vec<char> = chars_of(b);
    if x.len() != y.len() {
        return false;
    }
    let mut i: usize = 0;
    while i < x.len()
        invariant
            x@ == a@,
            y@ == b@,
            x.len() == y.len(),
            i <= x.len(),
            forall|j: int| 0 <= j < i ==> a@[j] == b@[j],
        decreases x.len() - i,
    {
        if x[i] != y[i] {
            return false;
        }
        i += 1;
    }
    assert(a@ =~= b@);
    true
}

/// The position of the first `c` in `s`, or the length of `s` when there is
/// none.
pub open spec fn first_position(s: Seq<char>, c: char) -> int
    decreases s.len(),
{
    if s.len() == 0 || s[0] == c {
        0
    } else {
        1 + first_position(s.drop_first(), c)
    }
}

pub proof fn lemma_first_position(s: Seq<char>, c: char)
    ensures
        0 <= first_position(s, c) <= s.len(),
        forall|i: int| 0 <= i < first_position(s, c) ==> s[i] != c,
        first_position(s, c) < s.len() ==> s[first_position(s, c)] == c,
        s.contains(c) <==> first_position(s, c) < s.len(),
    decreases s.len(),
{
    if s.len() > 0 && s[0] != c {
        let rest = s.drop_first();
        lemma_first_position(rest, c);
        assert forall|i: int| 0 <= i < first_position(s, c) implies s[i] != c by {
            if i > 0 {
                assert(rest[i - 1] == s[i]);
            }
        }
        if s.contains(c) {
            let k = choose|k: int| 0 <= k < s.len() && s[k] == c;
            assert(rest[k - 1] == c);
        }
    }
}

/// The position of the first `c` in `text`, or the number of its characters.
pub fn find_char(text: &str, c: char) -> (at: usize)
    ensures
        at == first_position(text@, c),
        at <= text@.len(),
{
    let x: Vec<char> = chars_of(text);
    let mut i: usize = 0;
    proof {
        lemma_first_position(text@, c);
    }
    while i < x.len() && x[i] != c
        invariant
            x@ == text@,
            i <= x.len(),
            i <= first_position(text@, c) <= x.len(),
            forall|j: int| 0 <= j < first_position(text@, c) ==> text@[j] != c,
            first_position(text@, c) < text@.len() ==> text@[first_position(text@, c)] == c,
        decreases x.len() - i,
    {
        i += 1;
    }
    i
}

/// The text without its leading `c`s.
pub open spec fn trim_start_of(s: Seq<char>, c: char) -> Seq<char>
    decreases s.len(),
{
    if s.len() > 0 && s[0] == c {
        trim_start_of(s.drop_first(), c)
    } else {
        s
    }
}

/// A copy of the text without its leading `c`s.
pub fn without_leading(text: &str, c: char) -> (r: String)
    ensures
        r@ == trim_start_of(text@, c),
{
    let x: Vec<char> = chars_of(text);
    let mut from: usize = 0;
    assert(x@.skip(0) == x@);
    while from < x.len() && x[from] == c
        invariant
            x@ == text@,
            from <= x.len(),
            trim_start_of(text@, c) == trim_start_of(x@.skip(from as int), c),
        decreases x.len() - from,
    {
        assert(x@.skip(from as int).drop_first() == x@.skip(from + 1));
        from += 1;
    }
    assert(trim_start_of(text@, c) == x@.subrange(from as int, x.len() as int));
    text.substring_char(from, x.len()).to_owned()
}

/// A text of decimal digits only.
pub open spec fn all_digits(s: Seq<char>) -> bool {
    forall|i: int| 0 <= i < s.len() ==> '0' <= #[trigger] s[i] && s[i] <= '9'
}

/// The number that a text of decimal digits denotes.
pub open spec fn decimal_value(s: Seq<char>) -> nat
    decreases s.len(),
{
    if s.len() == 0 {
        0
    } else {
        decimal_value(s.drop_last()) * 10 + (s.last() as u32 - '0' as u32) as nat
    }
}

/// What reading `s` as an unsigned 64-bit number gives: an optional `+`, then
/// one or more decimal digits and nothing else, of a value that fits.
pub open spec fn number_in(s: Seq<char>) -> Option<u64> {
    let digits = if s.len() > 0 && s[0] == '+' {
        s.skip(1)
    } else {
        s
    };
    if digits.len() > 0 && all_digits(digits) && decimal_value(digits) <= u64::MAX {
        Some(decimal_value(digits) as u64)
    } else {
        None
    }
}

proof fn lemma_value_grows(s: Seq<char>, n: int)
    requires
        0 <= n <= s.len(),
    ensures
        decimal_value(s.take(n)) <= decimal_value(s),
    decreases s.len() - n,
{
    if n < s.len() {
        lemma_value_grows(s, n + 1);
        assert(s.take(n + 1).drop_last() == s.take(n));
    } else {
        assert(s.take(n) == s);
    }
}

/// Reads a text as an unsigned 64-bit number.
pub fn parse_number(text: &str) -> (r: Option<u64>)
    ensures
        r == number_in(text@),
{
    let x: Vec<char> = chars_of(text);
    let from: usize = if x.len() > 0 && x[0] == '+' {
        1
    } else {
        0
    };
    let ghost digits = x@.skip(from as int);
    assert(x@.skip(0) == x@);
    if from == x.len() {
        return None;
    }
    let mut value: u64 = 0;
    let mut i: usize = from;
    assert(digits.take(0) == Seq::<char>::empty());
    while i < x.len()
        invariant
            from <= i <= x.len(),
            from <= 1,
            x@ == text@,
            digits == x@.skip(from as int),
            digits.len() > 0,
            number_in(text@) == (if all_digits(digits) && decimal_value(digits) <= u64::MAX {
                Some(decimal_value(digits) as u64)
            } else {
                None
            }),
            value == decimal_value(digits.take(i - from)),
            forall|j: int| 0 <= j < i - from ==> '0' <= #[trigger] digits[j] && digits[j] <= '9',
        decreases x.len() - i,
    {
        let c: char = x[i];
        assert(digits[i - from] == c);
        if c < '0' || c > '9' {
            assert(!all_digits(digits));
            return None;
        }
        assert(digits.take(i + 1 - from).drop_last() == digits.take(i - from));
        assert(digits.take(i + 1 - from).last() == c);
        proof {
            lemma_value_grows(digits, i + 1 - from);
        }
        let d: u64 = (c as u32 - '0' as u32) as u64;
        if value > (u64::MAX - d) / 10 {
            assert(decimal_value(digits) > u64::MAX);
            return None;
        }
        value = value * 10 + d;
        i += 1;
    }
    assert(digits.take(digits.len() as int) == digits);
    Some(value)
}

/// Whether `list` holds `text`.
pub fn list_has(list: &[String], text: &str) -> (r: bool)
    ensures
        r == texts(list@).contains(text@),
{
    let mut i: usize = 0;
    while i < list.len()
        invariant
            i <= list.len(),
            forall|j: int| 0 <= j < i ==> list@[j]@ != text@,
        decreases list.len() - i,
    {
        if same_text(list[i].as_str(), text) {
            assert(texts(list@)[i as int] == text@);
            return true;
        }
        i += 1;
    }
    assert forall|j: int| 0 <= j < texts(list@).len() implies texts(list@)[j] != text@ by {
        assert(texts(list@)[j] == list@[j]@);
    }
    false
}

} // verus!
