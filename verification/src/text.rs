//! Text helpers: searching, trimming and number formatting over characters.
use vstd::prelude::*;

verus! {

/// A letter from A to Z as its small letter; any other character as it is.
pub open spec fn ascii_lower(c: char) -> char {
    if 0x41 <= c as int <= 0x5A {
        (c as int + 0x20) as char
    } else {
        c
    }
}

/// A text with its letters from A to Z as small letters.
pub open spec fn ascii_lowered(text: Seq<char>) -> Seq<char> {
    Seq::new(text.len(), |i: int| ascii_lower(text[i]))
}

/// The text holds ASCII characters alone.
pub open spec fn ascii_text(text: Seq<char>) -> bool {
    forall|i: int| 0 <= i < text.len() ==> (#[trigger] text[i] as int) < 0x80
}

/// `needle` stands in `hay` from position `at` on.
pub open spec fn occurs_at(hay: Seq<char>, needle: Seq<char>, at: int) -> bool {
    &&& 0 <= at
    &&& at + needle.len() <= hay.len()
    &&& hay.subrange(at, at + needle.len()) == needle
}

/// `needle` is a contiguous part of `hay`.
pub open spec fn is_infix(hay: Seq<char>, needle: Seq<char>) -> bool {
    exists|at: int| occurs_at(hay, needle, at)
}

/// The lower-case form that `str::to_lowercase` gives a text.
pub uninterp spec fn lowercase(text: Seq<char>) -> Seq<char>;

/// `str::to_lowercase`: the result is a function of the text alone, here under
/// the name [`lowercase`]. It lower-cases ASCII letters in addition to others:
/// the case of a letter from A to Z makes no difference to it, an ASCII text has
/// just these letters lowered, and an ASCII part of a text stands in the result
/// with these letters lowered. Nothing is claimed of which characters it maps
/// others to.
pub assume_specification[ str::to_lowercase ](s: &str) -> (lower: String)
    ensures
        lower@ == lowercase(s@),
        lower@ == lowercase(ascii_lowered(s@)),
        ascii_text(s@) ==> lower@ == ascii_lowered(s@),
        forall|part: Seq<char>|
            ascii_text(part) && is_infix(ascii_lowered(s@), part) ==> #[trigger] is_infix(
                lower@,
                part,
            ),
;

/// A text in lower case.
pub open spec fn lowered(text: Seq<char>) -> Seq<char> {
    if ascii_text(text) {
        ascii_lowered(text)
    } else {
        lowercase(ascii_lowered(text))
    }
}

/// The two texts differ at most in the case of letters from A to Z.
pub open spec fn same_but_for_case(a: Seq<char>, b: Seq<char>) -> bool {
    ascii_lowered(a) == ascii_lowered(b)
}

/// Texts that differ at most in the case of letters from A to Z have one lower
/// case.
pub proof fn case_is_lost(a: Seq<char>, b: Seq<char>)
    requires
        same_but_for_case(a, b),
    ensures
        lowered(a) == lowered(b),
{
    assert(a.len() == ascii_lowered(a).len() && b.len() == ascii_lowered(b).len());
    assert forall|i: int| 0 <= i < a.len() implies ((a[i] as int) < 0x80) == ((b[i] as int)
        < 0x80) by {
        assert(ascii_lowered(a)[i] == ascii_lowered(b)[i]);
    }
    assert(ascii_text(a) == ascii_text(b));
}

/// What is a part of a text is a part of every text that the text is a part of.
pub proof fn infix_of_longer(before: Seq<char>, middle: Seq<char>, after: Seq<char>, part: Seq<char>)
    requires
        is_infix(middle, part),
    ensures
        is_infix(before + middle + after, part),
{
    let at = choose|at: int| occurs_at(middle, part, at);
    let whole = before + middle + after;
    assert(whole.subrange(before.len() + at, before.len() + at + part.len()) =~= middle.subrange(
        at,
        at + part.len(),
    ));
    assert(occurs_at(whole, part, before.len() + at));
}

/// The characters of a text.
pub fn chars_of(s: &str) -> (chars: Vec<char>)
    ensures
        chars@ == s@,
{
    let mut chars: Vec<char> = Vec::new();
    for c in it: s.chars()
        invariant
            it.seq() == s@,
            chars@ == s@.take(it.index()),
    {
        chars.push(c);
    }
    chars
}

/// Whether `needle` stands in `hay` from position `at` on.
fn matches_at(hay: &Vec<char>, needle: &Vec<char>, at: usize) -> (found: bool)
    requires
        at + needle@.len() <= hay@.len(),
    ensures
        found == occurs_at(hay@, needle@, at as int),
{
    let total: usize = hay.len();
    for i in 0..needle.len()
        invariant
            total == hay@.len(),
            at + needle@.len() <= total,
            forall|j: int| 0 <= j < i ==> hay@[at + j] == needle@[j],
    {
        if hay[at + i] != needle[i] {
            assert(hay@.subrange(at as int, at + needle@.len())[i as int] != needle@[i as int]);
            return false;
        }
    }
    assert(hay@.subrange(at as int, at + needle@.len()) =~= needle@);
    true
}

/// Whether `needle` is a contiguous part of `hay`.
pub fn contains(hay: &str, needle: &str) -> (found: bool)
    ensures
        found == is_infix(hay@, needle@),
{
    let hay_chars = chars_of(hay);
    let needle_chars = chars_of(needle);
    if needle_chars.len() > hay_chars.len() {
        return false;
    }
    let last: usize = hay_chars.len() - needle_chars.len();
    for at in 0..last
        invariant
            hay_chars@ == hay@,
            needle_chars@ == needle@,
            last + needle@.len() == hay@.len(),
            forall|k: int| 0 <= k < at ==> !occurs_at(hay@, needle@, k),
    {
        if matches_at(&hay_chars, &needle_chars, at) {
            return true;
        }
    }
    matches_at(&hay_chars, &needle_chars, last)
}

/// Whether two texts are the same.
pub fn same(a: &str, b: &str) -> (equal: bool)
    ensures
        equal == (a@ == b@),
{
    let left: String = a.to_owned();
    let right: String = b.to_owned();
    left == right
}

/// The characters with the Unicode property White_Space.
pub open spec fn white_space(c: char) -> bool {
    let v = c as int;
    ||| 0x09 <= v <= 0x0D
    ||| v == 0x20
    ||| v == 0x85
    ||| v == 0xA0
    ||| v == 0x1680
    ||| 0x2000 <= v <= 0x200A
    ||| v == 0x2028
    ||| v == 0x2029
    ||| v == 0x202F
    ||| v == 0x205F
    ||| v == 0x3000
}

/// Whether a character counts as white space.
pub fn is_white_space(c: char) -> (white: bool)
    ensures
        white == white_space(c),
{
    let v: u32 = c as u32;
    (0x09 <= v && v <= 0x0D) || v == 0x20 || v == 0x85 || v == 0xA0 || v == 0x1680 || (0x2000 <= v
        && v <= 0x200A) || v == 0x2028 || v == 0x2029 || v == 0x202F || v == 0x205F || v == 0x3000
}

/// The position of the first `c`, or the length where there is none.
pub open spec fn until(s: Seq<char>, c: char) -> nat
    decreases s.len(),
{
    if s.len() == 0 || s[0] == c {
        0
    } else {
        1 + until(s.drop_first(), c)
    }
}

/// `until` stops at the first `c` and nowhere else.
pub proof fn until_is_first(s: Seq<char>, c: char)
    ensures
        until(s, c) <= s.len(),
        until(s, c) < s.len() ==> s[until(s, c) as int] == c,
        forall|i: int| 0 <= i < until(s, c) ==> s[i] != c,
    decreases s.len(),
{
    if s.len() > 0 && s[0] != c {
        let rest = s.drop_first();
        until_is_first(rest, c);
        assert forall|i: int| 0 <= i < until(s, c) implies s[i] != c by {
            if i > 0 {
                assert(rest[i - 1] == s[i]);
            }
        }
    }
}

/// A position that holds `c`, with none before it, is where `until` stops; so is
/// the end of a text without `c`.
pub proof fn until_at(s: Seq<char>, c: char, at: int)
    requires
        0 <= at <= s.len(),
        at < s.len() ==> s[at] == c,
        forall|i: int| 0 <= i < at ==> s[i] != c,
    ensures
        until(s, c) == at,
{
    until_is_first(s, c);
}

/// A text without the white space at its front.
pub open spec fn trim_start(s: Seq<char>) -> Seq<char>
    decreases s.len(),
{
    if s.len() > 0 && white_space(s[0]) {
        trim_start(s.drop_first())
    } else {
        s
    }
}

/// A text without the white space at its back.
pub open spec fn trim_end(s: Seq<char>) -> Seq<char>
    decreases s.len(),
{
    if s.len() > 0 && white_space(s.last()) {
        trim_end(s.drop_last())
    } else {
        s
    }
}

/// A text without the white space at its front and its back.
pub open spec fn trim(s: Seq<char>) -> Seq<char> {
    trim_end(trim_start(s))
}

/// The position of the first `c` in `chars[from..to]`, or `to` where there is
/// none.
pub fn find_char(chars: &Vec<char>, from: usize, to: usize, c: char) -> (at: usize)
    requires
        from <= to <= chars@.len(),
    ensures
        from <= at <= to,
        at - from == until(chars@.subrange(from as int, to as int), c),
{
    let ghost part = chars@.subrange(from as int, to as int);
    let mut at: usize = from;
    while at < to && chars[at] != c
        invariant
            from <= at <= to <= chars@.len(),
            part == chars@.subrange(from as int, to as int),
            forall|i: int| 0 <= i < at - from ==> part[i] != c,
        decreases to - at,
    {
        assert(part[at - from] == chars@[at as int]);
        at = at + 1;
    }
    proof {
        if at < to {
            assert(part[at - from] == chars@[at as int]);
        }
        until_at(part, c, at - from);
    }
    at
}

/// The bounds of `chars[from..to]` without the white space at its front and its
/// back.
pub fn trim_bounds(chars: &Vec<char>, from: usize, to: usize) -> (bounds: (usize, usize))
    requires
        from <= to <= chars@.len(),
    ensures
        from <= bounds.0 <= bounds.1 <= to,
        chars@.subrange(bounds.0 as int, bounds.1 as int) == trim(
            chars@.subrange(from as int, to as int),
        ),
{
    let mut a: usize = from;
    while a < to && is_white_space(chars[a])
        invariant
            from <= a <= to <= chars@.len(),
            trim_start(chars@.subrange(a as int, to as int)) == trim_start(
                chars@.subrange(from as int, to as int),
            ),
        decreases to - a,
    {
        assert(chars@.subrange(a as int, to as int).drop_first() =~= chars@.subrange(
            a + 1,
            to as int,
        ));
        a = a + 1;
    }
    let mut b: usize = to;
    while a < b && is_white_space(chars[b - 1])
        invariant
            from <= a <= b <= to <= chars@.len(),
            trim_end(chars@.subrange(a as int, b as int)) == trim_end(
                chars@.subrange(a as int, to as int),
            ),
        decreases b - a,
    {
        assert(chars@.subrange(a as int, b as int).drop_last() =~= chars@.subrange(
            a as int,
            b - 1,
        ));
        b = b - 1;
    }
    (a, b)
}

/// The character for a decimal digit.
pub open spec fn digit(d: nat) -> char {
    (48 + d) as char
}

/// The decimal notation of a number.
pub open spec fn decimal(n: nat) -> Seq<char>
    decreases n,
{
    if n < 10 {
        seq![digit(n)]
    } else {
        decimal(n / 10).push(digit(n % 10))
    }
}

/// The text of one decimal digit.
fn digit_text(d: u32) -> (text: &'static str)
    requires
        d < 10,
    ensures
        text@ == seq![digit(d as nat)],
{
    proof {
        reveal_strlit("0");
        reveal_strlit("1");
        reveal_strlit("2");
        reveal_strlit("3");
        reveal_strlit("4");
        reveal_strlit("5");
        reveal_strlit("6");
        reveal_strlit("7");
        reveal_strlit("8");
        reveal_strlit("9");
    }
    let text: &'static str = match d {
        0 => "0",
        1 => "1",
        2 => "2",
        3 => "3",
        4 => "4",
        5 => "5",
        6 => "6",
        7 => "7",
        8 => "8",
        _ => "9",
    };
    assert(text@ =~= seq![digit(d as nat)]);
    text
}

/// The decimal notation of a number.
pub fn decimal_text(n: u32) -> (text: String)
    ensures
        text@ == decimal(n as nat),
    decreases n,
{
    if n < 10 {
        digit_text(n).to_owned()
    } else {
        let mut text = decimal_text(n / 10);
        text.append(digit_text(n % 10));
        assert(text@ =~= decimal(n as nat));
        text
    }
}

/// The UTF-16 code units of one character: one unit below U+10000, a surrogate
/// pair from there on.
pub open spec fn utf16_units(c: char) -> Seq<u16> {
    let v = c as int;
    if v < 0x10000 {
        seq![v as u16]
    } else {
        seq![(0xD800 + (v - 0x10000) / 0x400) as u16, (0xDC00 + (v - 0x10000) % 0x400) as u16]
    }
}

/// The UTF-16 code units of a text.
pub open spec fn utf16(text: Seq<char>) -> Seq<u16>
    decreases text.len(),
{
    if text.len() == 0 {
        Seq::empty()
    } else {
        utf16(text.drop_last()) + utf16_units(text.last())
    }
}

/// Append the UTF-16 code units of one character.
fn push_units(wide: &mut Vec<u16>, c: char)
    ensures
        final(wide)@ == old(wide)@ + utf16_units(c),
{
    let v: u32 = c as u32;
    if v < 0x10000 {
        wide.push(v as u16);
    } else {
        wide.push((0xD800 + (v - 0x10000) / 0x400) as u16);
        wide.push((0xDC00 + (v - 0x10000) % 0x400) as u16);
    }
    assert(wide@ =~= old(wide)@ + utf16_units(c));
}

/// A text as a zero-terminated wide string, as the system's calls take it.
pub fn wide_str(s: &str) -> (wide: Vec<u16>)
    ensures
        wide@ == utf16(s@).push(0),
{
    let mut wide: Vec<u16> = Vec::new();
    for c in it: s.chars()
        invariant
            it.seq() == s@,
            wide@ == utf16(s@.take(it.index())),
    {
        push_units(&mut wide, c);
        proof {
            let next = s@.take(it.index() + 1);
            assert(next.drop_last() =~= s@.take(it.index()));
            assert(next.last() == c);
        }
    }
    assert(s@.take(s@.len() as int) =~= s@);
    wide.push(0);
    wide
}

/// `needle` stands in `hay` from position `at` on, character by character.
pub open spec fn runs_at(hay: Seq<char>, needle: Seq<char>, at: int) -> bool {
    &&& 0 <= at && at + needle.len() <= hay.len()
    &&& forall|j: int| 0 <= j < needle.len() ==> hay[at + j] == #[trigger] needle[j]
}

/// A text holds another exactly where it repeats all its characters in a row.
pub proof fn a_part_is_a_run(hay: Seq<char>, needle: Seq<char>)
    ensures
        is_infix(hay, needle) <==> exists|at: int| runs_at(hay, needle, at),
{
    if is_infix(hay, needle) {
        let at = choose|at: int| occurs_at(hay, needle, at);
        assert forall|j: int| 0 <= j < needle.len() implies hay[at + j] == #[trigger] needle[j] by {
            assert(hay.subrange(at, at + needle.len())[j] == needle[j]);
        }
        assert(runs_at(hay, needle, at));
    }
    if exists|at: int| runs_at(hay, needle, at) {
        let at = choose|at: int| runs_at(hay, needle, at);
        assert(hay.subrange(at, at + needle.len()) =~= needle);
        assert(occurs_at(hay, needle, at));
    }
}

/// An ASCII text in lower case has each capital letter as its small letter and
/// every other character as it was; any other text is lowered as the system has
/// it.
pub proof fn lowered_letter_by_letter(text: Seq<char>)
    ensures
        (forall|i: int| 0 <= i < text.len() ==> (#[trigger] text[i] as int) < 128) ==> {
            &&& lowered(text).len() == text.len()
            &&& forall|i: int|
                0 <= i < text.len() ==> (#[trigger] lowered(text)[i]) as int == text[i] as int + (
                if 65 <= text[i] as int <= 90 {
                    32int
                } else {
                    0int
                })
        },
        (exists|i: int| 0 <= i < text.len() && (#[trigger] text[i] as int) >= 128) ==> lowered(text)
            == lowercase(ascii_lowered(text)),
        ascii_lowered(text).len() == text.len(),
        forall|i: int|
            0 <= i < text.len() ==> (#[trigger] ascii_lowered(text)[i]) as int == text[i] as int + (
            if 65 <= text[i] as int <= 90 {
                32int
            } else {
                0int
            }),
{
}

/// The two characters are one letter, whatever the case of either.
pub open spec fn same_letter(a: char, b: char) -> bool {
    ||| a == b
    ||| 65 <= a as int <= 90 && b as int == a as int + 32
    ||| 65 <= b as int <= 90 && a as int == b as int + 32
}

/// ASCII characters are one letter exactly where they are lowered to one.
proof fn same_letter_is_same_lower(a: char, b: char)
    ensures
        same_letter(a, b) <==> ascii_lower(a) == ascii_lower(b),
{
}

/// `needle` stands in `hay` from position `at` on, letter by letter.
pub open spec fn spelled_at(hay: Seq<char>, needle: Seq<char>, at: int) -> bool {
    &&& 0 <= at && at + needle.len() <= hay.len()
    &&& forall|j: int| 0 <= j < needle.len() ==> same_letter(hay[at + j], #[trigger] needle[j])
}

/// With their letters lowered, a text holds another exactly where it repeats all
/// its letters in a row, whatever their case.
pub proof fn a_lowered_part_is_spelled(hay: Seq<char>, needle: Seq<char>)
    ensures
        is_infix(ascii_lowered(hay), ascii_lowered(needle)) <==> exists|at: int|
            spelled_at(hay, needle, at),
{
    let h = ascii_lowered(hay);
    let n = ascii_lowered(needle);
    a_part_is_a_run(h, n);
    if exists|at: int| runs_at(h, n, at) {
        let at = choose|at: int| runs_at(h, n, at);
        assert forall|j: int| 0 <= j < needle.len() implies same_letter(
            hay[at + j],
            #[trigger] needle[j],
        ) by {
            assert(h[at + j] == n[j]);
            same_letter_is_same_lower(hay[at + j], needle[j]);
        }
        assert(spelled_at(hay, needle, at));
    }
    if exists|at: int| spelled_at(hay, needle, at) {
        let at = choose|at: int| spelled_at(hay, needle, at);
        assert forall|j: int| 0 <= j < n.len() implies h[at + j] == #[trigger] n[j] by {
            assert(same_letter(hay[at + j], needle[j]));
            same_letter_is_same_lower(hay[at + j], needle[j]);
        }
        assert(runs_at(h, n, at));
    }
}

proof fn trim_start_at(s: Seq<char>, a: int)
    requires
        0 <= a <= s.len(),
        forall|i: int| 0 <= i < a ==> white_space(#[trigger] s[i]),
        a < s.len() ==> !white_space(s[a]),
    ensures
        trim_start(s) == s.skip(a),
    decreases a,
{
    if a > 0 {
        let rest = s.drop_first();
        assert forall|i: int| 0 <= i < a - 1 implies white_space(#[trigger] rest[i]) by {
            assert(rest[i] == s[i + 1]);
        }
        trim_start_at(rest, a - 1);
        assert(rest.skip(a - 1) =~= s.skip(a));
        assert(white_space(s[0]));
    } else {
        assert(s.skip(0) =~= s);
    }
}

proof fn trim_end_at(s: Seq<char>, b: int)
    requires
        0 <= b <= s.len(),
        forall|i: int| b <= i < s.len() ==> white_space(#[trigger] s[i]),
        b > 0 ==> !white_space(s[b - 1]),
    ensures
        trim_end(s) == s.take(b),
    decreases s.len() - b,
{
    if b < s.len() {
        trim_end_at(s.drop_last(), b);
        assert(s.drop_last().take(b) =~= s.take(b));
        assert(white_space(s[s.len() - 1]));
    } else {
        assert(s.take(b) =~= s);
    }
}

/// Trimming keeps just what stands between the first and the last character that
/// is no white space.
pub proof fn trim_keeps_the_middle(s: Seq<char>, a: int, b: int)
    requires
        0 <= a < b <= s.len(),
        forall|i: int| 0 <= i < a ==> white_space(#[trigger] s[i]),
        forall|i: int| b <= i < s.len() ==> white_space(#[trigger] s[i]),
        !white_space(s[a]),
        !white_space(s[b - 1]),
    ensures
        trim(s) == s.subrange(a, b),
{
    trim_start_at(s, a);
    let rest = s.skip(a);
    assert forall|i: int| b - a <= i < rest.len() implies white_space(#[trigger] rest[i]) by {
        assert(rest[i] == s[i + a]);
    }
    trim_end_at(rest, b - a);
    assert(rest.take(b - a) =~= s.subrange(a, b));
}

/// Trimming white space alone leaves nothing.
pub proof fn trim_empties_white_space(s: Seq<char>)
    requires
        forall|i: int| 0 <= i < s.len() ==> white_space(#[trigger] s[i]),
    ensures
        trim(s).len() == 0,
{
    trim_start_at(s, s.len() as int);
}

/// These characters vanish where a text is trimmed, wherever they stand in a row
/// at either end, and no others do: the controls from tab to carriage return, the
/// space, the next line, and the spaces and line ends beyond ASCII.
pub proof fn white_space_is_trimmed(c: char, kept: char)
    ensures
        ({
            let white = c == '\t' || c == '\n' || c == '\u{b}' || c == '\u{c}' || c == '\r' || c
                == ' ' || c == '\u{85}' || c == '\u{a0}' || c == '\u{1680}' || c == '\u{2000}' || c
                == '\u{2001}' || c == '\u{2002}' || c == '\u{2003}' || c == '\u{2004}' || c
                == '\u{2005}' || c == '\u{2006}' || c == '\u{2007}' || c == '\u{2008}' || c
                == '\u{2009}' || c == '\u{200a}' || c == '\u{2028}' || c == '\u{2029}' || c
                == '\u{202f}' || c == '\u{205f}' || c == '\u{3000}';
            &&& white ==> trim(seq![c]).len() == 0
            &&& !white ==> trim(seq![c]) == seq![c]
            &&& white && trim(seq![kept]) == seq![kept] ==> trim(seq![c, kept, c]) == seq![kept]
        }),
{
    if white_space(c) {
        trim_empties_white_space(seq![c]);
        if white_space(kept) {
            trim_empties_white_space(seq![kept]);
        } else {
            trim_keeps_the_middle(seq![c, kept, c], 1, 2);
            assert(seq![c, kept, c].subrange(1, 2) =~= seq![kept]);
        }
    } else {
        trim_keeps_the_middle(seq![c], 0, 1);
        assert(seq![c].subrange(0, 1) =~= seq![c]);
    }
}

/// The number that decimal digits stand for.
pub open spec fn value_of(digits: Seq<char>) -> nat
    decreases digits.len(),
{
    if digits.len() == 0 {
        0
    } else {
        (10 * value_of(digits.drop_last()) + (digits.last() as int - '0' as int)) as nat
    }
}

/// The decimal notation of a number is made of digits, starts with a zero only
/// for zero itself, and stands for the number.
pub proof fn decimal_stands_for_the_number(n: nat)
    ensures
        value_of(decimal(n)) == n,
        decimal(n).len() > 0,
        forall|i: int|
            0 <= i < decimal(n).len() ==> '0' as int <= #[trigger] decimal(n)[i] as int
                && decimal(n)[i] as int <= '9' as int,
        n > 0 ==> decimal(n)[0] != '0',
    decreases n,
{
    if n < 10 {
        assert(decimal(n).drop_last() =~= Seq::<char>::empty());
        assert(value_of(Seq::<char>::empty()) == 0);
    } else {
        decimal_stands_for_the_number(n / 10);
        assert(decimal(n).drop_last() =~= decimal(n / 10));
    }
}

/// A text's wide characters are those of its characters, one after another. A
/// character below U+10000 is one unit of its own number; any other is a high
/// and a low surrogate, from which its number can be read.
pub proof fn wide_characters(before: Seq<char>, c: char)
    ensures
        utf16(Seq::<char>::empty()).len() == 0,
        (c as int) < 0x10000 ==> utf16(before.push(c)).len() == utf16(before).len() + 1 && utf16(
            before.push(c),
        ).last() as int == c as int,
        c as int >= 0x10000 ==> {
            let all = utf16(before.push(c));
            let high = all[all.len() - 2] as int;
            let low = all[all.len() - 1] as int;
            &&& all.len() == utf16(before).len() + 2
            &&& 0xD800 <= high < 0xDC00
            &&& 0xDC00 <= low < 0xE000
            &&& 0x10000 + 0x400 * (high - 0xD800) + (low - 0xDC00) == c as int
        },
        utf16(before.push(c)).take(utf16(before).len() as int) == utf16(before),
{
    assert(before.push(c).drop_last() =~= before);
    assert(utf16(before.push(c)) == utf16(before) + utf16_units(c));
    assert(utf16(before.push(c)).take(utf16(before).len() as int) =~= utf16(before));
}

} // verus!
