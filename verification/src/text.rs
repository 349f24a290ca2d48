//! Text as sequences of characters, and the few operations on it that every
//! screen shares.
use crate::lists::texts;
use unicode_truncate::UnicodeTruncateStr;
use vstd::prelude::*;
use vstd::string::StringExecFns;
use vstd::string::StrSliceExecFns;

verus! {

/// Lexicographic order by code point: `a` comes strictly before `b`.
pub open spec fn text_before(a: Seq<char>, b: Seq<char>) -> bool
    decreases b.len(),
{
    if b.len() == 0 {
        false
    } else if a.len() == 0 {
        true
    } else if a[0] != b[0] {
        a[0] < b[0]
    } else {
        text_before(a.drop_first(), b.drop_first())
    }
}

/// The order on text is irreflexive.
pub proof fn text_before_irreflexive(a: Seq<char>)
    ensures
        !text_before(a, a),
    decreases a.len(),
{
    if a.len() > 0 {
        text_before_irreflexive(a.drop_first());
    }
}

/// The order on text is transitive.
pub proof fn text_before_transitive(a: Seq<char>, b: Seq<char>, c: Seq<char>)
    requires
        text_before(a, b),
        text_before(b, c),
    ensures
        text_before(a, c),
    decreases c.len(),
{
    if a.len() > 0 && a[0] == b[0] && b[0] == c[0] {
        text_before_transitive(a.drop_first(), b.drop_first(), c.drop_first());
    }
}

/// Two different texts are ordered one way or the other.
pub proof fn text_before_total(a: Seq<char>, b: Seq<char>)
    ensures
        text_before(a, b) || text_before(b, a) || a == b,
    decreases b.len(),
{
    if a.len() > 0 && b.len() > 0 && a[0] == b[0] {
        text_before_total(a.drop_first(), b.drop_first());
        if a.drop_first() == b.drop_first() {
            assert(a =~= seq![a[0]] + a.drop_first());
            assert(b =~= seq![b[0]] + b.drop_first());
        }
    } else if a.len() == 0 && b.len() == 0 {
        assert(a =~= b);
    }
}

/// Whether a text comes strictly before another.
pub fn is_text_before(a: &str, b: &str) -> (before: bool)
    ensures
        before == text_before(a@, b@),
{
    let left = characters(a);
    let right = characters(b);
    let mut k: usize = 0;
    assert(a@.skip(0) =~= a@ && b@.skip(0) =~= b@);
    while k < left.len() && k < right.len() && left[k] == right[k]
        invariant
            left@ == a@,
            right@ == b@,
            k <= a@.len(),
            k <= b@.len(),
            text_before(a@, b@) == text_before(a@.skip(k as int), b@.skip(k as int)),
        decreases a@.len() - k,
    {
        assert(a@.skip(k as int).drop_first() =~= a@.skip(k + 1));
        assert(b@.skip(k as int).drop_first() =~= b@.skip(k + 1));
        k = k + 1;
    }
    if k >= right.len() {
        false
    } else {
        k >= left.len() || left[k] < right[k]
    }
}

/// `String::push` appends one character.
pub assume_specification[ String::push ](text: &mut String, c: char)
    ensures
        final(text)@ == old(text)@.push(c),
;

/// `String::pop` takes the last character off and returns it, or returns
/// nothing on an empty text.
pub assume_specification[ String::pop ](text: &mut String) -> (last: Option<char>)
    ensures
        old(text)@.len() == 0 ==> last is None && final(text)@ == old(text)@,
        old(text)@.len() > 0 ==> last == Some(old(text)@.last()) && final(text)@
            == old(text)@.drop_last(),
;

/// `String::clear` leaves an empty text.
pub assume_specification[ String::clear ](text: &mut String)
    ensures
        final(text)@ == Seq::<char>::empty(),
;

/// What a text is after its last character is deleted.
pub open spec fn without_last(text: Seq<char>) -> Seq<char> {
    if text.len() == 0 {
        text
    } else {
        text.drop_last()
    }
}

/// The characters of a text, one by one.
pub fn characters(text: &str) -> (chars: Vec<char>)
    ensures
        chars@ == text@,
{
    let mut chars: Vec<char> = Vec::new();
    for c in iter: text.chars()
        invariant
            iter.seq() == text@,
            chars@ == text@.take(iter.index()),
    {
        chars.push(c);
        assert(text@.take(iter.index() + 1) =~= text@.take(iter.index()).push(c));
    }
    assert(text@.take(text@.len() as int) =~= text@);
    chars
}

/// The text made of some of the characters in a list.
pub fn text_of(chars: &Vec<char>, from: usize, to: usize) -> (text: String)
    requires
        from <= to <= chars@.len(),
    ensures
        text@ == chars@.subrange(from as int, to as int),
{
    let mut text = String::new();
    let mut i: usize = from;
    while i < to
        invariant
            from <= i <= to <= chars@.len(),
            text@ == chars@.subrange(from as int, i as int),
        decreases to - i,
    {
        text.push(chars[i]);
        assert(chars@.subrange(from as int, i as int).push(chars@[i as int])
            =~= chars@.subrange(from as int, i + 1));
        i = i + 1;
    }
    text
}

/// One decimal digit.
pub open spec fn digit(d: int) -> char {
    (('0' as int) + d) as char
}

/// A natural number in decimal, without leading zeros.
pub open spec fn decimal(n: nat) -> Seq<char>
    decreases n,
{
    if n < 10 {
        seq![digit(n as int)]
    } else {
        decimal(n / 10).push(digit((n % 10) as int))
    }
}

fn digit_char(d: u64) -> (c: char)
    requires
        d < 10,
    ensures
        c == digit(d as int),
{
    match d {
        0 => '0',
        1 => '1',
        2 => '2',
        3 => '3',
        4 => '4',
        5 => '5',
        6 => '6',
        7 => '7',
        8 => '8',
        _ => '9',
    }
}

/// A number in decimal.
pub fn format_number(n: u64) -> (text: String)
    ensures
        text@ == decimal(n as nat),
    decreases n,
{
    if n < 10 {
        let mut text = String::new();
        text.push(digit_char(n));
        assert(text@ =~= seq![digit(n as int)]);
        text
    } else {
        let mut text = format_number(n / 10);
        text.push(digit_char(n % 10));
        text
    }
}

/// Whether a character is white space, by Unicode's property of that name.
pub open spec fn is_space(c: char) -> bool {
    ||| '\u{0009}' <= c <= '\u{000D}'
    ||| c == ' '
    ||| c == '\u{0085}'
    ||| c == '\u{00A0}'
    ||| c == '\u{1680}'
    ||| '\u{2000}' <= c <= '\u{200A}'
    ||| c == '\u{2028}'
    ||| c == '\u{2029}'
    ||| c == '\u{202F}'
    ||| c == '\u{205F}'
    ||| c == '\u{3000}'
}

/// Whether a character is white space.
pub fn char_is_space(c: char) -> (space: bool)
    ensures
        space == is_space(c),
{
    ('\u{0009}' <= c && c <= '\u{000D}') || c == ' ' || c == '\u{0085}' || c == '\u{00A0}' || c
        == '\u{1680}' || ('\u{2000}' <= c && c <= '\u{200A}') || c == '\u{2028}' || c
        == '\u{2029}' || c == '\u{202F}' || c == '\u{205F}' || c == '\u{3000}'
}

/// The text without the white space at its start.
pub open spec fn trim_start(text: Seq<char>) -> Seq<char>
    decreases text.len(),
{
    if text.len() > 0 && is_space(text[0]) {
        trim_start(text.drop_first())
    } else {
        text
    }
}

/// The text without the white space at its end.
pub open spec fn trim_end(text: Seq<char>) -> Seq<char>
    decreases text.len(),
{
    if text.len() > 0 && is_space(text.last()) {
        trim_end(text.drop_last())
    } else {
        text
    }
}

/// The text without the white space around it.
pub open spec fn trimmed(text: Seq<char>) -> Seq<char> {
    trim_end(trim_start(text))
}

/// The text without the white space around it.
pub fn trim(text: &str) -> (inner: String)
    ensures
        inner@ == trimmed(text@),
{
    let chars = characters(text);
    let mut from: usize = 0;
    assert(chars@.subrange(0, chars@.len() as int) =~= chars@);
    while from < chars.len() && char_is_space(chars[from])
        invariant
            from <= chars@.len(),
            trim_start(chars@.subrange(from as int, chars@.len() as int)) == trim_start(chars@),
        decreases chars@.len() - from,
    {
        assert(chars@.subrange(from as int, chars@.len() as int).drop_first()
            =~= chars@.subrange(from + 1, chars@.len() as int));
        from = from + 1;
    }
    let mut to: usize = chars.len();
    let ghost rest = chars@.subrange(from as int, chars@.len() as int);
    assert(rest == trim_start(chars@));
    while from < to && char_is_space(chars[to - 1])
        invariant
            from <= to <= chars@.len(),
            trim_end(chars@.subrange(from as int, to as int)) == trim_end(rest),
        decreases to - from,
    {
        assert(chars@.subrange(from as int, to as int).drop_last() =~= chars@.subrange(
            from as int,
            to - 1,
        ));
        to = to - 1;
    }
    text_of(&chars, from, to)
}

/// Whether a character controls a terminal instead of being shown on it.
pub open spec fn is_control(c: char) -> bool {
    c <= '\u{001F}' || '\u{007F}' <= c <= '\u{009F}'
}

/// A text made fit for a terminal: without its control characters.
pub open spec fn sanitized(text: Seq<char>) -> Seq<char>
    decreases text.len(),
{
    if text.len() == 0 {
        text
    } else if is_control(text.last()) {
        sanitized(text.drop_last())
    } else {
        sanitized(text.drop_last()).push(text.last())
    }
}

/// Makes a text fit for a terminal.
pub fn sanitize_text(text: &str) -> (fit: String)
    ensures
        fit@ == sanitized(text@),
{
    let chars = characters(text);
    let mut fit = String::new();
    let mut k: usize = 0;
    assert(text@.take(0) =~= Seq::<char>::empty());
    assert(fit@ =~= sanitized(text@.take(0)));
    while k < chars.len()
        invariant
            chars@ == text@,
            k <= chars@.len(),
            fit@ == sanitized(text@.take(k as int)),
        decreases chars@.len() - k,
    {
        assert(text@.take(k + 1).drop_last() =~= text@.take(k as int));
        let c = chars[k];
        if !(c <= '\u{001F}' || ('\u{007F}' <= c && c <= '\u{009F}')) {
            fit.push(c);
        }
        k = k + 1;
    }
    assert(text@.take(k as int) =~= text@);
    fit
}

/// The lower case of a text, by Unicode's case mapping.
pub uninterp spec fn lower_case(text: Seq<char>) -> Seq<char>;

/// `str::to_lowercase`: Unicode's case mapping, a function of the text alone.
#[verifier::external_body]
pub(crate) fn to_lower_case(text: &str) -> (lower: String)
    ensures
        lower@ == lower_case(text@),
{
    text.to_lowercase()
}

/// A text in upper case.
pub uninterp spec fn upper_case(text: Seq<char>) -> Seq<char>;

/// `str::to_uppercase`: Unicode's case mapping, a function of the text alone.
#[verifier::external_body]
pub(crate) fn to_upper_case(text: &str) -> (upper: String)
    ensures
        upper@ == upper_case(text@),
{
    text.to_uppercase()
}

/// One hexadecimal digit, in lower case.
pub open spec fn hex_digit(d: int) -> char {
    if d < 10 {
        (('0' as int) + d) as char
    } else {
        (('a' as int) + d - 10) as char
    }
}

/// Bytes as hexadecimal digits, two for each, the higher half first.
pub open spec fn hex_text(bytes: Seq<u8>) -> Seq<char> {
    Seq::new(
        2 * bytes.len(),
        |i: int|
            hex_digit(
                if i % 2 == 0 {
                    bytes[i / 2] as int / 16
                } else {
                    bytes[i / 2] as int % 16
                },
            ),
    )
}

/// `hex::encode`: two lower case digits for each byte.
#[verifier::external_body]
pub(crate) fn hex_encode(bytes: &Vec<u8>) -> (text: String)
    ensures
        text@ == hex_text(bytes@),
{
    hex::encode(bytes)
}

/// The first characters of a text, no more than `count`.
pub fn first_chars(text: &str, count: usize) -> (prefix: String)
    ensures
        prefix@ == if text@.len() <= count {
            text@
        } else {
            text@.take(count as int)
        },
{
    let chars = characters(text);
    let to: usize = if chars.len() <= count {
        chars.len()
    } else {
        count
    };
    let prefix = text_of(&chars, 0, to);
    assert(prefix@ =~= text@.take(to as int));
    assert(text@.take(text@.len() as int) =~= text@);
    prefix
}

/// Two texts one after the other.
pub fn join(first: &str, second: &str) -> (text: String)
    ensures
        text@ == first@ + second@,
{
    let mut text = String::new();
    text.append(first);
    text.append(second);
    assert(text@ =~= first@ + second@);
    text
}

/// Three texts one after the other.
pub fn join3(first: &str, second: &str, third: &str) -> (text: String)
    ensures
        text@ == first@ + second@ + third@,
{
    let mut text = join(first, second);
    text.append(third);
    text
}

/// The columns that a text takes up on a terminal.
pub uninterp spec fn text_width(text: Seq<char>) -> usize;

/// Two texts with an ellipsis between them.
pub open spec fn around_ellipsis(start: Seq<char>, end: Seq<char>) -> Seq<char> {
    start + "…"@ + end
}

/// The two texts are the same, but that some line feeds of the first are another
/// control character in the second.
pub open spec fn same_but_feeds(text: Seq<char>, other: Seq<char>) -> bool {
    &&& text.len() == other.len()
    &&& forall|i: int|
        0 <= i < text.len() ==> #[trigger] other[i] == text[i] || (text[i] == '\n' && other[i]
            == '\u{0001}')
}

/// `ratatui`'s `Line::width`: the text's width by Unicode's tables, a function of
/// the text alone. Nothing takes up no column and an ellipsis one. An ellipsis
/// joins with no other character: what stands before it and after it is as wide as
/// it is alone. A line feed takes up no column, another control character one.
#[verifier::external_body]
pub(crate) fn terminal_text_width(input: &str) -> (width: usize)
    ensures
        width == text_width(input@),
        input@.len() == 0 ==> width == 0,
        input@ == "…"@ ==> width == 1,
        forall|start: Seq<char>, end: Seq<char>|
            input@ == #[trigger] around_ellipsis(start, end) ==> width == text_width(start) + 1
                + text_width(end),
        forall|other: Seq<char>| #[trigger]
            same_but_feeds(input@, other) ==> width <= text_width(other),
{
    ratatui::text::Line::from(input).width()
}

/// Whether a character's columns can rest on the character after it though a text
/// may be cut between the two: the joiner, the selector of a text presentation, and
/// the first letters and the signs of the ligatures of Arabic, Khmer, Tifinagh and
/// Lisu.
pub open spec fn joins(c: char) -> bool {
    ||| c == '\u{200D}'
    ||| c == '\u{FE0E}'
    ||| c == '\u{0644}'
    ||| '\u{06B5}' <= c <= '\u{06B8}'
    ||| c == '\u{076A}'
    ||| c == '\u{08A6}'
    ||| c == '\u{08C7}'
    ||| c == '\u{17D2}'
    ||| c == '\u{2D7F}'
    ||| '\u{A4F8}' <= c <= '\u{A4FB}'
}

/// Whether a text is as wide as its parts together, wherever it is cut.
pub open spec fn is_settled(text: Seq<char>) -> bool {
    forall|i: int| 0 <= i < text.len() ==> !joins(#[trigger] text[i])
}

/// Texts one after the other.
pub open spec fn joined(parts: Seq<Seq<char>>) -> Seq<char>
    decreases parts.len(),
{
    if parts.len() == 0 {
        Seq::empty()
    } else {
        joined(parts.drop_last()) + parts.last()
    }
}

/// The user-perceived characters of a text, Unicode's extended grapheme clusters.
pub uninterp spec fn graphemes_of(text: Seq<char>) -> Seq<Seq<char>>;

/// The columns that one user-perceived character counts for when a text is cut: a
/// line break counts for one.
pub open spec fn grapheme_width(part: Seq<char>) -> int {
    if part == "\r\n"@ {
        1
    } else {
        text_width(part) as int
    }
}

/// The columns that user-perceived characters count for, one by one.
pub open spec fn graphemes_width(parts: Seq<Seq<char>>) -> int
    decreases parts.len(),
{
    if parts.len() == 0 {
        0
    } else {
        graphemes_width(parts.drop_last()) + grapheme_width(parts.last())
    }
}

/// Every line feed of a text is the end of a carriage return.
pub open spec fn feeds_follow_returns(text: Seq<char>) -> bool {
    forall|i: int| 0 <= i < text.len() && #[trigger] text[i] == '\n' ==> i > 0 && text[i - 1] == '\r'
}

/// `ratatui`'s `Span::styled_graphemes`: the user-perceived characters of a text from
/// left to right, a function of the text alone. It passes over a line feed that
/// stands alone; without one they make up the text. A start or an end of them never
/// takes up more columns than they do one by one: characters that join become
/// narrower.
#[verifier::external_body]
pub(crate) fn split_graphemes(text: &str) -> (parts: Vec<String>)
    requires
        feeds_follow_returns(text@),
    ensures
        texts(parts@) == graphemes_of(text@),
        joined(texts(parts@)) == text@,
        forall|k: int|
            0 <= k <= parts@.len() ==> text_width(#[trigger] joined(texts(parts@).take(k)))
                <= graphemes_width(texts(parts@).take(k)),
        forall|k: int|
            0 <= k <= parts@.len() ==> text_width(#[trigger] joined(texts(parts@).skip(k)))
                <= graphemes_width(texts(parts@).skip(k)),
{
    let span = ratatui::text::Span::raw(text);
    span.styled_graphemes(ratatui::style::Style::default()).map(
        |part| part.symbol.to_string(),
    ).collect()
}

/// The text with another control character in place of each line feed that stands
/// alone. The two are cut at the same places.
pub open spec fn without_feeds(text: Seq<char>) -> Seq<char> {
    Seq::new(
        text.len(),
        |i: int|
            if text[i] == '\n' && !(i > 0 && text[i - 1] == '\r') {
                '\u{0001}'
            } else {
                text[i]
            },
    )
}

/// The user-perceived characters between which a text can be cut.
pub open spec fn parts_of(text: Seq<char>) -> Seq<Seq<char>> {
    graphemes_of(without_feeds(text))
}

/// How many parts fit from the first one on, given that `count` do.
pub open spec fn first_fitting(parts: Seq<Seq<char>>, count: int, max_width: int) -> int
    decreases parts.len() - count,
{
    if count >= parts.len() || graphemes_width(parts.take(count + 1)) > max_width {
        count
    } else {
        first_fitting(parts, count + 1, max_width)
    }
}

/// From which part on they fit up to the last one, given that they do from `from`.
pub open spec fn last_fitting(parts: Seq<Seq<char>>, from: int, max_width: int) -> int
    decreases from,
{
    if from <= 0 || graphemes_width(parts.skip(from - 1)) > max_width {
        from
    } else {
        last_fitting(parts, from - 1, max_width)
    }
}

/// The start of a text that fits: as many of its user-perceived characters as take
/// up no more columns one by one.
pub open spec fn kept_start(text: Seq<char>, max_width: usize) -> Seq<char> {
    let parts = parts_of(text);
    text.take(joined(parts.take(first_fitting(parts, 0, max_width as int))).len() as int)
}

/// The end of a text that fits.
pub open spec fn kept_end(text: Seq<char>, max_width: usize) -> Seq<char> {
    let parts = parts_of(text);
    let end = joined(parts.skip(last_fitting(parts, parts.len() as int, max_width as int)));
    text.skip(text.len() - end.len())
}

/// `unicode_truncate` of the crate of that name: it cuts off the end of a text,
/// between two of its user-perceived characters, so that the rest fits. It adds up
/// the widths of these characters, by the tables that `ratatui` uses too, and a
/// build with debug assertions panics where the sum is not the width of the rest.
/// In a text without joining characters it always is.
#[verifier::external_body]
pub(crate) fn keep_start(text: &str, max_width: usize) -> (start: String)
    requires
        is_settled(text@),
    ensures
        start@ == kept_start(text@, max_width),
        start@.len() <= text@.len(),
        start@ == text@.take(start@.len() as int),
        text_width(start@) <= max_width,
{
    text.unicode_truncate(max_width).0.to_string()
}

/// `unicode_truncate_start`: as `keep_start`, but it cuts off the start of a text.
#[verifier::external_body]
pub(crate) fn keep_end(text: &str, max_width: usize) -> (end: String)
    requires
        is_settled(text@),
    ensures
        end@ == kept_end(text@, max_width),
        end@.len() <= text@.len(),
        end@ == text@.skip(text@.len() - end@.len()),
        text_width(end@) <= max_width,
{
    text.unicode_truncate_start(max_width).0.to_string()
}

fn settled(chars: &Vec<char>) -> (settled: bool)
    ensures
        settled == is_settled(chars@),
{
    let mut k: usize = 0;
    while k < chars.len()
        invariant
            k <= chars@.len(),
            forall|i: int| 0 <= i < k ==> !joins(#[trigger] chars@[i]),
        decreases chars@.len() - k,
    {
        let c = chars[k];
        if c == '\u{200D}' || c == '\u{FE0E}' || c == '\u{0644}' || ('\u{06B5}' <= c && c
            <= '\u{06B8}') || c == '\u{076A}' || c == '\u{08A6}' || c == '\u{08C7}' || c
            == '\u{17D2}' || c == '\u{2D7F}' || ('\u{A4F8}' <= c && c <= '\u{A4FB}') {
            assert(joins(chars@[k as int]));
            return false;
        }
        k = k + 1;
    }
    true
}

fn replace_feeds(chars: &Vec<char>) -> (text: String)
    ensures
        text@ == without_feeds(chars@),
{
    let mut text = String::new();
    let mut k: usize = 0;
    while k < chars.len()
        invariant
            k <= chars@.len(),
            text@ =~= without_feeds(chars@).take(k as int),
        decreases chars@.len() - k,
    {
        if chars[k] == '\n' && !(k > 0 && chars[k - 1] == '\r') {
            text.push('\u{0001}');
        } else {
            text.push(chars[k]);
        }
        k = k + 1;
    }
    assert(without_feeds(chars@).take(k as int) =~= without_feeds(chars@));
    text
}

fn count_columns(part: &str) -> (width: usize)
    ensures
        width == grapheme_width(part@),
{
    if same_text(part, "\r\n") {
        1
    } else {
        terminal_text_width(part)
    }
}

proof fn joined_splits(parts: Seq<Seq<char>>, k: int)
    requires
        0 <= k <= parts.len(),
    ensures
        joined(parts) == joined(parts.take(k)) + joined(parts.skip(k)),
        graphemes_width(parts) == graphemes_width(parts.take(k)) + graphemes_width(parts.skip(k)),
    decreases parts.len(),
{
    if k == parts.len() {
        assert(parts.take(k) =~= parts);
        assert(parts.skip(k) =~= Seq::<Seq<char>>::empty());
        assert(joined(parts) =~= joined(parts.take(k)) + joined(parts.skip(k)));
    } else {
        joined_splits(parts.drop_last(), k);
        assert(parts.drop_last().take(k) =~= parts.take(k));
        assert(parts.skip(k).drop_last() =~= parts.drop_last().skip(k));
        assert(parts.skip(k).last() == parts.last());
        assert(joined(parts) =~= joined(parts.take(k)) + joined(parts.skip(k)));
    }
}

/// Keeps as much of a text's start as fits.
pub fn fit_start(text: &str, max_width: usize) -> (start: String)
    ensures
        start@ == kept_start(text@, max_width),
        start@.len() <= text@.len(),
        start@ == text@.take(start@.len() as int),
        text_width(start@) <= max_width,
{
    let chars = characters(text);
    if settled(&chars) {
        return keep_start(text, max_width);
    }
    let count = chars.len();
    let tame = replace_feeds(&chars);
    let parts = split_graphemes(tame.as_str());
    let ghost views = texts(parts@);
    let mut k: usize = 0;
    let mut n: usize = 0;
    let mut used: usize = 0;
    proof {
        assert(views.take(0) =~= Seq::<Seq<char>>::empty());
        joined_splits(views, 0);
    }
    while k < parts.len()
        invariant
            views == texts(parts@),
            views.len() == parts@.len(),
            joined(views) == tame@,
            tame@.len() == text@.len(),
            count == text@.len(),
            k <= parts@.len(),
            n == joined(views.take(k as int)).len(),
            n <= text@.len(),
            used == graphemes_width(views.take(k as int)),
            used <= max_width,
            first_fitting(views, k as int, max_width as int) == first_fitting(
                views,
                0,
                max_width as int,
            ),
        ensures
            k == first_fitting(views, 0, max_width as int),
        decreases parts@.len() - k,
    {
        proof {
            assert(views.take(k + 1).drop_last() =~= views.take(k as int));
            assert(views.take(k + 1).last() == parts@[k as int]@);
            joined_splits(views, k + 1);
        }
        let width = count_columns(parts[k].as_str());
        if width > max_width - used {
            break;
        }
        used = used + width;
        n = n + parts[k].as_str().unicode_len();
        k = k + 1;
    }
    let start = text_of(&chars, 0, n);
    let _fits = terminal_text_width(start.as_str());
    proof {
        assert(start@ =~= text@.take(n as int));
        joined_splits(views, k as int);
        assert(tame@.take(n as int) =~= joined(views.take(k as int)));
        assert(same_but_feeds(start@, tame@.take(n as int)));
    }
    start
}

/// Keeps as much of a text's end as fits.
pub fn fit_end(text: &str, max_width: usize) -> (end: String)
    ensures
        end@ == kept_end(text@, max_width),
        end@.len() <= text@.len(),
        end@ == text@.skip(text@.len() - end@.len()),
        text_width(end@) <= max_width,
{
    let chars = characters(text);
    if settled(&chars) {
        return keep_end(text, max_width);
    }
    let count = chars.len();
    let tame = replace_feeds(&chars);
    let parts = split_graphemes(tame.as_str());
    let ghost views = texts(parts@);
    let mut k: usize = parts.len();
    let mut n: usize = 0;
    let mut used: usize = 0;
    proof {
        assert(views.skip(k as int) =~= Seq::<Seq<char>>::empty());
    }
    while k > 0
        invariant
            views == texts(parts@),
            views.len() == parts@.len(),
            joined(views) == tame@,
            tame@.len() == text@.len(),
            count == text@.len(),
            k <= parts@.len(),
            n == joined(views.skip(k as int)).len(),
            n <= text@.len(),
            used == graphemes_width(views.skip(k as int)),
            used <= max_width,
            last_fitting(views, k as int, max_width as int) == last_fitting(
                views,
                views.len() as int,
                max_width as int,
            ),
        ensures
            k == last_fitting(views, views.len() as int, max_width as int),
        decreases k,
    {
        let ghost rest = views.skip(k - 1);
        proof {
            reveal_with_fuel(joined, 2);
            reveal_with_fuel(graphemes_width, 2);
            joined_splits(rest, 1);
            assert(rest.skip(1) =~= views.skip(k as int));
            assert(rest.take(1) =~= seq![views[k - 1]]);
            assert(seq![views[k - 1]].drop_last() =~= Seq::<Seq<char>>::empty());
            assert(joined(seq![views[k - 1]]) =~= views[k - 1]);
            assert(graphemes_width(seq![views[k - 1]]) == grapheme_width(views[k - 1]));
            assert(views[k - 1] == parts@[k - 1]@);
            joined_splits(views, k - 1);
        }
        let width = count_columns(parts[k - 1].as_str());
        if width > max_width - used {
            break;
        }
        used = used + width;
        n = n + parts[k - 1].as_str().unicode_len();
        k = k - 1;
    }
    let end = text_of(&chars, count - n, count);
    let _fits = terminal_text_width(end.as_str());
    proof {
        let from = text@.len() - n;
        assert(end@ =~= text@.skip(from));
        joined_splits(views, k as int);
        assert(tame@.skip(from) =~= joined(views.skip(k as int)));
        assert(same_but_feeds(end@, tame@.skip(from)));
    }
    end
}

/// A text of a known width, shortened in the middle: whole if it fits, and else
/// the given start and end around an ellipsis, as far as there is room for that.
pub open spec fn shortened(
    text: Seq<char>,
    width: int,
    max_width: int,
    start: Seq<char>,
    end: Seq<char>,
) -> Seq<char> {
    if width <= max_width {
        text
    } else if max_width == 0 {
        Seq::empty()
    } else if max_width == 1 {
        "…"@
    } else {
        start + "…"@ + end
    }
}

/// A text of a known width, shortened in the middle.
pub fn shorten(text: &str, width: usize, max_width: usize, start: &str, end: &str) -> (short: String)
    ensures
        short@ == shortened(text@, width as int, max_width as int, start@, end@),
{
    if width <= max_width {
        return owned(text);
    }
    if max_width == 0 {
        return String::new();
    }
    if max_width == 1 {
        return owned("…");
    }
    join3(start, "…", end)
}

/// The columns that a shortened text leaves its start: an ellipsis takes one, and
/// of the others the start has one more than the end if they are odd.
pub open spec fn start_room(max_width: usize) -> usize {
    (max_width - 1 - (max_width - 1) / 2) as usize
}

/// The columns that a shortened text leaves its end.
pub open spec fn end_room(max_width: usize) -> usize {
    ((max_width - 1) / 2) as usize
}

/// A text shortened in the middle to a number of columns.
pub open spec fn middle_shortened(text: Seq<char>, max_width: usize) -> Seq<char> {
    shortened(
        text,
        text_width(text) as int,
        max_width as int,
        kept_start(text, start_room(max_width)),
        kept_end(text, end_room(max_width)),
    )
}

/// Shortens a text in the middle to a number of columns. What comes out fits; where
/// it is not the whole text, it is a start and an end of it around an ellipsis, as
/// far as there is room for that.
pub fn truncate_middle_with_ellipsis(input: &str, max_width: usize) -> (short: String)
    ensures
        short@ == middle_shortened(input@, max_width),
        text_width(short@) <= max_width,
        text_width(input@) > max_width && max_width > 1 ==> ({
            let start = kept_start(input@, start_room(max_width));
            let end = kept_end(input@, end_room(max_width));
            &&& short@ == around_ellipsis(start, end)
            &&& start.len() <= input@.len() && start == input@.take(start.len() as int)
            &&& end.len() <= input@.len() && end == input@.skip(input@.len() - end.len())
            &&& text_width(start) <= start_room(max_width)
            &&& text_width(end) <= end_room(max_width)
        }),
{
    let width = terminal_text_width(input);
    if width <= max_width || max_width <= 1 {
        let short = shorten(input, width, max_width, "", "");
        let _fits = terminal_text_width(short.as_str());
        return short;
    }
    let rest: usize = max_width - 1;
    let tail: usize = rest / 2;
    let start = fit_start(input, rest - tail);
    let end = fit_end(input, tail);
    let short = shorten(input, width, max_width, start.as_str(), end.as_str());
    assert(short@ == around_ellipsis(start@, end@));
    let _fits = terminal_text_width(short.as_str());
    short
}

/// A text of no more than so many characters: a longer one ends in three dots in
/// place of its last three characters and all beyond.
pub open spec fn cut_off(text: Seq<char>, max_len: int) -> Seq<char> {
    if text.len() > max_len {
        text.take(
            if max_len >= 3 {
                max_len - 3
            } else {
                0
            },
        ) + "..."@
    } else {
        text
    }
}

/// Cuts a text off after so many characters.
pub fn truncate_with_ellipsis(text: &str, max_len: usize) -> (short: String)
    ensures
        short@ == cut_off(text@, max_len as int),
{
    if text.unicode_len() > max_len {
        let start = first_chars(text, max_len.saturating_sub(3));
        join(start.as_str(), "...")
    } else {
        owned(text)
    }
}

/// Texts one after the other with a separator between.
pub open spec fn separated(list: Seq<Seq<char>>, separator: Seq<char>) -> Seq<char>
    decreases list.len(),
{
    if list.len() == 0 {
        Seq::empty()
    } else if list.len() == 1 {
        list[0]
    } else {
        separated(list.drop_last(), separator) + separator + list.last()
    }
}

/// Puts texts one after the other with a separator between.
pub fn join_with(list: &Vec<String>, separator: &str) -> (text: String)
    ensures
        text@ == separated(list@.map_values(|item: String| item@), separator@),
{
    let ghost all = list@.map_values(|item: String| item@);
    let mut text = String::new();
    let mut i: usize = 0;
    assert(all.take(0) =~= Seq::<Seq<char>>::empty());
    while i < list.len()
        invariant
            i <= list@.len(),
            all == list@.map_values(|item: String| item@),
            text@ == separated(all.take(i as int), separator@),
        decreases list@.len() - i,
    {
        let ghost next = all.take(i + 1);
        assert(next.drop_last() =~= all.take(i as int));
        assert(next.last() == list@[i as int]@);
        if i > 0 {
            text.append(separator);
        } else {
            assert(text@ =~= Seq::<char>::empty());
        }
        text.append(list[i].as_str());
        assert(text@ =~= separated(next, separator@));
        i = i + 1;
    }
    assert(all.take(i as int) =~= all);
    text
}

/// Whether a text begins with another.
pub open spec fn begins_with(text: Seq<char>, start: Seq<char>) -> bool {
    start.len() <= text.len() && text.take(start.len() as int) == start
}

/// Whether a text begins with another.
pub fn starts_with(text: &str, start: &str) -> (begins: bool)
    ensures
        begins == begins_with(text@, start@),
{
    let count = start.unicode_len();
    if text.unicode_len() < count {
        return false;
    }
    let prefix = first_chars(text, count);
    assert(prefix@ =~= text@.take(count as int));
    same_text(prefix.as_str(), start)
}

/// Whether a text has another inside it.
pub open spec fn has_inside(text: Seq<char>, part: Seq<char>) -> bool {
    exists|i: int|
        0 <= i && i + part.len() <= text.len() && #[trigger] text.subrange(i, i + part.len())
            == part
}

/// Whether a text has another inside it.
pub fn contains_text(text: &str, part: &str) -> (inside: bool)
    ensures
        inside == has_inside(text@, part@),
{
    let chars = characters(text);
    let pattern = characters(part);
    let count: usize = chars.len();
    let mut i: usize = 0;
    while i <= chars.len() && chars.len() - i >= pattern.len()
        invariant
            i <= chars@.len() + 1,
            count == chars@.len(),
            chars@ == text@,
            pattern@ == part@,
            forall|k: int|
                0 <= k < i && k + part@.len() <= text@.len() ==> #[trigger] text@.subrange(
                    k,
                    k + part@.len(),
                ) != part@,
        decreases chars@.len() + 1 - i,
    {
        let mut j: usize = 0;
        while j < pattern.len() && chars[i + j] == pattern[j]
            invariant
                i + pattern@.len() <= chars@.len(),
                count == chars@.len(),
                j <= pattern@.len(),
                forall|k: int| 0 <= k < j ==> chars@[i + k] == pattern@[k],
            decreases pattern@.len() - j,
        {
            j = j + 1;
        }
        let ghost here = text@.subrange(i as int, i + part@.len());
        if j == pattern.len() {
            assert(here =~= part@);
            return true;
        }
        assert(here[j as int] != part@[j as int]);
        if i == chars.len() {
            return false;
        }
        i = i + 1;
    }
    false
}

/// An owned copy of a text.
pub fn owned(text: &str) -> (copy: String)
    ensures
        copy@ == text@,
{
    text.to_owned()
}

/// Whether two texts have the same characters.
pub fn same_text(a: &str, b: &str) -> (same: bool)
    ensures
        same == (a@ == b@),
{
    owned(a) == owned(b)
}

// ---------------------------------------------------------- numbers in text

pub open spec fn is_digit(c: char) -> bool {
    '0' <= c <= '9'
}

/// The number that some digits write, if they all are digits.
pub open spec fn digits_value(digits: Seq<char>) -> Option<int>
    decreases digits.len(),
{
    if digits.len() == 0 {
        Some(0)
    } else {
        match digits_value(digits.drop_last()) {
            Some(head) => if is_digit(digits.last()) {
                Some(head * 10 + (digits.last() as int - '0' as int))
            } else {
                None
            },
            None => None,
        }
    }
}

/// The number that a text writes: digits, at least one of them, behind a plus sign
/// or none.
pub open spec fn number_in(text: Seq<char>) -> Option<int> {
    if text.len() > 0 && text[0] == '+' {
        if text.len() == 1 {
            None
        } else {
            digits_value(text.drop_first())
        }
    } else if text.len() == 0 {
        None
    } else {
        digits_value(text)
    }
}

proof fn digits_grow(digits: Seq<char>, n: int)
    requires
        0 <= n <= digits.len(),
    ensures
        digits_value(digits.take(n)) is None ==> digits_value(digits) is None,
        digits_value(digits) matches Some(v) ==> v >= 0 && (digits_value(digits.take(n)) matches Some(
            w,
        ) ==> v >= w >= 0),
    decreases digits.len(),
{
    if n < digits.len() {
        digits_grow(digits.drop_last(), n);
        assert(digits.drop_last().take(n) =~= digits.take(n));
    } else {
        assert(digits.take(n) =~= digits);
        if digits.len() > 0 {
            digits_grow(digits.drop_last(), 0);
        }
    }
}

/// Reads a number that is not above a limit.
pub fn parse_number(text: &str, max: u64) -> (number: Option<u64>)
    ensures
        match number_in(text@) {
            Some(value) => if value <= max {
                number == Some(value as u64)
            } else {
                number is None
            },
            None => number is None,
        },
        number matches Some(n) ==> number_in(text@) == Some(n as int),
{
    let chars = characters(text);
    let count = chars.len();
    if count == 0 {
        return None;
    }
    let start: usize = if chars[0] == '+' {
        1
    } else {
        0
    };
    if start == count {
        return None;
    }
    let ghost digits = text@.skip(start as int);
    assert(digits =~= if start == 1 {
        text@.drop_first()
    } else {
        text@
    });
    let mut value: u64 = 0;
    let mut k: usize = start;
    assert(digits.take(0) =~= Seq::<char>::empty());
    while k < count
        invariant
            start <= k <= count,
            start <= 1,
            count == chars@.len(),
            chars@ == text@,
            digits == text@.skip(start as int),
            number_in(text@) == digits_value(digits),
            digits_value(digits.take(k - start)) == Some(value as int),
            value <= max,
        decreases count - k,
    {
        let c = chars[k];
        let ghost next = digits.take(k - start + 1);
        proof {
            assert(next.drop_last() =~= digits.take(k - start));
            assert(next.last() == c);
            digits_grow(digits, k - start + 1);
        }
        if !('0' <= c && c <= '9') {
            return None;
        }
        let digit: u64 = (c as u32 - '0' as u32) as u64;
        if value > max / 10 || digit > max - value * 10 {
            return None;
        }
        value = value * 10 + digit;
        k = k + 1;
    }
    assert(digits.take(k - start) =~= digits);
    Some(value)
}

// ---------------------------------------------------------------- replacing

/// A text with another in place of every occurrence of a pattern, from left to
/// right and without overlap. The empty pattern occurs before every character and
/// at the end.
pub open spec fn replaced(text: Seq<char>, pattern: Seq<char>, with: Seq<char>) -> Seq<char>
    decreases text.len(),
{
    if pattern.len() == 0 {
        if text.len() == 0 {
            with
        } else {
            with.push(text[0]) + replaced(text.drop_first(), pattern, with)
        }
    } else if text.len() == 0 {
        text
    } else if begins_with(text, pattern) {
        with + replaced(text.skip(pattern.len() as int), pattern, with)
    } else {
        seq![text[0]] + replaced(text.drop_first(), pattern, with)
    }
}

fn occurs_at(chars: &Vec<char>, pattern: &Vec<char>, at: usize) -> (occurs: bool)
    requires
        at <= chars@.len(),
    ensures
        occurs == begins_with(chars@.skip(at as int), pattern@),
{
    let count = chars.len();
    if count - at < pattern.len() {
        return false;
    }
    let ghost rest = chars@.skip(at as int);
    let mut k: usize = 0;
    while k < pattern.len()
        invariant
            k <= pattern@.len(),
            count == chars@.len(),
            at + pattern@.len() <= count,
            rest == chars@.skip(at as int),
            forall|j: int| 0 <= j < k ==> #[trigger] rest[j] == pattern@[j],
        decreases pattern@.len() - k,
    {
        if chars[at + k] != pattern[k] {
            assert(rest.take(pattern@.len() as int)[k as int] == rest[k as int]);
            return false;
        }
        k = k + 1;
    }
    assert(rest.take(pattern@.len() as int) =~= pattern@);
    true
}

/// Puts a text in place of every occurrence of a pattern.
pub fn replace_text(text: &str, pattern: &str, with: &str) -> (result: String)
    ensures
        result@ == replaced(text@, pattern@, with@),
{
    let chars = characters(text);
    let wanted = characters(pattern);
    let count = chars.len();
    let length = wanted.len();
    let mut result = String::new();
    let mut k: usize = 0;
    assert(text@.skip(0) =~= text@);
    while k < count
        invariant
            k <= count,
            count == chars@.len(),
            chars@ == text@,
            wanted@ == pattern@,
            length == wanted@.len(),
            result@ + replaced(text@.skip(k as int), pattern@, with@) =~= replaced(
                text@,
                pattern@,
                with@,
            ),
        decreases count - k,
    {
        let ghost rest = text@.skip(k as int);
        assert(rest.drop_first() =~= text@.skip(k + 1));
        if length == 0 {
            result.append(with);
            result.push(chars[k]);
            k = k + 1;
        } else if occurs_at(&chars, &wanted, k) {
            assert(rest.skip(length as int) =~= text@.skip(k + length));
            result.append(with);
            k = k + length;
        } else {
            result.push(chars[k]);
            k = k + 1;
        }
    }
    assert(text@.skip(k as int) =~= Seq::<char>::empty());
    if length == 0 {
        result.append(with);
    }
    result
}

} // verus!
