use vstd::prelude::*;
use vstd::std_specs::iter::IteratorSpec;
use vstd::string::StrSliceExecFns;
use vstd::string::StringExecFns;

verus! {

/// The characters of a text, one by one.
pub fn chars_of(text: &str) -> (chars: Vec<char>)
    ensures
        chars@ == text@,
{
    broadcast use vstd::string::group_string_axioms;

    let mut rest = text.chars();
    let mut chars: Vec<char> = Vec::new();
    loop
        invariant
            chars@ + rest.remaining() == text@,
            rest.obeys_prophetic_iter_laws(),
            rest.decrease() is Some,
        ensures
            chars@ == text@,
        decreases rest.decrease()->0,
    {
        let ghost before = rest.remaining();
        match rest.next() {
            Some(next) => {
                chars.push(next);
                assert(chars@ + rest.remaining() =~= text@) by {
                    assert(before =~= seq![next] + before.drop_first());
                }
            },
            None => {
                assert(chars@ + rest.remaining() =~= chars@);
                break ;
            },
        }
    }
    chars
}

/// The place of the first `wanted` in a text; the length of the text where
/// there is none.
pub open spec fn find_char(text: Seq<char>, wanted: char) -> int
    decreases text.len(),
{
    if text.len() == 0 {
        0
    } else if text[0] == wanted {
        0
    } else {
        1 + find_char(text.drop_first(), wanted)
    }
}

/// `find_char` gives a place in the text or its length; no `wanted` comes
/// before that place, and one stands there where it is a place.
pub proof fn lemma_find_char(text: Seq<char>, wanted: char)
    ensures
        0 <= find_char(text, wanted) <= text.len(),
        forall|i: int| 0 <= i < find_char(text, wanted) ==> text[i] != wanted,
        find_char(text, wanted) < text.len() ==> text[find_char(text, wanted)] == wanted,
    decreases text.len(),
{
    if text.len() > 0 && text[0] != wanted {
        lemma_find_char(text.drop_first(), wanted);
        assert forall|i: int| 0 <= i < find_char(text, wanted) implies text[i] != wanted by {
            if i > 0 {
                assert(text[i] == text.drop_first()[i - 1]);
            }
        }
    }
}

/// The first place at or after `from` where `wanted` stands; the length of
/// the text where there is none.
pub fn find_from(chars: &Vec<char>, from: usize, wanted: char) -> (place: usize)
    requires
        from <= chars@.len(),
    ensures
        place == from + find_char(chars@.subrange(from as int, chars@.len() as int), wanted),
        from <= place <= chars@.len(),
{
    let ghost rest = chars@.subrange(from as int, chars@.len() as int);
    let mut place: usize = from;
    proof {
        lemma_find_char(rest, wanted);
    }
    while place < chars.len() && chars[place] != wanted
        invariant
            from <= place <= chars@.len(),
            rest == chars@.subrange(from as int, chars@.len() as int),
            forall|i: int| from <= i < place ==> chars@[i] != wanted,
        decreases chars@.len() - place,
    {
        place = place + 1;
    }
    proof {
        lemma_find_char(rest, wanted);
        let found = find_char(rest, wanted);
        if found < place - from {
            assert(rest[found] == chars@[from + found]);
        }
        if found > place - from {
            assert(rest[place - from] == chars@[place as int]);
        }
    }
    place
}

/// A line without the carriage return at its end, where it has one.
pub open spec fn strip_carriage_return(line: Seq<char>) -> Seq<char> {
    if line.len() > 0 && line.last() == '\r' {
        line.drop_last()
    } else {
        line
    }
}

/// The lines of a text. A line ends with a line feed, or with a carriage
/// return and a line feed; neither belongs to the line. The last line need
/// not end with a line feed, and keeps a carriage return at its end. A text
/// that ends with a line feed has no empty line after it.
pub open spec fn lines(text: Seq<char>) -> Seq<Seq<char>>
    decreases text.len(),
{
    if text.len() == 0 {
        Seq::empty()
    } else {
        let end = find_char(text, '\n');
        if 0 <= end < text.len() {
            seq![strip_carriage_return(text.subrange(0, end))] + lines(
                text.subrange(end + 1, text.len() as int),
            )
        } else {
            seq![text]
        }
    }
}

/// The given texts in a row, with `separator` between every two of them.
pub open spec fn join(texts: Seq<Seq<char>>, separator: Seq<char>) -> Seq<char>
    decreases texts.len(),
{
    if texts.len() == 0 {
        Seq::empty()
    } else if texts.len() == 1 {
        texts[0]
    } else {
        join(texts.drop_last(), separator) + separator + texts.last()
    }
}

/// Where a line stands in a text: the place of its first character and
/// the place after its last.
#[derive(Clone, Copy, Debug)]
pub struct LineBounds {
    pub start: usize,
    pub end: usize,
}

/// The given bounds are those of the given lines of `text`, one for one.
pub open spec fn bounds_match(
    text: Seq<char>,
    bounds: Seq<LineBounds>,
    lines: Seq<Seq<char>>,
) -> bool {
    &&& bounds.len() == lines.len()
    &&& forall|i: int|
        0 <= i < bounds.len() ==> {
            &&& 0 <= (#[trigger] bounds[i]).start <= bounds[i].end <= text.len()
            &&& text.subrange(bounds[i].start as int, bounds[i].end as int) == lines[i]
        }
}

/// Finds the lines of a text.
pub fn line_bounds(chars: &Vec<char>) -> (bounds: Vec<LineBounds>)
    ensures
        bounds_match(chars@, bounds@, lines(chars@)),
{
    let length: usize = chars.len();
    let mut bounds: Vec<LineBounds> = Vec::new();
    let ghost mut found: Seq<Seq<char>> = Seq::empty();
    let mut place: usize = 0;
    assert(chars@.subrange(0, length as int) =~= chars@);
    assert(found + lines(chars@) =~= lines(chars@));
    while place < length
        invariant
            place <= length,
            length == chars@.len(),
            bounds_match(chars@, bounds@, found),
            found + lines(chars@.subrange(place as int, length as int)) == lines(chars@),
        decreases length - place,
    {
        let ghost rest = chars@.subrange(place as int, length as int);
        let end: usize = find_from(chars, place, '\n');
        proof {
            lemma_find_char(rest, '\n');
        }
        if end < length {
            let line_end: usize = if end > place && chars[end - 1] == '\r' {
                end - 1
            } else {
                end
            };
            let ghost line = chars@.subrange(place as int, line_end as int);
            proof {
                let raw = rest.subrange(0, end - place);
                assert(raw =~= chars@.subrange(place as int, end as int));
                if raw.len() > 0 {
                    assert(raw.last() == chars@[end - 1]);
                }
                assert(strip_carriage_return(raw) =~= line);
                assert(rest.subrange(end - place + 1, rest.len() as int) =~= chars@.subrange(
                    end + 1,
                    length as int,
                ));
                assert(found.push(line) + lines(chars@.subrange(end + 1, length as int)) =~= found
                    + (seq![line] + lines(chars@.subrange(end + 1, length as int))));
            }
            bounds.push(LineBounds { start: place, end: line_end });
            proof {
                found = found.push(line);
            }
            place = end + 1;
        } else {
            proof {
                assert(lines(rest) =~= seq![rest]);
                assert(chars@.subrange(length as int, length as int) =~= Seq::<char>::empty());
                assert(found.push(rest) + lines(chars@.subrange(length as int, length as int))
                    =~= found + seq![rest]);
            }
            bounds.push(LineBounds { start: place, end: length });
            proof {
                found = found.push(rest);
            }
            place = length;
        }
    }
    proof {
        assert(chars@.subrange(length as int, length as int) =~= Seq::<char>::empty());
        assert(found + Seq::<Seq<char>>::empty() =~= found);
    }
    bounds
}

/// The value of a decimal digit, where the character is one.
pub open spec fn digit_value(digit: char) -> Option<nat> {
    if '0' <= digit <= '9' {
        Some((digit as u32 - '0' as u32) as nat)
    } else {
        None
    }
}

/// The number that a row of decimal digits stands for, where every
/// character is a digit. An empty row stands for 0.
pub open spec fn digits_value(digits: Seq<char>) -> Option<nat>
    decreases digits.len(),
{
    if digits.len() == 0 {
        Some(0)
    } else {
        match (digits_value(digits.drop_last()), digit_value(digits.last())) {
            (Some(front), Some(last)) => Some(front * 10 + last),
            _ => None,
        }
    }
}

/// The number that a text stands for as an unsigned decimal number: a
/// plus sign may come first, then at least one digit, and nothing else.
pub open spec fn parse_unsigned(text: Seq<char>) -> Option<nat> {
    let digits = if text.len() > 0 && text[0] == '+' {
        text.drop_first()
    } else {
        text
    };
    if digits.len() == 0 {
        None
    } else {
        digits_value(digits)
    }
}

/// Reads an unsigned decimal number that fits a `usize`.
pub fn parse_usize(chars: &Vec<char>) -> (number: Option<usize>)
    ensures
        number == match parse_unsigned(chars@) {
            Some(value) => if value <= usize::MAX {
                Some(value as usize)
            } else {
                None
            },
            None => None,
        },
{
    let length: usize = chars.len();
    let first: usize = if length > 0 && chars[0] == '+' {
        1
    } else {
        0
    };
    if first == length {
        assert(chars@.subrange(first as int, length as int).len() == 0);
        return None;
    }
    let ghost digits = chars@.subrange(first as int, length as int);
    assert(first == 1 ==> digits =~= chars@.drop_first());
    assert(first == 0 ==> digits =~= chars@);
    let mut value: usize = 0;
    let mut place: usize = first;
    assert(digits.take(0) =~= Seq::<char>::empty());
    while place < length
        invariant
            first <= place <= length,
            length == chars@.len(),
            digits == chars@.subrange(first as int, length as int),
            digits.len() > 0,
            parse_unsigned(chars@) == digits_value(digits),
            digits_value(digits.take(place - first)) == Some(value as nat),
        decreases length - place,
    {
        let digit = chars[place];
        let ghost prefix = digits.take(place - first + 1);
        proof {
            assert(prefix.drop_last() =~= digits.take(place - first));
            assert(prefix.last() == digit);
        }
        if digit < '0' || digit > '9' {
            proof {
                lemma_digits_value_fails_on(digits, place - first + 1);
            }
            return None;
        }
        let last: usize = (digit as u32 - '0' as u32) as usize;
        if value > (usize::MAX - last) / 10 {
            proof {
                assert(value * 10 + last > usize::MAX);
                lemma_digits_value_grows(digits, place - first + 1);
            }
            return None;
        }
        value = value * 10 + last;
        place = place + 1;
    }
    assert(digits.take(length - first) =~= digits);
    Some(value)
}

/// Where the first `count` characters are not all digits, neither are all
/// characters.
pub proof fn lemma_digits_value_fails_on(digits: Seq<char>, count: int)
    requires
        0 <= count <= digits.len(),
        digits_value(digits.take(count)) is None,
    ensures
        digits_value(digits) is None,
    decreases digits.len() - count,
{
    if count == digits.len() {
        assert(digits.take(count) =~= digits);
    } else {
        assert(digits.take(count + 1).drop_last() =~= digits.take(count));
        lemma_digits_value_fails_on(digits, count + 1);
    }
}

/// The number that a row of digits stands for is no less than the number
/// that any of its beginnings stands for.
pub proof fn lemma_digits_value_grows(digits: Seq<char>, count: int)
    requires
        0 <= count <= digits.len(),
        digits_value(digits.take(count)) is Some,
    ensures
        digits_value(digits) is Some ==> digits_value(digits).unwrap() >= digits_value(
            digits.take(count),
        ).unwrap(),
    decreases digits.len() - count,
{
    if count == digits.len() {
        assert(digits.take(count) =~= digits);
    } else {
        assert(digits.take(count + 1).drop_last() =~= digits.take(count));
        if digits_value(digits.take(count + 1)) is Some {
            lemma_digits_value_grows(digits, count + 1);
        } else {
            lemma_digits_value_fails_on(digits, count + 1);
        }
    }
}

/// Whether the given characters spell `expected`.
pub fn chars_are(chars: &Vec<char>, expected: &str) -> (same: bool)
    ensures
        same == (chars@ == expected@),
{
    let length: usize = expected.unicode_len();
    if chars.len() != length {
        return false;
    }
    let mut place: usize = 0;
    while place < length
        invariant
            place <= length,
            length == chars@.len(),
            length == expected@.len(),
            forall|i: int| 0 <= i < place ==> chars@[i] == expected@[i],
        decreases length - place,
    {
        if chars[place] != expected.get_char(place) {
            return false;
        }
        place = place + 1;
    }
    assert(chars@ =~= expected@);
    true
}

/// Joining one more text to a row of texts puts the separator before it,
/// unless it is the first.
pub proof fn lemma_join_push(texts: Seq<Seq<char>>, separator: Seq<char>, text: Seq<char>)
    ensures
        join(texts.push(text), separator) == if texts.len() == 0 {
            text
        } else {
            join(texts, separator) + separator + text
        },
{
    assert(texts.push(text).drop_last() =~= texts);
    assert(texts.push(text).last() == text);
}

/// A text ends with another.
pub open spec fn spec_ends_with(text: Seq<char>, suffix: Seq<char>) -> bool {
    text.len() >= suffix.len() && text.subrange(text.len() - suffix.len(), text.len() as int)
        == suffix
}

/// Whether a text ends with another.
pub fn ends_with(text: &str, suffix: &str) -> (ends: bool)
    ensures
        ends == spec_ends_with(text@, suffix@),
{
    let chars = chars_of(text);
    let wanted = chars_of(suffix);
    if chars.len() < wanted.len() {
        return false;
    }
    let offset: usize = chars.len() - wanted.len();
    let mut place: usize = 0;
    while place < wanted.len()
        invariant
            place <= wanted@.len(),
            offset + wanted@.len() == chars@.len(),
            chars@.len() <= usize::MAX,
            chars@ == text@,
            wanted@ == suffix@,
            forall|i: int| 0 <= i < place ==> chars@[offset + i] == wanted@[i],
        decreases wanted@.len() - place,
    {
        if chars[offset + place] != wanted[place] {
            assert(chars@.subrange(offset as int, chars@.len() as int)[place as int]
                != wanted@[place as int]);
            return false;
        }
        place = place + 1;
    }
    assert(chars@.subrange(offset as int, chars@.len() as int) =~= wanted@);
    true
}

/// Whether a character is white space, as `char::is_whitespace` says.
pub uninterp spec fn is_whitespace(character: char) -> bool;

/// `char::is_whitespace` tells whether a character has the property
/// `White_Space` of Unicode. The result is a function of the character alone
/// and is named `is_whitespace`.
pub assume_specification[ char::is_whitespace ](character: char) -> (white: bool)
    ensures
        white == is_whitespace(character),
;

/// How many characters of white space a text starts with.
pub open spec fn leading_whitespace(text: Seq<char>) -> int
    decreases text.len(),
{
    if text.len() == 0 || !is_whitespace(text[0]) {
        0
    } else {
        1 + leading_whitespace(text.drop_first())
    }
}

/// How many characters that are no white space a text starts with.
pub open spec fn leading_word(text: Seq<char>) -> int
    decreases text.len(),
{
    if text.len() == 0 || is_whitespace(text[0]) {
        0
    } else {
        1 + leading_word(text.drop_first())
    }
}

/// Both counts are places in the text or its length.
pub proof fn lemma_leading(text: Seq<char>)
    ensures
        0 <= leading_whitespace(text) <= text.len(),
        0 <= leading_word(text) <= text.len(),
        forall|i: int| 0 <= i < leading_whitespace(text) ==> is_whitespace(text[i]),
        leading_whitespace(text) < text.len() ==> !is_whitespace(text[leading_whitespace(text)]),
        forall|i: int| 0 <= i < leading_word(text) ==> !is_whitespace(text[i]),
        leading_word(text) < text.len() ==> is_whitespace(text[leading_word(text)]),
    decreases text.len(),
{
    if text.len() > 0 {
        lemma_leading(text.drop_first());
        assert forall|i: int| 0 <= i < leading_whitespace(text) implies is_whitespace(
            text[i],
        ) by {
            if i > 0 {
                assert(text[i] == text.drop_first()[i - 1]);
            }
        }
        assert forall|i: int| 0 <= i < leading_word(text) implies !is_whitespace(text[i]) by {
            if i > 0 {
                assert(text[i] == text.drop_first()[i - 1]);
            }
        }
    }
}

/// The words of a text: the runs of characters that are no white space,
/// in their order.
pub open spec fn words(text: Seq<char>) -> Seq<Seq<char>>
    decreases text.len(),
{
    let start = leading_whitespace(text);
    if 0 <= start < text.len() {
        let rest = text.subrange(start, text.len() as int);
        let length = leading_word(rest);
        if 0 < length <= rest.len() {
            seq![rest.subrange(0, length)] + words(rest.subrange(length, rest.len() as int))
        } else {
            Seq::empty()
        }
    } else {
        Seq::empty()
    }
}

/// Finds the words of a text.
pub fn word_bounds(chars: &Vec<char>) -> (bounds: Vec<LineBounds>)
    ensures
        bounds_match(chars@, bounds@, words(chars@)),
{
    let length: usize = chars.len();
    let mut bounds: Vec<LineBounds> = Vec::new();
    let ghost mut found: Seq<Seq<char>> = Seq::empty();
    let mut place: usize = 0;
    assert(chars@.subrange(0, length as int) =~= chars@);
    assert(found + words(chars@) =~= words(chars@));
    while place < length
        invariant
            place <= length,
            length == chars@.len(),
            bounds_match(chars@, bounds@, found),
            found + words(chars@.subrange(place as int, length as int)) == words(chars@),
        decreases length - place,
    {
        let ghost text = chars@.subrange(place as int, length as int);
        proof {
            lemma_leading(text);
        }
        let mut start: usize = place;
        while start < length && chars[start].is_whitespace()
            invariant
                place <= start <= length,
                length == chars@.len(),
                text == chars@.subrange(place as int, length as int),
                forall|i: int| place <= i < start ==> is_whitespace(chars@[i]),
            decreases length - start,
        {
            start = start + 1;
        }
        proof {
            let expected = leading_whitespace(text);
            if expected < start - place {
                assert(text[expected] == chars@[place + expected]);
            }
            if expected > start - place {
                assert(text[start - place] == chars@[start as int]);
            }
            assert(expected == start - place);
        }
        if start == length {
            proof {
                assert(words(text) =~= Seq::<Seq<char>>::empty());
                assert(chars@.subrange(length as int, length as int) =~= Seq::<char>::empty());
            }
            place = length;
        } else {
            let ghost rest = chars@.subrange(start as int, length as int);
            proof {
                lemma_leading(rest);
                assert(rest =~= text.subrange(start - place, text.len() as int));
            }
            let mut end: usize = start;
            while end < length && !chars[end].is_whitespace()
                invariant
                    start <= end <= length,
                    length == chars@.len(),
                    rest == chars@.subrange(start as int, length as int),
                    forall|i: int| start <= i < end ==> !is_whitespace(chars@[i]),
                decreases length - end,
            {
                end = end + 1;
            }
            proof {
                let expected = leading_word(rest);
                if expected < end - start {
                    assert(rest[expected] == chars@[start + expected]);
                }
                if expected > end - start {
                    assert(rest[end - start] == chars@[end as int]);
                }
                assert(expected == end - start);
                assert(rest[0] == chars@[start as int]);
                assert(end > start);
                let word = chars@.subrange(start as int, end as int);
                assert(rest.subrange(0, end - start) =~= word);
                assert(rest.subrange(end - start, rest.len() as int) =~= chars@.subrange(
                    end as int,
                    length as int,
                ));
                assert(found.push(word) + words(chars@.subrange(end as int, length as int))
                    =~= found + (seq![word] + words(chars@.subrange(end as int, length as int))));
                found = found.push(word);
            }
            bounds.push(LineBounds { start, end });
            place = end;
        }
    }
    proof {
        assert(chars@.subrange(length as int, length as int) =~= Seq::<char>::empty());
        assert(found + Seq::<Seq<char>>::empty() =~= found);
    }
    bounds
}

/// Writes the pieces of a text with the given bounds one after the other,
/// with `separator` between every two of them.
pub fn join_pieces(
    text: &str,
    bounds: &Vec<LineBounds>,
    from: usize,
    to: usize,
    separator: &str,
) -> (joined: String)
    requires
        from <= to <= bounds@.len(),
        forall|i: int|
            0 <= i < bounds@.len() ==> 0 <= (#[trigger] bounds@[i]).start <= bounds@[i].end
                <= text@.len(),
    ensures
        joined@ == join(
            Seq::new(
                (to - from) as nat,
                |i: int| text@.subrange(bounds@[from + i].start as int, bounds@[from + i].end as int),
            ),
            separator@,
        ),
{
    let ghost wanted = Seq::new(
        (to - from) as nat,
        |i: int| text@.subrange(bounds@[from + i].start as int, bounds@[from + i].end as int),
    );
    let mut joined = String::from_str("");
    let mut place: usize = from;
    proof {
        reveal_strlit("");
        assert(wanted.take(0) =~= Seq::<Seq<char>>::empty());
        assert(joined@ =~= join(wanted.take(0), separator@));
    }
    while place < to
        invariant
            from <= place <= to <= bounds@.len(),
            forall|i: int|
                0 <= i < bounds@.len() ==> 0 <= (#[trigger] bounds@[i]).start <= bounds@[i].end
                    <= text@.len(),
            wanted == Seq::new(
                (to - from) as nat,
                |i: int|
                    text@.subrange(bounds@[from + i].start as int, bounds@[from + i].end as int),
            ),
            joined@ == join(wanted.take(place - from), separator@),
        decreases to - place,
    {
        let piece = text.substring_char(bounds[place].start, bounds[place].end);
        proof {
            assert(wanted.take(place - from + 1) =~= wanted.take(place - from).push(piece@));
            lemma_join_push(wanted.take(place - from), separator@, piece@);
        }
        if place > from {
            joined.append(separator);
        }
        joined.append(piece);
        place = place + 1;
    }
    assert(wanted.take(to - from) =~= wanted);
    joined
}

} // verus!
