use crate::utils::number::count_digits;
use crate::utils::number::decimal;
use crate::utils::text::bounds_match;
use crate::utils::text::chars_of;
use crate::utils::text::find_from;
use crate::utils::text::lemma_find_char;
use crate::utils::text::line_bounds;
use crate::utils::text::lines;
use vstd::prelude::*;
use vstd::string::StrSliceExecFns;
use vstd::string::StringExecFns;
use vstd::utf8::encode_utf8;

verus! {

/// The least width of a text that is measured on a grid of characters.
pub const MIN_WIDTH: u32 = 100;

/// A text with two spaces in place of every tab.
pub open spec fn expand_tabs(text: Seq<char>) -> Seq<char>
    decreases text.len(),
{
    if text.len() == 0 {
        Seq::empty()
    } else if text.last() == '\t' {
        expand_tabs(text.drop_last()) + seq![' ', ' ']
    } else {
        expand_tabs(text.drop_last()).push(text.last())
    }
}

/// A piece of text without a tab stays as it is.
pub proof fn lemma_expand_tabs_keeps(text: Seq<char>, from: int, to: int)
    requires
        0 <= from <= to <= text.len(),
        forall|i: int| from <= i < to ==> text[i] != '\t',
    ensures
        expand_tabs(text.take(to)) == expand_tabs(text.take(from)) + text.subrange(from, to),
    decreases to - from,
{
    if from == to {
        assert(text.subrange(from, to) =~= Seq::<char>::empty());
        assert(expand_tabs(text.take(from)) + Seq::<char>::empty() =~= expand_tabs(
            text.take(from),
        ));
    } else {
        lemma_expand_tabs_keeps(text, from, to - 1);
        assert(text.take(to).drop_last() =~= text.take(to - 1));
        assert(text.take(to).last() == text[to - 1]);
        assert(expand_tabs(text.take(from)) + text.subrange(from, to) =~= (expand_tabs(
            text.take(from),
        ) + text.subrange(from, to - 1)).push(text[to - 1]));
    }
}

/// The code as it is shown: a tab is as wide as two spaces.
pub fn prepare_code(code: &str) -> (prepared: String)
    ensures
        prepared@ == expand_tabs(code@),
{
    let chars = chars_of(code);
    let length: usize = chars.len();
    let mut prepared = String::from_str("");
    let mut place: usize = 0;
    proof {
        reveal_strlit("");
        assert(chars@.take(0) =~= Seq::<char>::empty());
    }
    while place < length
        invariant
            place <= length,
            length == chars@.len(),
            chars@ == code@,
            prepared@ == expand_tabs(chars@.take(place as int)),
        decreases length - place,
    {
        let end: usize = find_from(&chars, place, '\t');
        proof {
            lemma_find_char(chars@.subrange(place as int, length as int), '\t');
            assert forall|i: int| place <= i < end implies chars@[i] != '\t' by {
                assert(chars@[i] == chars@.subrange(place as int, length as int)[i - place]);
            }
            lemma_expand_tabs_keeps(chars@, place as int, end as int);
        }
        prepared.append(code.substring_char(place, end));
        if end < length {
            proof {
                reveal_strlit("  ");
                assert("  "@ =~= seq![' ', ' ']);
                assert(chars@[end as int] == chars@.subrange(place as int, length as int)[end
                    - place]);
                assert(chars@.take(end + 1).drop_last() =~= chars@.take(end as int));
                assert(chars@.take(end + 1).last() == '\t');
            }
            prepared.append("  ");
            place = end + 1;
        } else {
            place = length;
        }
    }
    assert(chars@.take(length as int) =~= chars@);
    prepared
}

/// The length of the longest of the given lines, in bytes of UTF-8; 0 where
/// there is no line.
pub open spec fn longest_line(lines: Seq<Seq<char>>) -> nat
    decreases lines.len(),
{
    if lines.len() == 0 {
        0
    } else if longest_line(lines.drop_last()) >= encode_utf8(lines.last()).len() {
        longest_line(lines.drop_last())
    } else {
        encode_utf8(lines.last()).len()
    }
}

/// The size of a text on a grid of characters: as many columns as its
/// longest line has bytes, and as many rows as it has lines.
pub fn code_size(text: &str) -> (size: (usize, usize))
    ensures
        size.0 == longest_line(lines(text@)),
        size.1 == lines(text@).len(),
{
    let chars = chars_of(text);
    let bounds = line_bounds(&chars);
    let ghost all = lines(text@);
    let mut longest: usize = 0;
    let mut index: usize = 0;
    assert(all.take(0) =~= Seq::<Seq<char>>::empty());
    while index < bounds.len()
        invariant
            index <= bounds@.len(),
            all == lines(text@),
            bounds_match(text@, bounds@, all),
            longest == longest_line(all.take(index as int)),
        decreases bounds@.len() - index,
    {
        let line = text.substring_char(bounds[index].start, bounds[index].end);
        let length: usize = line.as_bytes().len();
        proof {
            assert(all.take(index + 1).drop_last() =~= all.take(index as int));
            assert(all.take(index + 1).last() == line@);
        }
        if length > longest {
            longest = length;
        }
        index = index + 1;
    }
    assert(all.take(index as int) =~= all);
    (longest, bounds.len())
}

/// The size of a text in logical pixels, where a character is `char_width`
/// wide and a line `line_height` high. `None` where a side does not fit a
/// `u32`.
pub fn calc_wh(text: &str, char_width: u32, line_height: u32) -> (size: Option<(u32, u32)>)
    ensures
        size == if longest_line(lines(expand_tabs(text@))) * char_width <= u32::MAX && lines(
            expand_tabs(text@),
        ).len() * line_height <= u32::MAX {
            Some(
                (
                    (longest_line(lines(expand_tabs(text@))) * char_width) as u32,
                    (lines(expand_tabs(text@)).len() * line_height) as u32,
                ),
            )
        } else {
            None
        },
{
    let code = prepare_code(text);
    let (columns, rows): (usize, usize) = code_size(code.as_str());
    assert(columns * char_width <= 0xffff_ffff_ffff_ffff * 0xffff_ffff && rows * line_height
        <= 0xffff_ffff_ffff_ffff * 0xffff_ffff) by (nonlinear_arith)
        requires
            columns <= 0xffff_ffff_ffff_ffff,
            rows <= 0xffff_ffff_ffff_ffff,
            char_width <= 0xffff_ffff,
            line_height <= 0xffff_ffff,
    ;
    let width: u128 = columns as u128 * char_width as u128;
    let height: u128 = rows as u128 * line_height as u128;
    if width <= u32::MAX as u128 && height <= u32::MAX as u128 {
        Some((width as u32, height as u32))
    } else {
        None
    }
}

/// The size of a text in logical pixels, no narrower than `MIN_WIDTH`.
pub fn calc_wh_with_min_width(text: &str, char_width: u32, line_height: u32) -> (size: Option<
    (u32, u32),
>)
    ensures
        size == if longest_line(lines(expand_tabs(text@))) * char_width <= u32::MAX && lines(
            expand_tabs(text@),
        ).len() * line_height <= u32::MAX {
            Some(
                (
                    if longest_line(lines(expand_tabs(text@))) * char_width < MIN_WIDTH {
                        MIN_WIDTH
                    } else {
                        (longest_line(lines(expand_tabs(text@))) * char_width) as u32
                    },
                    (lines(expand_tabs(text@)).len() * line_height) as u32,
                ),
            )
        } else {
            None
        },
{
    match calc_wh(text, char_width, line_height) {
        Some((width, height)) => Some(
            (
                if width < MIN_WIDTH {
                    MIN_WIDTH
                } else {
                    width
                },
                height,
            ),
        ),
        None => None,
    }
}

/// The largest number among the numbers of `code_length` lines of which
/// the first has the number `start_line_number`; 0 for no lines from 0 on.
pub open spec fn max_line_number(code_length: nat, start_line_number: u32) -> nat {
    if code_length + start_line_number >= 1 {
        (code_length + start_line_number - 1) as nat
    } else {
        0
    }
}

/// How many digits the largest line number has.
pub fn calc_max_line_number_length(code_length: usize, start_line_number: u32) -> (digits: usize)
    ensures
        digits == decimal(max_line_number(code_length as nat, start_line_number)).len(),
{
    let total: u128 = code_length as u128 + start_line_number as u128;
    let largest: u128 = if total >= 1 {
        total - 1
    } else {
        0
    };
    count_digits(largest)
}

} // verus!
