use crate::utils::text::chars_are;
use crate::utils::text::chars_of;
use crate::utils::text::find_char;
use crate::utils::text::find_from;
use crate::utils::text::join;
use crate::utils::text::join_pieces;
use crate::utils::text::line_bounds;
use crate::utils::text::lines;
use crate::utils::text::parse_unsigned;
use crate::utils::text::parse_usize;
use vstd::prelude::*;
use vstd::string::StrSliceExecFns;
use vstd::string::StringExecFns;

verus! {

/// What stands between the two ends of a range.
pub const RANGE_SEPARATOR: char = ':';

/// The range that takes a text from its first line to its last.
pub const DEFAULT_RANGE: &'static str = "start:end";

/// Why a range of lines was not accepted.
#[derive(Clone, Copy, Debug, PartialEq, Eq, Structural)]
pub enum RangeError {
    /// The range has more than two ends.
    InvalidFormat,
    /// An end of the range is neither `start`, `end` nor a number.
    InvalidNumber,
    /// The range starts before line 1, or ends at a line whose number is
    /// the largest there is.
    LineOutOfRange,
    /// The highlight starts before the first line shown, which is this.
    HighlightStartTooSmall(usize),
    /// The highlight ends after the last line shown, which is this.
    HighlightEndTooLarge(usize),
}

/// A range of lines: its first end and its second.
#[derive(Debug)]
pub struct Range<T>(pub T, pub T);

/// The word for the first line.
pub open spec fn start_word() -> Seq<char> {
    seq!['s', 't', 'a', 'r', 't']
}

/// The word for the last line.
pub open spec fn end_word() -> Seq<char> {
    seq!['e', 'n', 'd']
}

/// A range as it is read: one that starts with the separator starts at the
/// first line, and one that ends with it ends at the last.
pub open spec fn prepared_range(raw_range: Seq<char>) -> Seq<char> {
    if raw_range.len() > 0 && raw_range[0] == RANGE_SEPARATOR {
        start_word() + raw_range
    } else if raw_range.len() > 0 && raw_range.last() == RANGE_SEPARATOR {
        raw_range + end_word()
    } else {
        raw_range
    }
}

/// The two ends of a range. A range without a separator names one line,
/// which is both ends. There are none where there are two separators or
/// more.
pub open spec fn range_points(range: Seq<char>) -> Option<(Seq<char>, Seq<char>)> {
    let first = find_char(range, RANGE_SEPARATOR);
    if first >= range.len() {
        Some((range, range))
    } else {
        let rest = range.subrange(first + 1, range.len() as int);
        if find_char(rest, RANGE_SEPARATOR) < rest.len() {
            None
        } else {
            Some((range.subrange(0, first), rest))
        }
    }
}

/// The line that an end of a range names in a text of `line_count` lines:
/// `start` is line 1, `end` the last line, and a number is itself.
pub open spec fn range_point(point: Seq<char>, line_count: nat) -> Option<nat> {
    if point == start_word() {
        Some(1)
    } else if point == end_word() {
        Some(line_count)
    } else {
        match parse_unsigned(point) {
            Some(value) => if value <= usize::MAX {
                Some(value)
            } else {
                None
            },
            None => None,
        }
    }
}

/// The lines that a range names in a text of `line_count` lines, the
/// smaller end first.
pub open spec fn parsed_range(start: Seq<char>, end: Seq<char>, line_count: nat) -> Option<
    (nat, nat),
> {
    match (range_point(start, line_count), range_point(end, line_count)) {
        (Some(first), Some(second)) => if first > second {
            Some((second, first))
        } else {
            Some((first, second))
        },
        _ => None,
    }
}

/// The lines `start` to `end` of a text, both included and counted from 1,
/// as far as the text has them, with a line feed between every two.
pub open spec fn cut_lines(code_snippet: Seq<char>, start: nat, end: nat) -> Seq<char> {
    let all = lines(code_snippet);
    let from = if start - 1 < all.len() {
        start - 1
    } else {
        all.len() as int
    };
    let to = if from + (end + 1 - start) < all.len() {
        from + (end + 1 - start)
    } else {
        all.len() as int
    };
    join(all.subrange(from, to), seq!['\n'])
}

fn parse_range_point(point: &str, line_count: usize) -> (line: Result<usize, RangeError>)
    ensures
        line == match range_point(point@, line_count as nat) {
            Some(value) => Ok::<usize, RangeError>(value as usize),
            None => Err::<usize, RangeError>(RangeError::InvalidNumber),
        },
{
    let chars = chars_of(point);
    proof {
        reveal_strlit("start");
        reveal_strlit("end");
        assert("start"@ =~= start_word());
        assert("end"@ =~= end_word());
    }
    if chars_are(&chars, "start") {
        Ok(1)
    } else if chars_are(&chars, "end") {
        Ok(line_count)
    } else {
        match parse_usize(&chars) {
            Some(value) => Ok(value),
            None => Err(RangeError::InvalidNumber),
        }
    }
}

impl Range<String> {
    fn prepare_range(raw_range: &str) -> (range: String)
        ensures
            range@ == prepared_range(raw_range@),
    {
        let length: usize = raw_range.unicode_len();
        proof {
            reveal_strlit("start");
            reveal_strlit("end");
            assert("start"@ =~= start_word());
            assert("end"@ =~= end_word());
        }
        if length > 0 && raw_range.get_char(0) == RANGE_SEPARATOR {
            String::from_str("start").concat(raw_range)
        } else if length > 0 && raw_range.get_char(length - 1) == RANGE_SEPARATOR {
            String::from_str(raw_range).concat("end")
        } else {
            String::from_str(raw_range)
        }
    }

    /// Reads a range where one is given, else the range of the whole text.
    pub fn from_opt_string(opt_str: Option<String>) -> (range: Result<Range<String>, RangeError>)
        ensures
            match range_points(
                prepared_range(
                    match opt_str {
                        Some(text) => text@,
                        None => DEFAULT_RANGE@,
                    },
                ),
            ) {
                Some((start, end)) => range is Ok && range.unwrap().0@ == start
                    && range.unwrap().1@ == end,
                None => range == Err::<Range<String>, RangeError>(RangeError::InvalidFormat),
            },
    {
        match opt_str {
            Some(text) => Range::from_str(text.as_str()),
            None => Range::from_str(DEFAULT_RANGE),
        }
    }

    /// Reads a range: `3:5` is lines 3 to 5, `3:` line 3 to the last line,
    /// `:5` the first line to line 5, and `3` line 3 alone.
    pub fn from_str(range_str: &str) -> (range: Result<Range<String>, RangeError>)
        ensures
            match range_points(prepared_range(range_str@)) {
                Some((start, end)) => range is Ok && range.unwrap().0@ == start
                    && range.unwrap().1@ == end,
                None => range == Err::<Range<String>, RangeError>(RangeError::InvalidFormat),
            },
    {
        let range = Range::prepare_range(range_str);
        let chars = chars_of(range.as_str());
        let length: usize = chars.len();
        let first: usize = find_from(&chars, 0, RANGE_SEPARATOR);
        assert(chars@.subrange(0, length as int) =~= chars@);
        if first >= length {
            // A single line number is both ends.
            let start = String::from_str(range.as_str());
            let end = String::from_str(range.as_str());
            return Ok(Range(start, end));
        }
        let second: usize = find_from(&chars, first + 1, RANGE_SEPARATOR);
        if second < length {
            return Err(RangeError::InvalidFormat);
        }
        let start = String::from_str(range.as_str().substring_char(0, first));
        let end = String::from_str(range.as_str().substring_char(first + 1, length));
        Ok(Range(start, end))
    }

    /// The lines that the range names in `code_snippet`, the smaller end
    /// first: `start` is line 1 and `end` the last line of the text.
    pub fn parse_range(&self, code_snippet: &str) -> (parsed: Result<Range<usize>, RangeError>)
        ensures
            match parsed_range(self.0@, self.1@, lines(code_snippet@).len()) {
                Some((start, end)) => parsed is Ok && parsed.unwrap().0 == start
                    && parsed.unwrap().1 == end,
                None => parsed == Err::<Range<usize>, RangeError>(RangeError::InvalidNumber),
            },
    {
        let chars = chars_of(code_snippet);
        let bounds = line_bounds(&chars);
        let line_count: usize = bounds.len();
        let start = match parse_range_point(self.0.as_str(), line_count) {
            Ok(start) => start,
            Err(error) => {
                return Err(error);
            },
        };
        let end = match parse_range_point(self.1.as_str(), line_count) {
            Ok(end) => end,
            Err(error) => {
                return Err(error);
            },
        };
        if start > end {
            Ok(Range(end, start))
        } else {
            Ok(Range(start, end))
        }
    }
}

impl Range<usize> {
    /// The range can be cut out of a text: its lines are counted from 1,
    /// its first end is no more than one after its second, and the line after
    /// its second end has a number.
    pub open spec fn can_cut(&self) -> bool {
        1 <= self.0 <= self.1 + 1 <= usize::MAX
    }

    /// The lines of `code_snippet` that the range names, as one text.
    pub fn cut_code_snippet(&self, code_snippet: &str) -> (cut: Result<String, RangeError>)
        requires
            self.can_cut(),
        ensures
            cut is Ok,
            cut.unwrap()@ == cut_lines(code_snippet@, self.0 as nat, self.1 as nat),
    {
        let chars = chars_of(code_snippet);
        let bounds = line_bounds(&chars);
        let line_count: usize = bounds.len();
        let from: usize = if self.0 - 1 < line_count {
            self.0 - 1
        } else {
            line_count
        };
        let wanted: usize = (self.1 + 1) - self.0;
        let to: usize = if wanted < line_count - from {
            from + wanted
        } else {
            line_count
        };
        proof {
            reveal_strlit("\n");
            assert("\n"@ =~= seq!['\n']);
        }
        let cut = join_pieces(code_snippet, &bounds, from, to, "\n");
        proof {
            let all = lines(code_snippet@);
            let picked = Seq::new(
                (to - from) as nat,
                |i: int|
                    code_snippet@.subrange(
                        bounds@[from + i].start as int,
                        bounds@[from + i].end as int,
                    ),
            );
            assert(picked =~= all.subrange(from as int, to as int));
        }
        Ok(cut)
    }
}

} // verus!
