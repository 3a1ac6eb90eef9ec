use crate::config::HighlightLine;
use crate::range::Range;
use crate::range::RangeError;
use crate::range::parsed_range;
use crate::range::prepared_range;
use crate::range::range_points;
use crate::utils::text::lines;
use vstd::prelude::*;
use vstd::string::StringExecFns;

verus! {

/// Turns ranges of lines into highlights of a snippet that was cut out of a
/// longer text.
pub struct HighlightLineRange {
    code_snippet_range: Range<usize>,
    code_snippet: String,
    is_relative_highlight_range: bool,
}

/// The low 32 bits of a number.
pub open spec fn low_bits(value: usize) -> u32 {
    (value as int % 0x1_0000_0000) as u32
}

fn truncate(value: usize) -> (low: u32)
    ensures
        low == low_bits(value),
{
    let wide: u64 = value as u64;
    (wide % 0x1_0000_0000) as u32
}

/// The lines of the snippet that a highlight of the lines `start` to `end`
/// of the whole text covers, where the snippet holds the lines
/// `snippet_start` to `snippet_end` of it: the same lines, counted from the
/// first line of the snippet. The highlight must lie in the snippet.
pub open spec fn absolute_highlight_range(
    snippet_start: usize,
    snippet_end: usize,
    start: usize,
    end: usize,
) -> Result<(usize, usize), RangeError> {
    if start < snippet_start {
        Err(RangeError::HighlightStartTooSmall(snippet_start))
    } else if end > snippet_end {
        Err(RangeError::HighlightEndTooLarge(snippet_end))
    } else {
        Ok(((start - (snippet_start - 1)) as usize, (end - (snippet_start - 1)) as usize))
    }
}

/// The lines of the snippet that a highlight of its lines `start` to `end`
/// covers: those lines. The highlight must end in the snippet.
pub open spec fn relative_highlight_range(
    snippet_start: usize,
    snippet_end: usize,
    start: usize,
    end: usize,
) -> Result<(usize, usize), RangeError> {
    if end > snippet_end - snippet_start + 1 {
        Err(RangeError::HighlightEndTooLarge((snippet_end - snippet_start) as usize))
    } else {
        Ok((start, end))
    }
}

impl HighlightLineRange {
    /// The snippet starts at line 1 or later and does not end before it
    /// starts.
    pub open spec fn well_formed(&self) -> bool {
        1 <= self@.range.0 <= self@.range.1
    }

    pub fn from(
        code_snippet_range: Range<usize>,
        code_snippet: &str,
        is_relative_highlight_range: bool,
    ) -> (range: Result<HighlightLineRange, RangeError>)
        ensures
            range is Ok,
            range.unwrap()@ == (SnippetView {
                range: (code_snippet_range.0, code_snippet_range.1),
                snippet: code_snippet@,
                is_relative: is_relative_highlight_range,
            }),
    {
        Ok(
            HighlightLineRange {
                code_snippet_range,
                code_snippet: String::from_str(code_snippet),
                is_relative_highlight_range,
            },
        )
    }

    /// The lines of the snippet that a highlight given in lines of the
    /// whole text covers.
    pub fn get_absolute_highlight_range(&self, range: Range<usize>) -> (lines: Result<
        (usize, usize),
        RangeError,
    >)
        requires
            self@.range.0 >= 1,
            range.0 <= range.1,
        ensures
            lines == absolute_highlight_range(
                self@.range.0,
                self@.range.1,
                range.0,
                range.1,
            ),
    {
        let Range(start, end) = range;
        let code_snippet_start: usize = self.code_snippet_range.0;
        let code_snippet_end: usize = self.code_snippet_range.1;
        let offset_start: usize = code_snippet_start - 1;
        if start < code_snippet_start {
            return Err(RangeError::HighlightStartTooSmall(code_snippet_start));
        }
        if end > code_snippet_end {
            return Err(RangeError::HighlightEndTooLarge(code_snippet_end));
        }
        // The snippet was cut out of the whole text, and the highlight is
        // counted in the snippet: the lines before the snippet are taken off.

        Ok((start - offset_start, end - offset_start))
    }

    /// The lines of the snippet that a highlight given in lines of the
    /// snippet covers.
    pub fn get_relative_highlight_range(&self, range: Range<usize>) -> (lines: Result<
        (usize, usize),
        RangeError,
    >)
        requires
            self@.range.0 <= self@.range.1,
        ensures
            lines == relative_highlight_range(
                self@.range.0,
                self@.range.1,
                range.0,
                range.1,
            ),
    {
        let Range(start, end) = range;
        let code_snippet_range_size: usize = self.code_snippet_range.1 - self.code_snippet_range.0;
        if end as u128 > code_snippet_range_size as u128 + 1 {
            return Err(RangeError::HighlightEndTooLarge(code_snippet_range_size));
        }
        Ok((start, end))
    }
}

/// A snippet as a mathematical value: the lines of the whole text that it
/// holds, the whole text, and whether highlights are counted from the first
/// line of the snippet.
pub struct SnippetView {
    pub range: (usize, usize),
    pub snippet: Seq<char>,
    pub is_relative: bool,
}

impl View for HighlightLineRange {
    type V = SnippetView;

    closed spec fn view(&self) -> SnippetView {
        SnippetView {
            range: (self.code_snippet_range.0, self.code_snippet_range.1),
            snippet: self.code_snippet@,
            is_relative: self.is_relative_highlight_range,
        }
    }
}

/// The highlight that a range written as `raw_range` stands for.
pub open spec fn highlight_of(
    highlight: SnippetView,
    raw_range: Seq<char>,
) -> Result<(u32, u32), RangeError> {
    match range_points(prepared_range(raw_range)) {
        None => Err(RangeError::InvalidFormat),
        Some((first, second)) => match parsed_range(
            first,
            second,
            lines(highlight.snippet).len(),
        ) {
            None => Err(RangeError::InvalidNumber),
            Some((start, end)) => match (if highlight.is_relative {
                relative_highlight_range(
                    highlight.range.0,
                    highlight.range.1,
                    start as usize,
                    end as usize,
                )
            } else {
                absolute_highlight_range(
                    highlight.range.0,
                    highlight.range.1,
                    start as usize,
                    end as usize,
                )
            }) {
                Err(error) => Err(error),
                Ok((start, end)) => Ok((low_bits(start), low_bits(end))),
            },
        },
    }
}

/// The highlights that the given ranges stand for, in their order. The
/// first range that stands for none decides the error.
pub open spec fn highlights_of(
    highlight: SnippetView,
    raw_ranges: Seq<String>,
) -> Result<Seq<(u32, u32)>, RangeError>
    decreases raw_ranges.len(),
{
    if raw_ranges.len() == 0 {
        Ok(Seq::empty())
    } else {
        match highlights_of(highlight, raw_ranges.drop_last()) {
            Err(error) => Err(error),
            Ok(before) => match highlight_of(highlight, raw_ranges.last()@) {
                Err(error) => Err(error),
                Ok(last) => Ok(before.push(last)),
            },
        }
    }
}

/// Every one of the given highlights is the run of lines at the same
/// place, in the given colour.
pub open spec fn highlights_match(
    highlights: Seq<HighlightLine>,
    runs: Seq<(u32, u32)>,
    color: Seq<char>,
) -> bool {
    &&& highlights.len() == runs.len()
    &&& forall|i: int|
        0 <= i < highlights.len() ==> {
            &&& #[trigger] highlights[i] is Range
            &&& highlights[i].spec_start() == runs[i].0
            &&& highlights[i].spec_end() == runs[i].1
            &&& highlights[i].spec_color() == color
        }
}

/// Where the highlights of the first `count` ranges fail, so do those of
/// all ranges, and with the same error.
pub proof fn lemma_highlights_fail_on(
    highlight: SnippetView,
    raw_ranges: Seq<String>,
    count: int,
)
    requires
        0 <= count <= raw_ranges.len(),
        highlights_of(highlight, raw_ranges.take(count)) is Err,
    ensures
        highlights_of(highlight, raw_ranges) == highlights_of(highlight, raw_ranges.take(count)),
    decreases raw_ranges.len() - count,
{
    if count == raw_ranges.len() {
        assert(raw_ranges.take(count) =~= raw_ranges);
    } else {
        assert(raw_ranges.take(count + 1).drop_last() =~= raw_ranges.take(count));
        lemma_highlights_fail_on(highlight, raw_ranges, count + 1);
    }
}

impl HighlightLineRange {
    /// The highlight that a range written as `raw_range` stands for, in
    /// the colour `highlight_color`: one run of lines.
    pub fn create_highlight_lines(&self, raw_range: &str, highlight_color: &str) -> (highlights:
        Result<Vec<HighlightLine>, RangeError>)
        requires
            self.well_formed(),
        ensures
            match highlight_of(self@, raw_range@) {
                Ok(run) => highlights is Ok && highlights_match(
                    highlights.unwrap()@,
                    seq![run],
                    highlight_color@,
                ),
                Err(error) => highlights == Err::<Vec<HighlightLine>, RangeError>(error),
            },
    {
        let range = match Range::from_str(raw_range) {
            Ok(range) => range,
            Err(error) => {
                return Err(error);
            },
        };
        let Range(start, end) = match range.parse_range(self.code_snippet.as_str()) {
            Ok(parsed) => parsed,
            Err(error) => {
                return Err(error);
            },
        };
        let lines = if self.is_relative_highlight_range {
            self.get_relative_highlight_range(Range(start, end))
        } else {
            self.get_absolute_highlight_range(Range(start, end))
        };
        let (start, end) = match lines {
            Ok(lines) => lines,
            Err(error) => {
                return Err(error);
            },
        };
        let mut highlights: Vec<HighlightLine> = Vec::new();
        highlights.push(
            HighlightLine::Range(truncate(start), truncate(end), String::from_str(highlight_color)),
        );
        Ok(highlights)
    }

    /// The highlights that the given ranges stand for, all in the colour
    /// `highlight_color`.
    pub fn create_multiple_highlight_lines(
        &self,
        raw_ranges: &Vec<String>,
        highlight_color: &str,
    ) -> (highlights: Result<Vec<HighlightLine>, RangeError>)
        requires
            self.well_formed(),
        ensures
            match highlights_of(self@, raw_ranges@) {
                Ok(runs) => highlights is Ok && highlights_match(
                    highlights.unwrap()@,
                    runs,
                    highlight_color@,
                ),
                Err(error) => highlights == Err::<Vec<HighlightLine>, RangeError>(error),
            },
    {
        let mut highlights: Vec<HighlightLine> = Vec::new();
        let ghost mut runs: Seq<(u32, u32)> = Seq::empty();
        let mut index: usize = 0;
        assert(raw_ranges@.take(0) =~= Seq::<String>::empty());
        while index < raw_ranges.len()
            invariant
                index <= raw_ranges@.len(),
                self.well_formed(),
                highlights_of(self@, raw_ranges@.take(index as int)) == Ok::<
                    Seq<(u32, u32)>,
                    RangeError,
                >(runs),
                highlights_match(highlights@, runs, highlight_color@),
            decreases raw_ranges@.len() - index,
        {
            proof {
                assert(raw_ranges@.take(index + 1).drop_last() =~= raw_ranges@.take(index as int));
                assert(raw_ranges@.take(index + 1).last() == raw_ranges@[index as int]);
            }
            let mut next = match self.create_highlight_lines(
                raw_ranges[index].as_str(),
                highlight_color,
            ) {
                Ok(next) => next,
                Err(error) => {
                    proof {
                        lemma_highlights_fail_on(self@, raw_ranges@, index + 1);
                    }
                    return Err(error);
                },
            };
            let ghost run = highlight_of(self@, raw_ranges@[index as int]@).unwrap();
            let ghost before = highlights@;
            let ghost added = next@;
            highlights.append(&mut next);
            proof {
                assert(highlights@ =~= before + added);
                runs = runs.push(run);
            }
            index = index + 1;
        }
        assert(raw_ranges@.take(index as int) =~= raw_ranges@);
        Ok(highlights)
    }
}

} // verus!
