use crate::cli::CLI;
use crate::cli::first_text;
use crate::cli::text_or_else;
use crate::config::Code;
use crate::config::HighlightLine;
use crate::highlight::HighlightLineRange;
use crate::highlight::SnippetView;
use crate::highlight::highlight_of;
use crate::highlight::highlights_match;
use crate::highlight::highlights_of;
use crate::highlight::low_bits;
use crate::range::DEFAULT_RANGE;
use crate::range::Range;
use crate::range::RangeError;
use crate::range::cut_lines;
use crate::range::parsed_range;
use crate::range::prepared_range;
use crate::range::range_points;
use crate::utils::text::lines;
use vstd::prelude::*;

verus! {

/// The highlights that the command line asks for, as runs of lines: the
/// highlighted range, the deleted lines and the added lines.
pub struct Highlights {
    pub highlighted: Seq<(u32, u32)>,
    pub deleted: Seq<(u32, u32)>,
    pub added: Seq<(u32, u32)>,
}

/// The runs of lines that the command line asks to highlight in a snippet.
/// The first range that stands for none decides the error.
pub open spec fn cli_highlights(cli: &CLI, highlight: SnippetView) -> Result<
    Highlights,
    RangeError,
> {
    let highlighted = match cli.highlight_range {
        Some(range) => match highlight_of(highlight, range@) {
            Ok(run) => Ok(seq![run]),
            Err(error) => Err(error),
        },
        None => Ok(Seq::empty()),
    };
    match highlighted {
        Err(error) => Err(error),
        Ok(highlighted) => match highlights_of(highlight, cli.delete_line@) {
            Err(error) => Err(error),
            Ok(deleted) => match highlights_of(highlight, cli.add_line@) {
                Err(error) => Err(error),
                Ok(added) => Ok(Highlights { highlighted, deleted, added }),
            },
        },
    }
}

/// The given highlights are the given runs of lines, first the highlighted
/// range, then the deleted lines, then the added lines, each in its colour.
pub open spec fn highlights_are(lines: Seq<HighlightLine>, cli: &CLI, runs: Highlights) -> bool {
    let first = runs.highlighted.len() as int;
    let second = first + runs.deleted.len();
    &&& lines.len() == second + runs.added.len()
    &&& highlights_match(lines.subrange(0, first), runs.highlighted, cli.highlight_range_color@)
    &&& highlights_match(lines.subrange(first, second), runs.deleted, cli.delete_line_color@)
    &&& highlights_match(
        lines.subrange(second, lines.len() as int),
        runs.added,
        cli.add_line_color@,
    )
}

/// The highlights of a snippet that holds the lines `code_snippet_range`
/// of `code_snippet`. Highlights that were given one by one are taken as
/// they are; else they are made from the ranges on the command line.
pub fn create_highlight_lines(
    cli: &CLI,
    raw_highlight_lines: Option<Vec<HighlightLine>>,
    code_snippet_range: Range<usize>,
    code_snippet: &str,
) -> (highlight_lines: Result<Vec<HighlightLine>, RangeError>)
    requires
        1 <= code_snippet_range.0 <= code_snippet_range.1,
    ensures
        raw_highlight_lines is Some ==> highlight_lines is Ok && highlight_lines.unwrap()
            == raw_highlight_lines.unwrap(),
        raw_highlight_lines is None ==> match cli_highlights(
            cli,
            SnippetView {
                range: (code_snippet_range.0, code_snippet_range.1),
                snippet: code_snippet@,
                is_relative: cli.relative_highlight_range,
            },
        ) {
            Ok(runs) => highlight_lines is Ok && highlights_are(
                highlight_lines.unwrap()@,
                cli,
                runs,
            ),
            Err(error) => highlight_lines is Err && highlight_lines->Err_0 == error,
        },
{
    match raw_highlight_lines {
        Some(highlight_lines) => {
            return Ok(highlight_lines);
        },
        None => {},
    }
    let highlight_range = match HighlightLineRange::from(
        code_snippet_range,
        code_snippet,
        cli.relative_highlight_range,
    ) {
        Ok(highlight_range) => highlight_range,
        Err(error) => {
            return Err(error);
        },
    };
    let mut highlight_lines = match &cli.highlight_range {
        Some(range) => match highlight_range.create_highlight_lines(
            range.as_str(),
            cli.highlight_range_color.as_str(),
        ) {
            Ok(lines) => lines,
            Err(error) => {
                return Err(error);
            },
        },
        None => Vec::new(),
    };
    let ghost highlighted = highlight_lines@;
    let mut delete_highlight_lines = match highlight_range.create_multiple_highlight_lines(
        &cli.delete_line,
        cli.delete_line_color.as_str(),
    ) {
        Ok(lines) => lines,
        Err(error) => {
            return Err(error);
        },
    };
    let ghost deleted = delete_highlight_lines@;
    let mut new_highlight_lines = match highlight_range.create_multiple_highlight_lines(
        &cli.add_line,
        cli.add_line_color.as_str(),
    ) {
        Ok(lines) => lines,
        Err(error) => {
            return Err(error);
        },
    };
    let ghost added = new_highlight_lines@;
    highlight_lines.append(&mut delete_highlight_lines);
    highlight_lines.append(&mut new_highlight_lines);
    proof {
        let first = highlighted.len() as int;
        let second = first + deleted.len();
        assert(highlight_lines@ =~= highlighted + deleted + added);
        assert(highlight_lines@.subrange(0, first) =~= highlighted);
        assert(highlight_lines@.subrange(first, second) =~= deleted);
        assert(highlight_lines@.subrange(second, highlight_lines@.len() as int) =~= added);
    }
    Ok(highlight_lines)
}

/// The lines of a snippet that the command line asks for.
pub open spec fn cli_range(cli: &CLI, code_snippet: Seq<char>) -> Result<(nat, nat), RangeError> {
    match range_points(
        prepared_range(
            match cli.range {
                Some(range) => range@,
                None => DEFAULT_RANGE@,
            },
        ),
    ) {
        None => Err(RangeError::InvalidFormat),
        Some((first, second)) => match parsed_range(first, second, lines(code_snippet).len()) {
            None => Err(RangeError::InvalidNumber),
            Some((start, end)) => if 1 <= start && end < usize::MAX {
                Ok((start, end))
            } else {
                Err(RangeError::LineOutOfRange)
            },
        },
    }
}

/// The runs of lines that are highlighted in the lines `start` to `end` of
/// a snippet. Highlights that were given one by one are not looked at.
pub open spec fn code_highlights(
    cli: &CLI,
    raw_highlight_lines: Option<Vec<HighlightLine>>,
    start: nat,
    end: nat,
    code_snippet: Seq<char>,
) -> Result<Highlights, RangeError> {
    match raw_highlight_lines {
        Some(_) => Ok(
            Highlights { highlighted: Seq::empty(), deleted: Seq::empty(), added: Seq::empty() },
        ),
        None => cli_highlights(
            cli,
            SnippetView {
                range: (start as usize, end as usize),
                snippet: code_snippet,
                is_relative: cli.relative_highlight_range,
            },
        ),
    }
}

/// The code of a snapshot of `code_snippet`: the lines that the command
/// line asks for, numbered from the first of them on, with the highlights
/// that the command line asks for. The path of the file and the language are
/// those of the command line, else those of the configuration.
pub fn create_code(
    cli: &CLI,
    code_config: Code,
    code_snippet: &str,
    raw_highlight_lines: Option<Vec<HighlightLine>>,
) -> (code: Result<Code, RangeError>)
    ensures
        match cli_range(cli, code_snippet@) {
            Err(error) => code is Err && code->Err_0 == error,
            Ok((start, end)) => match code_highlights(
                cli,
                raw_highlight_lines,
                start,
                end,
                code_snippet@,
            ) {
                Err(error) => code is Err && code->Err_0 == error,
                Ok(runs) => {
                    &&& code is Ok
                    &&& raw_highlight_lines is None ==> highlights_are(
                        code.unwrap().highlight_lines@,
                        cli,
                        runs,
                    )
                },
            },
        },
        match cli_range(cli, code_snippet@) {
            Err(error) => true,
            Ok((start, end)) => code is Ok ==> {
                &&& code.unwrap().content@ == cut_lines(code_snippet@, start, end)
                &&& code.unwrap().start_line_number == Some(low_bits(start as usize))
                &&& match first_text(cli.from_file, code_config.file_path) {
                    Some(path) => code.unwrap().file_path is Some
                        && code.unwrap().file_path.unwrap()@ == path,
                    None => code.unwrap().file_path is None,
                }
                &&& match first_text(cli.language, code_config.language) {
                    Some(language) => code.unwrap().language is Some
                        && code.unwrap().language.unwrap()@ == language,
                    None => code.unwrap().language is None,
                }
            },
        },
        raw_highlight_lines is Some && code is Ok ==> code.unwrap().highlight_lines
            == raw_highlight_lines.unwrap(),
{
    let range = match &cli.range {
        Some(range) => Range::from_str(range.as_str()),
        None => Range::from_str(DEFAULT_RANGE),
    };
    let range = match range {
        Ok(range) => range,
        Err(error) => {
            return Err(error);
        },
    };
    let parsed_range = match range.parse_range(code_snippet) {
        Ok(parsed_range) => parsed_range,
        Err(error) => {
            return Err(error);
        },
    };
    if parsed_range.0 < 1 || parsed_range.1 == usize::MAX {
        return Err(RangeError::LineOutOfRange);
    }
    let parsed_code_snippet = match parsed_range.cut_code_snippet(code_snippet) {
        Ok(parsed_code_snippet) => parsed_code_snippet,
        Err(error) => {
            return Err(error);
        },
    };
    let wide: u64 = parsed_range.0 as u64;
    let start_line_number: u32 = (wide % 0x1_0000_0000) as u32;
    let highlight_lines = match create_highlight_lines(
        cli,
        raw_highlight_lines,
        Range(parsed_range.0, parsed_range.1),
        code_snippet,
    ) {
        Ok(highlight_lines) => highlight_lines,
        Err(error) => {
            return Err(error);
        },
    };
    Ok(
        Code {
            content: parsed_code_snippet,
            start_line_number: Some(start_line_number),
            highlight_lines,
            language: text_or_else(&cli.language, code_config.language),
            file_path: text_or_else(&cli.from_file, code_config.file_path),
        },
    )
}

} // verus!
