use crate::config::Code;
use crate::config::Content;
use crate::config::SnapshotConfig;
use crate::snapshot::snapshot_data::SnapshotData;
use crate::snapshot::snapshot_data::SnapshotError;
use crate::utils::code::calc_max_line_number_length;
use crate::utils::code::code_size;
use crate::utils::code::expand_tabs;
use crate::utils::code::longest_line;
use crate::utils::code::max_line_number;
use crate::utils::code::prepare_code;
use crate::utils::number::decimal;
use crate::utils::number::pad_left;
use crate::utils::number::to_padded_decimal_string;
use crate::utils::text::bounds_match;
use crate::utils::text::chars_of;
use crate::utils::text::line_bounds;
use crate::utils::text::lines;
use vstd::prelude::*;
use vstd::string::StrSliceExecFns;
use vstd::string::StringExecFns;
use vstd::utf8::encode_utf8;

verus! {

/// The room that is left free on both sides of a text in the frame,
/// together.
pub const SPACE_BOTH_SIDE: usize = 2;

/// A snapshot as a text in a frame of box-drawing characters.
pub struct ASCIISnapshot {
    pub code: Code,
    pub has_breadcrumbs: bool,
}

/// A character so many times in a row.
pub open spec fn repeated(character: char, count: nat) -> Seq<char> {
    Seq::new(count, |i: int| character)
}

/// A text at the left end of a field of `width` characters: spaces are put
/// after it until it is `width` long. A longer text stays as it is.
pub open spec fn pad_right(text: Seq<char>, width: nat) -> Seq<char> {
    if text.len() >= width {
        text
    } else {
        text + repeated(' ', (width - text.len()) as nat)
    }
}

/// A line of the frame that holds a text.
pub open spec fn text_line(text: Seq<char>, frame_width: nat) -> Seq<char> {
    seq!['\u{2502}', ' '] + pad_right(text, frame_width) + seq![' ', '\u{2502}', '\n']
}

/// A line of code as it is written in the frame: after its number, where
/// the lines are numbered.
pub open spec fn code_line(line: Seq<char>, number: Option<nat>, number_width: nat) -> Seq<char> {
    match number {
        Some(number) => pad_left(decimal(number), number_width) + seq![' '] + line,
        None => line,
    }
}

/// The number of the line at place `index`, where the lines are numbered.
pub open spec fn line_number(start_line_number: Option<u32>, index: nat) -> Option<nat> {
    match start_line_number {
        Some(start) => Some(start as nat + index),
        None => None,
    }
}

/// The lines of the code as they are written in the frame.
pub open spec fn code_lines(
    lines: Seq<Seq<char>>,
    start_line_number: Option<u32>,
    number_width: nat,
    frame_width: nat,
) -> Seq<char>
    decreases lines.len(),
{
    if lines.len() == 0 {
        Seq::empty()
    } else {
        code_lines(lines.drop_last(), start_line_number, number_width, frame_width) + text_line(
            code_line(
                lines.last(),
                line_number(start_line_number, (lines.len() - 1) as nat),
                number_width,
            ),
            frame_width,
        )
    }
}

/// How wide the frame is inside: as wide as the code, and no less than the
/// path of the file with room on both sides; where the lines are numbered,
/// wider by the numbers and room on both sides.
pub open spec fn frame_width(
    width: nat,
    path_length: nat,
    start_line_number: Option<u32>,
    number_width: nat,
) -> nat {
    let least = if width >= path_length + SPACE_BOTH_SIDE {
        width
    } else {
        (path_length + SPACE_BOTH_SIDE) as nat
    };
    match start_line_number {
        Some(_) => (least + SPACE_BOTH_SIDE + number_width) as nat,
        None => least,
    }
}

/// The path of the file as a text, empty where there is none.
pub open spec fn path_text(file_path: Option<String>) -> Seq<char> {
    match file_path {
        Some(path) => path@,
        None => Seq::empty(),
    }
}

/// The snapshot as a text: the upper side of the frame; the path of the
/// file and a rule below it, where that is asked for; the lines of the code;
/// the lower side of the frame.
pub open spec fn ascii_snapshot(
    code: Seq<char>,
    file_path: Option<String>,
    has_breadcrumbs: bool,
    start_line_number: Option<u32>,
    width: nat,
    number_width: nat,
) -> Seq<char> {
    let inside = frame_width(
        width,
        encode_utf8(path_text(file_path)).len(),
        start_line_number,
        number_width,
    );
    let rule = repeated('\u{2500}', (inside + SPACE_BOTH_SIDE) as nat);
    let breadcrumbs = if has_breadcrumbs {
        text_line(path_text(file_path), inside) + seq!['\u{2502}'] + rule + seq![
            '\u{2502}',
            '\n',
        ]
    } else {
        Seq::empty()
    };
    seq!['\u{256d}'] + rule + seq!['\u{256e}', '\n'] + breadcrumbs + code_lines(
        lines(code),
        start_line_number,
        number_width,
        inside,
    ) + seq!['\u{2570}'] + rule + seq!['\u{256f}']
}

/// A part of a text that is shown only where it is asked for.
pub fn optional(component: String, is_view: bool) -> (shown: String)
    ensures
        shown@ == if is_view {
            component@
        } else {
            Seq::<char>::empty()
        },
{
    if is_view {
        component
    } else {
        proof {
            reveal_strlit("");
        }
        String::from_str("")
    }
}

fn append_repeated(target: &mut String, piece: &str, character: Ghost<char>, count: usize)
    requires
        piece@ == seq![character@],
    ensures
        final(target)@ == old(target)@ + repeated(character@, count as nat),
{
    let mut written: usize = 0;
    assert(target@ + repeated(character@, 0) =~= target@);
    while written < count
        invariant
            written <= count,
            piece@ == seq![character@],
            target@ == old(target)@ + repeated(character@, written as nat),
        decreases count - written,
    {
        target.append(piece);
        written = written + 1;
        assert(old(target)@ + repeated(character@, (written - 1) as nat) + seq![character@]
            =~= old(target)@ + repeated(character@, written as nat));
    }
}

fn append_text_line(target: &mut String, text: &str, frame_width: usize)
    ensures
        final(target)@ == old(target)@ + text_line(text@, frame_width as nat),
{
    proof {
        reveal_strlit("\u{2502} ");
        reveal_strlit(" \u{2502}\n");
        reveal_strlit(" ");
        assert("\u{2502} "@ =~= seq!['\u{2502}', ' ']);
        assert(" \u{2502}\n"@ =~= seq![' ', '\u{2502}', '\n']);
        assert(" "@ =~= seq![' ']);
    }
    let length: usize = text.unicode_len();
    target.append("\u{2502} ");
    target.append(text);
    if length < frame_width {
        append_repeated(target, " ", Ghost(' '), frame_width - length);
    } else {
        assert(target@ + repeated(' ', 0) =~= target@);
    }
    target.append(" \u{2502}\n");
    assert(target@ =~= old(target)@ + text_line(text@, frame_width as nat));
}

impl ASCIISnapshot {
    /// The snapshot of a configuration whose content is code.
    pub fn from_config(config: SnapshotConfig) -> (snapshot: Result<ASCIISnapshot, SnapshotError>)
        ensures
            match config.content {
                Content::Code(code) => snapshot is Ok && snapshot.unwrap().code == code
                    && snapshot.unwrap().has_breadcrumbs == config.code_config.breadcrumbs.enable,
                Content::CommandOutput(_) => snapshot is Err && snapshot->Err_0
                    == SnapshotError::NotCode,
            },
    {
        match config.content {
            Content::Code(raw_code) => Ok(
                ASCIISnapshot {
                    code: raw_code,
                    has_breadcrumbs: config.code_config.breadcrumbs.enable,
                },
            ),
            Content::CommandOutput(_) => Err(SnapshotError::NotCode),
        }
    }

    /// How wide the largest line number of the code is; 0 where the lines
    /// are not numbered.
    pub open spec fn number_width(&self) -> nat {
        match self.code.start_line_number {
            Some(start_line_number) => decimal(
                max_line_number(
                    lines(expand_tabs(self.code.content@)).len(),
                    start_line_number,
                ),
            ).len(),
            None => 0,
        }
    }

    /// How wide the frame is inside.
    pub open spec fn inside_width(&self) -> nat {
        frame_width(
            longest_line(lines(expand_tabs(self.code.content@))),
            encode_utf8(path_text(self.code.file_path)).len(),
            self.code.start_line_number,
            self.number_width(),
        )
    }

    /// The snapshot as a text: the code as it is shown, in a frame as wide
    /// as its longest line, with line numbers as wide as the largest of
    /// them.
    pub open spec fn spec_snapshot(&self) -> Seq<char> {
        ascii_snapshot(
            expand_tabs(self.code.content@),
            self.code.file_path,
            self.has_breadcrumbs,
            self.code.start_line_number,
            longest_line(lines(expand_tabs(self.code.content@))),
            self.number_width(),
        )
    }

    /// The snapshot as it is handed out.
    pub fn raw_data(&self) -> (data: Result<SnapshotData, SnapshotError>)
        ensures
            self.inside_width() + SPACE_BOTH_SIDE > usize::MAX ==> data is Err && data->Err_0
                == SnapshotError::TooLarge,
            self.inside_width() + SPACE_BOTH_SIDE <= usize::MAX ==> data is Ok
                && data.unwrap().is_text(self.spec_snapshot()),
    {
        match self.generate_snapshot() {
            Ok(text) => Ok(SnapshotData::Text(text)),
            Err(error) => Err(error),
        }
    }

    /// Writes the snapshot. It fails where the frame would be wider than a
    /// `usize` can tell.
    pub fn generate_snapshot(&self) -> (snapshot: Result<String, SnapshotError>)
        ensures
            self.inside_width() + SPACE_BOTH_SIDE > usize::MAX ==> snapshot is Err
                && snapshot->Err_0 == SnapshotError::TooLarge,
            self.inside_width() + SPACE_BOTH_SIDE <= usize::MAX ==> snapshot is Ok
                && snapshot.unwrap()@ == self.spec_snapshot(),
    {
        let code = prepare_code(self.code.content.as_str());
        let (width, height): (usize, usize) = code_size(code.as_str());
        let number_width: usize = match self.code.start_line_number {
            Some(start_line_number) => calc_max_line_number_length(height, start_line_number),
            None => 0,
        };
        self.frame_code(code.as_str(), width, number_width)
    }

    /// Writes the given code in the frame of the snapshot, `width` wide
    /// inside at the least, with line numbers `number_width` wide. It fails
    /// where the frame would be wider than a `usize` can tell.
    pub fn frame_code(&self, code: &str, width: usize, number_width: usize) -> (snapshot:
        Result<String, SnapshotError>)
        ensures
            frame_width(
                width as nat,
                encode_utf8(path_text(self.code.file_path)).len(),
                self.code.start_line_number,
                number_width as nat,
            ) + SPACE_BOTH_SIDE > usize::MAX ==> snapshot is Err && snapshot->Err_0
                == SnapshotError::TooLarge,
            frame_width(
                width as nat,
                encode_utf8(path_text(self.code.file_path)).len(),
                self.code.start_line_number,
                number_width as nat,
            ) + SPACE_BOTH_SIDE <= usize::MAX ==> snapshot is Ok && snapshot.unwrap()@
                == ascii_snapshot(
                code@,
                self.code.file_path,
                self.has_breadcrumbs,
                self.code.start_line_number,
                width as nat,
                number_width as nat,
            ),
    {
        proof {
            reveal_strlit("");
        }
        let path: &str = match &self.code.file_path {
            Some(path) => path.as_str(),
            None => "",
        };
        assert(path@ == path_text(self.code.file_path));
        let path_length: usize = path.as_bytes().len();
        let least: u128 = if width as u128 >= path_length as u128 + SPACE_BOTH_SIDE as u128 {
            width as u128
        } else {
            path_length as u128 + SPACE_BOTH_SIDE as u128
        };
        let inside: u128 = match self.code.start_line_number {
            Some(_) => least + SPACE_BOTH_SIDE as u128 + number_width as u128,
            None => least,
        };
        if inside + SPACE_BOTH_SIDE as u128 > usize::MAX as u128 {
            return Err(SnapshotError::TooLarge);
        }
        let frame_width: usize = inside as usize;
        let rule_length: usize = frame_width + SPACE_BOTH_SIDE;
        let mut snapshot = frame_top(rule_length);
        if self.has_breadcrumbs {
            append_breadcrumbs(&mut snapshot, path, frame_width, rule_length);
        }
        let ghost head = snapshot@;
        append_code_lines(
            &mut snapshot,
            code,
            self.code.start_line_number,
            number_width,
            frame_width,
        );
        let ghost body = snapshot@;
        append_frame_bottom(&mut snapshot, rule_length);
        proof {
            let rule = repeated('\u{2500}', rule_length as nat);
            let breadcrumbs = if self.has_breadcrumbs {
                text_line(path@, frame_width as nat) + seq!['\u{2502}'] + rule + seq![
                    '\u{2502}',
                    '\n',
                ]
            } else {
                Seq::<char>::empty()
            };
            assert(head =~= seq!['\u{256d}'] + rule + seq!['\u{256e}', '\n'] + breadcrumbs);
            assert(snapshot@ =~= head + code_lines(
                lines(code@),
                self.code.start_line_number,
                number_width as nat,
                frame_width as nat,
            ) + seq!['\u{2570}'] + rule + seq!['\u{256f}']);
        }
        Ok(snapshot)
    }
}

fn frame_top(rule_length: usize) -> (top: String)
    ensures
        top@ == seq!['\u{256d}'] + repeated('\u{2500}', rule_length as nat) + seq![
            '\u{256e}',
            '\n',
        ],
{
    proof {
        reveal_strlit("\u{256d}");
        reveal_strlit("\u{256e}\n");
        reveal_strlit("\u{2500}");
        assert("\u{256d}"@ =~= seq!['\u{256d}']);
        assert("\u{256e}\n"@ =~= seq!['\u{256e}', '\n']);
        assert("\u{2500}"@ =~= seq!['\u{2500}']);
    }
    let mut top = String::from_str("\u{256d}");
    append_repeated(&mut top, "\u{2500}", Ghost('\u{2500}'), rule_length);
    top.append("\u{256e}\n");
    top
}

fn append_frame_bottom(target: &mut String, rule_length: usize)
    ensures
        final(target)@ == old(target)@ + seq!['\u{2570}'] + repeated(
            '\u{2500}',
            rule_length as nat,
        ) + seq!['\u{256f}'],
{
    proof {
        reveal_strlit("\u{2570}");
        reveal_strlit("\u{256f}");
        reveal_strlit("\u{2500}");
        assert("\u{2570}"@ =~= seq!['\u{2570}']);
        assert("\u{256f}"@ =~= seq!['\u{256f}']);
        assert("\u{2500}"@ =~= seq!['\u{2500}']);
    }
    target.append("\u{2570}");
    append_repeated(target, "\u{2500}", Ghost('\u{2500}'), rule_length);
    target.append("\u{256f}");
}

fn append_breadcrumbs(target: &mut String, path: &str, frame_width: usize, rule_length: usize)
    ensures
        final(target)@ == old(target)@ + (text_line(path@, frame_width as nat) + seq![
            '\u{2502}',
        ] + repeated('\u{2500}', rule_length as nat) + seq!['\u{2502}', '\n']),
{
    proof {
        reveal_strlit("\u{2502}");
        reveal_strlit("\u{2502}\n");
        reveal_strlit("\u{2500}");
        assert("\u{2502}"@ =~= seq!['\u{2502}']);
        assert("\u{2502}\n"@ =~= seq!['\u{2502}', '\n']);
        assert("\u{2500}"@ =~= seq!['\u{2500}']);
    }
    append_text_line(target, path, frame_width);
    target.append("\u{2502}");
    append_repeated(target, "\u{2500}", Ghost('\u{2500}'), rule_length);
    target.append("\u{2502}\n");
    assert(target@ =~= old(target)@ + (text_line(path@, frame_width as nat) + seq![
        '\u{2502}',
    ] + repeated('\u{2500}', rule_length as nat) + seq!['\u{2502}', '\n']));
}

fn append_code_lines(
    target: &mut String,
    code: &str,
    start_line_number: Option<u32>,
    number_width: usize,
    frame_width: usize,
)
    ensures
        final(target)@ == old(target)@ + code_lines(
            lines(code@),
            start_line_number,
            number_width as nat,
            frame_width as nat,
        ),
{
    let chars = chars_of(code);
    let bounds = line_bounds(&chars);
    let ghost all = lines(code@);
    let mut index: usize = 0;
    assert(all.take(0) =~= Seq::<Seq<char>>::empty());
    assert(target@ + code_lines(
        all.take(0),
        start_line_number,
        number_width as nat,
        frame_width as nat,
    ) =~= target@);
    while index < bounds.len()
        invariant
            index <= bounds@.len(),
            all == lines(code@),
            bounds_match(code@, bounds@, all),
            target@ == old(target)@ + code_lines(
                all.take(index as int),
                start_line_number,
                number_width as nat,
                frame_width as nat,
            ),
        decreases bounds@.len() - index,
    {
        let line = code.substring_char(bounds[index].start, bounds[index].end);
        let ghost before = target@;
        proof {
            reveal_strlit(" ");
            assert(" "@ =~= seq![' ']);
            assert(all.take(index + 1).drop_last() =~= all.take(index as int));
            assert(all.take(index + 1).last() == line@);
        }
        match start_line_number {
            Some(start) => {
                let number: u128 = start as u128 + index as u128;
                let numbered = to_padded_decimal_string(number, number_width).concat(" ").concat(
                    line,
                );
                append_text_line(target, numbered.as_str(), frame_width);
            },
            None => {
                append_text_line(target, line, frame_width);
            },
        }
        proof {
            let written = code_line(
                line@,
                line_number(start_line_number, index as nat),
                number_width as nat,
            );
            assert(target@ == before + text_line(written, frame_width as nat));
            assert(target@ =~= old(target)@ + code_lines(
                all.take(index + 1),
                start_line_number,
                number_width as nat,
                frame_width as nat,
            ));
        }
        index = index + 1;
    }
    assert(all.take(index as int) =~= all);
}

} // verus!
