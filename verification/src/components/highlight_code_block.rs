use super::interface::canvas::Canvas;
use super::interface::canvas::DrawCommand;
use super::interface::canvas::Rectangle;
use super::interface::component::Component;
use super::interface::component::ComponentName;
use super::interface::component::ComponentView;
use super::interface::component::Painter;
use super::interface::component::PainterView;
use super::interface::render_error::GeometryError;
use super::interface::style::RawComponentStyle;
use super::interface::style::Style;
use crate::config::HighlightLine;
use crate::edges::padding::Padding;
use crate::utils::color::RgbaColor;
use vstd::prelude::*;

verus! {

/// The height of one line of code, in logical pixels.
pub const CODE_LINE_HEIGHT: u32 = 18;

/// A run of lines to highlight, both ends included, and its colour. Lines
/// are counted from 1. The two ends may come in either order.
#[derive(Clone, Copy, Debug, PartialEq, Eq, Structural)]
pub struct HighlightSpan {
    pub start_line_number: u32,
    pub end_line_number: u32,
    pub color: RgbaColor,
}

/// The first line of a run: the smaller of its two ends.
pub open spec fn first_line(start_line_number: u32, end_line_number: u32) -> nat {
    if start_line_number > end_line_number {
        end_line_number as nat
    } else {
        start_line_number as nat
    }
}

/// The last line of a run: the larger of its two ends, and no line after
/// the last line of the code.
pub open spec fn last_line(start_line_number: u32, end_line_number: u32, line_count: nat) -> nat {
    let end = if start_line_number > end_line_number {
        start_line_number as nat
    } else {
        end_line_number as nat
    };
    if end > line_count {
        line_count
    } else {
        end
    }
}

/// The rectangle that highlights a run of lines in a block of `line_count`
/// lines whose first line has its top at `y`. It is `width` wide and starts
/// `padding_left` before `x`, so that it reaches the edge of the card. There
/// is none for a run that starts before line 1 or after the last line.
pub open spec fn highlight_rectangle(
    x: i64,
    y: i64,
    width: u32,
    padding_left: u32,
    start_line_number: u32,
    end_line_number: u32,
    line_count: nat,
    line_height: u32,
) -> Result<Rectangle, GeometryError> {
    let first = first_line(start_line_number, end_line_number);
    let last = last_line(start_line_number, end_line_number, line_count);
    let top = y + (first - 1) * line_height;
    let height = (last - first + 1) * line_height;
    if first == 0 || first > line_count {
        Err(GeometryError::Degenerate)
    } else if top > i64::MAX || height > u32::MAX || x - padding_left < i64::MIN {
        Err(GeometryError::Overflow)
    } else {
        Ok(Rectangle { x: (x - padding_left) as i64, y: top as i64, width, height: height as u32 })
    }
}

/// Works out the rectangle that highlights a run of lines.
pub fn draw_highlight_line(
    x: i64,
    y: i64,
    width: u32,
    padding_left: u32,
    start_line_number: u32,
    end_line_number: u32,
    line_count: usize,
    line_height: u32,
) -> (rectangle: Result<Rectangle, GeometryError>)
    ensures
        rectangle == highlight_rectangle(
            x,
            y,
            width,
            padding_left,
            start_line_number,
            end_line_number,
            line_count as nat,
            line_height,
        ),
{
    // The two ends are put in order first.
    let (first, end): (u64, u64) = if start_line_number > end_line_number {
        (end_line_number as u64, start_line_number as u64)
    } else {
        (start_line_number as u64, end_line_number as u64)
    };
    let last: u64 = if end > line_count as u64 {
        line_count as u64
    } else {
        end
    };
    if first == 0 || first > line_count as u64 {
        return Err(GeometryError::Degenerate);
    }
    assert((first - 1) * line_height <= 0xffff_ffff * 0xffff_ffff && (last - first + 1)
        * line_height <= 0xffff_ffff * 0xffff_ffff && (last - first + 1) * line_height >= 0)
        by (nonlinear_arith)
        requires
            1 <= first <= last <= 0xffff_ffff,
            line_height <= 0xffff_ffff,
    ;
    let offset: u64 = (first - 1) * line_height as u64;
    let height: u64 = (last - first + 1) * line_height as u64;
    let top: i128 = y as i128 + offset as i128;
    if top > i64::MAX as i128 || height > u32::MAX as u64 || x < i64::MIN + padding_left as i64 {
        return Err(GeometryError::Overflow);
    }
    Ok(Rectangle { x: x - padding_left as i64, y: top as i64, width, height: height as u32 })
}

/// The commands that highlight the given runs, one rectangle each, in the
/// order of the runs. The first run that has no rectangle decides the error.
pub open spec fn highlight_commands(
    spans: Seq<HighlightSpan>,
    x: i64,
    y: i64,
    width: u32,
    padding_left: u32,
    line_count: nat,
) -> Result<Seq<DrawCommand>, GeometryError>
    decreases spans.len(),
{
    if spans.len() == 0 {
        Ok(Seq::empty())
    } else {
        match highlight_commands(spans.drop_last(), x, y, width, padding_left, line_count) {
            Err(error) => Err(error),
            Ok(commands) => match highlight_rectangle(
                x,
                y,
                width,
                padding_left,
                spans.last().start_line_number,
                spans.last().end_line_number,
                line_count,
                CODE_LINE_HEIGHT,
            ) {
                Err(error) => Err(error),
                Ok(rectangle) => Ok(
                    commands.push(
                        DrawCommand::FillRectangle { rectangle, color: spans.last().color },
                    ),
                ),
            },
        }
    }
}

/// The commands that are issued for the given runs whether or not all of
/// them have a rectangle: those for the runs before the first run that has
/// none, in their order.
pub open spec fn highlight_commands_issued(
    spans: Seq<HighlightSpan>,
    x: i64,
    y: i64,
    width: u32,
    padding_left: u32,
    line_count: nat,
) -> Seq<DrawCommand>
    decreases spans.len(),
{
    if spans.len() == 0 {
        Seq::empty()
    } else {
        match highlight_commands(spans.drop_last(), x, y, width, padding_left, line_count) {
            Err(_) => highlight_commands_issued(
                spans.drop_last(),
                x,
                y,
                width,
                padding_left,
                line_count,
            ),
            Ok(commands) => match highlight_rectangle(
                x,
                y,
                width,
                padding_left,
                spans.last().start_line_number,
                spans.last().end_line_number,
                line_count,
                CODE_LINE_HEIGHT,
            ) {
                Err(_) => commands,
                Ok(rectangle) => commands.push(
                    DrawCommand::FillRectangle { rectangle, color: spans.last().color },
                ),
            },
        }
    }
}

/// Where every run has a rectangle, the commands that are issued are the
/// commands for all runs.
pub proof fn lemma_highlight_commands_issued(
    spans: Seq<HighlightSpan>,
    x: i64,
    y: i64,
    width: u32,
    padding_left: u32,
    line_count: nat,
)
    requires
        highlight_commands(spans, x, y, width, padding_left, line_count) is Ok,
    ensures
        highlight_commands_issued(spans, x, y, width, padding_left, line_count)
            == highlight_commands(spans, x, y, width, padding_left, line_count).unwrap(),
{
}

/// Where the commands for the first `count` runs fail, what is issued for
/// all runs is what is issued for the first `count`.
pub proof fn lemma_highlight_commands_issued_until_failure(
    spans: Seq<HighlightSpan>,
    count: int,
    x: i64,
    y: i64,
    width: u32,
    padding_left: u32,
    line_count: nat,
)
    requires
        0 <= count <= spans.len(),
        highlight_commands(spans.take(count), x, y, width, padding_left, line_count) is Err,
    ensures
        highlight_commands_issued(spans, x, y, width, padding_left, line_count)
            == highlight_commands_issued(
            spans.take(count),
            x,
            y,
            width,
            padding_left,
            line_count,
        ),
    decreases spans.len() - count,
{
    if count == spans.len() {
        assert(spans.take(count) =~= spans);
    } else {
        assert(spans.take(count + 1).drop_last() =~= spans.take(count));
        lemma_highlight_commands_fail_on(
            spans.take(count + 1),
            count,
            x,
            y,
            width,
            padding_left,
            line_count,
        );
        assert(spans.take(count + 1).take(count) =~= spans.take(count));
        lemma_highlight_commands_issued_until_failure(
            spans,
            count + 1,
            x,
            y,
            width,
            padding_left,
            line_count,
        );
    }
}

/// Where the commands for the first `count` runs fail, so do those for all
/// of them, and with the same error.
pub proof fn lemma_highlight_commands_fail_on(
    spans: Seq<HighlightSpan>,
    count: int,
    x: i64,
    y: i64,
    width: u32,
    padding_left: u32,
    line_count: nat,
)
    requires
        0 <= count <= spans.len(),
        highlight_commands(spans.take(count), x, y, width, padding_left, line_count) is Err,
    ensures
        highlight_commands(spans, x, y, width, padding_left, line_count) == highlight_commands(
            spans.take(count),
            x,
            y,
            width,
            padding_left,
            line_count,
        ),
    decreases spans.len() - count,
{
    if count == spans.len() {
        assert(spans.take(count) =~= spans);
    } else {
        assert(spans.take(count + 1).drop_last() =~= spans.take(count));
        lemma_highlight_commands_fail_on(spans, count + 1, x, y, width, padding_left, line_count);
    }
}

/// Issues one rectangle for each of the given runs of lines, in their
/// order. After a failure the canvas holds, after what it held, the
/// rectangles of the runs before the one that failed.
pub fn draw_highlight_lines(
    canvas: &mut Canvas,
    spans: &Vec<HighlightSpan>,
    x: i64,
    y: i64,
    width: u32,
    padding_left: u32,
    line_count: usize,
) -> (done: Result<(), GeometryError>)
    ensures
        match highlight_commands(spans@, x, y, width, padding_left, line_count as nat) {
            Ok(commands) => done is Ok && final(canvas).commands() == old(canvas).commands()
                + commands,
            Err(error) => done == Err::<(), GeometryError>(error),
        },
        final(canvas).commands() == old(canvas).commands() + highlight_commands_issued(
            spans@,
            x,
            y,
            width,
            padding_left,
            line_count as nat,
        ),
        final(canvas).spec_width() == old(canvas).spec_width(),
        final(canvas).spec_height() == old(canvas).spec_height(),
        final(canvas).spec_scale_factor() == old(canvas).spec_scale_factor(),
{
    let ghost mut issued: Seq<DrawCommand> = Seq::empty();
    let mut index: usize = 0;
    assert(spans@.take(0) =~= Seq::<HighlightSpan>::empty());
    assert(old(canvas).commands() + issued =~= old(canvas).commands());
    while index < spans.len()
        invariant
            index <= spans@.len(),
            highlight_commands(
                spans@.take(index as int),
                x,
                y,
                width,
                padding_left,
                line_count as nat,
            ) == Ok::<Seq<DrawCommand>, GeometryError>(issued),
            canvas.commands() == old(canvas).commands() + issued,
            canvas.spec_width() == old(canvas).spec_width(),
            canvas.spec_height() == old(canvas).spec_height(),
            canvas.spec_scale_factor() == old(canvas).spec_scale_factor(),
        decreases spans@.len() - index,
    {
        let span = spans[index];
        proof {
            assert(spans@.take(index + 1).drop_last() =~= spans@.take(index as int));
            assert(spans@.take(index + 1).last() == span);
        }
        let rectangle = match draw_highlight_line(
            x,
            y,
            width,
            padding_left,
            span.start_line_number,
            span.end_line_number,
            line_count,
            CODE_LINE_HEIGHT,
        ) {
            Ok(rectangle) => rectangle,
            Err(error) => {
                proof {
                    lemma_highlight_commands_fail_on(
                        spans@,
                        index + 1,
                        x,
                        y,
                        width,
                        padding_left,
                        line_count as nat,
                    );
                    lemma_highlight_commands_issued_until_failure(
                        spans@,
                        index + 1,
                        x,
                        y,
                        width,
                        padding_left,
                        line_count as nat,
                    );
                }
                return Err(error);
            },
        };
        let command = DrawCommand::FillRectangle { rectangle, color: span.color };
        canvas.push(command);
        proof {
            assert(old(canvas).commands() + issued.push(command) =~= (old(canvas).commands()
                + issued).push(command));
            issued = issued.push(command);
        }
        index = index + 1;
    }
    assert(spans@.take(index as int) =~= spans@);
    proof {
        lemma_highlight_commands_issued(spans@, x, y, width, padding_left, line_count as nat);
    }
    Ok(())
}

/// A run of one line `line`, which the code has, gives a rectangle one line
/// high whose top is `line - 1` lines below the top of the code.
pub proof fn lemma_single_line_highlight(
    x: i64,
    y: i64,
    width: u32,
    padding_left: u32,
    line: u32,
    line_count: nat,
    line_height: u32,
)
    requires
        1 <= line <= line_count,
        y + (line - 1) * line_height <= i64::MAX,
        x - padding_left >= i64::MIN,
    ensures
        highlight_rectangle(x, y, width, padding_left, line, line, line_count, line_height) == Ok::<
            Rectangle,
            GeometryError,
        >(
            Rectangle {
                x: (x - padding_left) as i64,
                y: (y + (line - 1) * line_height) as i64,
                width,
                height: line_height,
            },
        ),
{
    assert((line - line + 1) * line_height == line_height) by (nonlinear_arith);
}

/// The two ends of a run may be given in either order: the rectangle is the
/// same.
pub proof fn lemma_highlight_ends_commute(
    x: i64,
    y: i64,
    width: u32,
    padding_left: u32,
    start_line_number: u32,
    end_line_number: u32,
    line_count: nat,
    line_height: u32,
)
    ensures
        highlight_rectangle(
            x,
            y,
            width,
            padding_left,
            start_line_number,
            end_line_number,
            line_count,
            line_height,
        ) == highlight_rectangle(
            x,
            y,
            width,
            padding_left,
            end_line_number,
            start_line_number,
            line_count,
            line_height,
        ),
{
}

/// The overlay that highlights lines of the code. It stands before the
/// code among the children of the code block, so that it is painted first
/// and the code is painted over it.
pub struct HighlightCodeBlock {
    pub highlight_lines: Vec<HighlightLine>,
    pub editor_padding: Padding,
    pub code_line_count: usize,
}

/// The colour of every one of the given highlights can be read.
pub open spec fn highlight_lines_valid(highlight_lines: Seq<HighlightLine>) -> bool {
    forall|i: int|
        0 <= i < highlight_lines.len() ==> (#[trigger] highlight_lines[i]).spec_span() is Some
}

/// The runs of lines that the given highlights name, with their colours
/// read.
pub open spec fn highlight_spans(highlight_lines: Seq<HighlightLine>) -> Seq<HighlightSpan> {
    Seq::new(highlight_lines.len(), |i: int| highlight_lines[i].spec_span().unwrap())
}

/// The node of an overlay with the given highlights. Without a highlight
/// it is not there.
pub open spec fn highlight_code_block_view(
    highlight_lines: Seq<HighlightSpan>,
    code_line_count: usize,
    editor_padding: Padding,
) -> ComponentView {
    ComponentView {
        name: ComponentName::HighlightCodeBlock,
        render_condition: highlight_lines.len() > 0,
        self_render_condition: true,
        style: RawComponentStyle::spec_default(),
        painter: PainterView::HighlightCodeBlock {
            highlight_lines,
            editor_padding,
            code_line_count,
        },
        children: Seq::empty(),
    }
}

/// Whether the colour of every one of the given highlights can be read.
pub fn check_highlight_lines(highlight_lines: &Vec<HighlightLine>) -> (valid: bool)
    ensures
        valid == highlight_lines_valid(highlight_lines@),
{
    let mut index: usize = 0;
    while index < highlight_lines.len()
        invariant
            index <= highlight_lines@.len(),
            forall|i: int| 0 <= i < index ==> (#[trigger] highlight_lines@[i]).spec_span() is Some,
        decreases highlight_lines@.len() - index,
    {
        if highlight_lines[index].span().is_none() {
            assert(highlight_lines@[index as int].spec_span() is None);
            return false;
        }
        index = index + 1;
    }
    true
}

impl HighlightCodeBlock {
    /// The node that stands for the overlay in a tree.
    pub open spec fn spec_component(self) -> ComponentView {
        highlight_code_block_view(
            highlight_spans(self.highlight_lines@),
            self.code_line_count,
            self.editor_padding,
        )
    }

    pub fn from(
        highlight_lines: Vec<HighlightLine>,
        code_line_count: usize,
        editor_padding: Padding,
    ) -> (overlay: HighlightCodeBlock)
        ensures
            overlay.highlight_lines == highlight_lines,
            overlay.code_line_count == code_line_count,
            overlay.editor_padding == editor_padding,
    {
        HighlightCodeBlock { code_line_count, highlight_lines, editor_padding }
    }

    /// Whether the colour of every highlight can be read.
    pub fn check_valid(&self) -> (valid: bool)
        ensures
            valid == highlight_lines_valid(self.highlight_lines@),
    {
        check_highlight_lines(&self.highlight_lines)
    }

    pub fn into_component(self) -> (component: Component)
        requires
            highlight_lines_valid(self.highlight_lines@),
        ensures
            component@ == self.spec_component(),
    {
        let mut spans: Vec<HighlightSpan> = Vec::new();
        let mut index: usize = 0;
        while index < self.highlight_lines.len()
            invariant
                index <= self.highlight_lines@.len(),
                highlight_lines_valid(self.highlight_lines@),
                spans@.len() == index,
                forall|i: int|
                    0 <= i < index ==> #[trigger] spans@[i] == self.highlight_lines@[i].spec_span().unwrap(),
            decreases self.highlight_lines@.len() - index,
        {
            match self.highlight_lines[index].span() {
                Some(span) => {
                    spans.push(span);
                },
                None => {
                    assert(self.highlight_lines@[index as int].spec_span() is Some);
                },
            }
            index = index + 1;
        }
        assert(spans@ =~= highlight_spans(self.highlight_lines@));
        let component = Component {
            name: ComponentName::HighlightCodeBlock,
            render_condition: self.highlight_lines.len() > 0,
            self_render_condition: true,
            style: Style::default(),
            painter: Painter::HighlightCodeBlock {
                highlight_lines: spans,
                editor_padding: self.editor_padding,
                code_line_count: self.code_line_count,
            },
            children: Vec::new(),
        };
        assert(component@.children =~= Seq::<ComponentView>::empty());
        component
    }
}

} // verus!
