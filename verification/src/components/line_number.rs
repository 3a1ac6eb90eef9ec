use super::highlight_code_block::CODE_LINE_HEIGHT;
use super::interface::canvas::TextRole;
use super::interface::component::Component;
use super::interface::component::ComponentName;
use super::interface::component::ComponentView;
use super::interface::component::Painter;
use super::interface::component::PainterView;
use super::interface::style::RawComponentStyle;
use super::interface::style::Size;
use super::interface::style::Style;
use crate::edges::margin::Margin;
use crate::utils::number::count_digits;
use crate::utils::number::decimal;
use crate::utils::number::pad_left;
use crate::utils::number::to_padded_decimal_string;
use crate::utils::text::chars_of;
use vstd::prelude::*;

verus! {

/// The space the line numbers keep free to their right.
pub const LINE_NUMBER_MARGIN_RIGHT: u32 = 10;

/// The numbers of the lines, written to the left of the code.
pub struct LineNumber {
    pub render_condition: bool,
    /// The numbers as they are written, one for each line, all of the same
    /// length.
    pub line_number_content: Vec<String>,
    /// How many digits the largest number has.
    pub number_of_digit: usize,
    /// The width of one digit.
    pub char_width: u32,
}

/// How many line feeds a text holds.
pub open spec fn count_line_feeds(text: Seq<char>) -> nat
    decreases text.len(),
{
    if text.len() == 0 {
        0
    } else if text.last() == '\n' {
        count_line_feeds(text.drop_last()) + 1
    } else {
        count_line_feeds(text.drop_last())
    }
}

/// How many lines a text is numbered as: one more than it holds line
/// feeds.
pub open spec fn numbered_lines(text: Seq<char>) -> nat {
    count_line_feeds(text) + 1
}

/// The numbers are written as they should be: `count` numbers from
/// `start` on, each at the right end of a field as long as the last of them.
pub open spec fn numbers_written(content: Seq<String>, start: u32, count: nat) -> bool {
    &&& content.len() == count
    &&& forall|i: int|
        0 <= i < content.len() ==> (#[trigger] content[i])@ == pad_left(
            decimal((start + i) as nat),
            decimal((start + count - 1) as nat).len(),
        )
}

fn count_lines(text: &str) -> (count: u128)
    ensures
        count == numbered_lines(text@),
        count <= 0x1_0000_0000_0000_0000,
{
    let chars = chars_of(text);
    let mut count: u128 = 1;
    let mut place: usize = 0;
    assert(chars@.take(0) =~= Seq::<char>::empty());
    while place < chars.len()
        invariant
            place <= chars@.len(),
            chars@ == text@,
            count == numbered_lines(chars@.take(place as int)),
            count <= place + 1,
        decreases chars@.len() - place,
    {
        proof {
            assert(chars@.take(place + 1).drop_last() =~= chars@.take(place as int));
            assert(chars@.take(place + 1).last() == chars@[place as int]);
        }
        if chars[place] == '\n' {
            count = count + 1;
        }
        place = place + 1;
    }
    assert(chars@.take(place as int) =~= chars@);
    assert(chars@.len() <= usize::MAX);
    count
}

/// The node of line numbers for `line_count` lines, the largest of which
/// has `number_of_digit` digits of the width `char_width` each. It is as
/// high as that many lines of code.
pub open spec fn line_number_view(
    render_condition: bool,
    line_count: nat,
    number_of_digit: nat,
    char_width: u32,
) -> ComponentView {
    ComponentView {
        name: ComponentName::LineNumber,
        render_condition,
        self_render_condition: true,
        style: (RawComponentStyle {
            width: Size::Num((char_width as nat * number_of_digit) as u32),
            height: Size::Num((line_count * CODE_LINE_HEIGHT as nat) as u32),
            margin: (Margin { right: LINE_NUMBER_MARGIN_RIGHT, ..Margin::zero() }),
            ..RawComponentStyle::spec_default()
        }),
        painter: PainterView::Text(TextRole::LineNumber),
        children: Seq::empty(),
    }
}

/// The lines of a text can be numbered from `start_line_number` on: the
/// number after the last line fits a `u32`.
pub open spec fn can_number(content: Seq<char>, start_line_number: Option<u32>) -> bool {
    start_line_number is Some ==> numbered_lines(content) + start_line_number.unwrap() <= u32::MAX
}

impl LineNumber {
    /// Whether the lines of a text can be numbered from `start_line_number`
    /// on.
    pub fn check_can_number(content: &str, start_line_number: Option<u32>) -> (possible: bool)
        ensures
            possible == can_number(content@, start_line_number),
    {
        match start_line_number {
            None => true,
            Some(start) => {
                let count: u128 = count_lines(content);
                count + start as u128 <= u32::MAX as u128
            },
        }
    }

    /// The width of the numbers: one digit's width for each digit.
    pub open spec fn spec_width(self) -> nat {
        self.char_width as nat * self.number_of_digit as nat
    }

    /// The height of the numbers: the height of a line of code for each.
    pub open spec fn spec_height(self) -> nat {
        self.line_number_content@.len() * CODE_LINE_HEIGHT as nat
    }

    /// The size of the numbers can be written down.
    pub open spec fn fits(self) -> bool {
        self.spec_width() <= u32::MAX && self.spec_height() <= u32::MAX
    }

    /// The node that stands for the line numbers in a tree.
    pub open spec fn spec_component(self) -> ComponentView {
        line_number_view(
            self.render_condition,
            self.line_number_content@.len(),
            self.number_of_digit as nat,
            self.char_width,
        )
    }

    /// The line numbers for a text whose first line has the number
    /// `start_line_number`. Without such a number there are no line numbers.
    /// The text has one line more than it has line feeds.
    pub fn new(content: &str, start_line_number: Option<u32>, char_width: u32) -> (numbers:
        LineNumber)
        requires
            can_number(content@, start_line_number),
        ensures
            numbers.char_width == char_width,
            numbers.render_condition == (start_line_number is Some),
            match start_line_number {
                None => numbers.line_number_content@.len() == 0 && numbers.number_of_digit == 0,
                Some(start) => {
                    &&& numbers_written(
                        numbers.line_number_content@,
                        start,
                        numbered_lines(content@),
                    )
                    &&& numbers.number_of_digit == decimal(
                        (start + numbered_lines(content@) - 1) as nat,
                    ).len()
                },
            },
    {
        match start_line_number {
            None => LineNumber {
                render_condition: false,
                line_number_content: Vec::new(),
                number_of_digit: 0,
                char_width,
            },
            Some(start_line_number) => {
                let line_count: u128 = count_lines(content);
                let max_line_number: u32 = line_count as u32 + start_line_number;
                let number_of_digit: usize = count_digits((max_line_number - 1) as u128);
                let mut line_number_content: Vec<String> = Vec::new();
                let mut line_number: u32 = start_line_number;
                while line_number < max_line_number
                    invariant
                        start_line_number <= line_number <= max_line_number,
                        max_line_number == start_line_number + numbered_lines(content@),
                        number_of_digit == decimal((max_line_number - 1) as nat).len(),
                        line_number_content@.len() == line_number - start_line_number,
                        forall|i: int|
                            0 <= i < line_number_content@.len() ==> (
                            #[trigger] line_number_content@[i])@ == pad_left(
                                decimal((start_line_number + i) as nat),
                                number_of_digit as nat,
                            ),
                    decreases max_line_number - line_number,
                {
                    line_number_content.push(
                        to_padded_decimal_string(line_number as u128, number_of_digit),
                    );
                    line_number = line_number + 1;
                }
                LineNumber {
                    line_number_content,
                    number_of_digit,
                    render_condition: true,
                    char_width,
                }
            },
        }
    }

    /// The width and the height of the numbers.
    fn size(&self) -> (size: (u128, u128))
        ensures
            size.0 == self.spec_width(),
            size.1 == self.spec_height(),
    {
        let digits: u128 = self.number_of_digit as u128;
        let count: u128 = self.line_number_content.len() as u128;
        assert(self.char_width * digits <= 0xffff_ffff * 0xffff_ffff_ffff_ffff && count
            * CODE_LINE_HEIGHT <= 0xffff_ffff_ffff_ffff * 18) by (nonlinear_arith)
            requires
                self.char_width <= 0xffff_ffff,
                digits <= 0xffff_ffff_ffff_ffff,
                count <= 0xffff_ffff_ffff_ffff,
                CODE_LINE_HEIGHT == 18,
        ;
        (self.char_width as u128 * digits, count * CODE_LINE_HEIGHT as u128)
    }

    /// Whether the size of the numbers can be written down.
    pub fn check_fits(&self) -> (fits: bool)
        ensures
            fits == self.fits(),
    {
        let (width, height): (u128, u128) = self.size();
        width <= u32::MAX as u128 && height <= u32::MAX as u128
    }

    pub fn into_component(self) -> (component: Component)
        requires
            self.fits(),
        ensures
            component@ == self.spec_component(),
    {
        let (width, height): (u128, u128) = self.size();
        let component = Component {
            name: ComponentName::LineNumber,
            render_condition: self.render_condition,
            self_render_condition: true,
            style: Style::default().size(Size::Num(width as u32), Size::Num(height as u32)).margin(
                Margin { left: 0, right: LINE_NUMBER_MARGIN_RIGHT, top: 0, bottom: 0 },
            ),
            painter: Painter::Text(TextRole::LineNumber),
            children: Vec::new(),
        };
        assert(component@.children =~= Seq::<ComponentView>::empty());
        component
    }
}

} // verus!
