use crate::components::interface::canvas::TextRole;
use crate::components::interface::component::Component;
use crate::components::interface::component::ComponentName;
use crate::components::interface::component::ComponentView;
use crate::components::interface::component::Painter;
use crate::components::interface::component::PainterView;
use crate::components::interface::style::RawComponentStyle;
use crate::components::interface::style::Size;
use crate::components::interface::style::Style;
use crate::utils::text::chars_of;
use crate::utils::text::join;
use crate::utils::text::join_pieces;
use crate::utils::text::word_bounds;
use crate::utils::text::words;
use vstd::prelude::*;
use vstd::string::StrSliceExecFns;
use vstd::string::StringExecFns;

verus! {

/// The prompt and the command of one entry. Its size is what the font
/// renderer measured for the prompt, a space and the command. It has no name:
/// every entry is measured for itself.
pub struct CommandLineHeader {
    /// The place of the entry among the entries of the snapshot.
    pub index: usize,
    pub width: u32,
    pub height: u32,
}

impl CommandLineHeader {
    /// The node that stands for the text in a tree.
    pub open spec fn spec_component(self) -> ComponentView {
        ComponentView {
            name: ComponentName::Stub,
            render_condition: true,
            self_render_condition: true,
            style: (RawComponentStyle {
                width: Size::Num(self.width),
                height: Size::Num(self.height),
                ..RawComponentStyle::spec_default()
            }),
            painter: PainterView::Text(TextRole::CommandLineHeader(self.index)),
            children: Seq::empty(),
        }
    }

    /// The text of the entry at place `index`, with the size measured for
    /// it.
    pub fn from(index: usize, width: u32, height: u32) -> (text: CommandLineHeader)
        ensures
            text == (CommandLineHeader { index, width, height }),
    {
        CommandLineHeader { index, width, height }
    }

    pub fn into_component(self) -> (component: Component)
        ensures
            component@ == self.spec_component(),
    {
        let component = Component {
            name: ComponentName::Stub,
            render_condition: true,
            self_render_condition: true,
            style: Style::default().size(Size::Num(self.width), Size::Num(self.height)),
            painter: Painter::Text(TextRole::CommandLineHeader(self.index)),
            children: Vec::new(),
        };
        assert(component@.children =~= Seq::<ComponentView>::empty());
        component
    }
}

/// The three texts that the header of an entry is written as, each in a
/// style of its own: the prompt, the command, and the arguments.
pub struct HeaderSpans {
    pub prompt: String,
    pub command: String,
    pub args: String,
}

/// The texts of the header of an entry: the prompt and a space; the first
/// word of the command and a space; the other words with one space between
/// every two of them. There are none for a command without a word.
pub open spec fn header_spans(prompt: Seq<char>, full_command: Seq<char>) -> Option<
    (Seq<char>, Seq<char>, Seq<char>),
> {
    let all = words(full_command);
    if all.len() == 0 {
        None
    } else {
        Some(
            (
                prompt + seq![' '],
                all[0] + seq![' '],
                join(all.subrange(1, all.len() as int), seq![' ']),
            ),
        )
    }
}

impl CommandLineHeader {
    /// Cuts the header of an entry into the texts it is written as.
    pub fn spans(prompt: &str, full_command: &str) -> (spans: Option<HeaderSpans>)
        ensures
            match header_spans(prompt@, full_command@) {
                None => spans is None,
                Some((prompt_text, command_text, args_text)) => {
                    &&& spans is Some
                    &&& spans.unwrap().prompt@ == prompt_text
                    &&& spans.unwrap().command@ == command_text
                    &&& spans.unwrap().args@ == args_text
                },
            },
    {
        let chars = chars_of(full_command);
        let bounds = word_bounds(&chars);
        if bounds.len() == 0 {
            return None;
        }
        proof {
            reveal_strlit(" ");
            assert(" "@ =~= seq![' ']);
        }
        let command_str = full_command.substring_char(bounds[0].start, bounds[0].end);
        let args = join_pieces(full_command, &bounds, 1, bounds.len(), " ");
        proof {
            let all = words(full_command@);
            let picked = Seq::new(
                (bounds@.len() - 1) as nat,
                |i: int|
                    full_command@.subrange(
                        bounds@[1 + i].start as int,
                        bounds@[1 + i].end as int,
                    ),
            );
            assert(picked =~= all.subrange(1, all.len() as int));
        }
        Some(
            HeaderSpans {
                prompt: String::from_str(prompt).concat(" "),
                command: String::from_str(command_str).concat(" "),
                args,
            },
        )
    }
}

} // verus!
