//! What is written for one unit of input, and the terminal actions that
//! write it.

use vstd::prelude::*;
use crate::category::{category_of, color_of, CharType, Color};
use crate::record::{record_line, record_of, InspectionRecord, RecordView};

verus! {

/// What is written for one unit of input.
#[derive(Clone, Debug, PartialEq, Eq)]
pub enum Emission {
    /// The record of a character.
    Record(InspectionRecord),
    /// The message of a unit that could not be decoded.
    Error(String),
}

/// What an `Emission` holds.
pub enum EmissionView {
    Record(RecordView),
    Error(Seq<char>),
}

impl View for Emission {
    type V = EmissionView;

    open spec fn view(&self) -> EmissionView {
        match self {
            Emission::Record(record) => EmissionView::Record(record@),
            Emission::Error(message) => EmissionView::Error(message@),
        }
    }
}

/// The line of an emission: the line of the record, or the message after
/// `Error: `.
pub open spec fn emission_line(emission: EmissionView) -> Seq<char> {
    match emission {
        EmissionView::Record(record) => record_line(record),
        EmissionView::Error(message) => seq!['E', 'r', 'r', 'o', 'r', ':', ' '] + message,
    }
}

/// The colour of an emission: that of the record's category, and none for
/// an error line.
pub open spec fn emission_color(emission: EmissionView) -> Option<Color> {
    match emission {
        EmissionView::Record(record) => color_of(record.category),
        EmissionView::Error(_) => None,
    }
}

impl Emission {
    /// The line to write, without the end of line.
    pub fn text(&self) -> (text: String)
        ensures
            text@ == emission_line(self@),
    {
        match self {
            Emission::Record(record) => record.line(),
            Emission::Error(message) => {
                let mut text = String::new();
                text.push('E');
                text.push('r');
                text.push('r');
                text.push('o');
                text.push('r');
                text.push(':');
                text.push(' ');
                text.append(message.as_str());
                assert(text@ =~= emission_line(self@));
                text
            },
        }
    }

    /// The colour to set before the line is written and to reset after it;
    /// `None` asks for no styling at all.
    pub fn color(&self) -> (color: Option<Color>)
        ensures
            color == emission_color(self@),
    {
        match self {
            Emission::Record(record) => record.color(),
            Emission::Error(_) => None,
        }
    }
}

/// One thing to do on the terminal.
#[derive(Clone, Debug, PartialEq, Eq)]
pub enum TerminalAction {
    /// Set the foreground colour.
    SetColor(Color),
    /// Write the text.
    Write(String),
    /// Put the styling back to what it was.
    Reset,
    /// End the line.
    EndLine,
}

/// What a `TerminalAction` holds.
pub enum ActionView {
    SetColor(Color),
    Write(Seq<char>),
    Reset,
    EndLine,
}

impl View for TerminalAction {
    type V = ActionView;

    open spec fn view(&self) -> ActionView {
        match self {
            TerminalAction::SetColor(color) => ActionView::SetColor(*color),
            TerminalAction::Write(text) => ActionView::Write(text@),
            TerminalAction::Reset => ActionView::Reset,
            TerminalAction::EndLine => ActionView::EndLine,
        }
    }
}

impl DeepView for TerminalAction {
    type V = ActionView;

    open spec fn deep_view(&self) -> ActionView {
        self@
    }
}

/// The actions that write an emission: its line and the end of the line.
/// Where the emission has a colour, the colour is set before the line and
/// reset after it, before the line ends.
pub open spec fn actions_of(emission: EmissionView) -> Seq<ActionView> {
    match emission_color(emission) {
        Some(color) => seq![
            ActionView::SetColor(color),
            ActionView::Write(emission_line(emission)),
            ActionView::Reset,
            ActionView::EndLine,
        ],
        None => seq![ActionView::Write(emission_line(emission)), ActionView::EndLine],
    }
}

/// Whether an action asks anything of the styling of the terminal.
pub open spec fn is_styling(action: ActionView) -> bool {
    action is SetColor || action is Reset
}

/// Styling never leaves the line that it was set on.
///
/// The actions of an emission end with the end of the line, and only there.
/// A colour is set at most once, as the first action, and it is then reset
/// by the last action before the end of the line.
pub proof fn lemma_styling_is_scoped(emission: EmissionView)
    ensures
        ({
            let actions = actions_of(emission);
            &&& actions.len() >= 2
            &&& actions.last() is EndLine
            &&& forall|i: int| 0 <= i < actions.len() - 1 ==> !(#[trigger] actions[i] is EndLine)
            &&& forall|i: int|
                0 <= i < actions.len() && #[trigger] actions[i] is SetColor ==> i == 0
                    && actions[actions.len() - 2] is Reset
            &&& forall|i: int|
                0 <= i < actions.len() && #[trigger] actions[i] is Reset ==> i == actions.len() - 2
                    && actions[0] is SetColor
        }),
{
}

/// No styling is asked for where there is no colour: for an error line,
/// and for every character of the normal category, such as the letters of
/// ASCII.
pub proof fn lemma_normal_is_unstyled(emission: EmissionView)
    ensures
        emission is Error ==> emission_color(emission) is None,
        emission is Record && emission->Record_0.category == CharType::Normal ==> emission_color(
            emission,
        ) is None,
        emission_color(emission) is None ==> forall|i: int|
            0 <= i < actions_of(emission).len() ==> !is_styling(#[trigger] actions_of(emission)[i]),
{
}

/// A letter of ASCII is of the normal category, so its record is written
/// without styling.
pub proof fn lemma_letters_are_normal(
    ordinal: nat,
    c: char,
    width: Option<usize>,
    name: Option<Seq<char>>,
)
    requires
        ('A' <= c && c <= 'Z') || ('a' <= c && c <= 'z'),
    ensures
        category_of(c) == CharType::Normal,
        emission_color(EmissionView::Record(record_of(ordinal, c, width, name))) is None,
{
}

impl Emission {
    /// The actions that write this emission on the terminal, in order.
    pub fn actions(&self) -> (actions: Vec<TerminalAction>)
        ensures
            actions.deep_view() == actions_of(self@),
    {
        let mut actions: Vec<TerminalAction> = Vec::new();
        match self.color() {
            Some(color) => {
                actions.push(TerminalAction::SetColor(color));
                actions.push(TerminalAction::Write(self.text()));
                actions.push(TerminalAction::Reset);
            },
            None => {
                actions.push(TerminalAction::Write(self.text()));
            },
        }
        actions.push(TerminalAction::EndLine);
        assert(actions.deep_view() =~= actions_of(self@));
        actions
    }
}

} // verus!
