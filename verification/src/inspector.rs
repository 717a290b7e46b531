//! The inspector: it takes the units of the input one by one, writes a
//! record for every character and an error line for every unit that could
//! not be decoded, and keeps the running counter.

use vstd::prelude::*;
use crate::emission::{Emission, EmissionView};
use crate::encoding::{len_utf8, lemma_utf8_len, utf8_of};
use crate::glyph::{char_width, display_width};
use crate::options::{Flags, Options};
use crate::record::{name_view, record_of, InspectionRecord};

verus! {

/// What the decoder made of one unit of input.
#[derive(Clone, Debug, PartialEq, Eq)]
pub enum DecodeOutcome {
    /// A character.
    Character(char),
    /// No character; this is the decoder's message.
    DecodeError(String),
}

/// What a `DecodeOutcome` holds.
pub enum OutcomeView {
    Character(char),
    DecodeError(Seq<char>),
}

impl View for DecodeOutcome {
    type V = OutcomeView;

    open spec fn view(&self) -> OutcomeView {
        match self {
            DecodeOutcome::Character(c) => OutcomeView::Character(*c),
            DecodeOutcome::DecodeError(message) => OutcomeView::DecodeError(message@),
        }
    }
}

/// One unit of input: what the decoder made of it and, for a character,
/// what the name service answered; `None` where it was not asked or knows
/// no name.
#[derive(Clone, Debug, PartialEq, Eq)]
pub struct InputUnit {
    pub outcome: DecodeOutcome,
    pub name: Option<String>,
}

/// What an `InputUnit` holds.
pub struct UnitView {
    pub outcome: OutcomeView,
    pub name: Option<Seq<char>>,
}

impl View for InputUnit {
    type V = UnitView;

    open spec fn view(&self) -> UnitView {
        UnitView { outcome: self.outcome@, name: name_view(self.name) }
    }
}

/// Where the counter starts: bytes are counted from zero, characters from
/// one.
pub open spec fn initial_count(flags: Flags) -> nat {
    if flags.bytes {
        0
    } else {
        1
    }
}

/// By how much a unit advances the counter: a character by the length of
/// its encoding where bytes are counted and by one where characters are, a
/// decoding error by nothing.
pub open spec fn increment_of(flags: Flags, outcome: OutcomeView) -> nat {
    match outcome {
        OutcomeView::Character(c) => if flags.bytes {
            utf8_of(c).len()
        } else {
            1
        },
        OutcomeView::DecodeError(_) => 0,
    }
}

/// The counter after the units `units`, when it was `start` before them.
pub open spec fn count_after(flags: Flags, start: nat, units: Seq<UnitView>) -> nat
    decreases units.len(),
{
    if units.len() == 0 {
        start
    } else {
        count_after(flags, start, units.drop_last()) + increment_of(flags, units.last().outcome)
    }
}

/// The name that the record of a unit shows: the answer of the name
/// service where names are shown, and none where they are not.
pub open spec fn shown_name(flags: Flags, name: Option<Seq<char>>) -> Option<Seq<char>> {
    if flags.show_names {
        name
    } else {
        None
    }
}

/// What is written for `unit` when the counter stands at `count`.
pub open spec fn emission_of(flags: Flags, count: nat, unit: UnitView) -> EmissionView {
    match unit.outcome {
        OutcomeView::Character(c) => EmissionView::Record(
            record_of(count, c, display_width(c), shown_name(flags, unit.name)),
        ),
        OutcomeView::DecodeError(message) => EmissionView::Error(message),
    }
}

/// What is written for the unit at `index` of `units`, when the counter was
/// `start` before the first of them.
pub open spec fn emission_at(flags: Flags, start: nat, units: Seq<UnitView>, index: int)
    -> EmissionView
    recommends
        0 <= index < units.len(),
{
    emission_of(flags, count_after(flags, start, units.take(index)), units[index])
}

/// The views of the units of `input`.
pub open spec fn units_of(input: Seq<InputUnit>) -> Seq<UnitView> {
    Seq::new(input.len(), |i: int| input[i]@)
}

/// The counter never goes back, and a unit advances it by four at most.
pub proof fn lemma_count_bounds(flags: Flags, start: nat, units: Seq<UnitView>, index: int)
    requires
        0 <= index <= units.len(),
    ensures
        start <= count_after(flags, start, units.take(index)) <= count_after(flags, start, units),
        count_after(flags, start, units) <= count_after(flags, start, units.take(index)) + 4 * (
        units.len() - index),
    decreases units.len() - index,
{
    if index == units.len() {
        assert(units.take(index) =~= units);
        lemma_count_from_start(flags, start, units);
    } else {
        let front = units.drop_last();
        assert(front.take(index) =~= units.take(index));
        lemma_count_bounds(flags, start, front, index);
        match units.last().outcome {
            OutcomeView::Character(c) => {
                lemma_utf8_len(c);
            },
            OutcomeView::DecodeError(_) => {},
        }
    }
}

proof fn lemma_count_from_start(flags: Flags, start: nat, units: Seq<UnitView>)
    ensures
        start <= count_after(flags, start, units),
    decreases units.len(),
{
    if units.len() > 0 {
        lemma_count_from_start(flags, start, units.drop_last());
    }
}

/// The counter after one more unit.
pub proof fn lemma_count_step(flags: Flags, start: nat, units: Seq<UnitView>, index: int)
    requires
        0 <= index < units.len(),
    ensures
        count_after(flags, start, units.take(index + 1)) == count_after(
            flags,
            start,
            units.take(index),
        ) + increment_of(flags, units[index].outcome),
{
    assert(units.take(index + 1).drop_last() =~= units.take(index));
}

/// The ordinals of a run increase strictly from record to record.
///
/// Of two units that both hold a character, the later one is written with
/// the larger ordinal. Where only decoding errors lie between the two, the
/// ordinals differ by exactly what the earlier character counts for: the
/// length of its encoding where bytes are counted, and one where characters
/// are.
pub proof fn lemma_ordinals_increase(
    flags: Flags,
    start: nat,
    units: Seq<UnitView>,
    earlier: int,
    later: int,
)
    requires
        0 <= earlier < later <= units.len(),
        units[earlier].outcome is Character,
    ensures
        count_after(flags, start, units.take(earlier)) < count_after(
            flags,
            start,
            units.take(later),
        ),
        (forall|k: int| earlier < k < later ==> (#[trigger] units[k]).outcome is DecodeError)
            ==> count_after(flags, start, units.take(later)) == count_after(
            flags,
            start,
            units.take(earlier),
        ) + increment_of(flags, units[earlier].outcome),
        flags.bytes ==> increment_of(flags, units[earlier].outcome) == utf8_of(
            units[earlier].outcome->Character_0,
        ).len(),
        !flags.bytes ==> increment_of(flags, units[earlier].outcome) == 1,
    decreases later - earlier,
{
    lemma_count_step(flags, start, units, earlier);
    lemma_utf8_len(units[earlier].outcome->Character_0);
    if later > earlier + 1 {
        lemma_ordinals_increase(flags, start, units, earlier, later - 1);
        lemma_count_step(flags, start, units, later - 1);
    }
}

/// The state of an inspection: the options and the running counter.
#[derive(Clone, Debug, PartialEq, Eq)]
pub struct CharInfo {
    pub options: Options,
    pub count: u64,
}

impl CharInfo {
    /// Starts an inspection. Bytes are counted from zero, characters from
    /// one.
    pub fn new(options: Options) -> (info: CharInfo)
        ensures
            info.options == options,
            info.count == initial_count(options.flags),
    {
        let count: u64 = if options.flags.bytes {
            0
        } else {
            1
        };
        CharInfo { options, count }
    }

    /// Whether the name service is to be asked for the names of the
    /// characters.
    pub fn wants_names(&self) -> (wanted: bool)
        ensures
            wanted == self.options.flags.show_names,
    {
        self.options.flags.show_names
    }

    /// Whether the counter can take `unit` without leaving its range.
    pub fn has_room(&self, unit: &InputUnit) -> (room: bool)
        ensures
            room == (self.count + increment_of(self.options.flags, unit@.outcome) <= u64::MAX),
    {
        match &unit.outcome {
            DecodeOutcome::Character(c) => {
                let advance: u64 = if self.options.flags.bytes {
                    len_utf8(*c) as u64
                } else {
                    1
                };
                self.count <= u64::MAX - advance
            },
            DecodeOutcome::DecodeError(_) => true,
        }
    }

    /// Takes one unit of input: says what is to be written for it, and
    /// advances the counter. A unit that could not be decoded is reported
    /// and does not stop the inspection.
    pub fn step(&mut self, unit: &InputUnit) -> (emission: Emission)
        requires
            old(self).count + increment_of(old(self).options.flags, unit@.outcome) <= u64::MAX,
        ensures
            emission@ == emission_of(old(self).options.flags, old(self).count as nat, unit@),
            final(self).count == old(self).count + increment_of(
                old(self).options.flags,
                unit@.outcome,
            ),
            final(self).options == old(self).options,
    {
        match &unit.outcome {
            DecodeOutcome::Character(c) => {
                let name = if self.options.flags.show_names {
                    clone_name(&unit.name)
                } else {
                    None
                };
                let record = InspectionRecord::new(self.count, *c, char_width(*c), name);
                let advance: u64 = if self.options.flags.bytes {
                    len_utf8(*c) as u64
                } else {
                    1
                };
                self.count = self.count + advance;
                Emission::Record(record)
            },
            DecodeOutcome::DecodeError(message) => Emission::Error(message.clone()),
        }
    }

    /// Inspects a whole input: one emission for every unit, in order.
    ///
    /// The emission of a unit is written at the counter value that the
    /// units before it have led to, so the ordinals of the records increase
    /// strictly.
    pub fn run(self, input: &Vec<InputUnit>) -> (output: Vec<Emission>)
        requires
            count_after(self.options.flags, self.count as nat, units_of(input@)) <= u64::MAX,
        ensures
            output.len() == input.len(),
            forall|i: int|
                0 <= i < input.len() ==> (#[trigger] output[i])@ == emission_at(
                    self.options.flags,
                    self.count as nat,
                    units_of(input@),
                    i,
                ),
            forall|i: int, j: int|
                0 <= i < j < output.len() && (#[trigger] output[i]) is Record && (
                #[trigger] output[j]) is Record ==> output[i]->Record_0.ordinal
                    < output[j]->Record_0.ordinal,
    {
        let ghost flags = self.options.flags;
        let ghost start = self.count as nat;
        let ghost units = units_of(input@);
        let mut info = self;
        let mut output: Vec<Emission> = Vec::new();
        let mut index: usize = 0;
        assert(units.take(0) =~= Seq::<UnitView>::empty());
        while index < input.len()
            invariant
                0 <= index <= input.len(),
                units == units_of(input@),
                info.options.flags == flags,
                info.count == count_after(flags, start, units.take(index as int)),
                count_after(flags, start, units) <= u64::MAX,
                output.len() == index,
                forall|i: int|
                    0 <= i < index ==> (#[trigger] output[i])@ == emission_at(
                        flags,
                        start,
                        units,
                        i,
                    ),
            decreases input.len() - index,
        {
            proof {
                lemma_count_step(flags, start, units, index as int);
                lemma_count_bounds(flags, start, units, index + 1);
            }
            let emission = info.step(&input[index]);
            output.push(emission);
            index = index + 1;
        }
        proof {
            assert forall|i: int, j: int|
                0 <= i < j < output.len() && (#[trigger] output[i]) is Record && (
                #[trigger] output[j]) is Record implies output[i]->Record_0.ordinal
                < output[j]->Record_0.ordinal by {
                assert(output[i]@ == emission_at(flags, start, units, i));
                assert(output[j]@ == emission_at(flags, start, units, j));
                lemma_ordinals_increase(flags, start, units, i, j);
            }
        }
        output
    }
}

/// A copy of an optional name.
fn clone_name(name: &Option<String>) -> (copy: Option<String>)
    ensures
        name_view(copy) == name_view(*name),
{
    match name {
        Some(text) => Some(text.clone()),
        None => None,
    }
}

} // verus!
