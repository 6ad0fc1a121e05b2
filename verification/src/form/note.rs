//! Pitch classes and their written spellings.

use vstd::prelude::*;
use vstd::std_specs::cmp::PartialEqSpec;
use vstd::std_specs::cmp::PartialEqSpecImpl;
use vstd::std_specs::convert::FromSpecImpl;
use vstd::string::StringExecFns;
use crate::form::chord::{Chord, ChordView};
use crate::form::interval::Interval;

verus! {

/// The seven letter names.
#[derive(Debug, Clone, Copy, PartialEq, Eq, Structural)]
pub enum NoteName {
    A,
    B,
    C,
    D,
    E,
    F,
    G,
}

impl NoteName {
    /// Semitones from A up to the natural note of this name.
    pub open spec fn semitones(self) -> int {
        match self {
            NoteName::A => 0,
            NoteName::B => 2,
            NoteName::C => 3,
            NoteName::D => 5,
            NoteName::E => 7,
            NoteName::F => 8,
            NoteName::G => 10,
        }
    }

    /// Position of the name in the alphabet, A being 0.
    pub open spec fn letter(self) -> int {
        match self {
            NoteName::A => 0,
            NoteName::B => 1,
            NoteName::C => 2,
            NoteName::D => 3,
            NoteName::E => 4,
            NoteName::F => 5,
            NoteName::G => 6,
        }
    }

    pub open spec fn spec_text(self) -> Seq<char> {
        match self {
            NoteName::A => seq!['A'],
            NoteName::B => seq!['B'],
            NoteName::C => seq!['C'],
            NoteName::D => seq!['D'],
            NoteName::E => seq!['E'],
            NoteName::F => seq!['F'],
            NoteName::G => seq!['G'],
        }
    }

    /// The name a third higher: chords stacked in thirds skip one letter per tone.
    pub fn spell_next(&self) -> (r: NoteName)
        ensures
            r.letter() == (self.letter() + 2) % 7,
    {
        match self {
            NoteName::A => NoteName::C,
            NoteName::B => NoteName::D,
            NoteName::C => NoteName::E,
            NoteName::D => NoteName::F,
            NoteName::E => NoteName::G,
            NoteName::F => NoteName::A,
            NoteName::G => NoteName::B,
        }
    }

    /// The letter as text.
    pub fn text(&self) -> (r: String)
        ensures
            r@ == self.spec_text(),
    {
        proof {
            reveal_strlit("A");
            reveal_strlit("B");
            reveal_strlit("C");
            reveal_strlit("D");
            reveal_strlit("E");
            reveal_strlit("F");
            reveal_strlit("G");
        }
        let s = match self {
            NoteName::A => "A",
            NoteName::B => "B",
            NoteName::C => "C",
            NoteName::D => "D",
            NoteName::E => "E",
            NoteName::F => "F",
            NoteName::G => "G",
        };
        assert(s@ =~= self.spec_text());
        String::from_str(s)
    }
}

#[derive(Debug, Clone, Copy, PartialEq, Eq, Structural)]
pub enum Accidental {
    Natural,
    Sharp,
    Flat,
}

impl Accidental {
    pub open spec fn spec_value(self) -> int {
        match self {
            Accidental::Natural => 0,
            Accidental::Sharp => 1,
            Accidental::Flat => -1,
        }
    }

    pub open spec fn spec_text(self) -> Seq<char> {
        match self {
            Accidental::Natural => Seq::empty(),
            Accidental::Sharp => seq!['♯'],
            Accidental::Flat => seq!['♭'],
        }
    }

    /// Semitones by which the accidental moves a natural note.
    pub fn value(&self) -> (r: i32)
        ensures
            r == self.spec_value(),
    {
        match self {
            Accidental::Natural => 0,
            Accidental::Sharp => 1,
            Accidental::Flat => -1,
        }
    }

    /// The sign as text; nothing for a natural.
    pub fn text(&self) -> (r: String)
        ensures
            r@ == self.spec_text(),
    {
        proof {
            reveal_strlit("");
            reveal_strlit("♯");
            reveal_strlit("♭");
        }
        let s = match self {
            Accidental::Natural => "",
            Accidental::Sharp => "♯",
            Accidental::Flat => "♭",
        };
        assert(s@ =~= self.spec_text());
        String::from_str(s)
    }
}

/// Which of the two spellings of the black keys to write.
#[derive(Debug, Clone, Copy, PartialEq, Eq, Structural)]
pub enum Spelling {
    Sharp,
    Flat,
}

impl Spelling {
    pub open spec fn spec_text(self) -> Seq<char> {
        match self {
            Spelling::Sharp => seq!['♯'],
            Spelling::Flat => seq!['♭'],
        }
    }

    /// The sign that the spelling prefers, as text.
    pub fn text(&self) -> (r: String)
        ensures
            r@ == self.spec_text(),
    {
        proof {
            reveal_strlit("♯");
            reveal_strlit("♭");
        }
        let s = match self {
            Spelling::Sharp => "♯",
            Spelling::Flat => "♭",
        };
        assert(s@ =~= self.spec_text());
        String::from_str(s)
    }
}

/// A note as it is written: a letter and an accidental.
#[derive(Debug, Clone, Copy, PartialEq, Eq, Structural)]
pub struct WrittenNote {
    pub name: NoteName,
    pub accidental: Accidental,
}

impl WrittenNote {
    /// The pitch class that the written note denotes.
    pub open spec fn pitch(self) -> int {
        (self.name.semitones() + self.accidental.spec_value()) % 12
    }

    pub open spec fn spec_text(self) -> Seq<char> {
        self.name.spec_text() + self.accidental.spec_text()
    }

    /// The note that is written here.
    pub fn unwrite(&self) -> (r: Note)
        ensures
            r.pitch() == self.pitch(),
            r.spec_index() == self.name.semitones() + self.accidental.spec_value(),
    {
        Note::new(self.name, self.accidental)
    }

    /// Letter followed by accidental.
    pub fn text(&self) -> (r: String)
        ensures
            r@ == self.spec_text(),
    {
        let acc = self.accidental.text();
        self.name.text().concat(acc.as_str())
    }
}

/// The sharp spelling of each pitch class.
pub open spec fn sharp_spelling(pitch: int) -> WrittenNote {
    if pitch == 0 {
        WrittenNote { name: NoteName::A, accidental: Accidental::Natural }
    } else if pitch == 1 {
        WrittenNote { name: NoteName::A, accidental: Accidental::Sharp }
    } else if pitch == 2 {
        WrittenNote { name: NoteName::B, accidental: Accidental::Natural }
    } else if pitch == 3 {
        WrittenNote { name: NoteName::C, accidental: Accidental::Natural }
    } else if pitch == 4 {
        WrittenNote { name: NoteName::C, accidental: Accidental::Sharp }
    } else if pitch == 5 {
        WrittenNote { name: NoteName::D, accidental: Accidental::Natural }
    } else if pitch == 6 {
        WrittenNote { name: NoteName::D, accidental: Accidental::Sharp }
    } else if pitch == 7 {
        WrittenNote { name: NoteName::E, accidental: Accidental::Natural }
    } else if pitch == 8 {
        WrittenNote { name: NoteName::F, accidental: Accidental::Natural }
    } else if pitch == 9 {
        WrittenNote { name: NoteName::F, accidental: Accidental::Sharp }
    } else if pitch == 10 {
        WrittenNote { name: NoteName::G, accidental: Accidental::Natural }
    } else {
        WrittenNote { name: NoteName::G, accidental: Accidental::Sharp }
    }
}

/// The flat spelling of each pitch class.
pub open spec fn flat_spelling(pitch: int) -> WrittenNote {
    if pitch == 0 {
        WrittenNote { name: NoteName::A, accidental: Accidental::Natural }
    } else if pitch == 1 {
        WrittenNote { name: NoteName::B, accidental: Accidental::Flat }
    } else if pitch == 2 {
        WrittenNote { name: NoteName::B, accidental: Accidental::Natural }
    } else if pitch == 3 {
        WrittenNote { name: NoteName::C, accidental: Accidental::Natural }
    } else if pitch == 4 {
        WrittenNote { name: NoteName::D, accidental: Accidental::Flat }
    } else if pitch == 5 {
        WrittenNote { name: NoteName::D, accidental: Accidental::Natural }
    } else if pitch == 6 {
        WrittenNote { name: NoteName::E, accidental: Accidental::Flat }
    } else if pitch == 7 {
        WrittenNote { name: NoteName::E, accidental: Accidental::Natural }
    } else if pitch == 8 {
        WrittenNote { name: NoteName::F, accidental: Accidental::Natural }
    } else if pitch == 9 {
        WrittenNote { name: NoteName::G, accidental: Accidental::Flat }
    } else if pitch == 10 {
        WrittenNote { name: NoteName::G, accidental: Accidental::Natural }
    } else {
        WrittenNote { name: NoteName::A, accidental: Accidental::Flat }
    }
}

pub open spec fn spelling_of(pitch: int, spelling: Spelling) -> WrittenNote {
    match spelling {
        Spelling::Sharp => sharp_spelling(pitch),
        Spelling::Flat => flat_spelling(pitch),
    }
}

/// Each written note followed by a blank.
pub open spec fn spaced_text(notes: Seq<WrittenNote>) -> Seq<char>
    decreases notes.len(),
{
    if notes.len() == 0 {
        Seq::empty()
    } else {
        spaced_text(notes.drop_last()) + notes.last().spec_text() + seq![' ']
    }
}

/// The pitch classes of a row of notes.
pub open spec fn pitches(notes: Seq<Note>) -> Seq<int> {
    notes.map_values(|n: Note| n.pitch())
}

/// A row of pitch classes, each in the given spelling.
pub open spec fn spelled(pitches: Seq<int>, spelling: Spelling) -> Seq<WrittenNote> {
    pitches.map_values(|p: int| spelling_of(p, spelling))
}

/// Spells every note of a row.
pub fn write_notes(notes: &Vec<Note>, spelling: Spelling) -> (r: Vec<WrittenNote>)
    ensures
        r@ == spelled(pitches(notes@), spelling),
{
    let mut written: Vec<WrittenNote> = Vec::new();
    let mut i: usize = 0;
    while i < notes.len()
        invariant
            0 <= i <= notes.len(),
            written@ == spelled(pitches(notes@.take(i as int)), spelling),
        decreases notes.len() - i,
    {
        written.push(notes[i].spell(spelling));
        proof {
            assert(notes@.take(i + 1) =~= notes@.take(i as int).push(notes@[i as int]));
            assert(written@ =~= spelled(pitches(notes@.take(i + 1)), spelling));
        }
        i += 1;
    }
    proof {
        assert(notes@.take(i as int) =~= notes@);
    }
    written
}

/// The text of a row of written notes: each one followed by a blank.
pub fn notes_text(notes: &Vec<WrittenNote>) -> (r: String)
    ensures
        r@ == spaced_text(notes@),
{
    let mut text = String::new();
    let mut i: usize = 0;
    while i < notes.len()
        invariant
            0 <= i <= notes.len(),
            text@ == spaced_text(notes@.take(i as int)),
        decreases notes.len() - i,
    {
        let one = notes[i].text();
        text.append(one.as_str());
        text.append(" ");
        proof {
            reveal_strlit(" ");
            assert(" "@ =~= seq![' ']);
            assert(notes@.take(i + 1).drop_last() =~= notes@.take(i as int));
            assert(notes@.take(i + 1).last() == notes@[i as int]);
        }
        i += 1;
    }
    proof {
        assert(notes@.take(i as int) =~= notes@);
    }
    text
}

/// A pitch class. Two notes are the same note when their indices agree modulo 12,
/// so the octave a note was played in never matters. Index 0 is A.
#[derive(Debug, Clone, Copy)]
pub struct Note {
    index: i32,
}

/// The remainder of `value` by 12 that is never negative.
fn wrap_octave(value: i32) -> (r: i32)
    ensures
        r == value as int % 12,
        0 <= r < 12,
{
    let wrapped = value.checked_rem_euclid(12);
    assert(wrapped.is_some());
    wrapped.unwrap()
}

impl PartialEq for Note {
    fn eq(&self, other: &Self) -> (r: bool) {
        wrap_octave(self.index) == wrap_octave(other.index)
    }
}

impl PartialEqSpecImpl for Note {
    open spec fn obeys_eq_spec() -> bool {
        true
    }

    open spec fn eq_spec(&self, other: &Self) -> bool {
        self.pitch() == other.pitch()
    }
}

impl From<i32> for Note {
    fn from(value: i32) -> (r: Note) {
        Note { index: wrap_octave(value) }
    }
}

impl FromSpecImpl<i32> for Note {
    open spec fn obeys_from_spec() -> bool {
        true
    }

    open spec fn from_spec(value: i32) -> Note {
        Note::at(value as int % 12)
    }
}

impl Note {
    /// The index the note was built with, in semitones above A.
    pub closed spec fn spec_index(self) -> int {
        self.index as int
    }

    /// The note whose index is `index`, where that fits the machine integer.
    pub closed spec fn at(index: int) -> Note {
        Note { index: index as i32 }
    }

    /// The pitch class of the note: its index modulo 12, in `0..12`.
    pub open spec fn pitch(self) -> int {
        self.spec_index() % 12
    }

    /// The note at an index has that index.
    pub proof fn index_of_at(index: int)
        requires
            i32::MIN <= index <= i32::MAX,
        ensures
            Note::at(index).spec_index() == index,
    {
    }

    /// The note of a letter and an accidental.
    pub fn new(note_name: NoteName, accidental: Accidental) -> (r: Note)
        ensures
            r == Note::at(note_name.semitones() + accidental.spec_value()),
            r.spec_index() == note_name.semitones() + accidental.spec_value(),
    {
        let base: i32 = match note_name {
            NoteName::A => 0,
            NoteName::B => 2,
            NoteName::C => 3,
            NoteName::D => 5,
            NoteName::E => 7,
            NoteName::F => 8,
            NoteName::G => 10,
        };
        Note { index: base + accidental.value() }
    }

    pub fn index(&self) -> (r: i32)
        ensures
            r == self.spec_index(),
    {
        self.index
    }

    pub fn spell(&self, spelling: Spelling) -> (r: WrittenNote)
        ensures
            r == spelling_of(self.pitch(), spelling),
            r.pitch() == self.pitch(),
    {
        match spelling {
            Spelling::Sharp => self.sharp(),
            Spelling::Flat => self.flat(),
        }
    }

    pub fn sharp(&self) -> (r: WrittenNote)
        ensures
            r == sharp_spelling(self.pitch()),
            r.pitch() == self.pitch(),
    {
        let (name, accidental) = match wrap_octave(self.index) {
            0 => (NoteName::A, Accidental::Natural),
            1 => (NoteName::A, Accidental::Sharp),
            2 => (NoteName::B, Accidental::Natural),
            3 => (NoteName::C, Accidental::Natural),
            4 => (NoteName::C, Accidental::Sharp),
            5 => (NoteName::D, Accidental::Natural),
            6 => (NoteName::D, Accidental::Sharp),
            7 => (NoteName::E, Accidental::Natural),
            8 => (NoteName::F, Accidental::Natural),
            9 => (NoteName::F, Accidental::Sharp),
            10 => (NoteName::G, Accidental::Natural),
            _ => (NoteName::G, Accidental::Sharp),
        };
        WrittenNote { name, accidental }
    }

    pub fn flat(&self) -> (r: WrittenNote)
        ensures
            r == flat_spelling(self.pitch()),
            r.pitch() == self.pitch(),
    {
        let (name, accidental) = match wrap_octave(self.index) {
            0 => (NoteName::A, Accidental::Natural),
            1 => (NoteName::B, Accidental::Flat),
            2 => (NoteName::B, Accidental::Natural),
            3 => (NoteName::C, Accidental::Natural),
            4 => (NoteName::D, Accidental::Flat),
            5 => (NoteName::D, Accidental::Natural),
            6 => (NoteName::E, Accidental::Flat),
            7 => (NoteName::E, Accidental::Natural),
            8 => (NoteName::F, Accidental::Natural),
            9 => (NoteName::G, Accidental::Flat),
            10 => (NoteName::G, Accidental::Natural),
            _ => (NoteName::A, Accidental::Flat),
        };
        WrittenNote { name, accidental }
    }

    /// The note `steps` semitones away, downwards where `steps` is negative.
    pub fn add_steps(&self, steps: i32) -> (r: Note)
        ensures
            r.pitch() == (self.pitch() + steps) % 12,
            r.spec_index() == r.pitch(),
    {
        let from: i32 = wrap_octave(self.index);
        let by: i32 = wrap_octave(steps);
        Note { index: wrap_octave(from + by) }
    }

    /// The note an interval above this one.
    pub fn add_interval(&self, interval: Interval) -> (r: Note)
        ensures
            r.pitch() == (self.pitch() + interval.spec_steps()) % 12,
            r.spec_index() == r.pitch(),
    {
        self.add_steps(interval.steps())
    }
}


/// The pitch classes that stand the given semitones above a root.
pub open spec fn stacked(root: int, steps: Seq<int>) -> Seq<int> {
    steps.map_values(|s: int| (root + s) % 12)
}

/// A chord of the given notes that goes by the given symbol.
fn named_chord(notes: Vec<Note>, symbol: &str) -> (r: Chord)
    ensures
        r.notes == notes,
        r@.symbol == Some(symbol@),
{
    let mut chord = Chord::new(notes);
    chord.symbol = Some(String::from_str(symbol));
    chord
}

impl Note {
    /// The minor triad on this note.
    pub fn min(&self) -> (r: Chord)
        ensures
            r@ == ChordView::min(self.pitch()),
            r.notes@[0] == *self,
    {
        let third = self.add_interval(Interval::MinorThird);
        let fifth = self.add_interval(Interval::PerfectFifth);
        let chord = named_chord(vec![*self, third, fifth], "m");
        assert(chord@.pitches =~= stacked(self.pitch(), seq![0int, 3, 7]));
        chord
    }

    /// The major triad on this note.
    pub fn maj(&self) -> (r: Chord)
        ensures
            r@ == ChordView::maj(self.pitch()),
            r.notes@[0] == *self,
    {
        let third = self.add_interval(Interval::MajorThird);
        let fifth = self.add_interval(Interval::PerfectFifth);
        let chord = named_chord(vec![*self, third, fifth], "maj");
        assert(chord@.pitches =~= stacked(self.pitch(), seq![0int, 4, 7]));
        chord
    }

    /// The major seventh chord on this note.
    pub fn maj7(&self) -> (r: Chord)
        ensures
            r@ == ChordView::maj7(self.pitch()),
            r.notes@[0] == *self,
    {
        let third = self.add_interval(Interval::MajorThird);
        let fifth = self.add_interval(Interval::PerfectFifth);
        let seventh = self.add_interval(Interval::MajorSeventh);
        let chord = named_chord(vec![*self, third, fifth, seventh], "maj7");
        assert(chord@.pitches =~= stacked(self.pitch(), seq![0int, 4, 7, 11]));
        chord
    }

    /// The minor seventh chord on this note.
    pub fn min7(&self) -> (r: Chord)
        ensures
            r@ == ChordView::min7(self.pitch()),
            r.notes@[0] == *self,
    {
        let third = self.add_interval(Interval::MinorThird);
        let fifth = self.add_interval(Interval::PerfectFifth);
        let seventh = self.add_interval(Interval::MinorSeventh);
        let chord = named_chord(vec![*self, third, fifth, seventh], "min7");
        assert(chord@.pitches =~= stacked(self.pitch(), seq![0int, 3, 7, 10]));
        chord
    }

    /// The dominant seventh chord on this note.
    pub fn dominant7(&self) -> (r: Chord)
        ensures
            r@ == ChordView::dominant7(self.pitch()),
            r.notes@[0] == *self,
    {
        let third = self.add_interval(Interval::MajorThird);
        let fifth = self.add_interval(Interval::PerfectFifth);
        let seventh = self.add_interval(Interval::MinorSeventh);
        let chord = named_chord(vec![*self, third, fifth, seventh], "7");
        assert(chord@.pitches =~= stacked(self.pitch(), seq![0int, 4, 7, 10]));
        chord
    }

    /// The diminished triad on this note.
    pub fn dim(&self) -> (r: Chord)
        ensures
            r@ == ChordView::dim(self.pitch()),
            r.notes@[0] == *self,
    {
        let third = self.add_interval(Interval::MinorThird);
        let fifth = self.add_interval(Interval::DiminishedFifth);
        let chord = named_chord(vec![*self, third, fifth], "dim");
        assert(chord@.pitches =~= stacked(self.pitch(), seq![0int, 3, 6]));
        chord
    }

    /// The half-diminished seventh chord on this note.
    pub fn m7b5(&self) -> (r: Chord)
        ensures
            r@ == ChordView::m7b5(self.pitch()),
            r.notes@[0] == *self,
    {
        let third = self.add_interval(Interval::MinorThird);
        let fifth = self.add_interval(Interval::DiminishedFifth);
        let seventh = self.add_interval(Interval::MinorSeventh);
        let chord = named_chord(vec![*self, third, fifth, seventh], "m7b5");
        assert(chord@.pitches =~= stacked(self.pitch(), seq![0int, 3, 6, 10]));
        chord
    }

    /// The diminished seventh chord on this note: minor thirds stacked on each other.
    pub fn dim7(&self) -> (r: Chord)
        ensures
            r@ == ChordView::dim7(self.pitch()),
            r.notes@[0] == *self,
    {
        let third = self.add_interval(Interval::MinorThird);
        let fifth = third.add_interval(Interval::MinorThird);
        let seventh = fifth.add_interval(Interval::MinorThird);
        let chord = named_chord(vec![*self, third, fifth, seventh], "dim7");
        assert(chord@.pitches =~= stacked(self.pitch(), seq![0int, 3, 6, 9]));
        chord
    }
}

/// The notes by name. A, B, C, D, E, F and G are the naturals; the others lie a
/// semitone below or above the natural they are named after.
#[allow(non_snake_case)]
pub fn A() -> (r: Note)
    ensures
        r.spec_index() == 0,
{
    Note::new(NoteName::A, Accidental::Natural)
}

#[allow(non_snake_case)]
pub fn A_FLAT() -> (r: Note)
    ensures
        r.spec_index() == -1,
{
    Note::new(NoteName::A, Accidental::Flat)
}

#[allow(non_snake_case)]
pub fn A_SHARP() -> (r: Note)
    ensures
        r.spec_index() == 1,
{
    Note::new(NoteName::A, Accidental::Sharp)
}

#[allow(non_snake_case)]
pub fn B() -> (r: Note)
    ensures
        r.spec_index() == 2,
{
    Note::new(NoteName::B, Accidental::Natural)
}

#[allow(non_snake_case)]
pub fn B_FLAT() -> (r: Note)
    ensures
        r.spec_index() == 1,
{
    Note::new(NoteName::B, Accidental::Flat)
}

#[allow(non_snake_case)]
pub fn B_SHARP() -> (r: Note)
    ensures
        r.spec_index() == 3,
{
    Note::new(NoteName::B, Accidental::Sharp)
}

#[allow(non_snake_case)]
pub fn C() -> (r: Note)
    ensures
        r.spec_index() == 3,
{
    Note::new(NoteName::C, Accidental::Natural)
}

#[allow(non_snake_case)]
pub fn C_FLAT() -> (r: Note)
    ensures
        r.spec_index() == 2,
{
    Note::new(NoteName::C, Accidental::Flat)
}

#[allow(non_snake_case)]
pub fn C_SHARP() -> (r: Note)
    ensures
        r.spec_index() == 4,
{
    Note::new(NoteName::C, Accidental::Sharp)
}

#[allow(non_snake_case)]
pub fn D() -> (r: Note)
    ensures
        r.spec_index() == 5,
{
    Note::new(NoteName::D, Accidental::Natural)
}

#[allow(non_snake_case)]
pub fn D_FLAT() -> (r: Note)
    ensures
        r.spec_index() == 4,
{
    Note::new(NoteName::D, Accidental::Flat)
}

#[allow(non_snake_case)]
pub fn D_SHARP() -> (r: Note)
    ensures
        r.spec_index() == 6,
{
    Note::new(NoteName::D, Accidental::Sharp)
}

#[allow(non_snake_case)]
pub fn E() -> (r: Note)
    ensures
        r.spec_index() == 7,
{
    Note::new(NoteName::E, Accidental::Natural)
}

#[allow(non_snake_case)]
pub fn E_FLAT() -> (r: Note)
    ensures
        r.spec_index() == 6,
{
    Note::new(NoteName::E, Accidental::Flat)
}

#[allow(non_snake_case)]
pub fn E_SHARP() -> (r: Note)
    ensures
        r.spec_index() == 8,
{
    Note::new(NoteName::E, Accidental::Sharp)
}

#[allow(non_snake_case)]
pub fn F() -> (r: Note)
    ensures
        r.spec_index() == 8,
{
    Note::new(NoteName::F, Accidental::Natural)
}

#[allow(non_snake_case)]
pub fn F_FLAT() -> (r: Note)
    ensures
        r.spec_index() == 7,
{
    Note::new(NoteName::F, Accidental::Flat)
}

#[allow(non_snake_case)]
pub fn F_SHARP() -> (r: Note)
    ensures
        r.spec_index() == 9,
{
    Note::new(NoteName::F, Accidental::Sharp)
}

#[allow(non_snake_case)]
pub fn G() -> (r: Note)
    ensures
        r.spec_index() == 10,
{
    Note::new(NoteName::G, Accidental::Natural)
}

#[allow(non_snake_case)]
pub fn G_FLAT() -> (r: Note)
    ensures
        r.spec_index() == 9,
{
    Note::new(NoteName::G, Accidental::Flat)
}

#[allow(non_snake_case)]
pub fn G_SHARP() -> (r: Note)
    ensures
        r.spec_index() == 11,
{
    Note::new(NoteName::G, Accidental::Sharp)
}

/// A note is the same note in every octave: where two indices differ by a whole
/// number of octaves, the notes are equal.
pub proof fn octave_invariance(n: Note, m: Note, k: int)
    requires
        m.spec_index() == n.spec_index() + 12 * k,
    ensures
        PartialEqSpec::eq_spec(&n, &m),
        n.pitch() == m.pitch(),
{
    assert((n.spec_index() + 12 * k) % 12 == n.spec_index() % 12) by (nonlinear_arith);
}

} // verus!
