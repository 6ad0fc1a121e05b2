//! Chords: a row of notes in tone order, and the role each note plays.

use vstd::prelude::*;
use vstd::string::StringExecFns;
use crate::form::interval::Interval;
use crate::form::note::{
    notes_text, pitches, spelled, spelling_of, stacked, write_notes, Note, Spelling, WrittenNote,
};

verus! {

/// The role of a note within a chord.
#[derive(Debug, Clone, Copy, PartialEq, Eq, Hash, Structural)]
pub enum ChordTone {
    Root,
    Third,
    Fifth,
    Seventh,
    NoChordTone,
}

impl ChordTone {
    /// The tone that stands at a position of a chord's notes.
    pub open spec fn at(index: int) -> ChordTone {
        if index == 0 {
            ChordTone::Root
        } else if index == 1 {
            ChordTone::Third
        } else if index == 2 {
            ChordTone::Fifth
        } else if index == 3 {
            ChordTone::Seventh
        } else {
            ChordTone::NoChordTone
        }
    }

    /// The position at which a chord holds the tone. `NoChordTone` stands for no
    /// position, and 99 stands for that.
    pub open spec fn position(self) -> int {
        match self {
            ChordTone::Root => 0,
            ChordTone::Third => 1,
            ChordTone::Fifth => 2,
            ChordTone::Seventh => 3,
            ChordTone::NoChordTone => 99,
        }
    }

    pub open spec fn spec_text(self) -> Seq<char> {
        match self {
            ChordTone::Root => "Root"@,
            ChordTone::Third => "Third"@,
            ChordTone::Fifth => "Fifth"@,
            ChordTone::Seventh => "Seventh"@,
            ChordTone::NoChordTone => "Not a chord tone"@,
        }
    }

    /// The word for the tone.
    pub open spec fn spec_name(self) -> Seq<char> {
        match self {
            ChordTone::Root => "Root"@,
            ChordTone::Third => "Third"@,
            ChordTone::Fifth => "Fifth"@,
            ChordTone::Seventh => "Seventh"@,
            ChordTone::NoChordTone => "NoChordTone"@,
        }
    }

    pub fn name(&self) -> (r: &'static str)
        ensures
            r@ == self.spec_name(),
    {
        match self {
            ChordTone::Root => "Root",
            ChordTone::Third => "Third",
            ChordTone::Fifth => "Fifth",
            ChordTone::Seventh => "Seventh",
            ChordTone::NoChordTone => "NoChordTone",
        }
    }

    pub fn from_note_index(index: usize) -> (r: ChordTone)
        ensures
            r == ChordTone::at(index as int),
    {
        match index {
            0 => ChordTone::Root,
            1 => ChordTone::Third,
            2 => ChordTone::Fifth,
            3 => ChordTone::Seventh,
            _ => ChordTone::NoChordTone,
        }
    }

    pub fn to_note_index(&self) -> (r: usize)
        ensures
            r == self.position(),
    {
        match self {
            ChordTone::Root => 0,
            ChordTone::Third => 1,
            ChordTone::Fifth => 2,
            ChordTone::Seventh => 3,
            ChordTone::NoChordTone => 99,
        }
    }

    /// The name of the tone, as shown to the player.
    pub fn text(&self) -> (r: String)
        ensures
            r@ == self.spec_text(),
    {
        match self {
            ChordTone::Root => String::from_str("Root"),
            ChordTone::Third => String::from_str("Third"),
            ChordTone::Fifth => String::from_str("Fifth"),
            ChordTone::Seventh => String::from_str("Seventh"),
            ChordTone::NoChordTone => String::from_str("Not a chord tone"),
        }
    }
}

/// What a chord is, apart from how it is stored: the pitch classes of its notes
/// in tone order, and the symbol it was given, if any.
pub struct ChordView {
    pub pitches: Seq<int>,
    pub symbol: Option<Seq<char>>,
}

impl ChordView {
    /// The chord whose notes lie the given semitones above a root, by its symbol.
    pub open spec fn stacked_on(root: int, steps: Seq<int>, symbol: Seq<char>) -> ChordView {
        ChordView { pitches: stacked(root, steps), symbol: Some(symbol) }
    }

    /// The minor triad on a root.
    pub open spec fn min(root: int) -> ChordView {
        ChordView::stacked_on(root, seq![0int, 3, 7], "m"@)
    }

    /// The major triad on a root.
    pub open spec fn maj(root: int) -> ChordView {
        ChordView::stacked_on(root, seq![0int, 4, 7], "maj"@)
    }

    /// The major seventh chord on a root.
    pub open spec fn maj7(root: int) -> ChordView {
        ChordView::stacked_on(root, seq![0int, 4, 7, 11], "maj7"@)
    }

    /// The minor seventh chord on a root.
    pub open spec fn min7(root: int) -> ChordView {
        ChordView::stacked_on(root, seq![0int, 3, 7, 10], "min7"@)
    }

    /// The dominant seventh chord on a root.
    pub open spec fn dominant7(root: int) -> ChordView {
        ChordView::stacked_on(root, seq![0int, 4, 7, 10], "7"@)
    }

    /// The diminished triad on a root.
    pub open spec fn dim(root: int) -> ChordView {
        ChordView::stacked_on(root, seq![0int, 3, 6], "dim"@)
    }

    /// The half-diminished seventh chord on a root.
    pub open spec fn m7b5(root: int) -> ChordView {
        ChordView::stacked_on(root, seq![0int, 3, 6, 10], "m7b5"@)
    }

    /// The diminished seventh chord on a root.
    pub open spec fn dim7(root: int) -> ChordView {
        ChordView::stacked_on(root, seq![0int, 3, 6, 9], "dim7"@)
    }
}

/// Notes in tone order: root, third, fifth, then the seventh where there is one.
#[derive(Debug, PartialEq)]
pub struct Chord {
    pub notes: Vec<Note>,
    pub symbol: Option<String>,
}

impl View for Chord {
    type V = ChordView;

    open spec fn view(&self) -> ChordView {
        ChordView {
            pitches: pitches(self.notes@),
            symbol: match self.symbol {
                Some(s) => Some(s@),
                None => None,
            },
        }
    }
}

impl Clone for Chord {
    fn clone(&self) -> (r: Chord)
        ensures
            r@ == self@,
            r.notes@ == self.notes@,
    {
        let mut notes: Vec<Note> = Vec::new();
        let mut i: usize = 0;
        while i < self.notes.len()
            invariant
                0 <= i <= self.notes.len(),
                notes@ == self.notes@.take(i as int),
            decreases self.notes.len() - i,
        {
            notes.push(self.notes[i]);
            proof {
                assert(self.notes@.take(i + 1) =~= self.notes@.take(i as int).push(
                    self.notes@[i as int],
                ));
            }
            i += 1;
        }
        proof {
            assert(self.notes@.take(i as int) =~= self.notes@);
        }
        let symbol = match &self.symbol {
            Some(s) => Some(s.clone()),
            None => None,
        };
        Chord { notes, symbol }
    }
}

/// The tone that the pitch class `p` is in a chord of these pitch classes: the
/// first of the four positions that holds it.
pub open spec fn tone_in(chord: Seq<int>, p: int) -> ChordTone {
    if chord.len() > 0 && chord[0] == p {
        ChordTone::Root
    } else if chord.len() > 1 && chord[1] == p {
        ChordTone::Third
    } else if chord.len() > 2 && chord[2] == p {
        ChordTone::Fifth
    } else if chord.len() > 3 && chord[3] == p {
        ChordTone::Seventh
    } else {
        ChordTone::NoChordTone
    }
}

/// The pitch class that a chord of these pitch classes has for a tone.
pub open spec fn pitch_of_tone(chord: Seq<int>, tone: ChordTone) -> Option<int> {
    if tone != ChordTone::NoChordTone && tone.position() < chord.len() {
        Some(chord[tone.position()])
    } else {
        None
    }
}

/// The ascending distance from the root of a chord to the note at `position`,
/// where the chord has both.
pub open spec fn above_root(chord: Seq<int>, position: int) -> Option<int> {
    if 0 < chord.len() && position < chord.len() {
        Some((chord[position] - chord[0]) % 12)
    } else {
        None
    }
}

/// The symbol that the intervals above the root give a chord.
pub open spec fn derived_symbol(chord: Seq<int>) -> Seq<char> {
    (if above_root(chord, 1) == Some(3int) {
        seq!['m']
    } else {
        Seq::empty()
    }) + (if above_root(chord, 3) == Some(10int) {
        seq!['7']
    } else {
        Seq::empty()
    }) + (if above_root(chord, 2) == Some(6int) {
        seq!['♭', '5']
    } else {
        Seq::empty()
    }) + (if above_root(chord, 3) == Some(11int) {
        seq!['m', 'a', 'j', '7']
    } else {
        Seq::empty()
    })
}

/// The first position at which a row of notes holds `note`, in any octave.
pub fn position_of(notes: &Vec<Note>, note: Note) -> (r: Option<usize>)
    ensures
        match r {
            Some(i) => i < notes.len() && notes[i as int].pitch() == note.pitch()
                && forall|j: int| 0 <= j < i ==> notes[j].pitch() != note.pitch(),
            None => forall|j: int| 0 <= j < notes.len() ==> notes[j].pitch() != note.pitch(),
        },
{
    let mut i: usize = 0;
    while i < notes.len()
        invariant
            0 <= i <= notes.len(),
            forall|j: int| 0 <= j < i ==> notes[j].pitch() != note.pitch(),
        decreases notes.len() - i,
    {
        if notes[i] == note {
            return Some(i);
        }
        i += 1;
    }
    None
}

impl Chord {
    pub open spec fn spec_symbol(self) -> Seq<char> {
        match self@.symbol {
            Some(s) => s,
            None => derived_symbol(self@.pitches),
        }
    }

    /// A chord of these notes, without a symbol of its own.
    pub fn new(notes: Vec<Note>) -> (r: Chord)
        ensures
            r.notes == notes,
            r.symbol is None,
    {
        Chord { notes, symbol: None }
    }

    pub fn has_seventh(&self) -> (r: bool)
        ensures
            r == (self@.pitches.len() > 3),
    {
        self.notes.len() > 3
    }

    pub fn spell(&self, spelling: Spelling) -> (r: WrittenChord)
        ensures
            r@ == spelled(self@.pitches, spelling),
    {
        match spelling {
            Spelling::Sharp => self.sharp(),
            Spelling::Flat => self.flat(),
        }
    }

    pub fn flat(&self) -> (r: WrittenChord)
        ensures
            r@ == spelled(self@.pitches, Spelling::Flat),
    {
        WrittenChord { notes: write_notes(&self.notes, Spelling::Flat) }
    }

    pub fn sharp(&self) -> (r: WrittenChord)
        ensures
            r@ == spelled(self@.pitches, Spelling::Sharp),
    {
        WrittenChord { notes: write_notes(&self.notes, Spelling::Sharp) }
    }

    /// The spelling in which each tone of the chord gets a letter of its own, a
    /// third above the one before: the sharp one where it is so spelled, else the
    /// flat one, and neither where both repeat or skip a letter.
    pub fn auto_spell(&self) -> (r: Option<WrittenChord>)
        ensures
            match r {
                Some(w) => if stacked_in_thirds(spelled(self@.pitches, Spelling::Sharp)) {
                    w@ == spelled(self@.pitches, Spelling::Sharp)
                } else {
                    stacked_in_thirds(spelled(self@.pitches, Spelling::Flat)) && w@ == spelled(
                        self@.pitches,
                        Spelling::Flat,
                    )
                },
                None => !stacked_in_thirds(spelled(self@.pitches, Spelling::Sharp))
                    && !stacked_in_thirds(spelled(self@.pitches, Spelling::Flat)),
            },
    {
        let sharp = self.sharp();
        if sharp.is_spelled_correctly() {
            return Some(sharp);
        }
        let flat = self.flat();
        if flat.is_spelled_correctly() {
            Some(flat)
        } else {
            None
        }
    }

    /// The tone that `note` is in this chord, in any octave.
    pub fn role(&self, note: Note) -> (r: ChordTone)
        ensures
            r == tone_in(self@.pitches, note.pitch()),
    {
        match position_of(&self.notes, note) {
            Some(index) => ChordTone::from_note_index(index),
            None => ChordTone::NoChordTone,
        }
    }

    /// The note that the chord has for a tone, if it has one.
    pub fn note(&self, chord_tone: ChordTone) -> (r: Option<Note>)
        ensures
            r is Some <==> pitch_of_tone(self@.pitches, chord_tone) is Some,
            r is Some ==> r->0 == self.notes[chord_tone.position()],
            r is Some ==> Some(r->0.pitch()) == pitch_of_tone(self@.pitches, chord_tone),
    {
        match chord_tone {
            ChordTone::NoChordTone => None,
            _ => {
                let index = chord_tone.to_note_index();
                if index < self.notes.len() {
                    Some(self.notes[index])
                } else {
                    None
                }
            },
        }
    }

    /// The interval from the root up to the note at `position`.
    fn interval_above_root(&self, position: usize) -> (r: Option<Interval>)
        ensures
            r is Some <==> above_root(self@.pitches, position as int) is Some,
            r is Some ==> r == Interval::spec_from_steps(
                above_root(self@.pitches, position as int)->0,
            ),
    {
        if 0 < self.notes.len() && position < self.notes.len() {
            Interval::find(self.notes[0], self.notes[position])
        } else {
            None
        }
    }

    /// The symbol the chord was given or, where it was given none, the one that
    /// its intervals spell out.
    pub fn symbol(&self) -> (r: Option<String>)
        ensures
            r is Some,
            r->0@ == self.spec_symbol(),
    {
        if let Some(given) = &self.symbol {
            return Some(given.clone());
        }
        let third = self.interval_above_root(1);
        let fifth = self.interval_above_root(2);
        let seventh = self.interval_above_root(3);
        let mut symbol = String::new();
        proof {
            reveal_strlit("m");
            reveal_strlit("7");
            reveal_strlit("♭5");
            reveal_strlit("maj7");
            assert("m"@ =~= seq!['m']);
            assert("7"@ =~= seq!['7']);
            assert("♭5"@ =~= seq!['♭', '5']);
            assert("maj7"@ =~= seq!['m', 'a', 'j', '7']);
        }
        if let Some(Interval::MinorThird) = third {
            symbol.append("m");
        }
        if let Some(Interval::MinorSeventh) = seventh {
            symbol.append("7");
        }
        if let Some(Interval::Tritone) = fifth {
            symbol.append("♭5");
        }
        if let Some(Interval::MajorSeventh) = seventh {
            symbol.append("maj7");
        }
        assert(symbol@ =~= derived_symbol(self@.pitches));
        Some(symbol)
    }

    pub fn spell_symbol(&self, spelling: Spelling) -> (r: String)
        requires
            self@.pitches.len() > 0,
        ensures
            r@ == spelling_of(self@.pitches[0], spelling).spec_text() + self.spec_symbol(),
    {
        match spelling {
            Spelling::Sharp => self.sharp_symbol(),
            Spelling::Flat => self.flat_symbol(),
        }
    }

    /// The flat spelling of the root, followed by the symbol.
    pub fn flat_symbol(&self) -> (r: String)
        requires
            self@.pitches.len() > 0,
        ensures
            r@ == spelling_of(self@.pitches[0], Spelling::Flat).spec_text() + self.spec_symbol(),
    {
        let root = self.notes[0].flat().text();
        match self.symbol() {
            Some(symbol) => root.concat(symbol.as_str()),
            None => root,
        }
    }

    /// The sharp spelling of the root, followed by the symbol.
    pub fn sharp_symbol(&self) -> (r: String)
        requires
            self@.pitches.len() > 0,
        ensures
            r@ == spelling_of(self@.pitches[0], Spelling::Sharp).spec_text() + self.spec_symbol(),
    {
        let root = self.notes[0].sharp().text();
        match self.symbol() {
            Some(symbol) => root.concat(symbol.as_str()),
            None => root,
        }
    }
}

/// Whether the written note at `i` has the letter a third above the one before it.
pub open spec fn third_above_previous(notes: Seq<WrittenNote>, i: int) -> bool {
    notes[i].name.letter() == (notes[i - 1].name.letter() + 2) % 7
}

/// Whether each written note but the first has the letter a third above the one
/// before it, and there is a first.
pub open spec fn stacked_in_thirds(notes: Seq<WrittenNote>) -> bool {
    notes.len() > 0 && forall|i: int|
        0 < i < notes.len() ==> #[trigger] third_above_previous(notes, i)
}

/// A chord as it is written: its notes in one spelling.
pub struct WrittenChord {
    notes: Vec<WrittenNote>,
}

impl View for WrittenChord {
    type V = Seq<WrittenNote>;

    closed spec fn view(&self) -> Seq<WrittenNote> {
        self.notes@
    }
}

impl WrittenChord {
    pub fn root(&self) -> (r: WrittenNote)
        requires
            self@.len() > 0,
        ensures
            r == self@[0],
    {
        self.notes[0]
    }

    /// Whether the letters of the written chord climb in thirds from the root's.
    pub fn is_spelled_correctly(&self) -> (r: bool)
        ensures
            r == stacked_in_thirds(self@),
    {
        if self.notes.len() == 0 {
            return false;
        }
        let mut i: usize = 1;
        while i < self.notes.len()
            invariant
                1 <= i <= self.notes.len(),
                forall|j: int| 0 < j < i ==> #[trigger] third_above_previous(self.notes@, j),
            decreases self.notes.len() - i,
        {
            let expected = self.notes[i - 1].name.spell_next();
            if self.notes[i].name != expected {
                assert(!third_above_previous(self.notes@, i as int));
                return false;
            }
            assert(third_above_previous(self.notes@, i as int));
            i += 1;
        }
        true
    }

    /// The notes of the chord, each followed by a blank.
    pub fn text(&self) -> (r: String)
        ensures
            r@ == crate::form::note::spaced_text(self@),
    {
        notes_text(&self.notes)
    }
}

/// Looking up the note a chord has for a tone, and then the tone of that note,
/// gives the tone back, as long as no earlier note of the chord has the same
/// pitch class.
pub proof fn tone_round_trip(chord: Seq<int>, tone: ChordTone)
    requires
        pitch_of_tone(chord, tone) is Some,
        forall|j: int| 0 <= j < tone.position() ==> #[trigger] chord[j] != chord[tone.position()],
    ensures
        tone_in(chord, pitch_of_tone(chord, tone)->0) == tone,
{
}

} // verus!
