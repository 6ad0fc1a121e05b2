//! Keys, and the degree a note has in one.

use vstd::prelude::*;
use vstd::string::StringExecFns;
use crate::form::chord::position_of;
use crate::form::interval::Interval;
use crate::form::note::{
    pitches, spelling_of, stacked, Accidental, Note, NoteName, Spelling, WrittenNote,
};
use crate::form::scale::Scale;

verus! {

#[derive(Debug, Clone, Copy, PartialEq, Eq, Structural)]
pub enum Quality {
    Major,
    Minor,
}

impl Quality {
    /// The semitones above the root at which the seven degrees of the scale lie.
    pub open spec fn scale_steps(self) -> Seq<int> {
        match self {
            Quality::Major => seq![0int, 2, 4, 5, 7, 9, 11],
            Quality::Minor => seq![0int, 2, 3, 5, 7, 8, 10],
        }
    }

    pub open spec fn spec_short_name(self) -> Seq<char> {
        match self {
            Quality::Major => Seq::empty(),
            Quality::Minor => seq!['m'],
        }
    }

    pub open spec fn spec_text(self) -> Seq<char> {
        match self {
            Quality::Major => "Major"@,
            Quality::Minor => "Minor"@,
        }
    }

    /// What a key signature appends to the root: nothing for major, `m` for minor.
    pub fn short_name(&self) -> (r: &'static str)
        ensures
            r@ == self.spec_short_name(),
    {
        proof {
            reveal_strlit("");
            reveal_strlit("m");
        }
        let s = match self {
            Quality::Major => "",
            Quality::Minor => "m",
        };
        assert(s@ =~= self.spec_short_name());
        s
    }

    /// The quality in full.
    pub fn text(&self) -> (r: String)
        ensures
            r@ == self.spec_text(),
    {
        match self {
            Quality::Major => String::from_str("Major"),
            Quality::Minor => String::from_str("Minor"),
        }
    }
}

/// The place of a note in the scale of a key.
#[derive(Debug, Clone, Copy, PartialEq, Eq, Structural)]
pub enum Degree {
    First,
    Second,
    Third,
    Fourth,
    Fifth,
    Sixth,
    Seventh,
    Chromatic,
}

impl Degree {
    /// The degree that stands at a position of a scale.
    pub open spec fn at(index: int) -> Degree {
        if index == 0 {
            Degree::First
        } else if index == 1 {
            Degree::Second
        } else if index == 2 {
            Degree::Third
        } else if index == 3 {
            Degree::Fourth
        } else if index == 4 {
            Degree::Fifth
        } else if index == 5 {
            Degree::Sixth
        } else if index == 6 {
            Degree::Seventh
        } else {
            Degree::Chromatic
        }
    }

    /// The word for the degree.
    pub open spec fn spec_name(self) -> Seq<char> {
        match self {
            Degree::First => "First"@,
            Degree::Second => "Second"@,
            Degree::Third => "Third"@,
            Degree::Fourth => "Fourth"@,
            Degree::Fifth => "Fifth"@,
            Degree::Sixth => "Sixth"@,
            Degree::Seventh => "Seventh"@,
            Degree::Chromatic => "Chromatic"@,
        }
    }

    pub fn name(&self) -> (r: &'static str)
        ensures
            r@ == self.spec_name(),
    {
        match self {
            Degree::First => "First",
            Degree::Second => "Second",
            Degree::Third => "Third",
            Degree::Fourth => "Fourth",
            Degree::Fifth => "Fifth",
            Degree::Sixth => "Sixth",
            Degree::Seventh => "Seventh",
            Degree::Chromatic => "Chromatic",
        }
    }

    pub fn from_note_index(index: usize) -> (r: Degree)
        ensures
            r == Degree::at(index as int),
    {
        match index {
            0 => Degree::First,
            1 => Degree::Second,
            2 => Degree::Third,
            3 => Degree::Fourth,
            4 => Degree::Fifth,
            5 => Degree::Sixth,
            6 => Degree::Seventh,
            _ => Degree::Chromatic,
        }
    }
}

/// What a key is: the pitch class of its root, and its quality.
pub struct KeyView {
    pub root: int,
    pub quality: Quality,
}

impl KeyView {
    /// The pitch classes of the seven degrees, in order.
    pub open spec fn scale(self) -> Seq<int> {
        stacked(self.root, self.quality.scale_steps())
    }

    /// The degree of a pitch class: the position of the scale that holds it, or
    /// `Chromatic` where none does.
    pub open spec fn degree_of(self, p: int) -> Degree {
        let scale = self.scale();
        if scale[0] == p {
            Degree::First
        } else if scale[1] == p {
            Degree::Second
        } else if scale[2] == p {
            Degree::Third
        } else if scale[3] == p {
            Degree::Fourth
        } else if scale[4] == p {
            Degree::Fifth
        } else if scale[5] == p {
            Degree::Sixth
        } else if scale[6] == p {
            Degree::Seventh
        } else {
            Degree::Chromatic
        }
    }
}

#[derive(Debug, Clone, Copy, PartialEq)]
pub struct Key {
    root: Note,
    quality: Quality,
}

impl View for Key {
    type V = KeyView;

    closed spec fn view(&self) -> KeyView {
        KeyView { root: self.root.pitch(), quality: self.quality }
    }
}

impl Key {
    pub fn new(root: Note, quality: Quality) -> (r: Key)
        ensures
            r@ == (KeyView { root: root.pitch(), quality }),
    {
        Self { root, quality }
    }

    pub fn root(&self) -> (r: Note)
        ensures
            r.pitch() == self@.root,
    {
        self.root
    }

    pub fn quality(&self) -> (r: Quality)
        ensures
            r == self@.quality,
    {
        self.quality
    }

    /// The seven notes of the key, from the root upwards.
    pub fn scale(&self) -> (r: Scale)
        ensures
            pitches(r.notes@) == self@.scale(),
            r.notes@.len() == 7,
    {
        let notes = match self.quality {
            Quality::Major => vec![
                self.root,
                self.root.add_interval(Interval::MajorSecond),
                self.root.add_interval(Interval::MajorThird),
                self.root.add_interval(Interval::PerfectFourth),
                self.root.add_interval(Interval::PerfectFifth),
                self.root.add_interval(Interval::MajorSixth),
                self.root.add_interval(Interval::MajorSeventh),
            ],
            Quality::Minor => vec![
                self.root,
                self.root.add_interval(Interval::MajorSecond),
                self.root.add_interval(Interval::MinorThird),
                self.root.add_interval(Interval::PerfectFourth),
                self.root.add_interval(Interval::PerfectFifth),
                self.root.add_interval(Interval::MinorSixth),
                self.root.add_interval(Interval::MinorSeventh),
            ],
        };
        assert(pitches(notes@) =~= self@.scale());
        Scale { notes }
    }

    /// The degree that `note` has in the key, in any octave.
    pub fn role(&self, note: Note) -> (r: Degree)
        ensures
            r == self@.degree_of(note.pitch()),
    {
        let scale = self.scale();
        assert(forall|j: int| 0 <= j < 7 ==> scale.notes@[j].pitch() == pitches(scale.notes@)[j]);
        match position_of(&scale.notes, note) {
            Some(index) => Degree::from_note_index(index),
            None => Degree::Chromatic,
        }
    }

    pub fn spell(&self, spelling: Spelling) -> (r: WrittenKey)
        ensures
            r.spec_root() == spelling_of(self@.root, spelling),
            r.spec_quality() == self@.quality,
    {
        match spelling {
            Spelling::Sharp => self.sharp(),
            Spelling::Flat => self.flat(),
        }
    }

    pub fn flat(&self) -> (r: WrittenKey)
        ensures
            r.spec_root() == spelling_of(self@.root, Spelling::Flat),
            r.spec_quality() == self@.quality,
    {
        WrittenKey { root: self.root.flat(), quality: self.quality }
    }

    pub fn sharp(&self) -> (r: WrittenKey)
        ensures
            r.spec_root() == spelling_of(self@.root, Spelling::Sharp),
            r.spec_quality() == self@.quality,
    {
        WrittenKey { root: self.root.sharp(), quality: self.quality }
    }

    /// Both spellings of the root with a stroke between them, a blank, and the
    /// quality in full.
    pub open spec fn spec_text(self) -> Seq<char> {
        spelling_of(self@.root, Spelling::Sharp).spec_text() + seq!['/'] + spelling_of(
            self@.root,
            Spelling::Flat,
        ).spec_text() + seq![' '] + self@.quality.spec_text()
    }

    pub fn text(&self) -> (r: String)
        ensures
            r@ == self.spec_text(),
    {
        proof {
            reveal_strlit("/");
            reveal_strlit(" ");
            assert("/"@ =~= seq!['/']);
            assert(" "@ =~= seq![' ']);
        }
        let mut text = self.root.sharp().text();
        text.append("/");
        let flat = self.root.flat().text();
        text.append(flat.as_str());
        text.append(" ");
        let quality = self.quality.text();
        text.append(quality.as_str());
        text
    }
}

/// A key as it is written: the root in one spelling, and the quality.
#[derive(Debug, Clone, Copy, PartialEq, Eq, Structural)]
pub struct WrittenKey {
    root: WrittenNote,
    quality: Quality,
}

impl WrittenKey {
    pub closed spec fn spec_root(self) -> WrittenNote {
        self.root
    }

    pub closed spec fn spec_quality(self) -> Quality {
        self.quality
    }

    pub fn new(root: WrittenNote, quality: Quality) -> (r: WrittenKey)
        ensures
            r.spec_root() == root,
            r.spec_quality() == quality,
    {
        WrittenKey { root, quality }
    }

    pub fn root(&self) -> (r: WrittenNote)
        ensures
            r == self.spec_root(),
    {
        self.root
    }

    pub fn quality(&self) -> (r: Quality)
        ensures
            r == self.spec_quality(),
    {
        self.quality
    }

    /// The spelling in which the key signature has the fewest accidentals.
    pub open spec fn preferred_spelling(self) -> Spelling {
        match self.spec_root().accidental {
            Accidental::Sharp => Spelling::Sharp,
            Accidental::Flat => Spelling::Flat,
            Accidental::Natural => match self.spec_quality() {
                Quality::Major => if self.spec_root().name == NoteName::F {
                    Spelling::Flat
                } else {
                    Spelling::Sharp
                },
                Quality::Minor => if self.spec_root().name == NoteName::A || self.spec_root().name
                    == NoteName::B || self.spec_root().name == NoteName::E {
                    Spelling::Sharp
                } else {
                    Spelling::Flat
                },
            },
        }
    }

    /// A root written with an accidental decides; of the natural roots, F major and
    /// C, D, F and G minor are flat keys and the others sharp ones.
    pub fn spell_preference(&self) -> (r: Spelling)
        ensures
            r == self.preferred_spelling(),
    {
        match self.root.accidental {
            Accidental::Natural => (),
            Accidental::Sharp => return Spelling::Sharp,
            Accidental::Flat => return Spelling::Flat,
        }
        match self.quality {
            Quality::Major => match self.root.name {
                NoteName::A
                | NoteName::B
                | NoteName::C
                | NoteName::D
                | NoteName::E
                | NoteName::G => Spelling::Sharp,
                NoteName::F => Spelling::Flat,
            },
            Quality::Minor => match self.root.name {
                NoteName::A | NoteName::B | NoteName::E => Spelling::Sharp,
                NoteName::D | NoteName::C | NoteName::F | NoteName::G => Spelling::Flat,
            },
        }
    }

    /// The key that is written here.
    pub fn unwrite(&self) -> (r: Key)
        ensures
            r@ == (KeyView { root: self.spec_root().pitch(), quality: self.spec_quality() }),
    {
        Key { root: self.root.unwrite(), quality: self.quality }
    }

    /// The root, followed by `m` where the key is minor.
    pub fn text(&self) -> (r: String)
        ensures
            r@ == self.spec_root().spec_text() + self.spec_quality().spec_short_name(),
    {
        self.root.text().concat(self.quality.short_name())
    }
}

/// The scale of a key has seven pitch classes, no two of them the same.
pub proof fn scale_is_seven_distinct(key: KeyView)
    ensures
        key.scale().len() == 7,
        forall|i: int, j: int| 0 <= i < j < 7 ==> key.scale()[i] != key.scale()[j],
{
}

/// A pitch class is chromatic in a key exactly when the scale does not hold it,
/// and otherwise its degree names the one position at which the scale holds it.
pub proof fn degrees_match_scale(key: KeyView, p: int)
    ensures
        key.degree_of(p) == Degree::Chromatic <==> !key.scale().contains(p),
        forall|i: int| 0 <= i < 7 ==> (key.scale()[i] == p <==> key.degree_of(p) == Degree::at(i)),
{
    let scale = key.scale();
    assert(scale.len() == 7);
    if key.degree_of(p) != Degree::Chromatic {
        let i = choose|i: int| 0 <= i < 7 && scale[i] == p;
        assert(scale.contains(p));
    }
}

/// Every degree but `Chromatic` is the degree of exactly one member of the scale,
/// and each member of the scale has the degree of its position.
pub proof fn degrees_are_a_bijection(key: KeyView, i: int)
    requires
        0 <= i < 7,
    ensures
        key.degree_of(key.scale()[i]) == Degree::at(i),
        forall|j: int| 0 <= j < 7 && key.degree_of(key.scale()[j]) == Degree::at(i) ==> j == i,
{
}

/// A pitch class written in either spelling reads back as itself, so that a key
/// that is spelled and read back is the same key.
pub proof fn spelling_keeps_the_root(p: int, spelling: Spelling)
    requires
        0 <= p < 12,
    ensures
        spelling_of(p, spelling).pitch() == p,
{
}

} // verus!
