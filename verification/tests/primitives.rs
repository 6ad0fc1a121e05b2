use walkanalysis::form::chord::{position_of, Chord, ChordTone};
use walkanalysis::form::interval::Interval;
use walkanalysis::form::key::{Degree, Key, Quality};
use walkanalysis::form::note::{
    notes_text, write_notes, Accidental, Note, NoteName, Spelling, WrittenNote, A, A_FLAT,
    A_SHARP, B, B_FLAT, B_SHARP, C, C_FLAT, C_SHARP, D, D_FLAT, D_SHARP, E, E_FLAT, E_SHARP, F,
    F_FLAT, F_SHARP, G, G_FLAT, G_SHARP,
};

#[test]
fn notes_are_equal_in_every_octave() {
    for index in -30..30 {
        for octaves in -5..5 {
            assert!(Note::from(index) == Note::from(index + 12 * octaves));
            assert!(Note::from(index) != Note::from(index + 12 * octaves + 1));
        }
    }
    assert!(A_FLAT() == G_SHARP());
    assert!(B_SHARP() == C());
    assert!(C_FLAT() == B());
    assert!(E_SHARP() == F());
    assert!(F_FLAT() == E());
    assert!(A_SHARP() == B_FLAT());
    assert!(C_SHARP() == D_FLAT());
    assert!(D_SHARP() == E_FLAT());
    assert!(F_SHARP() == G_FLAT());
    assert!(Note::from(i32::MAX) == Note::from(i32::MAX - 12));
    assert!(Note::from(i32::MIN) == Note::from(i32::MIN + 12));
}

#[test]
fn the_index_of_a_note() {
    assert_eq!(A().index(), 0);
    assert_eq!(A_FLAT().index(), -1);
    assert_eq!(G_SHARP().index(), 11);
    assert_eq!(C().index(), 3);
    assert_eq!(Note::new(NoteName::D, Accidental::Sharp).index(), 6);
    assert_eq!(Note::from(-2).index(), 10);
    assert_eq!(Note::from(25).index(), 1);
    assert_eq!(Accidental::Natural.value(), 0);
    assert_eq!(Accidental::Sharp.value(), 1);
    assert_eq!(Accidental::Flat.value(), -1);
}

#[test]
fn steps_wrap_around_the_octave() {
    assert_eq!(A().add_steps(13).index(), 1);
    assert_eq!(A().add_steps(-1).index(), 11);
    assert_eq!(G().add_steps(i32::MAX).index(), (10 + i32::MAX as i64).rem_euclid(12) as i32);
    assert_eq!(A_FLAT().add_steps(i32::MIN).index(), (-1 + i32::MIN as i64).rem_euclid(12) as i32);
    assert!(C().add_interval(Interval::PerfectFifth) == G());
    assert!(C().add_interval(Interval::Octave) == C());
    assert!(B().add_interval(Interval::MinorSecond) == C());
}

#[test]
fn spellings() {
    let sharp: Vec<String> = (0..12).map(|n| Note::from(n).sharp().text()).collect();
    assert_eq!(sharp, ["A", "A♯", "B", "C", "C♯", "D", "D♯", "E", "F", "F♯", "G", "G♯"]);
    let flat: Vec<String> = (0..12).map(|n| Note::from(n).flat().text()).collect();
    assert_eq!(flat, ["A", "B♭", "B", "C", "D♭", "D", "E♭", "E", "F", "G♭", "G", "A♭"]);
    for n in -24..24 {
        let note = Note::from(n);
        assert_eq!(note.spell(Spelling::Sharp), note.sharp());
        assert_eq!(note.spell(Spelling::Flat), note.flat());
        assert!(note.sharp().unwrite() == note);
        assert!(note.flat().unwrite() == note);
    }
    assert_eq!(
        A_FLAT().sharp(),
        WrittenNote { name: NoteName::G, accidental: Accidental::Sharp }
    );
    assert_eq!(Spelling::Sharp.text(), "♯");
    assert_eq!(Spelling::Flat.text(), "♭");
    assert_eq!(NoteName::F.text(), "F");
    assert_eq!(Accidental::Natural.text(), "");
    assert_eq!(NoteName::G.spell_next(), NoteName::B);
    assert_eq!(NoteName::A.spell_next(), NoteName::C);
    assert_eq!(NoteName::F.spell_next(), NoteName::A);
    let row = write_notes(&vec![C(), E_FLAT(), G()], Spelling::Flat);
    assert_eq!(notes_text(&row), "C E♭ G ");
    assert_eq!(notes_text(&vec![]), "");
}

#[test]
fn intervals_by_name_and_distance() {
    let all = [
        Interval::Unison,
        Interval::MinorSecond,
        Interval::MajorSecond,
        Interval::MinorThird,
        Interval::MajorThird,
        Interval::PerfectFourth,
        Interval::AugmentedFourth,
        Interval::Tritone,
        Interval::DiminishedFifth,
        Interval::PerfectFifth,
        Interval::MinorSixth,
        Interval::MajorSixth,
        Interval::MinorSeventh,
        Interval::MajorSeventh,
        Interval::Octave,
    ];
    for interval in all {
        let again = Interval::from_steps(interval.steps()).unwrap();
        assert_eq!(again.steps(), interval.steps());
    }
    assert_eq!(Interval::AugmentedFourth.steps(), 6);
    assert_eq!(Interval::DiminishedFifth.steps(), 6);
    assert_eq!(Interval::from_steps(6), Some(Interval::Tritone));
    assert_eq!(Interval::from_steps(12), Some(Interval::Octave));
    assert_eq!(Interval::from_steps(13), None);
    assert_eq!(Interval::from_steps(-1), None);
    assert_eq!(Interval::find(C(), G()), Some(Interval::PerfectFifth));
    assert_eq!(Interval::find(G(), C()), Some(Interval::PerfectFourth));
    assert_eq!(Interval::find(C(), C()), Some(Interval::Unison));
    assert_eq!(Interval::find(A_FLAT(), A()), Some(Interval::MinorSecond));
    assert_eq!(Interval::find(A(), A_FLAT()), Some(Interval::MajorSeventh));
    assert_eq!(Interval::find(Note::from(-13), Note::from(30)), Some(Interval::PerfectFifth));
}

#[test]
fn chords_are_stacked_on_their_root() {
    let tones = |chord: &Chord| -> Vec<i32> { chord.notes.iter().map(|n| n.index()).collect() };
    assert_eq!(tones(&C().min()), [3, 6, 10]);
    assert_eq!(tones(&C().maj()), [3, 7, 10]);
    assert_eq!(tones(&C().maj7()), [3, 7, 10, 2]);
    assert_eq!(tones(&C().min7()), [3, 6, 10, 1]);
    assert_eq!(tones(&C().dominant7()), [3, 7, 10, 1]);
    assert_eq!(tones(&C().dim()), [3, 6, 9]);
    assert_eq!(tones(&C().m7b5()), [3, 6, 9, 1]);
    assert_eq!(tones(&C().dim7()), [3, 6, 9, 0]);
    assert_eq!(tones(&A_FLAT().maj()), [-1, 3, 6]);
    let symbols: Vec<String> = [
        C().min(),
        C().maj(),
        C().maj7(),
        C().min7(),
        C().dominant7(),
        C().dim(),
        C().m7b5(),
        C().dim7(),
    ]
    .iter()
    .map(|chord| chord.symbol().unwrap())
    .collect();
    assert_eq!(symbols, ["m", "maj", "maj7", "min7", "7", "dim", "m7b5", "dim7"]);
}

#[test]
fn tone_and_note_of_a_chord_are_inverse() {
    let tones = [ChordTone::Root, ChordTone::Third, ChordTone::Fifth, ChordTone::Seventh];
    for root in 0..12 {
        let root = Note::from(root);
        for chord in [
            root.min(),
            root.maj(),
            root.maj7(),
            root.min7(),
            root.dominant7(),
            root.dim(),
            root.m7b5(),
            root.dim7(),
        ] {
            for tone in tones {
                match chord.note(tone) {
                    Some(note) => assert_eq!(chord.role(note), tone),
                    None => {
                        assert_eq!(tone, ChordTone::Seventh);
                        assert!(!chord.has_seventh());
                    }
                }
            }
            assert_eq!(chord.note(ChordTone::NoChordTone), None);
        }
    }
    // Where a chord holds a note twice, the note has the role of its first place.
    let doubled = Chord::new(vec![C(), E(), C()]);
    assert_eq!(doubled.note(ChordTone::Fifth), Some(C()));
    assert_eq!(doubled.role(C()), ChordTone::Root);
    let long = Chord::new(vec![C(), E(), G(), B(), D()]);
    assert_eq!(long.role(D()), ChordTone::NoChordTone);
    assert_eq!(long.role(F()), ChordTone::NoChordTone);
    assert_eq!(position_of(&long.notes, D()), Some(4));
    assert_eq!(position_of(&long.notes, F()), None);
    assert_eq!(ChordTone::from_note_index(2), ChordTone::Fifth);
    assert_eq!(ChordTone::from_note_index(4), ChordTone::NoChordTone);
    assert_eq!(ChordTone::Seventh.to_note_index(), 3);
    assert_eq!(ChordTone::NoChordTone.to_note_index(), 99);
    assert_eq!(ChordTone::NoChordTone.text(), "Not a chord tone");
    assert_eq!(ChordTone::Third.text(), "Third");
}

#[test]
fn symbols_from_intervals() {
    let symbol = |notes: Vec<Note>| Chord::new(notes).symbol().unwrap();
    assert_eq!(symbol(vec![C(), E_FLAT(), G()]), "m");
    assert_eq!(symbol(vec![C(), E(), G()]), "");
    assert_eq!(symbol(vec![C(), E(), G(), B_FLAT()]), "7");
    assert_eq!(symbol(vec![C(), E(), G(), B()]), "maj7");
    assert_eq!(symbol(vec![C(), E_FLAT(), G_FLAT(), B_FLAT()]), "m7♭5");
    assert_eq!(symbol(vec![C(), E_FLAT(), G(), B()]), "mmaj7");
    assert_eq!(symbol(vec![]), "");
    assert_eq!(Chord::new(vec![D(), F(), A()]).flat_symbol(), "Dm");
    assert_eq!(Chord::new(vec![D_FLAT(), F(), A_FLAT()]).sharp_symbol(), "C♯");
    assert_eq!(E_FLAT().maj7().spell_symbol(Spelling::Flat), "E♭maj7");
    assert_eq!(E_FLAT().maj7().spell_symbol(Spelling::Sharp), "D♯maj7");
}

#[test]
fn spelling_a_chord() {
    assert_eq!(C().maj().spell(Spelling::Flat).text(), "C E G ");
    assert_eq!(A_FLAT().maj().spell(Spelling::Sharp).text(), "G♯ C D♯ ");
    assert_eq!(A_FLAT().maj().sharp().root().text(), "G♯");
    assert!(C().maj().sharp().is_spelled_correctly());
    assert!(!A_FLAT().maj().sharp().is_spelled_correctly());
    assert!(A_FLAT().maj().flat().is_spelled_correctly());
    assert!(!Chord::new(vec![]).sharp().is_spelled_correctly());
    assert!(Chord::new(vec![]).auto_spell().is_none());
    // C, D and E lie a second apart in both spellings.
    assert!(Chord::new(vec![C(), D(), E()]).auto_spell().is_none());
    assert_eq!(G_FLAT().maj().auto_spell().unwrap().text(), "F♯ A♯ C♯ ");
    assert_eq!(F().min().auto_spell().unwrap().text(), "F A♭ C ");
}

#[test]
fn every_key_has_seven_degrees() {
    let degrees = [
        Degree::First,
        Degree::Second,
        Degree::Third,
        Degree::Fourth,
        Degree::Fifth,
        Degree::Sixth,
        Degree::Seventh,
    ];
    for root in 0..12 {
        for quality in [Quality::Major, Quality::Minor] {
            let key = Key::new(Note::from(root), quality);
            let scale = key.scale();
            assert_eq!(scale.notes.len(), 7);
            for i in 0..7 {
                for j in 0..i {
                    assert!(scale.notes[i] != scale.notes[j]);
                }
                assert_eq!(key.role(scale.notes[i]), degrees[i]);
            }
            let mut chromatic = 0;
            for n in 0..12 {
                let note = Note::from(n);
                let in_scale = scale.notes.iter().any(|member| *member == note);
                assert_eq!(key.role(note) == Degree::Chromatic, !in_scale);
                if !in_scale {
                    chromatic += 1;
                }
            }
            assert_eq!(chromatic, 5);
        }
    }
    assert_eq!(Degree::from_note_index(0), Degree::First);
    assert_eq!(Degree::from_note_index(6), Degree::Seventh);
    assert_eq!(Degree::from_note_index(7), Degree::Chromatic);
}

#[test]
fn keys_as_text() {
    let g_minor = Key::new(G(), Quality::Minor);
    assert_eq!(g_minor.text(), "G/G Minor");
    assert_eq!(Key::new(B_FLAT(), Quality::Major).text(), "A♯/B♭ Major");
    assert_eq!(g_minor.flat().text(), "Gm");
    assert_eq!(Key::new(B_FLAT(), Quality::Major).flat().text(), "B♭");
    assert_eq!(Key::new(B_FLAT(), Quality::Major).sharp().text(), "A♯");
    assert_eq!(g_minor.spell(Spelling::Sharp), g_minor.sharp());
    assert_eq!(g_minor.spell(Spelling::Flat), g_minor.flat());
    assert!(g_minor.flat().unwrite() == g_minor);
    assert_eq!(Quality::Minor.short_name(), "m");
    assert_eq!(Quality::Major.short_name(), "");
    assert_eq!(Quality::Major.text(), "Major");
    assert_eq!(g_minor.scale().spell(Spelling::Flat).text(), "G A B♭ C D E♭ F ");
}

#[test]
fn spelling_a_key_prefers_few_accidentals() {
    let prefers = |note: Note, quality: Quality, flat: bool| {
        let key = Key::new(note, quality);
        let written = if flat { key.flat() } else { key.sharp() };
        written.spell_preference()
    };
    assert_eq!(prefers(B_FLAT(), Quality::Major, true), Spelling::Flat);
    assert_eq!(prefers(B_FLAT(), Quality::Major, false), Spelling::Sharp);
    assert_eq!(prefers(F(), Quality::Major, false), Spelling::Flat);
    for note in [A(), B(), C(), D(), E(), G()] {
        assert_eq!(prefers(note, Quality::Major, true), Spelling::Sharp);
    }
    for note in [A(), B(), E()] {
        assert_eq!(prefers(note, Quality::Minor, true), Spelling::Sharp);
    }
    for note in [C(), D(), F(), G()] {
        assert_eq!(prefers(note, Quality::Minor, false), Spelling::Flat);
    }
}
