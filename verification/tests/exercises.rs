use std::collections::HashMap;
use walkanalysis::analysis::analysis::{Analysis, NoteAnalysis};
use walkanalysis::analysis::mistake::{Mistake, MistakeKind};
use walkanalysis::exercise::arpeggios_up::ArpeggiosUp;
use walkanalysis::exercise::chord_tones::ChordTones;
use walkanalysis::exercise::two_beat::{
    holds, two_beat, two_beat_fifths, two_beat_thirds, TwoBeat,
};
use walkanalysis::exercise::{common_mistakes, expect_tone, Exercise, Incompatible, Verdict};
use walkanalysis::exercises::ExerciseKind;
use walkanalysis::form::chord::{Chord, ChordTone};
use walkanalysis::form::form::{bar, half_bar, FormPiece};
use walkanalysis::form::key::{Degree, Key, Quality};
use walkanalysis::analysis::correction::Correction;
use walkanalysis::form::note::{Note, A, A_FLAT, B, B_FLAT, C, D, E, E_FLAT, F, G, G_FLAT};
use walkanalysis::text::{append_decimal, append_signed};

fn played(note: Note, chord: &Chord) -> NoteAnalysis {
    NoteAnalysis::Note {
        note,
        degree_in_key: Key::new(C(), Quality::Major).role(note),
        role_in_chord: chord.role(note),
    }
}

fn one_bar(chord: Chord, notes: [Note; 4]) -> Analysis {
    let mut beat_analysis = HashMap::new();
    let mut in_bar = Vec::new();
    for (beat, note) in notes.iter().enumerate() {
        let found = played(*note, &chord);
        beat_analysis.insert(beat as u32, (bar(chord.clone()), found));
        in_bar.push(found);
    }
    Analysis { beat_analysis, form_analysis: vec![(bar(chord), in_bar)] }
}

#[test]
fn arpeggio_of_a_triad_ends_on_the_root() {
    let right = one_bar(C().maj(), [C(), E(), G(), C()]);
    assert!(ArpeggiosUp {}.correct(&right).unwrap().mistakes.is_empty());
    let wrong = one_bar(C().maj(), [C(), E(), G(), B()]);
    let correction = ArpeggiosUp {}.correct(&wrong).unwrap();
    assert_eq!(correction.mistakes.len(), 1);
    assert_eq!(
        correction.mistakes.get(&3).unwrap().mistake,
        MistakeKind::WrongNote { played: B(), expected: C() }
    );
}

#[test]
fn arpeggio_judges_each_beat_of_the_bar() {
    let chord = C().maj7();
    assert_eq!(ArpeggiosUp::judge(4, C(), ChordTone::Root, &chord), Verdict::Correct);
    assert_eq!(ArpeggiosUp::judge(5, E(), ChordTone::Third, &chord), Verdict::Correct);
    assert_eq!(ArpeggiosUp::judge(6, G(), ChordTone::Fifth, &chord), Verdict::Correct);
    assert_eq!(ArpeggiosUp::judge(7, B(), ChordTone::Seventh, &chord), Verdict::Correct);
    assert_eq!(
        ArpeggiosUp::judge(5, G(), ChordTone::Fifth, &chord),
        Verdict::Wrong(MistakeKind::WrongNote { played: G(), expected: E() })
    );
    assert_eq!(
        ArpeggiosUp::judge(7, C(), ChordTone::Root, &chord),
        Verdict::Wrong(MistakeKind::WrongNote { played: C(), expected: B() })
    );
}

#[test]
fn arpeggio_over_a_chord_without_a_fifth_is_incompatible() {
    let power = Chord::new(vec![C(), E()]);
    let analysis = one_bar(power, [C(), E(), C(), C()]);
    assert_eq!(ArpeggiosUp {}.correct(&analysis).err(), Some(Incompatible { beat: 2 }));
    assert_eq!(
        ExerciseKind::ArpeggiosUp.correct(&analysis).err(),
        Some(Incompatible { beat: 2 })
    );
}

#[test]
fn chord_tones_names_a_note_of_the_chord() {
    let chord = C().maj7();
    let analysis = one_bar(C().maj7(), [C(), D(), E(), F()]);
    for _ in 0..50 {
        let correction = ChordTones {}.correct(&analysis).unwrap();
        assert_eq!(correction.amount_of_beats, 4);
        assert_eq!(correction.mistakes.len(), 2);
        for (beat, note) in [(1u32, D()), (3u32, F())] {
            let mistake = correction.mistakes.get(&beat).unwrap();
            assert_eq!(mistake.beat, beat);
            match mistake.mistake {
                MistakeKind::ExpectedChordTone {
                    played_chord_tone,
                    played_note,
                    expected_example,
                } => {
                    assert_eq!(played_chord_tone, ChordTone::NoChordTone);
                    assert_eq!(played_note, note);
                    assert!(chord.notes.contains(&expected_example));
                }
                other => panic!("unexpected mistake {:?}", other),
            }
        }
    }
}

#[test]
fn chord_tones_takes_the_example_it_is_given() {
    let chord = C().maj();
    assert_eq!(
        ChordTones::judge(1, D(), ChordTone::NoChordTone, &chord, Some(G())),
        Verdict::Wrong(MistakeKind::ExpectedChordTone {
            played_chord_tone: ChordTone::NoChordTone,
            played_note: D(),
            expected_example: G()
        })
    );
    assert_eq!(
        ChordTones::judge(1, D(), ChordTone::NoChordTone, &chord, None),
        Verdict::Incompatible
    );
    assert_eq!(ChordTones::judge(2, E(), ChordTone::Third, &chord, None), Verdict::Correct);
    assert_eq!(
        ChordTones::judge(0, E(), ChordTone::Third, &chord, None),
        Verdict::Wrong(MistakeKind::WrongNote { played: E(), expected: C() })
    );
    assert!(ChordTones::needs_example(3, ChordTone::NoChordTone));
    assert!(!ChordTones::needs_example(0, ChordTone::NoChordTone));
    assert!(!ChordTones::needs_example(3, ChordTone::Fifth));
}

#[test]
fn chord_tones_over_a_chord_without_notes_is_incompatible() {
    let analysis = one_bar(Chord::new(vec![]), [C(), C(), C(), C()]);
    assert_eq!(ChordTones {}.correct(&analysis).err(), Some(Incompatible { beat: 0 }));
}

#[test]
fn two_beat_names_an_allowed_tone_of_the_chord() {
    let analysis = one_bar(C().maj7(), [C(), D(), B(), F()]);
    for _ in 0..50 {
        let correction = two_beat().correct(&analysis).unwrap();
        assert_eq!(correction.mistakes.len(), 1);
        match correction.mistakes.get(&2).unwrap().mistake {
            MistakeKind::ExpectedChordTone { played_chord_tone, played_note, expected_example } => {
                assert_eq!(played_chord_tone, ChordTone::Seventh);
                assert_eq!(played_note, B());
                assert!(expected_example == E() || expected_example == G());
            }
            other => panic!("unexpected mistake {:?}", other),
        }
    }
    let thirds = two_beat_thirds().correct(&analysis).unwrap();
    assert_eq!(
        thirds.mistakes.get(&2).unwrap().mistake,
        MistakeKind::ExpectedChordTone {
            played_chord_tone: ChordTone::Seventh,
            played_note: B(),
            expected_example: E()
        }
    );
    let fifths = ExerciseKind::TwoBeatFifths.correct(&analysis).unwrap();
    assert_eq!(
        fifths.mistakes.get(&2).unwrap().mistake,
        MistakeKind::ExpectedChordTone {
            played_chord_tone: ChordTone::Seventh,
            played_note: B(),
            expected_example: G()
        }
    );
}

#[test]
fn two_beat_takes_the_pick_it_is_given() {
    let exercise = two_beat();
    let chord = C().maj();
    assert!(exercise.needs_pick(2, ChordTone::Root));
    assert!(!exercise.needs_pick(2, ChordTone::Fifth));
    assert!(!exercise.needs_pick(1, ChordTone::Root));
    assert_eq!(
        exercise.judge(2, C(), ChordTone::Root, &chord, Some(ChordTone::Fifth)),
        Verdict::Wrong(MistakeKind::ExpectedChordTone {
            played_chord_tone: ChordTone::Root,
            played_note: C(),
            expected_example: G()
        })
    );
    assert_eq!(
        exercise.judge(2, C(), ChordTone::Root, &chord, Some(ChordTone::Seventh)),
        Verdict::Incompatible
    );
    assert_eq!(exercise.judge(2, C(), ChordTone::Root, &chord, None), Verdict::Incompatible);
    assert_eq!(exercise.judge(3, D(), ChordTone::NoChordTone, &chord, None), Verdict::Correct);
    assert_eq!(
        exercise.judge(0, D(), ChordTone::NoChordTone, &chord, None),
        Verdict::Wrong(MistakeKind::WrongNote { played: D(), expected: C() })
    );
}

#[test]
fn two_beat_without_allowed_tones_is_incompatible() {
    let analysis = one_bar(C().maj7(), [C(), D(), B(), F()]);
    let mut nothing_allowed = TwoBeat { allowed_chord_tones_in_second_half: vec![] };
    assert_eq!(nothing_allowed.correct(&analysis).err(), Some(Incompatible { beat: 2 }));
    let mut sevenths = TwoBeat { allowed_chord_tones_in_second_half: vec![ChordTone::Seventh] };
    let triad = one_bar(C().maj(), [C(), D(), E(), F()]);
    assert_eq!(sevenths.correct(&triad).err(), Some(Incompatible { beat: 2 }));
}

#[test]
fn the_builders_allow_what_they_say() {
    assert_eq!(two_beat_thirds().allowed_chord_tones_in_second_half, vec![ChordTone::Third]);
    assert_eq!(two_beat_fifths().allowed_chord_tones_in_second_half, vec![ChordTone::Fifth]);
    assert_eq!(
        two_beat().allowed_chord_tones_in_second_half,
        vec![ChordTone::Third, ChordTone::Fifth]
    );
    assert!(holds(&vec![ChordTone::Third, ChordTone::Fifth], ChordTone::Fifth));
    assert!(!holds(&vec![ChordTone::Third, ChordTone::Fifth], ChordTone::Root));
}

#[test]
fn expected_tone_is_named_or_missing() {
    let chord = C().maj();
    assert_eq!(expect_tone(ChordTone::Fifth, G(), ChordTone::Fifth, &chord), Verdict::Correct);
    assert_eq!(
        expect_tone(ChordTone::Fifth, E(), ChordTone::Third, &chord),
        Verdict::Wrong(MistakeKind::WrongNote { played: E(), expected: G() })
    );
    assert_eq!(
        expect_tone(ChordTone::Seventh, E(), ChordTone::Third, &chord),
        Verdict::Incompatible
    );
}

#[test]
fn common_mistakes_of_every_exercise() {
    let chord = C().maj();
    let second = F().maj();
    let note = played(E(), &chord);
    let mut mistakes = HashMap::new();

    let key_piece = FormPiece::Key(Key::new(C(), Quality::Major));
    assert!(common_mistakes(&mut mistakes, 0, &key_piece, note).is_none());
    assert!(common_mistakes(&mut mistakes, 0, &FormPiece::LineBreak, note).is_none());
    assert!(common_mistakes(&mut mistakes, 0, &FormPiece::CountOff, NoteAnalysis::Silence)
        .is_none());
    assert!(mistakes.is_empty());

    let during = NoteAnalysis::NoteDuringSilence { note: E() };
    assert!(common_mistakes(&mut mistakes, 1, &FormPiece::CountOff, during).is_none());
    assert_eq!(
        mistakes.get(&1),
        Some(&Mistake { beat: 1, mistake: MistakeKind::ExpectedSilence { found: during } })
    );

    let piece = bar(chord.clone());
    assert!(common_mistakes(&mut mistakes, 2, &piece, NoteAnalysis::Silence).is_none());
    assert_eq!(
        mistakes.get(&2),
        Some(&Mistake {
            beat: 2,
            mistake: MistakeKind::ExpectedNote { found: NoteAnalysis::Silence }
        })
    );

    // A later check of the same beat takes the place of the earlier one.
    assert!(common_mistakes(&mut mistakes, 2, &piece, during).is_none());
    assert_eq!(
        mistakes.get(&2),
        Some(&Mistake { beat: 2, mistake: MistakeKind::ExpectedNote { found: during } })
    );
    assert_eq!(mistakes.len(), 2);

    let (found, degree, tone, held) = common_mistakes(&mut mistakes, 3, &piece, note).unwrap();
    assert_eq!((found, degree, tone), (E(), Degree::Third, ChordTone::Third));
    assert_eq!(*held, chord);
    assert_eq!(mistakes.len(), 2);

    let halves = half_bar(chord.clone(), second.clone());
    for (beat, expected) in [(4u32, &chord), (5, &chord), (6, &second), (7, &second)] {
        let (_, _, _, active) = common_mistakes(&mut mistakes, beat, &halves, note).unwrap();
        assert_eq!(active, expected);
    }
}

#[test]
fn explanations() {
    assert_eq!(
        ArpeggiosUp {}.explain(),
        "On every first beat, play the root of the chord. On every second beat the third, then the fifth, then the seventh. If the chord defines no seventh, play the root again."
    );
    assert_eq!(ChordTones {}.explain(), "Play the root on the 1, and any chord tone on any beat.");
    assert_eq!(
        two_beat_thirds().explain(),
        "Play two half notes per measure. The first half note must be the root. The second must be the Third"
    );
    assert_eq!(
        two_beat().explain(),
        "Play two half notes per measure. The first half note must be the root. The second must be either , Third, Fift"
    );
    assert_eq!(
        TwoBeat { allowed_chord_tones_in_second_half: vec![] }.explain(),
        "Play two half notes per measure. The first half note must be the root. The second must be either "
    );
    assert_eq!(ExerciseKind::TwoBeat.text(), "Two Beat, Any chord tone");
    assert_eq!(ExerciseKind::all().len(), 5);
}

#[test]
fn half_bar_changes_chord_in_the_middle() {
    let first = A().min7();
    let second = D().dominant7();
    let mut beat_analysis = HashMap::new();
    let notes = [A(), C(), D(), C()];
    for (beat, note) in notes.iter().enumerate() {
        let chord = if beat < 2 { &first } else { &second };
        beat_analysis
            .insert(beat as u32, (half_bar(first.clone(), second.clone()), played(*note, chord)));
    }
    let analysis = Analysis { beat_analysis, form_analysis: vec![] };
    let correction = ArpeggiosUp {}.correct(&analysis).unwrap();
    // Beat 3 asks for the fifth of D7, which is A; beat 4 for its seventh, which is C.
    assert_eq!(correction.mistakes.len(), 1);
    assert_eq!(
        correction.mistakes.get(&2).unwrap().mistake,
        MistakeKind::WrongNote { played: D(), expected: A() }
    );
    let _ = (B_FLAT(), E_FLAT(), G());
}

#[test]
fn mistakes_in_words() {
    let found = NoteAnalysis::Note {
        note: A_FLAT(),
        degree_in_key: Degree::Chromatic,
        role_in_chord: ChordTone::NoChordTone,
    };
    for analysis in [
        found,
        NoteAnalysis::Silence,
        NoteAnalysis::NoteDuringSilence { note: Note::from(7) },
        NoteAnalysis::Note {
            note: B(),
            degree_in_key: Degree::Seventh,
            role_in_chord: ChordTone::Seventh,
        },
    ] {
        assert_eq!(analysis.text(), format!("{:?}", analysis));
    }
    assert_eq!(
        found.text(),
        "Note { note: Note { index: -1 }, degree_in_key: Chromatic, role_in_chord: NoChordTone }"
    );
    for tone in [
        ChordTone::Root,
        ChordTone::Third,
        ChordTone::Fifth,
        ChordTone::Seventh,
        ChordTone::NoChordTone,
    ] {
        assert_eq!(tone.name(), format!("{:?}", tone));
    }
    for degree in [
        Degree::First,
        Degree::Second,
        Degree::Third,
        Degree::Fourth,
        Degree::Fifth,
        Degree::Sixth,
        Degree::Seventh,
        Degree::Chromatic,
    ] {
        assert_eq!(degree.name(), format!("{:?}", degree));
    }
    assert_eq!(
        MistakeKind::WrongNote { played: G_FLAT(), expected: B_FLAT() }.text(),
        "Wrong note, played G♭ expected B♭."
    );
    assert_eq!(
        MistakeKind::ExpectedSilence { found: NoteAnalysis::NoteDuringSilence { note: C() } }
            .text(),
        "Expected silence, found NoteDuringSilence { note: Note { index: 3 } }"
    );
    assert_eq!(
        MistakeKind::ExpectedNote { found: NoteAnalysis::Silence }.text(),
        "Expected some note, found Silence"
    );
    assert_eq!(
        MistakeKind::ExpectedChordTone {
            played_chord_tone: ChordTone::NoChordTone,
            played_note: D(),
            expected_example: E_FLAT()
        }
        .text(),
        "Expected any chord tone, found NoChordTone (found: D, expected e.g.: E♭)"
    );
    let mistake = |beat: u32| Mistake {
        beat,
        mistake: MistakeKind::ExpectedNote { found: NoteAnalysis::Silence },
    };
    assert_eq!(mistake(0).text(), "[1.1 | 0] Expected some note, found Silence");
    assert_eq!(mistake(11).text(), "[3.4 | 11] Expected some note, found Silence");
    assert_eq!(mistake(1234).text(), "[309.3 | 1234] Expected some note, found Silence");
    assert_eq!(
        mistake(u32::MAX).text(),
        "[1073741824.4 | 4294967295] Expected some note, found Silence"
    );
    let correction = Correction {
        amount_of_beats: 12,
        mistakes: [11u32, 2, 40].iter().map(|beat| (*beat, mistake(*beat))).collect(),
    };
    assert_eq!(
        correction.list(),
        "[1.3 | 2] Expected some note, found Silence\n[3.4 | 11] Expected some note, found Silence\n"
    );
    assert_eq!(Correction { amount_of_beats: 4, mistakes: HashMap::new() }.list(), "");
}

#[test]
fn whole_numbers_in_digits() {
    let mut text = String::from("n = ");
    append_decimal(&mut text, 0);
    text.push(' ');
    append_decimal(&mut text, 907);
    text.push(' ');
    append_decimal(&mut text, u64::MAX);
    text.push(' ');
    append_signed(&mut text, -12);
    text.push(' ');
    append_signed(&mut text, i32::MIN);
    text.push(' ');
    append_signed(&mut text, i32::MAX);
    assert_eq!(text, "n = 0 907 18446744073709551615 -12 -2147483648 2147483647");
}
