use walkanalysis::analysis::analysis::{Analysis, NoteAnalysis};
use walkanalysis::form::chord::ChordTone;
use walkanalysis::form::form::{bar, half_bar, Form, FormPiece};
use walkanalysis::form::key::{Degree, Key, Quality};
use walkanalysis::form::note::{A, B, C, D, E, F, G};
use walkanalysis::form::songs::autumn_leaves::autumn_leaves;
use walkanalysis::form::songs::but_beautiful::but_beautiful;
use walkanalysis::form::songs::test::longer_test;
use walkanalysis::forms::FormKind;
use walkanalysis::transcribe::transcribe::{PlayedNote, Transcription};

fn c_major() -> Key {
    Key::new(C(), Quality::Major)
}

#[test]
fn pieces_last_what_they_say() {
    assert_eq!(FormPiece::Key(c_major()).length_in_beats(), 0);
    assert_eq!(FormPiece::CountOff.length_in_beats(), 8);
    assert_eq!(bar(C().maj()).length_in_beats(), 4);
    assert_eq!(half_bar(C().maj(), F().maj()).length_in_beats(), 4);
    assert_eq!(FormPiece::LineBreak.length_in_beats(), 0);
}

#[test]
fn a_form_lasts_as_long_as_its_pieces() {
    let music = vec![
        FormPiece::CountOff,
        FormPiece::Key(c_major()),
        bar(C().maj()),
        FormPiece::LineBreak,
        half_bar(F().maj(), G().dominant7()),
        FormPiece::LineBreak,
    ];
    let sum: u32 = music.iter().map(|piece| piece.length_in_beats()).sum();
    let form = Form::new(92, c_major().sharp(), music);
    assert_eq!(sum, 16);
    assert_eq!(form.length_in_beats(), sum);
    assert_eq!(form.music().len(), 6);
    assert_eq!(form.tempo(), 92);
    assert_eq!(form.key(), c_major().sharp());
}

#[test]
fn a_form_is_counted_off() {
    let form = Form::new(92, c_major().sharp(), vec![bar(C().maj())]);
    assert_eq!(form.music().len(), 2);
    assert_eq!(form.music()[0], FormPiece::CountOff);
    assert_eq!(form.length_in_beats(), 12);
    let given = Form::new(92, c_major().sharp(), vec![FormPiece::CountOff, bar(C().maj())]);
    assert_eq!(given.music().len(), 2);
    assert_eq!(given, form);
    let late = Form::new(92, c_major().sharp(), vec![bar(C().maj()), FormPiece::CountOff]);
    assert_eq!(late.music().len(), 3);
    assert_eq!(late.length_in_beats(), 20);
    assert_eq!(Form::new(92, c_major().sharp(), vec![]).length_in_beats(), 8);
    assert_eq!(form.clone(), form);
    let bare = Form::from_pieces(92, c_major().sharp(), vec![bar(C().maj())]);
    assert_eq!(bare.music().len(), 1);
    assert_eq!(bare.length_in_beats(), 4);
    assert_eq!(Form::from_pieces(92, c_major().sharp(), vec![]).length_in_beats(), 0);
}

#[test]
fn the_songs() {
    assert_eq!(longer_test().length_in_beats(), 24);
    assert_eq!(but_beautiful().length_in_beats(), 136);
    assert_eq!(but_beautiful().tempo(), 70);
    assert_eq!(but_beautiful().key().text(), "G");
    assert_eq!(autumn_leaves().tempo(), 110);
    assert_eq!(autumn_leaves().key().text(), "Gm");
    assert_eq!(autumn_leaves().music().len(), 41);
    assert_eq!(autumn_leaves().music()[1], bar(C().min7()));
    assert_eq!(FormKind::default(), FormKind::Test);
    assert_eq!(FormKind::Test.form().unwrap().length_in_beats(), 16);
    assert_eq!(FormKind::LongerTest.form().unwrap().length_in_beats(), 24);
    assert_eq!(FormKind::AutumnLeaves.form().unwrap(), autumn_leaves());
    assert_eq!(FormKind::ButBeautiful.form().unwrap(), but_beautiful());
    assert!(FormKind::AllTheThingsYouAre.form().is_none());
    assert_eq!(
        FormKind::all(),
        [FormKind::LongerTest, FormKind::Test, FormKind::AutumnLeaves, FormKind::ButBeautiful]
    );
    assert_eq!(FormKind::AllTheThingsYouAre.text(), "All The Things You Are");
}

#[test]
fn pieces_as_text() {
    assert_eq!(FormPiece::CountOff.text(), "Count in");
    assert_eq!(FormPiece::LineBreak.text(), "\n");
    assert_eq!(FormPiece::Key(c_major()).text(), "C/C Major");
    assert_eq!(bar(E().min()).text(), "\u{1D15D} E G B /E G B ");
    assert_eq!(
        half_bar(A().maj(), D().min()).text(),
        "\u{1D15E} A C♯ E /A D♭ E  \u{1D15E} D F A /D F A "
    );
}

fn surely(notes: &[walkanalysis::form::note::Note]) -> Vec<PlayedNote> {
    notes.iter().map(|note| PlayedNote::Surely(*note)).collect()
}

#[test]
fn every_beat_of_the_form_is_analyzed_once() {
    for form in [autumn_leaves(), but_beautiful(), longer_test()] {
        let total = form.length_in_beats();
        let notes = vec![PlayedNote::Surely(G()); total as usize];
        let analysis = Analysis::analyze(Transcription { notes }, &form);
        assert_eq!(analysis.beat_analysis.len(), total as usize);
        for beat in 0..total {
            assert!(analysis.beat_analysis.contains_key(&beat));
        }
        assert!(!analysis.beat_analysis.contains_key(&total));
        assert_eq!(analysis.form_analysis.len(), form.music().len());
        let grouped: usize = analysis.form_analysis.iter().map(|(_, beats)| beats.len()).sum();
        assert_eq!(grouped, total as usize);
        let mut beat = 0;
        for (index, (piece, beats)) in analysis.form_analysis.iter().enumerate() {
            assert_eq!(*piece, form.music()[index]);
            assert_eq!(beats.len(), piece.length_in_beats() as usize);
            for found in beats {
                let entry = analysis.beat_analysis.get(&beat).unwrap();
                assert_eq!(entry.0, *piece);
                assert_eq!(entry.1, *found);
                beat += 1;
            }
        }
    }
}

#[test]
fn a_key_piece_changes_the_key_from_there_on() {
    let form = Form::new(
        100,
        c_major().sharp(),
        vec![bar(C().maj()), FormPiece::Key(Key::new(G(), Quality::Major)), bar(C().maj())],
    );
    let mut notes = vec![PlayedNote::Silence; 8];
    notes.extend(surely(&[C(), F(), B(), C(), C(), F(), B(), C()]));
    let analysis = Analysis::analyze(Transcription { notes }, &form);
    let degree = |beat: u32| match analysis.beat_analysis.get(&beat).unwrap().1 {
        NoteAnalysis::Note { degree_in_key, .. } => degree_in_key,
        other => panic!("no note: {:?}", other),
    };
    assert_eq!(degree(8), Degree::First);
    assert_eq!(degree(9), Degree::Fourth);
    assert_eq!(degree(10), Degree::Seventh);
    assert_eq!(degree(12), Degree::Fourth);
    assert_eq!(degree(13), Degree::Chromatic);
    assert_eq!(degree(14), Degree::Third);
    assert_eq!(analysis.form_analysis[2].1.len(), 0);
}

#[test]
fn a_half_bar_has_two_chords() {
    let form = Form::new(100, c_major().sharp(), vec![half_bar(C().maj(), G().dominant7())]);
    let mut notes = vec![PlayedNote::Silence; 8];
    notes.extend(surely(&[C(), G(), G(), F()]));
    let analysis = Analysis::analyze(Transcription { notes }, &form);
    let role = |beat: u32| match analysis.beat_analysis.get(&beat).unwrap().1 {
        NoteAnalysis::Note { role_in_chord, .. } => role_in_chord,
        other => panic!("no note: {:?}", other),
    };
    assert_eq!(role(8), ChordTone::Root);
    assert_eq!(role(9), ChordTone::Fifth);
    assert_eq!(role(10), ChordTone::Root);
    assert_eq!(role(11), ChordTone::Seventh);
}

#[test]
fn what_is_heard_during_the_count_off() {
    let form = Form::new(100, c_major().sharp(), vec![bar(C().maj())]);
    let mut notes = vec![PlayedNote::Silence; 12];
    notes[2] = PlayedNote::Surely(D());
    notes[3] = PlayedNote::Unknown;
    notes[9] = PlayedNote::Unknown;
    notes[10] = PlayedNote::Surely(E());
    let analysis = Analysis::analyze(Transcription { notes }, &form);
    let found = |beat: u32| analysis.beat_analysis.get(&beat).unwrap().1;
    assert_eq!(found(2), NoteAnalysis::NoteDuringSilence { note: D() });
    assert_eq!(found(2).note(), Some(D()));
    assert_eq!(found(3), NoteAnalysis::Silence);
    assert_eq!(found(3).note(), None);
    assert_eq!(found(8), NoteAnalysis::Silence);
    assert_eq!(found(9), NoteAnalysis::Silence);
    assert_eq!(found(10).note(), Some(E()));
}

#[test]
fn too_few_and_too_many_notes() {
    let form = Form::new(100, c_major().sharp(), vec![bar(C().maj()), bar(F().maj())]);
    let short = Analysis::analyze(Transcription { notes: vec![PlayedNote::Silence; 10] }, &form);
    assert_eq!(short.beat_analysis.len(), 10);
    assert_eq!(short.form_analysis.len(), 3);
    assert_eq!(short.form_analysis[1].1.len(), 2);
    assert_eq!(short.form_analysis[2].1.len(), 0);
    let long = Analysis::analyze(Transcription { notes: vec![PlayedNote::Silence; 40] }, &form);
    assert_eq!(long.beat_analysis.len(), 16);
    assert!(!long.beat_analysis.contains_key(&16));
    let none = Analysis::analyze(Transcription { notes: vec![] }, &form);
    assert!(none.beat_analysis.is_empty());
    let _ = A();
}
