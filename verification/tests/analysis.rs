use walkanalysis::analysis::analysis::{Analysis, NoteAnalysis};
use walkanalysis::form::chord::ChordTone;
use walkanalysis::form::form::{bar, Form};
use walkanalysis::form::key::{Degree, Key, Quality};
use walkanalysis::form::note::{B_FLAT, C, D_FLAT, E_FLAT, F, G, G_FLAT};
use walkanalysis::transcribe::transcribe::{PlayedNote, Transcription};

fn assert_role(expected_degree: Degree, expected_role: ChordTone, na: NoteAnalysis) {
    let NoteAnalysis::Note {
        note: _,
        degree_in_key,
        role_in_chord,
    } = na
    else {
        panic!("Not noteanalysis")
    };

    assert_eq!(role_in_chord, expected_role);
    assert_eq!(expected_degree, degree_in_key);
}

#[test]
fn test_analysis() {
    let form = Form::new(
        110,
        Key::new(G(), Quality::Minor).flat(),
        vec![bar(C().min7())],
    );

    let transcription = Transcription {
        notes: vec![
            PlayedNote::Silence,
            PlayedNote::Silence,
            PlayedNote::Silence,
            PlayedNote::Silence,
            PlayedNote::Silence,
            PlayedNote::Silence,
            PlayedNote::Silence,
            PlayedNote::Silence,
            PlayedNote::Surely(C()),
            PlayedNote::Surely(E_FLAT()),
            PlayedNote::Surely(G()),
            PlayedNote::Surely(G_FLAT()),
        ],
    };

    let analysis = Analysis::analyze(transcription, &form);

    println!("{:?}", &analysis);

    // The count-off that every form starts with takes the beats 0 to 7.
    assert_role(
        Degree::Fourth,
        ChordTone::Root,
        analysis.beat_analysis.get(&8).unwrap().1,
    );
    assert_role(
        Degree::Sixth,
        ChordTone::Third,
        analysis.beat_analysis.get(&9).unwrap().1,
    );
    assert_role(
        Degree::First,
        ChordTone::Fifth,
        analysis.beat_analysis.get(&10).unwrap().1,
    );
    assert_role(
        Degree::Chromatic,
        ChordTone::NoChordTone,
        analysis.beat_analysis.get(&11).unwrap().1,
    );
}

#[test]
fn test_gmin() {
    let transcription = Transcription {
        notes: vec![
            PlayedNote::Silence,
            PlayedNote::Silence,
            PlayedNote::Silence,
            PlayedNote::Silence,
            PlayedNote::Silence,
            PlayedNote::Silence,
            PlayedNote::Silence,
            PlayedNote::Silence,
            PlayedNote::Surely(G()),
            PlayedNote::Surely(D_FLAT()),
            PlayedNote::Surely(B_FLAT()),
            PlayedNote::Surely(G()),
            PlayedNote::Surely(G()),
            PlayedNote::Surely(B_FLAT()),
            PlayedNote::Surely(D_FLAT()),
            PlayedNote::Surely(F()),
        ],
    };
    let form = Form::new(
        110,
        Key::new(G(), Quality::Minor).flat(),
        vec![bar(G().min()), bar(G().min())],
    );

    let analysis = Analysis::analyze(transcription, &form);

    println!("{:?}", analysis);
    assert_eq!(analysis.beat_analysis.len(), 16);
    assert_eq!(analysis.form_analysis.len(), 3);
}
