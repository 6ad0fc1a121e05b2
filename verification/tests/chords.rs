use walkanalysis::form::note::{A, B_FLAT, C, C_SHARP, D};

#[test]
fn test_chords() {
    println!("{}", A().maj7().sharp().text());
    println!("{}", A().dominant7().sharp().text());
    println!("{}", C_SHARP().maj().sharp().text());
    println!("{}", B_FLAT().maj7().flat().text());
    assert_eq!(A().maj7().sharp().text(), "A C♯ E G♯ ");
    assert_eq!(A().dominant7().sharp().text(), "A C♯ E G ");
    assert_eq!(C_SHARP().maj().sharp().text(), "C♯ F G♯ ");
    assert_eq!(B_FLAT().maj7().flat().text(), "B♭ D F A ");
}

#[test]
fn test_spelling() {
    println!("{}", A().maj7().auto_spell().unwrap().text());
    println!("{}", A().dominant7().auto_spell().unwrap().text());
    println!("{}", C_SHARP().maj().auto_spell().unwrap().text());
    println!("{}", B_FLAT().maj7().auto_spell().unwrap().text());
    println!("{}", B_FLAT().dim7().auto_spell().unwrap().text());
    assert_eq!(A().maj7().auto_spell().unwrap().text(), "A C♯ E G♯ ");
    assert_eq!(C_SHARP().maj().auto_spell().unwrap().text(), "D♭ F A♭ ");
    assert_eq!(B_FLAT().maj7().auto_spell().unwrap().text(), "B♭ D F A ");
    assert_eq!(B_FLAT().dim7().auto_spell().unwrap().text(), "A♯ C♯ E G ");
}

#[test]
fn test_symbols() {
    println!("{}", A().m7b5().flat_symbol());
    println!("{}", A().m7b5().sharp_symbol());
    println!("{}", D().dominant7().sharp_symbol());
    println!("{}", B_FLAT().dominant7().sharp_symbol());
    println!("{}", B_FLAT().dominant7().flat_symbol());
    println!("{}", C().maj7().flat_symbol());
    assert_eq!(A().m7b5().flat_symbol(), "Am7b5");
    assert_eq!(D().dominant7().sharp_symbol(), "D7");
    assert_eq!(B_FLAT().dominant7().sharp_symbol(), "A♯7");
    assert_eq!(B_FLAT().dominant7().flat_symbol(), "B♭7");
    assert_eq!(C().maj7().flat_symbol(), "Cmaj7");
}
