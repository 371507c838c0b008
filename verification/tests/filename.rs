use downonspot::filename::is_valid_filename;

#[test]
fn accepts_ordinary_names() {
    assert!(is_valid_filename("song.mp3"));
    assert!(is_valid_filename("Artist - Title (Live).flac"));
    assert!(is_valid_filename("résumé.mp3"));
    assert!(is_valid_filename(".hidden"));
    assert!(is_valid_filename("a..b"));
    assert!(is_valid_filename(&"a".repeat(255)));
}

#[test]
fn refuses_blank_names() {
    assert!(!is_valid_filename(""));
    assert!(!is_valid_filename("   "));
    assert!(!is_valid_filename("\t\n"));
    assert!(!is_valid_filename("\u{3000}"));
}

#[test]
fn refuses_separators_and_dots() {
    assert!(!is_valid_filename("a/b"));
    assert!(!is_valid_filename("../etc/passwd"));
    assert!(!is_valid_filename("a\\b"));
    assert!(!is_valid_filename(".."));
    assert!(!is_valid_filename("."));
    assert!(!is_valid_filename("..."));
}

#[test]
fn refuses_what_sanitize_changes() {
    assert!(!is_valid_filename("a:b"));
    assert!(!is_valid_filename("what?"));
    assert!(!is_valid_filename("a*b"));
    assert!(!is_valid_filename("a\"b"));
    assert!(!is_valid_filename("x\u{1}y"));
    assert!(!is_valid_filename("x\u{85}y"));
    assert!(!is_valid_filename(&"a".repeat(256)));
    assert!(!is_valid_filename(&"é".repeat(128)));
    assert!(is_valid_filename(&"é".repeat(127)));
}

#[test]
fn refuses_names_reserved_on_windows() {
    assert!(!is_valid_filename("con.txt"));
    assert!(!is_valid_filename("CON"));
    assert!(!is_valid_filename("Aux.mp3"));
    assert!(!is_valid_filename("nul"));
    assert!(!is_valid_filename("com1.mp3"));
    assert!(!is_valid_filename("LPT9"));
    assert!(is_valid_filename("com"));
    assert!(is_valid_filename("console.txt"));
    assert!(is_valid_filename("con .txt"));
    assert!(is_valid_filename("comx"));
}

#[test]
fn refuses_trailing_dots_and_spaces() {
    assert!(!is_valid_filename("track."));
    assert!(!is_valid_filename("track "));
    assert!(!is_valid_filename("track. ."));
    assert!(is_valid_filename(" track"));
    assert!(is_valid_filename("a.b"));
}

#[test]
fn white_space_is_unicode_white_space() {
    assert!(!is_valid_filename("\u{85}"));
    assert!(!is_valid_filename("\u{2000}\u{200a}"));
    assert!(is_valid_filename("\u{200b}x"));
}
