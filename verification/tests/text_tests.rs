use neat::stopwatch::Stopwatch;
use neat::text::{normalize_line_endings, IgnorableDatabase};

fn normalize_str(s: &str) -> String {
    let chars: Vec<char> = s.chars().collect();
    normalize_line_endings(&chars).into_iter().collect()
}

#[test]
fn line_endings_are_normalized() {
    assert_eq!(normalize_str("a\r\nb\rc\nd"), "a\nb\nc\nd");
    assert_eq!(normalize_str(""), "");
    assert_eq!(normalize_str("\r"), "\n");
    assert_eq!(normalize_str("\r\n"), "\n");
    assert_eq!(normalize_str("\r\r\n"), "\n\n");
    assert_eq!(normalize_str("no endings"), "no endings");
    assert_eq!(normalize_str("\n\n"), "\n\n");
}

fn sample_db() -> IgnorableDatabase {
    let text = "\
# Derived Property: Default_Ignorable_Code_Point
00AD          ; Default_Ignorable_Code_Point # Cf       SOFT HYPHEN
034F          ; Other_Property # not the one we keep
2060..2064    ; Default_Ignorable_Code_Point # Cf   [5] WORD JOINER..INVISIBLE PLUS
garbage line without any separator
one;too;many;fields ; Default_Ignorable_Code_Point

XYZ           ; Default_Ignorable_Code_Point # not hex
FFFFFFFFF     ; Default_Ignorable_Code_Point # overflows
D800          ; Default_Ignorable_Code_Point # a surrogate is no scalar value
E0100..E01EF  ; Default_Ignorable_Code_Point # Mn [240] VARIATION SELECTOR-17..256
";
    IgnorableDatabase::load(&text.as_bytes().to_vec())
}

#[test]
fn database_parses_singles_and_ranges() {
    let db = sample_db();
    assert!(db.is_char_default_ignorable('\u{00AD}'));
    assert!(db.is_char_default_ignorable('\u{2060}'));
    assert!(db.is_char_default_ignorable('\u{2062}'));
    assert!(db.is_char_default_ignorable('\u{2064}'));
    assert!(db.is_char_default_ignorable('\u{E0100}'));
    assert!(db.is_char_default_ignorable('\u{E01EF}'));
}

#[test]
fn database_skips_everything_else() {
    let db = sample_db();
    // only the kept property counts
    assert!(!db.is_char_default_ignorable('\u{034F}'));
    // outside every range
    assert!(!db.is_char_default_ignorable('a'));
    assert!(!db.is_char_default_ignorable('\u{2065}'));
    assert!(!db.is_char_default_ignorable('\u{205F}'));
    // exactly the well-formed lines with the kept property survive
    assert_eq!(db.ranges.len(), 3);
    assert_eq!(db.ranges[0], (0x00AD, 0x00AD));
    assert_eq!(db.ranges[1], (0x2060, 0x2064));
    assert_eq!(db.ranges[2], (0xE0100, 0xE01EF));
}

#[test]
fn empty_database_ignores_nothing() {
    let db = IgnorableDatabase::load(&Vec::new());
    assert_eq!(db.ranges.len(), 0);
    assert!(!db.is_char_default_ignorable('a'));
}

#[test]
fn case_insensitive_hex_digits() {
    let text = "00ad ; Default_Ignorable_Code_Point\n00Be..00c0;Default_Ignorable_Code_Point";
    let db = IgnorableDatabase::load(&text.as_bytes().to_vec());
    assert_eq!(db.ranges.len(), 2);
    assert_eq!(db.ranges[0], (0x00AD, 0x00AD));
    assert_eq!(db.ranges[1], (0x00BE, 0x00C0));
}

#[test]
fn stopwatch_runs() {
    let sw = Stopwatch::start();
    let d = sw.elapsed();
    assert!(d.as_nanos() < 60_000_000_000);
    let ms = sw.elapsed_ms();
    assert!(ms < 60_000);
}
