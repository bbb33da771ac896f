use regex::Regex;
use savegame_backup::pattern::{
    holds_at, matches_backup_pattern, BACKUP_MARKER, SAVEGAME_EXTENSION,
};

#[test]
fn backup_name_is_recognised() {
    assert!(matches_backup_pattern("autosave_Backup.eu4"));
}

#[test]
fn savegame_name_is_no_backup_name() {
    assert!(!matches_backup_pattern("autosave.eu4"));
    assert!(!matches_backup_pattern("France1444_11_11.eu4"));
}

#[test]
fn prefix_may_be_empty() {
    assert!(matches_backup_pattern("_Backup.eu4"));
}

#[test]
fn prefix_may_hold_anything() {
    assert!(matches_backup_pattern("older_Backup.eu4_Backup.eu4"));
    assert!(matches_backup_pattern("save game (1)_Backup.eu4"));
    assert!(matches_backup_pattern("Kaiserreich Österreich_Backup.eu4"));
    assert!(matches_backup_pattern("line\nbreak_Backup.eu4"));
}

#[test]
fn character_before_extension_is_free() {
    assert!(matches_backup_pattern("autosave_BackupXeu4"));
    assert!(matches_backup_pattern("autosave_Backup_eu4"));
    assert!(matches_backup_pattern("autosave_Backup/eu4"));
    assert!(matches_backup_pattern("autosave_Backupéeu4"));
    assert!(matches_backup_pattern("autosave_Backup\reu4"));
    assert!(matches_backup_pattern("autosave_Backup\teu4"));
}

#[test]
fn line_feed_before_extension_is_not_taken() {
    assert!(!matches_backup_pattern("x_Backup\neu4"));
    assert!(!matches_backup_pattern("autosave_Backup\neu4"));
    assert!(!matches_backup_pattern("_Backup\neu4"));
    assert!(!matches_backup_pattern("x_Backup.eu4_Backup\neu4"));
}

#[test]
fn line_feed_in_the_prefix_is_taken() {
    assert!(matches_backup_pattern("\n_Backup.eu4"));
    assert!(matches_backup_pattern("x_Backup\neu4_Backup.eu4"));
}

#[test]
fn character_before_extension_is_exactly_one() {
    assert!(!matches_backup_pattern("autosave_Backupeu4"));
    assert!(!matches_backup_pattern("autosave_Backup..eu4"));
}

#[test]
fn nothing_may_follow_the_extension() {
    assert!(!matches_backup_pattern("autosave_Backup.eu4.tmp"));
    assert!(!matches_backup_pattern("autosave_Backup.eu4 "));
    assert!(!matches_backup_pattern("autosave_Backup.eu44"));
}

#[test]
fn matching_is_case_sensitive() {
    assert!(!matches_backup_pattern("autosave_backup.eu4"));
    assert!(!matches_backup_pattern("autosave_BACKUP.eu4"));
    assert!(!matches_backup_pattern("autosave_Backup.EU4"));
}

#[test]
fn short_names_do_not_match() {
    assert!(!matches_backup_pattern(""));
    assert!(!matches_backup_pattern("eu4"));
    assert!(!matches_backup_pattern(".eu4"));
    assert!(!matches_backup_pattern("_Backup.eu"));
    assert!(!matches_backup_pattern("Backup.eu4"));
}

#[test]
fn other_extensions_do_not_match() {
    assert!(!matches_backup_pattern("autosave_Backup.ck2"));
    assert!(!matches_backup_pattern("autosave_Backup.eu3"));
}

#[test]
fn constants_have_their_values() {
    assert_eq!(BACKUP_MARKER, "_Backup");
    assert_eq!(SAVEGAME_EXTENSION, "eu4");
}

#[test]
fn matcher_agrees_with_the_expression_anchored_at_the_end() {
    let expression = Regex::new(".*_Backup.eu4$").unwrap();
    let names = vec![
        "",
        "_Backup.eu4",
        "autosave_Backup.eu4",
        "autosave.eu4",
        "autosave_BackupXeu4",
        "autosave_Backupeu4",
        "autosave_Backup.eu4.tmp",
        "x_Backup.eu4_Backup.eu4",
        "autosave_backup.eu4",
        "autosave_Backup\neu4",
        "_Backup\neu4",
        "autosave_Backup\reu4",
        "x_Backup\neu4_Backup.eu4",
        "x_Backup.eu4_Backup\neu4",
        "\n_Backup.eu4",
        "autosave_Backup.eu4\n",
        "two\nlines_Backup.eu4",
        "Österreich_Backup.eu4",
        "autosave_Backupéeu4",
        "autosave_Backupé.eu4",
        "_Backup.eu",
        "Backup.eu4",
        "__Backup.eu4",
        "_Backup_Backup.eu4",
    ];
    for name in names {
        assert_eq!(matches_backup_pattern(name), expression.is_match(name), "{:?}", name);
    }
}

#[test]
fn holds_at_finds_a_part_at_its_place() {
    assert!(holds_at("autosave.eu4", 0, "auto"));
    assert!(holds_at("autosave.eu4", 9, "eu4"));
    assert!(holds_at("autosave.eu4", 4, ""));
    assert!(holds_at("autosave.eu4", 12, ""));
    assert!(holds_at("", 0, ""));
}

#[test]
fn holds_at_rejects_a_part_elsewhere() {
    assert!(!holds_at("autosave.eu4", 1, "auto"));
    assert!(!holds_at("autosave.eu4", 9, "eu3"));
}

#[test]
fn holds_at_rejects_a_part_that_does_not_fit() {
    assert!(!holds_at("autosave.eu4", 10, "eu4"));
    assert!(!holds_at("autosave.eu4", 13, ""));
    assert!(!holds_at("eu4", 0, "eu4x"));
    assert!(!holds_at("eu4", usize::MAX, "e"));
}

#[test]
fn holds_at_counts_characters_not_bytes() {
    assert!(holds_at("Österreich.eu4", 11, "eu4"));
    assert!(holds_at("Österreich.eu4", 0, "Ö"));
    assert!(!holds_at("Österreich.eu4", 12, "eu4"));
}
