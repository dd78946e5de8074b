use msgfmt::catalog::get_message;
use msgfmt::messages::error_string;
use msgfmt::messages::error_string_with_args;
use msgfmt::messages::get_message_with_args;
use msgfmt::messages::get_message_with_named_args;
use msgfmt::messages::line_of;
use msgfmt::subst::render_named;
use msgfmt::subst::replace_all;
use msgfmt::subst::replace_placeholder;
use msgfmt::subst::str_equal;

const KNOWN_IDS: [&str; 26] = [
    "err-failed-to-write-output",
    "err-no-identities-in-stdin",
    "err-no-identities-in-file",
    "err-plugin-multiple",
    "err-decryption-failed",
    "err-header-invalid",
    "err-header-mac-invalid",
    "err-key-decryption",
    "err-no-matching-keys",
    "err-unknown-format",
    "err-missing-recipients",
    "err-mixed-recipient-passphrase",
    "err-incompatible-recipients-oneway",
    "err-incompatible-recipients-twoway",
    "err-invalid-recipient-labels",
    "err-missing-plugin",
    "rec-unknown-format",
    "rec-excessive-work",
    "rec-missing-plugin",
    "err-identity-file-contains-plugin",
    "rec-identity-file-contains-plugin",
    "encrypted-passphrase-prompt",
    "err-plugin-identity",
    "err-plugin-recipient",
    "err-excessive-work",
    "encrypted-warn-no-match",
];

#[test]
fn known_ids_exact_templates() {
    assert_eq!(
        get_message("err-failed-to-write-output"),
        "Failed to write output: {err}"
    );
    assert_eq!(
        get_message("err-no-identities-in-stdin"),
        "No identities found in standard input"
    );
    assert_eq!(
        get_message("err-no-identities-in-file"),
        "No identities found in file: {filename}"
    );
    assert_eq!(get_message("err-plugin-multiple"), "Multiple plugin errors occurred:");
    assert_eq!(get_message("err-decryption-failed"), "Failed to decrypt file");
    assert_eq!(get_message("err-header-invalid"), "Invalid header");
    assert_eq!(get_message("err-header-mac-invalid"), "Invalid header MAC");
    assert_eq!(get_message("err-key-decryption"), "Failed to decrypt key");
    assert_eq!(get_message("err-no-matching-keys"), "No matching keys found");
    assert_eq!(get_message("err-unknown-format"), "Unknown age format");
    assert_eq!(get_message("err-missing-recipients"), "Missing recipients");
    assert_eq!(
        get_message("err-mixed-recipient-passphrase"),
        "Cannot combine passphrase encryption with other recipients"
    );
    assert_eq!(
        get_message("err-incompatible-recipients-oneway"),
        "Recipients with labels {labels} are incompatible with other recipients"
    );
    assert_eq!(
        get_message("err-incompatible-recipients-twoway"),
        "Recipients with labels {left} are incompatible with recipients with labels {right}"
    );
    assert_eq!(
        get_message("err-invalid-recipient-labels"),
        "Invalid recipient labels: {labels}"
    );
    assert_eq!(get_message("err-missing-plugin"), "Plugin {plugin_name} not found");
    assert_eq!(
        get_message("rec-unknown-format"),
        "This file was created by a newer version of age that we do not support."
    );
    assert_eq!(
        get_message("rec-excessive-work"),
        "This file would take {duration} seconds to decrypt on this device."
    );
    assert_eq!(
        get_message("rec-missing-plugin"),
        "You may need to install additional software to decrypt this file."
    );
    assert_eq!(
        get_message("err-identity-file-contains-plugin"),
        "Identity file {filename} contains a plugin identity ({plugin_name})"
    );
    assert_eq!(
        get_message("rec-identity-file-contains-plugin"),
        "The {plugin_name} plugin does not support converting identities to recipients."
    );
    assert_eq!(
        get_message("encrypted-passphrase-prompt"),
        "Enter passphrase for {filename}"
    );
    assert_eq!(
        get_message("err-plugin-identity"),
        "Plugin {plugin_name} error: {message}"
    );
    assert_eq!(
        get_message("err-plugin-recipient"),
        "Plugin {plugin_name} recipient {recipient} error: {message}"
    );
    assert_eq!(
        get_message("err-excessive-work"),
        "This passphrase is very expensive to decrypt."
    );
    assert_eq!(
        get_message("encrypted-warn-no-match"),
        "Warning: could not decrypt identity in {filename}"
    );
}

#[test]
fn known_templates_nonempty_and_lookup_idempotent() {
    for id in KNOWN_IDS {
        let first = get_message(id);
        let second = get_message(id);
        assert!(!first.is_empty());
        assert_eq!(first, second);
    }
}

#[test]
fn unknown_id_returned_unchanged() {
    assert_eq!(get_message("no-such-message"), "no-such-message");
    assert_eq!(get_message(""), "");
    assert_eq!(get_message("ERR-DECRYPTION-FAILED"), "ERR-DECRYPTION-FAILED");
}

#[test]
fn named_substitution_fills_every_occurrence() {
    let rendered = get_message_with_named_args("{x} and {x}", &[("x", "v")]);
    assert_eq!(rendered, "v and v");
}

#[test]
fn named_substitution_later_duplicate_wins_on_reintroduced_placeholder() {
    let rendered = get_message_with_named_args("{a}", &[("a", "{a}!"), ("a", "v")]);
    assert_eq!(rendered, "v!");
}

#[test]
fn unmatched_placeholder_survives() {
    assert_eq!(
        get_message_with_named_args("Value: {missing}", &[]),
        "Value: {missing}"
    );
    assert_eq!(
        get_message_with_named_args("Value: {missing}", &[("other", "v")]),
        "Value: {missing}"
    );
}

#[test]
fn named_substitution_on_known_id() {
    assert_eq!(
        get_message_with_named_args("err-missing-plugin", &[("plugin_name", "foo")]),
        "Plugin foo not found"
    );
    assert_eq!(
        get_message_with_named_args(
            "err-plugin-recipient",
            &[("plugin_name", "p"), ("recipient", "r"), ("message", "m")]
        ),
        "Plugin p recipient r error: m"
    );
}

#[test]
fn positional_single_argument() {
    let rendered = get_message_with_args("err-missing-plugin", &["age-plugin-foo"]);
    assert_eq!(rendered, "Plugin age-plugin-foo not found");
}

#[test]
fn positional_two_arguments() {
    let rendered = get_message_with_args("err-plugin-identity", &["myplugin", "bad key"]);
    assert_eq!(rendered, "Plugin myplugin error: bad key");
}

#[test]
fn positional_extra_arguments_ignored() {
    let rendered = get_message_with_args(
        "err-missing-plugin",
        &["p1", "unused", "ignored", "ignored-too"],
    );
    assert_eq!(rendered, "Plugin p1 not found");
}

#[test]
fn positional_fills_first_position_candidates() {
    assert_eq!(
        get_message_with_args("err-no-identities-in-file", &["keys.txt"]),
        "No identities found in file: keys.txt"
    );
    assert_eq!(
        get_message_with_args("rec-excessive-work", &["42"]),
        "This file would take 42 seconds to decrypt on this device."
    );
    assert_eq!(
        get_message_with_args("err-failed-to-write-output", &["disk full"]),
        "Failed to write output: disk full"
    );
}

#[test]
fn round_trip_static_template_unchanged_by_arguments() {
    assert_eq!(
        get_message_with_named_args("err-decryption-failed", &[("x", "y")]),
        "Failed to decrypt file"
    );
    assert_eq!(
        get_message_with_args("err-decryption-failed", &["a", "b", "c"]),
        "Failed to decrypt file"
    );
}

#[test]
fn write_line_text_is_write_text_plus_terminator() {
    let text = get_message("err-header-invalid");
    let line = line_of(&text);
    assert_eq!(line, format!("{}\n", text));
    assert_eq!(&line[..line.len() - 1], text);
}

#[test]
fn error_string_matches_get_message() {
    assert_eq!(error_string("err-key-decryption"), "Failed to decrypt key");
    assert_eq!(error_string("odd-id"), "odd-id");
    assert_eq!(
        error_string_with_args("encrypted-passphrase-prompt", &[("filename", "secrets.age")]),
        "Enter passphrase for secrets.age"
    );
}

#[test]
fn replace_all_is_left_to_right_and_non_overlapping() {
    assert_eq!(replace_all("aaa", "aa", "b"), "ba");
    assert_eq!(replace_all("abcabc", "b", "XY"), "aXYcaXYc");
    assert_eq!(replace_all("abc", "", "x"), "abc");
    assert_eq!(replace_all("", "a", "x"), "");
    assert_eq!(replace_all("aa", "a", "aa"), "aaaa");
}

#[test]
fn replace_placeholder_builds_braced_token() {
    assert_eq!(replace_placeholder("a {n} b", "n", "v"), "a v b");
    assert_eq!(replace_placeholder("a {nn} b", "n", "v"), "a {nn} b");
}

#[test]
fn render_named_applies_arguments_in_order() {
    assert_eq!(
        render_named("{a}{b}", &[("a", "1"), ("b", "2")]),
        "12"
    );
    assert_eq!(render_named("{a}", &[]), "{a}");
}

#[test]
fn str_equal_is_character_equality() {
    assert!(str_equal("", ""));
    assert!(str_equal("abc", "abc"));
    assert!(!str_equal("abc", "abd"));
    assert!(!str_equal("abc", "abcd"));
    assert!(str_equal("héllo", "héllo"));
    assert!(!str_equal("héllo", "hello"));
}

#[test]
fn non_ascii_values_substitute_cleanly() {
    assert_eq!(
        get_message_with_named_args("encrypted-passphrase-prompt", &[("filename", "拿文件.age")]),
        "Enter passphrase for 拿文件.age"
    );
}
