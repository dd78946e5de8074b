//! The message catalog: a fixed, read-only table from message identifier
//! to template text. Lookup is total: an unknown identifier is returned
//! unchanged, so a missing entry is visible rather than fatal.

use vstd::prelude::*;

use crate::subst::str_equal;

verus! {

/// The template the catalog associates with `id`; `id` itself when the
/// catalog has no entry for it.
pub open spec fn spec_get_message(id: Seq<char>) -> Seq<char> {
    if id == "err-failed-to-write-output"@ {
        "Failed to write output: {err}"@
    } else if id == "err-no-identities-in-stdin"@ {
        "No identities found in standard input"@
    } else if id == "err-no-identities-in-file"@ {
        "No identities found in file: {filename}"@
    } else if id == "err-plugin-multiple"@ {
        "Multiple plugin errors occurred:"@
    } else if id == "err-decryption-failed"@ {
        "Failed to decrypt file"@
    } else if id == "err-header-invalid"@ {
        "Invalid header"@
    } else if id == "err-header-mac-invalid"@ {
        "Invalid header MAC"@
    } else if id == "err-key-decryption"@ {
        "Failed to decrypt key"@
    } else if id == "err-no-matching-keys"@ {
        "No matching keys found"@
    } else if id == "err-unknown-format"@ {
        "Unknown age format"@
    } else if id == "err-missing-recipients"@ {
        "Missing recipients"@
    } else if id == "err-mixed-recipient-passphrase"@ {
        "Cannot combine passphrase encryption with other recipients"@
    } else if id == "err-incompatible-recipients-oneway"@ {
        "Recipients with labels {labels} are incompatible with other recipients"@
    } else if id == "err-incompatible-recipients-twoway"@ {
        "Recipients with labels {left} are incompatible with recipients with labels {right}"@
    } else if id == "err-invalid-recipient-labels"@ {
        "Invalid recipient labels: {labels}"@
    } else if id == "err-missing-plugin"@ {
        "Plugin {plugin_name} not found"@
    } else if id == "rec-unknown-format"@ {
        "This file was created by a newer version of age that we do not support."@
    } else if id == "rec-excessive-work"@ {
        "This file would take {duration} seconds to decrypt on this device."@
    } else if id == "rec-missing-plugin"@ {
        "You may need to install additional software to decrypt this file."@
    } else if id == "err-identity-file-contains-plugin"@ {
        "Identity file {filename} contains a plugin identity ({plugin_name})"@
    } else if id == "rec-identity-file-contains-plugin"@ {
        "The {plugin_name} plugin does not support converting identities to recipients."@
    } else if id == "encrypted-passphrase-prompt"@ {
        "Enter passphrase for {filename}"@
    } else if id == "err-plugin-identity"@ {
        "Plugin {plugin_name} error: {message}"@
    } else if id == "err-plugin-recipient"@ {
        "Plugin {plugin_name} recipient {recipient} error: {message}"@
    } else if id == "err-excessive-work"@ {
        "This passphrase is very expensive to decrypt."@
    } else if id == "encrypted-warn-no-match"@ {
        "Warning: could not decrypt identity in {filename}"@
    } else {
        id
    }
}

/// Whether the catalog has an entry for `id`.
pub open spec fn is_known_id(id: Seq<char>) -> bool {
    ||| id == "err-failed-to-write-output"@
    ||| id == "err-no-identities-in-stdin"@
    ||| id == "err-no-identities-in-file"@
    ||| id == "err-plugin-multiple"@
    ||| id == "err-decryption-failed"@
    ||| id == "err-header-invalid"@
    ||| id == "err-header-mac-invalid"@
    ||| id == "err-key-decryption"@
    ||| id == "err-no-matching-keys"@
    ||| id == "err-unknown-format"@
    ||| id == "err-missing-recipients"@
    ||| id == "err-mixed-recipient-passphrase"@
    ||| id == "err-incompatible-recipients-oneway"@
    ||| id == "err-incompatible-recipients-twoway"@
    ||| id == "err-invalid-recipient-labels"@
    ||| id == "err-missing-plugin"@
    ||| id == "rec-unknown-format"@
    ||| id == "rec-excessive-work"@
    ||| id == "rec-missing-plugin"@
    ||| id == "err-identity-file-contains-plugin"@
    ||| id == "rec-identity-file-contains-plugin"@
    ||| id == "encrypted-passphrase-prompt"@
    ||| id == "err-plugin-identity"@
    ||| id == "err-plugin-recipient"@
    ||| id == "err-excessive-work"@
    ||| id == "encrypted-warn-no-match"@
}

/// Looks a message identifier up in the catalog. Total and read-only:
/// a known identifier yields its template, an unknown one is echoed back.
pub fn get_message(message_id: &str) -> (r: String)
    ensures
        r@ == spec_get_message(message_id@),
{
    if str_equal(message_id, "err-failed-to-write-output") {
        String::from_str("Failed to write output: {err}")
    } else if str_equal(message_id, "err-no-identities-in-stdin") {
        String::from_str("No identities found in standard input")
    } else if str_equal(message_id, "err-no-identities-in-file") {
        String::from_str("No identities found in file: {filename}")
    } else if str_equal(message_id, "err-plugin-multiple") {
        String::from_str("Multiple plugin errors occurred:")
    } else if str_equal(message_id, "err-decryption-failed") {
        String::from_str("Failed to decrypt file")
    } else if str_equal(message_id, "err-header-invalid") {
        String::from_str("Invalid header")
    } else if str_equal(message_id, "err-header-mac-invalid") {
        String::from_str("Invalid header MAC")
    } else if str_equal(message_id, "err-key-decryption") {
        String::from_str("Failed to decrypt key")
    } else if str_equal(message_id, "err-no-matching-keys") {
        String::from_str("No matching keys found")
    } else if str_equal(message_id, "err-unknown-format") {
        String::from_str("Unknown age format")
    } else if str_equal(message_id, "err-missing-recipients") {
        String::from_str("Missing recipients")
    } else if str_equal(message_id, "err-mixed-recipient-passphrase") {
        String::from_str("Cannot combine passphrase encryption with other recipients")
    } else if str_equal(message_id, "err-incompatible-recipients-oneway") {
        String::from_str("Recipients with labels {labels} are incompatible with other recipients")
    } else if str_equal(message_id, "err-incompatible-recipients-twoway") {
        String::from_str("Recipients with labels {left} are incompatible with recipients with labels {right}")
    } else if str_equal(message_id, "err-invalid-recipient-labels") {
        String::from_str("Invalid recipient labels: {labels}")
    } else if str_equal(message_id, "err-missing-plugin") {
        String::from_str("Plugin {plugin_name} not found")
    } else if str_equal(message_id, "rec-unknown-format") {
        String::from_str("This file was created by a newer version of age that we do not support.")
    } else if str_equal(message_id, "rec-excessive-work") {
        String::from_str("This file would take {duration} seconds to decrypt on this device.")
    } else if str_equal(message_id, "rec-missing-plugin") {
        String::from_str("You may need to install additional software to decrypt this file.")
    } else if str_equal(message_id, "err-identity-file-contains-plugin") {
        String::from_str("Identity file {filename} contains a plugin identity ({plugin_name})")
    } else if str_equal(message_id, "rec-identity-file-contains-plugin") {
        String::from_str("The {plugin_name} plugin does not support converting identities to recipients.")
    } else if str_equal(message_id, "encrypted-passphrase-prompt") {
        String::from_str("Enter passphrase for {filename}")
    } else if str_equal(message_id, "err-plugin-identity") {
        String::from_str("Plugin {plugin_name} error: {message}")
    } else if str_equal(message_id, "err-plugin-recipient") {
        String::from_str("Plugin {plugin_name} recipient {recipient} error: {message}")
    } else if str_equal(message_id, "err-excessive-work") {
        String::from_str("This passphrase is very expensive to decrypt.")
    } else if str_equal(message_id, "encrypted-warn-no-match") {
        String::from_str("Warning: could not decrypt identity in {filename}")
    } else {
        String::from_str(message_id)
    }
}

/// Every known identifier has a non-empty template.
pub proof fn lemma_known_template_nonempty(id: Seq<char>)
    requires
        is_known_id(id),
    ensures
        spec_get_message(id).len() > 0,
{
    reveal_strlit("Failed to write output: {err}");
    reveal_strlit("No identities found in standard input");
    reveal_strlit("No identities found in file: {filename}");
    reveal_strlit("Multiple plugin errors occurred:");
    reveal_strlit("Failed to decrypt file");
    reveal_strlit("Invalid header");
    reveal_strlit("Invalid header MAC");
    reveal_strlit("Failed to decrypt key");
    reveal_strlit("No matching keys found");
    reveal_strlit("Unknown age format");
    reveal_strlit("Missing recipients");
    reveal_strlit("Cannot combine passphrase encryption with other recipients");
    reveal_strlit("Recipients with labels {labels} are incompatible with other recipients");
    reveal_strlit("Recipients with labels {left} are incompatible with recipients with labels {right}");
    reveal_strlit("Invalid recipient labels: {labels}");
    reveal_strlit("Plugin {plugin_name} not found");
    reveal_strlit("This file was created by a newer version of age that we do not support.");
    reveal_strlit("This file would take {duration} seconds to decrypt on this device.");
    reveal_strlit("You may need to install additional software to decrypt this file.");
    reveal_strlit("Identity file {filename} contains a plugin identity ({plugin_name})");
    reveal_strlit("The {plugin_name} plugin does not support converting identities to recipients.");
    reveal_strlit("Enter passphrase for {filename}");
    reveal_strlit("Plugin {plugin_name} error: {message}");
    reveal_strlit("Plugin {plugin_name} recipient {recipient} error: {message}");
    reveal_strlit("This passphrase is very expensive to decrypt.");
    reveal_strlit("Warning: could not decrypt identity in {filename}");
}

/// Lookup of an identifier absent from the catalog returns the
/// identifier itself, unchanged.
pub proof fn lemma_unknown_id_returned(id: Seq<char>)
    requires
        !is_known_id(id),
    ensures
        spec_get_message(id) == id,
{
}

/// Lookup is a pure function of the identifier: repeated lookups of the
/// same identifier yield identical text.
pub proof fn lemma_lookup_deterministic(id: Seq<char>, a: Seq<char>, b: Seq<char>)
    requires
        a == spec_get_message(id),
        b == spec_get_message(id),
    ensures
        a == b,
{
}

} // verus!
