//! The call-site convenience layer: lookup composed with substitution.
//!
//! Positional substitution broadcasts each argument over a fixed set of
//! well-known placeholder names tied to its position, because call sites do
//! not always know which named slot a given template uses. Arguments beyond
//! the supported positions are ignored.

use vstd::prelude::*;

use crate::catalog::get_message;
use crate::catalog::spec_get_message;
use crate::subst::lemma_replace_name_unchanged;
use crate::subst::render_named;
use crate::subst::replace_placeholder;
use crate::subst::spec_placeholder;
use crate::subst::spec_render_named;
use crate::subst::spec_replace_all;

verus! {

/// The first positional argument fills any of these placeholders: an error
/// detail, a filename, a plugin name, a label list, or a duration.
pub open spec fn spec_apply_first(t: Seq<char>, v: Seq<char>) -> Seq<char> {
    spec_replace_all(
        spec_replace_all(
            spec_replace_all(
                spec_replace_all(
                    spec_replace_all(
                        spec_replace_all(t, spec_placeholder("err"@), v),
                        spec_placeholder("filename"@),
                        v,
                    ),
                    spec_placeholder("plugin_name"@),
                    v,
                ),
                spec_placeholder("labels"@),
                v,
            ),
            spec_placeholder("left"@),
            v,
        ),
        spec_placeholder("duration"@),
        v,
    )
}

/// The second positional argument fills any of these placeholders: a plugin
/// name, a secondary label list, or a message detail.
pub open spec fn spec_apply_second(t: Seq<char>, v: Seq<char>) -> Seq<char> {
    spec_replace_all(
        spec_replace_all(
            spec_replace_all(t, spec_placeholder("plugin_name"@), v),
            spec_placeholder("right"@),
            v,
        ),
        spec_placeholder("message"@),
        v,
    )
}

/// Positional substitution: the first argument is broadcast over its
/// candidate names, then the second over its own; further arguments are
/// ignored.
pub open spec fn spec_render_positional(t: Seq<char>, args: Seq<Seq<char>>) -> Seq<char> {
    if args.len() == 0 {
        t
    } else if args.len() == 1 {
        spec_apply_first(t, args[0])
    } else {
        spec_apply_second(spec_apply_first(t, args[0]), args[1])
    }
}

/// Looks the identifier up and substitutes the named arguments in order.
pub fn get_message_with_named_args(message_id: &str, args: &[(&str, &str)]) -> (r: String)
    ensures
        r@ == spec_render_named(spec_get_message(message_id@), args.deep_view()),
{
    let msg = get_message(message_id);
    render_named(msg.as_str(), args)
}

/// Looks the identifier up and substitutes the positional arguments, each
/// broadcast over the well-known placeholder names of its position.
pub fn get_message_with_args(message_id: &str, args: &[&str]) -> (r: String)
    ensures
        r@ == spec_render_positional(spec_get_message(message_id@), args.deep_view()),
{
    let ghost dv = args.deep_view();
    let mut msg = get_message(message_id);
    if args.len() >= 1 {
        let a0 = args[0];
        proof {
            assert(dv[0] == a0@);
        }
        msg = replace_placeholder(msg.as_str(), "err", a0);
        msg = replace_placeholder(msg.as_str(), "filename", a0);
        msg = replace_placeholder(msg.as_str(), "plugin_name", a0);
        msg = replace_placeholder(msg.as_str(), "labels", a0);
        msg = replace_placeholder(msg.as_str(), "left", a0);
        msg = replace_placeholder(msg.as_str(), "duration", a0);
    }
    if args.len() >= 2 {
        let a1 = args[1];
        proof {
            assert(dv[1] == a1@);
        }
        msg = replace_placeholder(msg.as_str(), "plugin_name", a1);
        msg = replace_placeholder(msg.as_str(), "right", a1);
        msg = replace_placeholder(msg.as_str(), "message", a1);
    }
    msg
}

/// Renders a message for embedding into an error value.
pub fn error_string(message_id: &str) -> (r: String)
    ensures
        r@ == spec_get_message(message_id@),
{
    get_message(message_id)
}

/// Renders a message with named arguments for embedding into an error value.
pub fn error_string_with_args(message_id: &str, args: &[(&str, &str)]) -> (r: String)
    ensures
        r@ == spec_render_named(spec_get_message(message_id@), args.deep_view()),
{
    get_message_with_named_args(message_id, args)
}

/// The text the write-line operation emits: the write operation's text with
/// a trailing line terminator, and nothing else changed.
pub fn line_of(msg: &str) -> (r: String)
    ensures
        r@ == msg@.push('\n'),
{
    let mut out = String::from_str(msg);
    out.append("\n");
    proof {
        reveal_strlit("\n");
        assert(out@ =~= msg@.push('\n'));
    }
    out
}

/// Round trip: a template without any `{` contains no placeholder, so
/// positional substitution returns it unchanged whatever the arguments are.
pub proof fn lemma_round_trip_positional(t: Seq<char>, args: Seq<Seq<char>>)
    requires
        forall|i: int| 0 <= i < t.len() ==> t[i] != '{',
    ensures
        spec_render_positional(t, args) == t,
{
    if args.len() >= 1 {
        lemma_replace_name_unchanged(t, "err"@, args[0]);
        lemma_replace_name_unchanged(t, "filename"@, args[0]);
        lemma_replace_name_unchanged(t, "plugin_name"@, args[0]);
        lemma_replace_name_unchanged(t, "labels"@, args[0]);
        lemma_replace_name_unchanged(t, "left"@, args[0]);
        lemma_replace_name_unchanged(t, "duration"@, args[0]);
        assert(spec_apply_first(t, args[0]) == t);
    }
    if args.len() >= 2 {
        lemma_replace_name_unchanged(t, "plugin_name"@, args[1]);
        lemma_replace_name_unchanged(t, "right"@, args[1]);
        lemma_replace_name_unchanged(t, "message"@, args[1]);
        assert(spec_apply_second(t, args[1]) == t);
    }
}

} // verus!
