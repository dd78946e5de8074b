//! A message-templating engine for rendering diagnostic text.
//!
//! A fixed catalog maps stable message identifiers to template strings;
//! a substitution engine replaces `{name}` placeholders in a template with
//! caller-supplied values, either by name or by position.

pub mod catalog;
pub mod messages;
pub mod subst;
