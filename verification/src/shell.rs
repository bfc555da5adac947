//! Shell integration: the line that loads the plugin from a shell's startup
//! file.
use vstd::prelude::*;

verus! {

/// The name of the installed plugin script.
pub const PLUGIN_FILE: &'static str = "chitin.zsh";

/// The comment written above the line that loads the plugin.
pub const INTEGRATION_COMMENT: &'static str = "# Chitin Shell Integration";

/// The line that loads the plugin at `script_path`.
pub open spec fn source_line_of(script_path: Seq<char>) -> Seq<char> {
    "source \""@ + script_path + "\""@
}

/// The line that loads the plugin at `script_path`.
pub fn source_line(script_path: &str) -> (line: String)
    ensures
        line@ == source_line_of(script_path@),
{
    let mut line = String::from_str("source \"");
    line.append(script_path);
    line.append("\"");
    line
}

/// Whether `needle` stands somewhere in `text`.
pub open spec fn occurs_in(needle: Seq<char>, text: Seq<char>) -> bool {
    exists|start: int|
        0 <= start && start + needle.len() <= text.len() && #[trigger] text.subrange(
            start,
            start + needle.len(),
        ) == needle
}

/// Whether `needle` stands somewhere in `text`.
///
/// Calls `str::contains` with a string pattern.  Trusted: the result is
/// `true` exactly where some run of consecutive characters of `text`
/// equals `needle`.
#[verifier::external_body]
fn contains(text: &str, needle: &str) -> (found: bool)
    ensures
        found == occurs_in(needle@, text@),
{
    text.contains(needle)
}

/// Whether a startup file with the contents `startup` already loads the
/// plugin at `script_path`.
pub fn already_sourced(startup: &str, script_path: &str) -> (sourced: bool)
    ensures
        sourced == occurs_in(source_line_of(script_path@), startup@),
{
    let line = source_line(script_path);
    contains(startup, line.as_str())
}

/// What is appended to a startup file to load the plugin at `script_path`:
/// an empty line, the comment, and the line that loads the plugin.
pub fn integration_block(script_path: &str) -> (block: String)
    ensures
        block@ == "\n"@ + INTEGRATION_COMMENT@ + "\n"@ + source_line_of(script_path@) + "\n"@,
{
    let mut block = String::from_str("\n");
    block.append(INTEGRATION_COMMENT);
    block.append("\n");
    block.append(source_line(script_path).as_str());
    block.append("\n");
    block
}

} // verus!
