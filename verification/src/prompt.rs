use vstd::prelude::*;
use owo_colors::OwoColorize;

verus! {

/// `text` between the terminal codes that switch the foreground colour to
/// blue and back to the default.
pub open spec fn blue_text(text: Seq<char>) -> Seq<char> {
    seq!['\x1b', '[', '3', '4', 'm'] + text + seq!['\x1b', '[', '3', '9', 'm']
}

/// The key bindings shown above the selection menu.
pub open spec fn selection_help() -> Seq<char> {
    "[↑↓] navigate, [space] un/select, [enter] submit, [q] quit"@
}

/// The question asked once the devices' data is deleted.
pub open spec fn recreate_question() -> Seq<char> {
    "Would you like to recreate these devices?\nThis will restore them to their default state."@
}

/// `OwoColorize::blue` on a string slice, rendered with `to_string`.
/// Trusted: the rendering is the escape sequence for a blue foreground, the
/// text itself, and the escape sequence for the default foreground.
#[verifier::external_body]
fn blue(text: &str) -> (colored: String)
    ensures
        colored@ == blue_text(text@),
{
    text.blue().to_string()
}

/// The prompt of the selection menu: the key bindings, in blue.
pub fn selection_prompt() -> (prompt: String)
    ensures
        prompt@ == blue_text(selection_help()),
{
    blue("[↑↓] navigate, [space] un/select, [enter] submit, [q] quit")
}

/// The prompt of the confirmation that follows the deletion.
pub fn recreate_prompt() -> (prompt: String)
    ensures
        prompt@ == recreate_question(),
{
    "Would you like to recreate these devices?\nThis will restore them to their default state.".to_owned()
}

} // verus!
