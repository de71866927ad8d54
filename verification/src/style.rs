//! Coloured terminal text.
use owo_colors::OwoColorize;
use vstd::prelude::*;

verus! {

/// `text` between the ANSI sequence that sets the foreground colour with the code `code`, and
/// the sequence that resets the foreground.
pub open spec fn colored(code: Seq<char>, text: Seq<char>) -> Seq<char> {
    "\x1b["@ + code + "m"@ + text + "\x1b[39m"@
}

/// `text` in yellow.
pub open spec fn yellow_text(text: Seq<char>) -> Seq<char> {
    colored("33"@, text)
}

/// `text` in green.
pub open spec fn green_text(text: Seq<char>) -> Seq<char> {
    colored("32"@, text)
}

/// `text` in purple.
pub open spec fn purple_text(text: Seq<char>) -> Seq<char> {
    colored("35"@, text)
}

/// `owo_colors::OwoColorize::yellow`: displayed, the value is the text with the ANSI sequence
/// for a yellow foreground before it and the one for the default foreground after it.
#[verifier::external_body]
pub(crate) fn yellow(text: &str) -> (s: String)
    ensures
        s@ == yellow_text(text@),
{
    format!("{}", text.yellow())
}

/// `owo_colors::OwoColorize::green`: displayed, the value is the text with the ANSI sequence
/// for a green foreground before it and the one for the default foreground after it.
#[verifier::external_body]
pub(crate) fn green(text: &str) -> (s: String)
    ensures
        s@ == green_text(text@),
{
    format!("{}", text.green())
}

/// `owo_colors::OwoColorize::purple`: displayed, the value is the text with the ANSI sequence
/// for a magenta foreground before it and the one for the default foreground after it.
#[verifier::external_body]
pub(crate) fn purple(text: &str) -> (s: String)
    ensures
        s@ == purple_text(text@),
{
    format!("{}", text.purple())
}

/// A colour is set by its ANSI sequence right before the text, and reset right after it.
pub proof fn colors_frame_the_text(text: Seq<char>)
    ensures
        green_text(text) == "\x1b[32m"@ + text + "\x1b[39m"@,
        yellow_text(text) == "\x1b[33m"@ + text + "\x1b[39m"@,
        purple_text(text) == "\x1b[35m"@ + text + "\x1b[39m"@,
{
    reveal_strlit("\x1b[");
    reveal_strlit("m");
    reveal_strlit("32");
    reveal_strlit("33");
    reveal_strlit("35");
    reveal_strlit("\x1b[32m");
    reveal_strlit("\x1b[33m");
    reveal_strlit("\x1b[35m");
    assert(green_text(text) =~= "\x1b[32m"@ + text + "\x1b[39m"@);
    assert(yellow_text(text) =~= "\x1b[33m"@ + text + "\x1b[39m"@);
    assert(purple_text(text) =~= "\x1b[35m"@ + text + "\x1b[39m"@);
}

} // verus!
