//! The line that announces a step to the operator.

use vstd::prelude::*;
use vstd::string::*;

verus! {

/// The tag that every announcement carries.
pub const TAG: &'static str = "MC-SDK";

/// `libtermcolor::colors::bright_black().regular`: the escape sequence that
/// switches the terminal to bright black.
#[verifier::external_body]
fn bright_black() -> (r: &'static str)
    ensures
        r@ == "\x1b[0;90m"@,
{
    libtermcolor::colors::bright_black().regular
}

/// `libtermcolor::colors::bright_green().regular`: the escape sequence that
/// switches the terminal to bright green.
#[verifier::external_body]
fn bright_green() -> (r: &'static str)
    ensures
        r@ == "\x1b[0;92m"@,
{
    libtermcolor::colors::bright_green().regular
}

/// `libtermcolor::colors::reset()`: the escape sequence that switches the
/// terminal back to its defaults.
#[verifier::external_body]
fn reset() -> (r: &'static str)
    ensures
        r@ == "\x1b[0m"@,
{
    libtermcolor::colors::reset()
}

/// An announcement: the tag in bright green between bright black brackets,
/// then the message in bright green, then a reset.
pub open spec fn info_text(msg: Seq<char>) -> Seq<char> {
    "\x1b[0;90m"@ + "["@ + "\x1b[0;92m"@ + TAG@ + "\x1b[0;90m"@ + "]"@ + "\x1b[0;92m"@ + " "@ + msg + "\x1b[0m"@
}

/// Builds the line that announces `msg`.
pub fn info_line(msg: &str) -> (r: String)
    ensures
        r@ == info_text(msg@),
{
    let mut out = String::from_str(bright_black());
    out.append("[");
    out.append(bright_green());
    out.append(TAG);
    out.append(bright_black());
    out.append("]");
    out.append(bright_green());
    out.append(" ");
    out.append(msg);
    out.append(reset());
    out
}

} // verus!
