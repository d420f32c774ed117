//! Color and style formatting of terminal text with ANSI escape codes.
use vstd::prelude::*;
use crate::text::push_str;

verus! {

/// `text` between the escape sequence that selects style `code` and the one that resets styles.
pub open spec fn styled(code: Seq<char>, text: Seq<char>) -> Seq<char> {
    seq!['\x1b', '['] + code + seq!['m'] + text + seq!['\x1b', '[', '0', 'm']
}

fn wrap(code: &str, text: &str) -> (s: String)
    ensures
        s@ == styled(code@, text@),
{
    let mut s = String::new();
    s.push('\x1b');
    s.push('[');
    push_str(&mut s, code);
    s.push('m');
    push_str(&mut s, text);
    s.push('\x1b');
    s.push('[');
    s.push('0');
    s.push('m');
    assert(s@ =~= styled(code@, text@));
    s
}

/// Colors text black (may be invisible on dark terminals).
pub fn black(text: &str) -> (s: String)
    ensures
        s@ == styled("30"@, text@),
{
    wrap("30", text)
}

/// Colors text red - commonly used for errors and warnings.
pub fn red(text: &str) -> (s: String)
    ensures
        s@ == styled("31"@, text@),
{
    wrap("31", text)
}

/// Colors text green - commonly used for success messages.
pub fn green(text: &str) -> (s: String)
    ensures
        s@ == styled("32"@, text@),
{
    wrap("32", text)
}

/// Colors text yellow - commonly used for warnings or important notices.
pub fn yellow(text: &str) -> (s: String)
    ensures
        s@ == styled("33"@, text@),
{
    wrap("33", text)
}

/// Colors text blue - commonly used for informational messages.
pub fn blue(text: &str) -> (s: String)
    ensures
        s@ == styled("34"@, text@),
{
    wrap("34", text)
}

/// Colors text magenta - commonly used for special values or parameters.
pub fn magenta(text: &str) -> (s: String)
    ensures
        s@ == styled("35"@, text@),
{
    wrap("35", text)
}

/// Colors text cyan - commonly used for system or process information.
pub fn cyan(text: &str) -> (s: String)
    ensures
        s@ == styled("36"@, text@),
{
    wrap("36", text)
}

/// Colors text white (may be default on light terminals).
pub fn white(text: &str) -> (s: String)
    ensures
        s@ == styled("37"@, text@),
{
    wrap("37", text)
}

/// Bright black foreground.
pub fn bright_black(text: &str) -> (s: String)
    ensures
        s@ == styled("90"@, text@),
{
    wrap("90", text)
}

/// Bright red foreground.
pub fn bright_red(text: &str) -> (s: String)
    ensures
        s@ == styled("91"@, text@),
{
    wrap("91", text)
}

/// Bright green foreground.
pub fn bright_green(text: &str) -> (s: String)
    ensures
        s@ == styled("92"@, text@),
{
    wrap("92", text)
}

/// Bright yellow foreground.
pub fn bright_yellow(text: &str) -> (s: String)
    ensures
        s@ == styled("93"@, text@),
{
    wrap("93", text)
}

/// Bright blue foreground.
pub fn bright_blue(text: &str) -> (s: String)
    ensures
        s@ == styled("94"@, text@),
{
    wrap("94", text)
}

/// Bright magenta foreground.
pub fn bright_magenta(text: &str) -> (s: String)
    ensures
        s@ == styled("95"@, text@),
{
    wrap("95", text)
}

/// Bright cyan foreground.
pub fn bright_cyan(text: &str) -> (s: String)
    ensures
        s@ == styled("96"@, text@),
{
    wrap("96", text)
}

/// Bright white foreground.
pub fn bright_white(text: &str) -> (s: String)
    ensures
        s@ == styled("97"@, text@),
{
    wrap("97", text)
}

/// Black background.
pub fn bg_black(text: &str) -> (s: String)
    ensures
        s@ == styled("40"@, text@),
{
    wrap("40", text)
}

/// Red background.
pub fn bg_red(text: &str) -> (s: String)
    ensures
        s@ == styled("41"@, text@),
{
    wrap("41", text)
}

/// Green background.
pub fn bg_green(text: &str) -> (s: String)
    ensures
        s@ == styled("42"@, text@),
{
    wrap("42", text)
}

/// Yellow background.
pub fn bg_yellow(text: &str) -> (s: String)
    ensures
        s@ == styled("43"@, text@),
{
    wrap("43", text)
}

/// Blue background.
pub fn bg_blue(text: &str) -> (s: String)
    ensures
        s@ == styled("44"@, text@),
{
    wrap("44", text)
}

/// Magenta background.
pub fn bg_magenta(text: &str) -> (s: String)
    ensures
        s@ == styled("45"@, text@),
{
    wrap("45", text)
}

/// Cyan background.
pub fn bg_cyan(text: &str) -> (s: String)
    ensures
        s@ == styled("46"@, text@),
{
    wrap("46", text)
}

/// White background.
pub fn bg_white(text: &str) -> (s: String)
    ensures
        s@ == styled("47"@, text@),
{
    wrap("47", text)
}

/// Makes text bold/bright.
pub fn bold(text: &str) -> (s: String)
    ensures
        s@ == styled("1"@, text@),
{
    wrap("1", text)
}

/// Makes text dim/faint.
pub fn dim(text: &str) -> (s: String)
    ensures
        s@ == styled("2"@, text@),
{
    wrap("2", text)
}

/// Makes text italic (not widely supported).
pub fn italic(text: &str) -> (s: String)
    ensures
        s@ == styled("3"@, text@),
{
    wrap("3", text)
}

/// Underlines text.
pub fn underline(text: &str) -> (s: String)
    ensures
        s@ == styled("4"@, text@),
{
    wrap("4", text)
}

/// Makes text blink (not widely supported).
pub fn blink(text: &str) -> (s: String)
    ensures
        s@ == styled("5"@, text@),
{
    wrap("5", text)
}

/// Swaps foreground and background colors.
pub fn reverse(text: &str) -> (s: String)
    ensures
        s@ == styled("7"@, text@),
{
    wrap("7", text)
}

/// Makes text invisible (same color as background).
pub fn hidden(text: &str) -> (s: String)
    ensures
        s@ == styled("8"@, text@),
{
    wrap("8", text)
}

/// Adds a line through the text.
pub fn strikethrough(text: &str) -> (s: String)
    ensures
        s@ == styled("9"@, text@),
{
    wrap("9", text)
}

} // verus!
