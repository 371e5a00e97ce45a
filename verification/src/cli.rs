//! Text for the terminal: colour, and the short help.

use crate::text::first_chars;
use vstd::prelude::*;
use vstd::string::StringExecFns;

verus! {

/// Whether colour is switched off: any one of the three sources suffices.
pub fn resolve_no_color_from_sources(
    cli_no_color: bool,
    jfp_no_color_present: bool,
    no_color_present: bool,
) -> (off: bool)
    ensures
        off == (cli_no_color || jfp_no_color_present || no_color_present),
{
    cli_no_color || jfp_no_color_present || no_color_present
}

/// `text` in the style `ansi`: between the escape sequence that switches the
/// style on and the one that resets it. Without colour, `text` itself.
pub open spec fn styled(text: Seq<char>, ansi: Seq<char>, no_color: bool) -> Seq<char> {
    if no_color {
        text
    } else {
        "\x1b["@ + ansi + "m"@ + text + "\x1b[0m"@
    }
}

/// `text` in the style `ansi`, or as it is where colour is switched off.
pub fn stylize(text: &str, ansi: &str, no_color: bool) -> (out: String)
    ensures
        out@ == styled(text@, ansi@, no_color),
{
    if no_color {
        text.to_string()
    } else {
        let mut out = "\x1b[".to_string();
        out.append(ansi);
        out.append("m");
        out.append(text);
        out.append("\x1b[0m");
        out
    }
}

/// The longest description that a list shows whole, in characters.
pub const LIST_WIDTH: usize = 60;

/// `text` as a list shows it: whole where it has no more than sixty
/// characters, else its first fifty-seven and three dots.
pub open spec fn shortened(text: Seq<char>) -> Seq<char> {
    if text.len() > LIST_WIDTH {
        text.take(LIST_WIDTH - 3) + "..."@
    } else {
        text
    }
}

/// `text` as a list shows it.
pub fn shorten(text: &str) -> (out: String)
    ensures
        out@ == shortened(text@),
{
    if text.unicode_len() > LIST_WIDTH {
        let mut out = first_chars(text, LIST_WIDTH - 3);
        out.append("...");
        out
    } else {
        text.to_string()
    }
}

/// The short help: a title, the commands to start with, the hint at
/// machine-readable output, the interactive browser, and where to read more.
/// The headings are styled, the rest is plain.
pub open spec fn quick_start_text(no_color: bool) -> Seq<char> {
    styled("jfp - Jeffrey's Prompts CLI"@, "1;36"@, no_color) + "\n\n"@ + styled(
        "QUICK START:"@,
        "1"@,
        no_color,
    ) + "\n"@ + "jfp list                    List all prompts\n"@
        + "jfp search \"idea\"           Fuzzy search\n"@
        + "jfp show idea-wizard        View full prompt\n"@
        + "jfp export idea-wizard      Export as markdown\n\n"@ + styled(
        "ADD --json TO ANY COMMAND FOR MACHINE-READABLE OUTPUT"@,
        "1"@,
        no_color,
    ) + "\n\n"@ + styled("EXPLORE:"@, "1"@, no_color) + "\n"@
        + "jfp i                       Interactive browser (fzf-style)\n\n"@ + styled(
        "MORE:"@,
        "1"@,
        no_color,
    ) + " jfp help | Docs: https://jeffreysprompts.com\n"@
}

/// The short help that is shown where no command is given.
pub fn render_quick_start_help(no_color: bool) -> (out: String)
    ensures
        out@ == quick_start_text(no_color),
{
    let title = stylize("jfp - Jeffrey's Prompts CLI", "1;36", no_color);
    let quick_start = stylize("QUICK START:", "1", no_color);
    let json_tip = stylize("ADD --json TO ANY COMMAND FOR MACHINE-READABLE OUTPUT", "1", no_color);
    let explore = stylize("EXPLORE:", "1", no_color);
    let more = stylize("MORE:", "1", no_color);
    let mut out = title;
    out.append("\n\n");
    out.append(quick_start.as_str());
    out.append("\n");
    out.append("jfp list                    List all prompts\n");
    out.append("jfp search \"idea\"           Fuzzy search\n");
    out.append("jfp show idea-wizard        View full prompt\n");
    out.append("jfp export idea-wizard      Export as markdown\n\n");
    out.append(json_tip.as_str());
    out.append("\n\n");
    out.append(explore.as_str());
    out.append("\n");
    out.append("jfp i                       Interactive browser (fzf-style)\n\n");
    out.append(more.as_str());
    out.append(" jfp help | Docs: https://jeffreysprompts.com\n");
    out
}

} // verus!
