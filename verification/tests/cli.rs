use jfp::cli::{render_quick_start_help, resolve_no_color_from_sources, stylize};

#[test]
fn quick_start_help_includes_core_sections() {
    let output = render_quick_start_help(true);

    assert!(output.contains("jfp - Jeffrey's Prompts CLI"));
    assert!(output.contains("QUICK START:"));
    assert!(output.contains("jfp list"));
    assert!(output.contains("jfp search \"idea\""));
    assert!(output.contains("ADD --json TO ANY COMMAND FOR MACHINE-READABLE OUTPUT"));
    assert!(output.contains("MORE: jfp help | Docs: https://jeffreysprompts.com"));
}

#[test]
fn quick_start_help_omits_ansi_when_no_color_enabled() {
    let output = render_quick_start_help(true);
    assert!(!output.contains("\x1b["));
}

#[test]
fn quick_start_help_includes_ansi_when_color_enabled() {
    let output = render_quick_start_help(false);
    assert!(output.contains("\x1b[1;36m"));
}

#[test]
fn resolve_no_color_from_sources_uses_any_true_source() {
    assert!(!resolve_no_color_from_sources(false, false, false));
    assert!(resolve_no_color_from_sources(true, false, false));
    assert!(resolve_no_color_from_sources(false, true, false));
    assert!(resolve_no_color_from_sources(false, false, true));
}

#[test]
fn stylize_wraps_text_in_escape_sequences() {
    assert_eq!(stylize("hi", "1", false), "\x1b[1mhi\x1b[0m");
    assert_eq!(stylize("hi", "1", true), "hi");
}

#[test]
fn quick_start_help_exact_text_without_colour() {
    let expected = "jfp - Jeffrey's Prompts CLI\n\nQUICK START:\n\
jfp list                    List all prompts\n\
jfp search \"idea\"           Fuzzy search\n\
jfp show idea-wizard        View full prompt\n\
jfp export idea-wizard      Export as markdown\n\n\
ADD --json TO ANY COMMAND FOR MACHINE-READABLE OUTPUT\n\n\
EXPLORE:\n\
jfp i                       Interactive browser (fzf-style)\n\n\
MORE: jfp help | Docs: https://jeffreysprompts.com\n";
    assert_eq!(render_quick_start_help(true), expected);
}
