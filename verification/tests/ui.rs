use pipr::commandlist::CommandEntry;
use pipr::ui::{
    display_processing_state, entry_display_line, framed_title, input_block_title, outputs_title,
    truncate_with_ellipsis,
};

#[test]
fn framed_title_pads_with_spaces() {
    assert_eq!(framed_title("Preview"), " Preview ");
    assert_eq!(framed_title(""), "  ");
}

#[test]
fn processing_state_has_six_frames() {
    assert_eq!(display_processing_state(Some(0)), " ⠟");
    assert_eq!(display_processing_state(Some(1)), " ⠯");
    assert_eq!(display_processing_state(Some(2)), " ⠷");
    assert_eq!(display_processing_state(Some(3)), " ⠾");
    assert_eq!(display_processing_state(Some(4)), " ⠽");
    assert_eq!(display_processing_state(Some(5)), " ⠻");
    assert_eq!(display_processing_state(Some(6)), "");
    assert_eq!(display_processing_state(None), "");
}

#[test]
fn truncate_keeps_short_lines() {
    assert_eq!(truncate_with_ellipsis("abc".to_string(), 10), "abc");
    assert_eq!(truncate_with_ellipsis("abcde".to_string(), 10), "abcde");
}

#[test]
fn truncate_cuts_long_lines_with_ellipsis() {
    assert_eq!(truncate_with_ellipsis("abcdefghij".to_string(), 10), "abcde...");
    assert_eq!(truncate_with_ellipsis("abcdef".to_string(), 10), "abcde...");
}

#[test]
fn outputs_title_marks_stale_output_and_frame() {
    assert_eq!(outputs_title(true, None), "Output");
    assert_eq!(outputs_title(false, None), "Output [+]");
    assert_eq!(outputs_title(false, Some(2)), "Output [+] ⠷");
    assert_eq!(outputs_title(true, Some(0)), "Output ⠟");
}

#[test]
fn input_title_names_active_modes() {
    assert_eq!(input_block_title(false, false, false, false), "Command");
    assert_eq!(input_block_title(true, false, false, false), "Command [Bookmarked]");
    assert_eq!(
        input_block_title(true, true, true, true),
        "Command [Bookmarked] [Autoeval] [Caching] [Paranoid]"
    );
    // The paranoid marker shows only together with autoeval.
    assert_eq!(input_block_title(false, false, false, true), "Command");
}

#[test]
fn entry_display_line_marks_line_breaks() {
    let e = CommandEntry::new(vec!["echo a".to_string(), "echo b".to_string()]);
    assert_eq!(entry_display_line(&e), "echo a ↵ echo b");
    let single = CommandEntry::new(vec!["ls".to_string()]);
    assert_eq!(entry_display_line(&single), "ls");
}
