//! Text computed for the terminal interface: pane titles, the processing
//! animation frames, and line shortening. The rendering itself is the
//! embedding program's concern.

use crate::commandlist::CommandEntry;
use crate::strutil::{replace_all, replace_seq, spec_join};
use vstd::prelude::*;

verus! {

/// The indicator text for one frame of the 6-frame processing animation, and
/// empty when nothing is processing.
pub open spec fn spec_processing_frame(state: Option<u8>) -> Seq<char> {
    match state {
        Some(0u8) => " ⠟"@,
        Some(1u8) => " ⠯"@,
        Some(2u8) => " ⠷"@,
        Some(3u8) => " ⠾"@,
        Some(4u8) => " ⠽"@,
        Some(5u8) => " ⠻"@,
        _ => ""@,
    }
}

/// Display an animation indicator, state being the current frame of the
/// 6-frame animation.
pub fn display_processing_state(state: Option<u8>) -> (r: &'static str)
    ensures
        r@ == spec_processing_frame(state),
{
    match state {
        Some(0u8) => " ⠟",
        Some(1u8) => " ⠯",
        Some(2u8) => " ⠷",
        Some(3u8) => " ⠾",
        Some(4u8) => " ⠽",
        Some(5u8) => " ⠻",
        _ => "",
    }
}

/// Truncates a string to a specific length and adds an ellipsis if needed.
/// Lengths count characters; `length` must leave room for the ellipsis.
pub fn truncate_with_ellipsis(line: String, length: usize) -> (r: String)
    requires
        length >= 5,
    ensures
        line@.len() > length - 5 ==> r@ == line@.take((length - 5) as int) + "..."@,
        line@.len() <= length - 5 ==> r == line,
{
    let n = line.as_str().unicode_len();
    if n > length - 5 {
        let mut r = String::from_str(line.as_str().substring_char(0, length - 5));
        r.append("...");
        r
    } else {
        line
    }
}

/// The title of the output pane: a marker for output of an edited command
/// that has not been re-evaluated, then the processing indicator.
pub fn outputs_title(changed: bool, processing_state: Option<u8>) -> (r: String)
    ensures
        r@ == "Output"@ + (if changed {
            ""@
        } else {
            " [+]"@
        }) + spec_processing_frame(processing_state),
{
    let mut r = String::from_str("Output");
    if !changed {
        r.append(" [+]");
    }
    r.append(display_processing_state(processing_state));
    proof {
        reveal_strlit("");
        if changed {
            assert(r@ =~= "Output"@ + ""@ + spec_processing_frame(processing_state));
        }
    }
    r
}

/// The title of the command input pane, naming each active mode.
pub fn input_block_title(is_bookmarked: bool, autoeval: bool, caching: bool, paranoid: bool) -> (r:
    String)
    ensures
        r@ == "Command"@ + (if is_bookmarked {
            " [Bookmarked]"@
        } else {
            ""@
        }) + (if autoeval {
            " [Autoeval]"@
        } else {
            ""@
        }) + (if caching {
            " [Caching]"@
        } else {
            ""@
        }) + (if autoeval && paranoid {
            " [Paranoid]"@
        } else {
            ""@
        }),
{
    let mut r = String::from_str("Command");
    if is_bookmarked {
        r.append(" [Bookmarked]");
    }
    if autoeval {
        r.append(" [Autoeval]");
    }
    if caching {
        r.append(" [Caching]");
    }
    if autoeval && paranoid {
        r.append(" [Paranoid]");
    }
    proof {
        reveal_strlit("");
        assert(r@ =~= "Command"@ + (if is_bookmarked {
            " [Bookmarked]"@
        } else {
            ""@
        }) + (if autoeval {
            " [Autoeval]"@
        } else {
            ""@
        }) + (if caching {
            " [Caching]"@
        } else {
            ""@
        }) + (if autoeval && paranoid {
            " [Paranoid]"@
        } else {
            ""@
        }));
    }
    r
}

/// The text of a pane's title as it is rendered into the pane's frame: the
/// title padded with one space on each side.
pub fn framed_title(title: &str) -> (r: String)
    ensures
        r@ == " "@ + title@ + " "@,
{
    let mut r = String::from_str(" ");
    r.append(title);
    r.append(" ");
    r
}

/// One display line for a command entry: its text with every line break
/// shown as a return symbol.
pub fn entry_display_line(entry: &CommandEntry) -> (r: String)
    ensures
        r@ == replace_seq(spec_join(entry@, "\n"@), "\n"@, " ↵ "@),
{
    proof {
        reveal_strlit("\n");
    }
    let s = entry.as_string();
    replace_all(s.as_str(), "\n", " ↵ ")
}

} // verus!
