//! Help texts: the one-line hint above the board and the full help menu.

use vstd::prelude::*;

use crate::input::InputMode;

verus! {

/// One row of the help menu: what happens, the key that causes it, and the
/// mode it applies in.
pub struct HelpRow {
    pub description: &'static str,
    pub event: &'static str,
    pub context: &'static str,
}

/// The full help table, as (description, event, context) triples.
pub open spec fn spec_help_rows() -> Seq<(Seq<char>, Seq<char>, Seq<char>)> {
    seq![
        ("Show the help screen"@, "h"@, "Normal"@),
        ("Quit"@, "q"@, "Normal"@),
        ("Enter title mode"@, "t"@, "Normal"@),
        ("Enter description mode"@, "d"@, "Normal"@),
        ("Select previous card"@, "Up"@, "Normal"@),
        ("Select next card"@, "Down"@, "Normal"@),
        ("Focus previous lane"@, "Left"@, "Normal"@),
        ("Focus next lane"@, "Right"@, "Normal"@),
        ("Move card to previous lane"@, "Ctrl-l"@, "Normal"@),
        ("Move card to next lane"@, "Ctrl-r"@, "Normal"@),
        ("Commit the entry"@, "Enter"@, "Title / Description"@),
        ("Delete the last character"@, "Backspace"@, "Title / Description"@),
        ("Cancel the entry"@, "Esc"@, "Title / Description"@),
    ]
}

/// The help menu rows from `offset` on (the menu scrolls by whole rows); an
/// offset past the table yields no rows.
pub fn draw_help_menu(offset: usize) -> (rows: Vec<HelpRow>)
    ensures
        rows@.len() == (if offset as int <= spec_help_rows().len() {
            spec_help_rows().len() - offset
        } else {
            0int
        }),
        forall|i: int|
            0 <= i < rows@.len() ==> {
                &&& (#[trigger] rows@[i]).description@ == spec_help_rows()[i + offset].0
                &&& rows@[i].event@ == spec_help_rows()[i + offset].1
                &&& rows@[i].context@ == spec_help_rows()[i + offset].2
            },
{
    let mut all: Vec<HelpRow> = Vec::new();
    all.push(HelpRow { description: "Show the help screen", event: "h", context: "Normal" });
    all.push(HelpRow { description: "Quit", event: "q", context: "Normal" });
    all.push(HelpRow { description: "Enter title mode", event: "t", context: "Normal" });
    all.push(HelpRow { description: "Enter description mode", event: "d", context: "Normal" });
    all.push(HelpRow { description: "Select previous card", event: "Up", context: "Normal" });
    all.push(HelpRow { description: "Select next card", event: "Down", context: "Normal" });
    all.push(HelpRow { description: "Focus previous lane", event: "Left", context: "Normal" });
    all.push(HelpRow { description: "Focus next lane", event: "Right", context: "Normal" });
    all.push(
        HelpRow { description: "Move card to previous lane", event: "Ctrl-l", context: "Normal" },
    );
    all.push(
        HelpRow { description: "Move card to next lane", event: "Ctrl-r", context: "Normal" },
    );
    all.push(
        HelpRow { description: "Commit the entry", event: "Enter", context: "Title / Description" },
    );
    all.push(
        HelpRow {
            description: "Delete the last character",
            event: "Backspace",
            context: "Title / Description",
        },
    );
    all.push(
        HelpRow { description: "Cancel the entry", event: "Esc", context: "Title / Description" },
    );
    let at = if offset < all.len() {
        offset
    } else {
        all.len()
    };
    let rows = all.split_off(at);
    rows
}

/// The one-line hint shown above the board, by mode.
pub fn help_hint(mode: &InputMode) -> (hint: &'static str)
    ensures
        *mode is Normal ==> hint@ == "Press 'h' for HELP or 'q' to EXIT"@,
        !(*mode is Normal) ==> hint@ == "Press ESC to enter NORMAL mode"@,
{
    match mode {
        InputMode::Normal => "Press 'h' for HELP or 'q' to EXIT",
        InputMode::TitleEntry => "Press ESC to enter NORMAL mode",
        InputMode::DescriptionEntry => "Press ESC to enter NORMAL mode",
    }
}

} // verus!
