//! Tests of the screen layout arithmetic and the help texts.

use kanban::help::{draw_help_menu, help_hint};
use kanban::input::InputMode;
use kanban::layout::{draw_main_layout, Rect};

fn within(r: Rect, outer: Rect) -> bool {
    outer.x <= r.x
        && r.x as u32 + r.width as u32 <= outer.x as u32 + outer.width as u32
        && outer.y <= r.y
        && r.y as u32 + r.height as u32 <= outer.y as u32 + outer.height as u32
}

#[test]
fn layout_of_a_standard_terminal() {
    let area = Rect { x: 0, y: 0, width: 80, height: 24 };
    let layout = draw_main_layout(area, 4);
    // Inside the one-cell margin the rows take 8, 12, 50 and 30 percent of
    // the 22 remaining rows, rounded down.
    assert_eq!(layout.help, Rect { x: 1, y: 1, width: 78, height: 1 });
    assert_eq!(layout.input, Rect { x: 1, y: 2, width: 78, height: 2 });
    assert_eq!(layout.lanes.len(), 4);
    for (i, lane) in layout.lanes.iter().enumerate() {
        assert_eq!(*lane, Rect { x: 2 + 19 * i as u16, y: 5, width: 19, height: 9 });
    }
    assert_eq!(layout.description, Rect { x: 2, y: 16, width: 57, height: 4 });
    assert_eq!(layout.detail, Rect { x: 59, y: 16, width: 19, height: 4 });
}

#[test]
fn layout_regions_stay_inside_the_area() {
    let area = Rect { x: 3, y: 7, width: 41, height: 17 };
    let layout = draw_main_layout(area, 5);
    assert!(within(layout.help, area));
    assert!(within(layout.input, area));
    assert!(within(layout.description, area));
    assert!(within(layout.detail, area));
    assert_eq!(layout.lanes.len(), 5);
    for lane in layout.lanes.iter() {
        assert!(within(*lane, area));
    }
}

#[test]
fn layout_of_a_tiny_area_is_empty_but_sound() {
    let area = Rect { x: 0, y: 0, width: 1, height: 1 };
    let layout = draw_main_layout(area, 4);
    assert_eq!(layout.help.width, 0);
    assert_eq!(layout.help.height, 0);
    assert_eq!(layout.lanes.len(), 4);
    for lane in layout.lanes.iter() {
        assert_eq!(lane.width, 0);
        assert!(within(*lane, area));
    }
}

#[test]
fn help_menu_lists_every_binding() {
    let rows = draw_help_menu(0);
    assert_eq!(rows.len(), 13);
    assert_eq!(rows[0].description, "Show the help screen");
    assert_eq!(rows[0].event, "h");
    assert_eq!(rows[0].context, "Normal");
    assert_eq!(rows[9].event, "Ctrl-r");
    assert_eq!(rows[12].event, "Esc");
    assert_eq!(rows[12].context, "Title / Description");
}

#[test]
fn help_menu_scrolls_by_whole_rows() {
    let rows = draw_help_menu(11);
    assert_eq!(rows.len(), 2);
    assert_eq!(rows[0].description, "Delete the last character");
    assert_eq!(rows[1].event, "Esc");
    assert!(draw_help_menu(13).is_empty());
    assert!(draw_help_menu(50).is_empty());
}

#[test]
fn help_hint_follows_the_mode() {
    assert_eq!(help_hint(&InputMode::Normal), "Press 'h' for HELP or 'q' to EXIT");
    assert_eq!(help_hint(&InputMode::TitleEntry), "Press ESC to enter NORMAL mode");
    assert_eq!(help_hint(&InputMode::DescriptionEntry), "Press ESC to enter NORMAL mode");
}
