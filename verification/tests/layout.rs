use json_editor::editor::ActiveScreen;
use json_editor::editor::EditingMode;
use json_editor::editor::JsonEditor;
use json_editor::editor::KeyEvent;
use json_editor::ui::centered_rect;
use json_editor::ui::inner_margin;
use json_editor::ui::render_pair_line;
use json_editor::ui::split_half;
use json_editor::ui::ui;
use json_editor::ui::vertical_bands;
use json_editor::ui::Rect;
use json_editor::ui::TextColor;

fn rect(x: u16, y: u16, width: u16, height: u16) -> Rect {
    Rect { x, y, width, height }
}

#[test]
fn bands_tile_the_viewport_for_tall_screens() {
    for h in [7u16, 8, 24, 100, 65535] {
        let v = rect(0, 0, 80, h);
        let (a, b, c) = vertical_bands(v);
        assert_eq!(a.height, 3);
        assert_eq!(b.height, h - 6);
        assert_eq!(c.height, 3);
        assert_eq!(a.height + b.height + c.height, h);
        assert_eq!(a.y, 0);
        assert_eq!(b.y, 3);
        assert_eq!(c.y, h - 3);
    }
}

#[test]
fn bands_tile_the_viewport_when_starved() {
    for h in 0u16..7 {
        let v = rect(2, 5, 80, h);
        let (a, b, c) = vertical_bands(v);
        assert_eq!(a.height + b.height + c.height, h);
        if h >= 3 {
            assert_eq!(b.height, 1);
        }
        assert_eq!(a.y, 5);
        assert_eq!(b.y, 5 + a.height);
        assert_eq!(c.y, 5 + a.height + b.height);
    }
}

#[test]
fn split_half_covers_the_width() {
    let (l, r) = split_half(rect(0, 0, 101, 3));
    assert_eq!(l, rect(0, 0, 50, 3));
    assert_eq!(r, rect(50, 0, 51, 3));
}

#[test]
fn centered_rect_60_25_of_a_100_square() {
    let r = centered_rect(60, 25, rect(0, 0, 100, 100));
    assert_eq!(r.width, 60);
    assert_eq!(r.height, 25);
    assert_eq!(r.x, 20);
    assert_eq!(r.y, 37);
    // margins: 20 on each side; 37 above, 38 below
    assert_eq!(100 - r.x - r.width, 20);
    assert_eq!(100 - r.y - r.height, 38);
}

#[test]
fn centered_rect_stays_inside_offset_containers() {
    let c = rect(10, 20, 33, 17);
    let r = centered_rect(60, 25, c);
    assert!(r.x >= c.x && r.x + r.width <= c.x + c.width);
    assert!(r.y >= c.y && r.y + r.height <= c.y + c.height);
    assert_eq!(r.width, 33 * 60 / 100);
    assert_eq!(r.height, 17 * 25 / 100);
}

#[test]
fn inner_margin_shrinks_by_one_cell_each_side() {
    assert_eq!(inner_margin(rect(20, 37, 60, 25)), rect(21, 38, 58, 23));
    assert_eq!(inner_margin(rect(4, 4, 1, 5)), rect(0, 0, 0, 0));
    assert_eq!(inner_margin(rect(4, 4, 5, 1)), rect(0, 0, 0, 0));
}

#[test]
fn pair_lines_pad_keys_to_a_25_column() {
    let line = render_pair_line(&"a".to_string(), &"bc".to_string());
    assert_eq!(line, format!("{: <25} : {}", "a", "bc"));
    assert_eq!(line.chars().count(), 25 + 3 + 2);
}

#[test]
fn pair_lines_truncate_long_keys_to_the_column() {
    let key = "a".repeat(30);
    let line = render_pair_line(&key, &"v".to_string());
    assert_eq!(line, format!("{} : v", "a".repeat(25)));
    assert_eq!(line.chars().count(), 25 + 3 + 1);
}

#[test]
fn pair_lines_keep_a_key_of_exactly_25_characters() {
    let key = "b".repeat(25);
    let line = render_pair_line(&key, &"w".to_string());
    assert_eq!(line, format!("{} : w", key));
}

#[test]
fn centered_rect_margins_balance_on_odd_leftovers() {
    // 99 wide at 60%: size 59, margins 20 and 20
    let r = centered_rect(60, 25, rect(0, 0, 99, 99));
    assert_eq!(r.width, 59);
    assert_eq!(r.x, 20);
    assert_eq!(99 - r.x - r.width, 20);
    // 99 tall at 25%: size 24, margins 37 and 38
    assert_eq!(r.height, 24);
    assert_eq!(r.y, 37);
    assert_eq!(99 - r.y - r.height, 38);
}

#[test]
fn main_screen_plan_has_bands_and_no_popups() {
    let mut ed = JsonEditor::new();
    for k in [
        KeyEvent::Char('e'),
        KeyEvent::Char('a'),
        KeyEvent::Enter,
        KeyEvent::Char('b'),
        KeyEvent::Char('c'),
        KeyEvent::Enter,
    ] {
        ed.handle_key_event(k);
    }
    let plan = ui(&ed, rect(0, 0, 100, 100));
    assert_eq!(plan.title.area, rect(0, 0, 100, 3));
    assert_eq!(plan.title.text.text, "Create New Json");
    assert_eq!(plan.title.text.fg, TextColor::Green);
    assert_eq!(plan.list.area, rect(0, 3, 100, 94));
    assert_eq!(plan.list.lines.len(), 1);
    assert_eq!(plan.list.lines[0].text, format!("{: <25} : {}", "a", "bc"));
    assert_eq!(plan.list.lines[0].fg, TextColor::Yellow);
    assert_eq!(plan.footer.mode_area, rect(0, 97, 50, 3));
    assert_eq!(plan.footer.hint_area, rect(50, 97, 50, 3));
    assert_eq!(plan.footer.mode_spans.len(), 3);
    assert_eq!(plan.footer.mode_spans[0].text, "Normal Mode");
    assert_eq!(plan.footer.mode_spans[0].fg, TextColor::Green);
    assert_eq!(plan.footer.mode_spans[1].text, " | ");
    assert_eq!(plan.footer.mode_spans[1].fg, TextColor::White);
    assert_eq!(plan.footer.mode_spans[2].text, "Not Editing Anything");
    assert_eq!(plan.footer.mode_spans[2].fg, TextColor::DarkGray);
    assert_eq!(plan.footer.hint.text, "(q) to quit / (e) to make new pair");
    assert_eq!(plan.footer.hint.fg, TextColor::Red);
    assert!(plan.edit_popup.is_none());
    assert!(plan.exit_popup.is_none());
}

#[test]
fn editing_screen_plan_shows_the_popup() {
    let mut ed = JsonEditor::new();
    for k in [KeyEvent::Char('e'), KeyEvent::Char('k'), KeyEvent::Tab, KeyEvent::Char('v')] {
        ed.handle_key_event(k);
    }
    let plan = ui(&ed, rect(0, 0, 100, 100));
    assert_eq!(plan.footer.mode_spans[0].text, "Editing Mode");
    assert_eq!(plan.footer.mode_spans[2].text, "Editing Json Value");
    assert_eq!(plan.footer.mode_spans[2].fg, TextColor::LightGreen);
    assert_eq!(
        plan.footer.hint.text,
        "(ESC) to cancel/(Tab) to switch boxes/enter to complete"
    );
    let popup = plan.edit_popup.expect("editing popup must be planned");
    assert_eq!(popup.area, rect(20, 37, 60, 25));
    assert_eq!(popup.title, "Enter a new key-value pair");
    assert_eq!(popup.key_box, rect(21, 38, 29, 23));
    assert_eq!(popup.value_box, rect(50, 38, 29, 23));
    assert_eq!(popup.key_text, "k");
    assert_eq!(popup.value_text, "v");
    assert_eq!(popup.active, EditingMode::Value);
    assert!(plan.exit_popup.is_none());
}

#[test]
fn key_mode_highlights_the_key_box() {
    let mut ed = JsonEditor::new();
    ed.handle_key_event(KeyEvent::Char('e'));
    let plan = ui(&ed, rect(0, 0, 80, 24));
    let popup = plan.edit_popup.expect("editing popup must be planned");
    assert_eq!(popup.active, EditingMode::Key);
    assert_eq!(plan.footer.mode_spans[2].text, "Editing Json Key");
    assert_eq!(plan.footer.mode_spans[2].fg, TextColor::Green);
}

#[test]
fn exit_screen_plan_clears_and_asks() {
    let mut ed = JsonEditor::new();
    ed.handle_key_event(KeyEvent::Char('q'));
    assert_eq!(ed.current_screen, ActiveScreen::Exiting);
    let plan = ui(&ed, rect(0, 0, 100, 100));
    assert_eq!(plan.footer.mode_spans[0].text, "Exiting");
    assert_eq!(plan.footer.mode_spans[0].fg, TextColor::LightRed);
    assert_eq!(plan.footer.hint.text, "(q) to quit / (e) to make new pair");
    assert!(plan.edit_popup.is_none());
    let popup = plan.exit_popup.expect("exit popup must be planned");
    assert_eq!(popup.area, rect(20, 37, 60, 25));
    assert_eq!(popup.title, "Y/N");
    assert_eq!(popup.text.text, "Would you like to output the buffer as json? (y/n)");
    assert_eq!(popup.text.fg, TextColor::Red);
    assert!(popup.wrap);
    assert!(popup.clear_screen);
}

#[test]
fn zero_area_viewport_still_yields_a_plan() {
    let ed = JsonEditor::new();
    let plan = ui(&ed, rect(0, 0, 0, 0));
    assert_eq!(plan.title.area, rect(0, 0, 0, 0));
    assert_eq!(plan.list.area, rect(0, 0, 0, 0));
    assert_eq!(plan.footer.mode_area.height, 0);
    assert_eq!(plan.list.lines.len(), 0);
}

#[test]
fn plans_list_every_pair_exactly_once() {
    let mut ed = JsonEditor::new();
    for (k, v) in [("one", "1"), ("two", "2"), ("three", "3")] {
        ed.handle_key_event(KeyEvent::Char('e'));
        for c in k.chars() {
            ed.handle_key_event(KeyEvent::Char(c));
        }
        ed.handle_key_event(KeyEvent::Enter);
        for c in v.chars() {
            ed.handle_key_event(KeyEvent::Char(c));
        }
        ed.handle_key_event(KeyEvent::Enter);
    }
    let plan = ui(&ed, rect(0, 0, 120, 40));
    assert_eq!(plan.list.lines.len(), 3);
    let mut texts: Vec<String> = plan.list.lines.iter().map(|s| s.text.clone()).collect();
    texts.sort();
    let mut expected: Vec<String> = vec![
        format!("{: <25} : {}", "one", "1"),
        format!("{: <25} : {}", "two", "2"),
        format!("{: <25} : {}", "three", "3"),
    ];
    expected.sort();
    assert_eq!(texts, expected);
}
