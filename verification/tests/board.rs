use chess_ui::board::{App, CellColor, BOARD_HEIGHT, BOARD_WIDTH};
use chess_ui::event::{InputEvent, KeyCode, KeyEvent, KeyEventKind};
use chess_ui::geometry::Rect;

fn press(code: KeyCode) -> InputEvent {
    InputEvent::Key(KeyEvent::press(code))
}

#[test]
fn starts_at_origin() {
    let app = App::default();
    assert_eq!(app.x, 0);
    assert_eq!(app.y, 0);
    assert!(!app.exit);
    assert!(!app.is_exited());
}

#[test]
fn right_right_down_lands_on_two_one() {
    let mut app = App::default();
    app.handle_key_event(KeyEvent::press(KeyCode::Right));
    app.handle_key_event(KeyEvent::press(KeyCode::Right));
    app.handle_key_event(KeyEvent::press(KeyCode::Down));
    assert_eq!((app.x, app.y), (2, 1));
    // The cursor's cell is highlighted even though its parity is odd.
    assert_eq!(app.cell_color(2, 1), CellColor::Highlight);
}

#[test]
fn left_from_origin_wraps_to_seven() {
    let mut app = App::default();
    app.handle_key_event(KeyEvent::press(KeyCode::Left));
    assert_eq!((app.x, app.y), (7, 0));
}

#[test]
fn up_from_origin_wraps_to_seven() {
    let mut app = App::default();
    app.handle_key_event(KeyEvent::press(KeyCode::Up));
    assert_eq!((app.x, app.y), (0, 7));
}

#[test]
fn right_then_left_round_trips() {
    for x in 0..8u8 {
        let mut app = App { exit: false, x, y: 3 };
        app.handle_key_event(KeyEvent::press(KeyCode::Right));
        app.handle_key_event(KeyEvent::press(KeyCode::Left));
        assert_eq!((app.x, app.y), (x, 3));
        app.handle_key_event(KeyEvent::press(KeyCode::Left));
        app.handle_key_event(KeyEvent::press(KeyCode::Right));
        assert_eq!((app.x, app.y), (x, 3));
    }
}

#[test]
fn column_stays_on_grid_under_any_horizontal_walk() {
    let mut app = App::default();
    let walk = [
        KeyCode::Left,
        KeyCode::Left,
        KeyCode::Right,
        KeyCode::Left,
        KeyCode::Right,
        KeyCode::Right,
        KeyCode::Right,
        KeyCode::Left,
    ];
    for code in walk {
        let before = app.x;
        app.handle_key_event(KeyEvent::press(code));
        assert!(app.x < 8);
        let expected = match code {
            KeyCode::Left => (before + 7) % 8,
            KeyCode::Right => (before + 1) % 8,
            _ => before,
        };
        assert_eq!(app.x, expected);
    }
}

#[test]
fn exactly_one_colour_rule_fires_per_cell() {
    let app = App { exit: false, x: 4, y: 2 };
    for row in 0..8u8 {
        for col in 0..8u8 {
            let highlight = col == app.x && row == app.y;
            let dark = !highlight && (col + row) % 2 == 0;
            let light = !highlight && (col + row) % 2 == 1;
            assert_eq!(
                [highlight, dark, light].iter().filter(|&&b| b).count(),
                1
            );
            let expected = if highlight {
                CellColor::Highlight
            } else if dark {
                CellColor::Dark
            } else {
                CellColor::Light
            };
            assert_eq!(app.cell_color(col, row), expected);
        }
    }
}

#[test]
fn corner_cell_is_dark_when_cursor_is_elsewhere() {
    let app = App { exit: false, x: 3, y: 3 };
    assert_eq!(app.cell_color(0, 0), CellColor::Dark);
    assert_eq!(app.cell_color(1, 0), CellColor::Light);
    assert_eq!(app.cell_color(0, 1), CellColor::Light);
    assert_eq!(app.cell_color(1, 1), CellColor::Dark);
}

#[test]
fn rendered_frame_holds_all_cells() {
    let mut app = App::default();
    app.handle_key_event(KeyEvent::press(KeyCode::Right));
    let frame = app.render(Rect::new(0, 0, 80, 24));
    assert_eq!(frame.area, Rect::new(0, 0, BOARD_WIDTH, BOARD_HEIGHT));
    assert_eq!(frame.rows.len(), 8);
    for (row, cells) in frame.rows.iter().enumerate() {
        assert_eq!(cells.len(), 8);
        for (col, &cell) in cells.iter().enumerate() {
            assert_eq!(cell, app.cell_color(col as u8, row as u8));
        }
    }
    assert_eq!(frame.rows[0][1], CellColor::Highlight);
    assert_eq!(frame.rows[0][0], CellColor::Dark);
}

#[test]
fn board_area_degrades_with_small_regions() {
    assert_eq!(App::board_area(Rect::new(0, 0, 80, 24)), Rect::new(0, 0, 18, 10));
    assert_eq!(App::board_area(Rect::new(2, 3, 80, 24)), Rect::new(2, 3, 18, 10));
    assert_eq!(App::board_area(Rect::new(0, 0, 5, 3)), Rect::new(0, 0, 5, 3));
    assert_eq!(App::board_area(Rect::new(0, 0, 0, 0)), Rect::new(0, 0, 0, 0));
}

#[test]
fn quit_exits_after_a_single_draw() {
    let mut app = App::default();
    let draws = app.run(&vec![press(KeyCode::Char('q'))]);
    assert_eq!(draws, 1);
    assert!(app.is_exited());
}

#[test]
fn quit_from_any_state_stops_further_draws() {
    let mut app = App { exit: false, x: 5, y: 6 };
    let events = vec![
        press(KeyCode::Down),
        press(KeyCode::Char('q')),
        press(KeyCode::Left),
        press(KeyCode::Left),
    ];
    // One draw before the first event, one before the quit, none after.
    let draws = app.run(&events);
    assert_eq!(draws, 2);
    assert!(app.exit);
    // The events after the quit were never applied.
    assert_eq!((app.x, app.y), (5, 7));
}

#[test]
fn unrecognized_key_is_a_no_op_but_still_redraws() {
    let mut app = App::default();
    let draws = app.run(&vec![press(KeyCode::Char('a'))]);
    assert_eq!(draws, 2);
    assert!(!app.exit);
    assert_eq!((app.x, app.y), (0, 0));
}

#[test]
fn release_and_repeat_events_mutate_nothing() {
    let mut app = App::default();
    for kind in [KeyEventKind::Release, KeyEventKind::Repeat] {
        for code in [
            KeyCode::Char('q'),
            KeyCode::Left,
            KeyCode::Right,
            KeyCode::Up,
            KeyCode::Down,
        ] {
            app.handle_events(InputEvent::Key(KeyEvent { code, kind }));
            assert_eq!((app.x, app.y), (0, 0));
            assert!(!app.exit);
        }
    }
    app.handle_events(InputEvent::Other);
    assert_eq!((app.x, app.y), (0, 0));
    assert!(!app.exit);
}

#[test]
fn run_with_no_events_draws_once() {
    let mut app = App::default();
    let draws = app.run(&Vec::new());
    assert_eq!(draws, 1);
    assert!(!app.exit);
}

#[test]
fn exited_state_draws_nothing() {
    let mut app = App { exit: true, x: 0, y: 0 };
    let draws = app.run(&vec![press(KeyCode::Right)]);
    assert_eq!(draws, 0);
    assert_eq!(app.x, 0);
    assert!(app.is_exited());
}
