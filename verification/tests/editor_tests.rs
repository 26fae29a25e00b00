use pound::editor::{Editor, Key, KeyEvent, Modifiers};

fn ev(code: Key, modifiers: Modifiers) -> KeyEvent {
    KeyEvent { code, modifiers }
}

#[test]
fn control_q_quits() {
    let mut ed = Editor::new((80, 24));
    let cont = ed.process_keypress(ev(Key::Char('q'), Modifiers::Control));
    assert!(!cont);
}

#[test]
fn every_other_key_continues() {
    let mut ed = Editor::new((80, 24));
    let events = [
        ev(Key::Char('q'), Modifiers::Plain),
        ev(Key::Char('q'), Modifiers::Other),
        ev(Key::Char('x'), Modifiers::Control),
        ev(Key::Char('a'), Modifiers::Plain),
        ev(Key::Up, Modifiers::Plain),
        ev(Key::Up, Modifiers::Control),
        ev(Key::Down, Modifiers::Other),
        ev(Key::Left, Modifiers::Plain),
        ev(Key::Right, Modifiers::Plain),
        ev(Key::Home, Modifiers::Control),
        ev(Key::End, Modifiers::Plain),
        ev(Key::PageUp, Modifiers::Plain),
        ev(Key::PageDown, Modifiers::Control),
        ev(Key::Other, Modifiers::Plain),
        ev(Key::Other, Modifiers::Control),
    ];
    for e in events {
        assert!(ed.process_keypress(e));
    }
}

#[test]
fn plain_arrows_move_the_cursor() {
    let mut ed = Editor::new((10, 10));
    ed.process_keypress(ev(Key::Down, Modifiers::Plain));
    ed.process_keypress(ev(Key::Down, Modifiers::Plain));
    ed.process_keypress(ev(Key::Right, Modifiers::Plain));
    assert_eq!(ed.output.cursor_controller.cursor_x, 1);
    assert_eq!(ed.output.cursor_controller.cursor_y, 2);
    ed.process_keypress(ev(Key::Up, Modifiers::Plain));
    ed.process_keypress(ev(Key::Left, Modifiers::Plain));
    assert_eq!(ed.output.cursor_controller.cursor_x, 0);
    assert_eq!(ed.output.cursor_controller.cursor_y, 1);
}

#[test]
fn modified_arrows_are_ignored() {
    let mut ed = Editor::new((10, 10));
    ed.process_keypress(ev(Key::Down, Modifiers::Control));
    ed.process_keypress(ev(Key::Right, Modifiers::Other));
    assert_eq!(ed.output.cursor_controller.cursor_x, 0);
    assert_eq!(ed.output.cursor_controller.cursor_y, 0);
}

#[test]
fn home_and_end_jump_within_the_row() {
    let mut ed = Editor::new((15, 4));
    ed.process_keypress(ev(Key::End, Modifiers::Plain));
    assert_eq!(ed.output.cursor_controller.cursor_x, 14);
    ed.process_keypress(ev(Key::Home, Modifiers::Plain));
    assert_eq!(ed.output.cursor_controller.cursor_x, 0);
}

#[test]
fn page_down_from_top_lands_on_last_row_and_repeats_idempotently() {
    let mut ed = Editor::new((7, 5));
    assert_eq!(ed.output.cursor_controller.cursor_y, 0);
    ed.process_keypress(ev(Key::PageDown, Modifiers::Plain));
    assert_eq!(ed.output.cursor_controller.cursor_y, 4);
    ed.process_keypress(ev(Key::PageDown, Modifiers::Plain));
    assert_eq!(ed.output.cursor_controller.cursor_y, 4);
    ed.process_keypress(ev(Key::PageDown, Modifiers::Plain));
    assert_eq!(ed.output.cursor_controller.cursor_y, 4);
}

#[test]
fn page_up_lands_on_top_row() {
    let mut ed = Editor::new((7, 5));
    ed.process_keypress(ev(Key::Down, Modifiers::Plain));
    ed.process_keypress(ev(Key::Down, Modifiers::Plain));
    ed.process_keypress(ev(Key::PageUp, Modifiers::Plain));
    assert_eq!(ed.output.cursor_controller.cursor_y, 0);
    ed.process_keypress(ev(Key::PageUp, Modifiers::Plain));
    assert_eq!(ed.output.cursor_controller.cursor_y, 0);
}

#[test]
fn paging_keeps_the_column() {
    let mut ed = Editor::new((9, 6));
    ed.process_keypress(ev(Key::Right, Modifiers::Plain));
    ed.process_keypress(ev(Key::Right, Modifiers::Plain));
    ed.process_keypress(ev(Key::PageDown, Modifiers::Plain));
    assert_eq!(ed.output.cursor_controller.cursor_x, 2);
    ed.process_keypress(ev(Key::PageUp, Modifiers::Plain));
    assert_eq!(ed.output.cursor_controller.cursor_x, 2);
}

#[test]
fn dispatch_leaves_the_output_buffer_alone() {
    let mut ed = Editor::new((8, 3));
    ed.process_keypress(ev(Key::Down, Modifiers::Plain));
    ed.process_keypress(ev(Key::PageDown, Modifiers::Plain));
    ed.process_keypress(ev(Key::Other, Modifiers::Plain));
    assert_eq!(ed.output.editor_contents.take(), "");
}
