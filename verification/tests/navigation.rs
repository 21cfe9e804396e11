use almagro::app::request::Request;
use almagro::app::{App, Effect, InputStatus, SelElement};
use almagro::event::{Event, KeyCode, KeyEvent, MOD_NONE};

fn press(app: &mut App, code: KeyCode) -> Effect {
    app.handle_keys(Event::Key(KeyEvent { code, modifiers: MOD_NONE }))
}

fn typed(app: &mut App, c: char) -> Effect {
    press(app, KeyCode::Char(c))
}

fn stored_request(name: &str) -> Request {
    let mut request = Request::new(name);
    request.db_id = format!("id-{}", name);
    request.url = format!("http://{}.test/", name);
    request
}

fn app_with(names: &[&str]) -> App {
    App::new(names.iter().map(|name| stored_request(name)).collect())
}

fn names_of(app: &App) -> Vec<String> {
    app.requests().iter().map(|request| request.name.clone()).collect()
}

fn shown(app: &App) -> Vec<String> {
    app.inputs().iter().map(|field| field.value().to_string()).collect()
}

#[test]
fn a_new_app_selects_and_shows_the_first_request() {
    let app = app_with(&["a", "b"]);
    assert!(app.is_running());
    assert_eq!(app.req_index(), 0);
    assert_eq!(app.input_index(), 0);
    assert_eq!(app.text_offset(), (0, 0));
    assert_eq!(app.input_status(), InputStatus::NORMAL);
    assert_eq!(app.sel_element(), SelElement::LIST);
    assert_eq!(shown(&app), vec!["a", "GET", "http://a.test/", ""]);
    assert_eq!(app.inputs()[2].cursor(), 14);
}

#[test]
fn a_new_app_without_requests_shows_blank_buffers() {
    let app = App::new(Vec::new());
    assert_eq!(app.requests().len(), 0);
    assert_eq!(app.req_index(), 0);
    assert_eq!(shown(&app), vec!["", "", "", ""]);
    assert_eq!(app.inputs().len(), 4);
}

#[test]
fn each_new_record_is_appended_and_selected() {
    let mut app = App::new(Vec::new());
    for count in 1..=12usize {
        let effect = typed(&mut app, 'n');
        assert_eq!(app.requests().len(), count);
        assert_eq!(app.req_index(), count - 1);
        let name = format!("Request #{}", count);
        assert_eq!(app.requests()[count - 1], Request::new(&name));
        assert_eq!(effect, Effect::Create { record: Request::new(&name) });
        assert_eq!(shown(&app), vec![name.as_str(), "GET", "", ""]);
    }
}

#[test]
fn next_comes_round_after_as_many_presses_as_requests() {
    for start in 0..5usize {
        let mut app = app_with(&["a", "b", "c", "d", "e"]);
        for _ in 0..start {
            typed(&mut app, 'j');
        }
        assert_eq!(app.req_index(), start);
        for step in 1..=5usize {
            assert_eq!(typed(&mut app, 'j'), Effect::Nothing);
            assert_eq!(app.req_index(), (start + step) % 5);
        }
        assert_eq!(app.req_index(), start);
        assert_eq!(names_of(&app), vec!["a", "b", "c", "d", "e"]);
    }
}

#[test]
fn previous_comes_round_after_as_many_presses_as_requests() {
    for start in 0..5usize {
        let mut app = app_with(&["a", "b", "c", "d", "e"]);
        for _ in 0..start {
            typed(&mut app, 'j');
        }
        for step in 1..=5usize {
            assert_eq!(typed(&mut app, 'k'), Effect::Nothing);
            assert_eq!(app.req_index(), (start + 5 - step) % 5);
        }
        assert_eq!(app.req_index(), start);
    }
}

#[test]
fn next_fills_the_buffers_from_the_new_selection() {
    let mut app = app_with(&["a", "b"]);
    typed(&mut app, 'j');
    assert_eq!(shown(&app), vec!["b", "GET", "http://b.test/", ""]);
    typed(&mut app, 'j');
    assert_eq!(app.req_index(), 0);
    assert_eq!(shown(&app), vec!["a", "GET", "http://a.test/", ""]);
}

#[test]
fn previous_from_the_first_request_keeps_the_buffers() {
    let mut app = app_with(&["a", "b", "c"]);
    typed(&mut app, 'k');
    assert_eq!(app.req_index(), 2);
    assert_eq!(shown(&app), vec!["a", "GET", "http://a.test/", ""]);
    typed(&mut app, 'k');
    assert_eq!(app.req_index(), 1);
    assert_eq!(shown(&app), vec!["b", "GET", "http://b.test/", ""]);
}

#[test]
fn moving_in_an_empty_list_changes_nothing() {
    for c in ['j', 'k', 'J', 'K'] {
        let mut app = App::new(Vec::new());
        assert_eq!(typed(&mut app, c), Effect::Nothing);
        assert_eq!(app.req_index(), 0);
        assert_eq!(app.requests().len(), 0);
        assert_eq!(shown(&app), vec!["", "", "", ""]);
    }
}

#[test]
fn swapping_down_takes_the_selection_along() {
    let mut app = app_with(&["a", "b", "c"]);
    assert_eq!(typed(&mut app, 'J'), Effect::Nothing);
    assert_eq!(names_of(&app), vec!["b", "a", "c"]);
    assert_eq!(app.req_index(), 1);
    typed(&mut app, 'J');
    assert_eq!(names_of(&app), vec!["b", "c", "a"]);
    assert_eq!(app.req_index(), 2);
    typed(&mut app, 'J');
    assert_eq!(names_of(&app), vec!["b", "c", "a"]);
    assert_eq!(app.req_index(), 2);
    assert_eq!(app.requests()[2], stored_request("a"));
}

#[test]
fn swapping_up_takes_the_selection_along() {
    let mut app = app_with(&["a", "b", "c"]);
    typed(&mut app, 'j');
    typed(&mut app, 'j');
    assert_eq!(typed(&mut app, 'K'), Effect::Nothing);
    assert_eq!(names_of(&app), vec!["a", "c", "b"]);
    assert_eq!(app.req_index(), 1);
    typed(&mut app, 'K');
    assert_eq!(names_of(&app), vec!["c", "a", "b"]);
    assert_eq!(app.req_index(), 0);
    typed(&mut app, 'K');
    assert_eq!(names_of(&app), vec!["c", "a", "b"]);
    assert_eq!(app.req_index(), 0);
}

#[test]
fn swapping_keeps_every_request() {
    let mut app = app_with(&["a", "b", "c", "d"]);
    for c in ['J', 'J', 'K', 'J', 'J', 'J', 'K', 'K', 'K', 'K'] {
        let selected = app.requests()[app.req_index()].name.clone();
        typed(&mut app, c);
        assert_eq!(app.requests().len(), 4);
        assert_eq!(app.requests()[app.req_index()].name, selected);
        let mut names = names_of(&app);
        names.sort();
        assert_eq!(names, vec!["a", "b", "c", "d"]);
    }
}

#[test]
fn swapping_needs_the_focus_on_the_list() {
    let mut app = app_with(&["a", "b", "c"]);
    typed(&mut app, 'l');
    typed(&mut app, 'J');
    assert_eq!(names_of(&app), vec!["a", "b", "c"]);
    assert_eq!(app.req_index(), 0);
    typed(&mut app, 'h');
    typed(&mut app, 'j');
    typed(&mut app, 'l');
    typed(&mut app, 'K');
    assert_eq!(names_of(&app), vec!["a", "b", "c"]);
    assert_eq!(app.req_index(), 1);
}

#[test]
fn h_and_l_move_the_focus_to_the_other_half() {
    for c in ['h', 'l'] {
        let mut app = app_with(&["a"]);
        assert_eq!(typed(&mut app, c), Effect::Nothing);
        assert_eq!(app.sel_element(), SelElement::INFOPANEL);
        typed(&mut app, c);
        assert_eq!(app.sel_element(), SelElement::LIST);
    }
}

#[test]
fn going_back_to_the_list_resets_field_and_scroll() {
    let mut app = app_with(&["a"]);
    typed(&mut app, 'l');
    typed(&mut app, 'j');
    press(&mut app, KeyCode::Down);
    press(&mut app, KeyCode::Right);
    assert_eq!(app.input_index(), 1);
    assert_eq!(app.text_offset(), (1, 1));
    typed(&mut app, 'h');
    assert_eq!(app.sel_element(), SelElement::LIST);
    assert_eq!(app.input_index(), 0);
    assert_eq!(app.text_offset(), (0, 0));
}

#[test]
fn moving_between_fields_goes_round_and_resets_the_scroll() {
    let mut app = app_with(&["a", "b"]);
    typed(&mut app, 'l');
    for expected in [1usize, 2, 3, 0] {
        press(&mut app, KeyCode::Down);
        press(&mut app, KeyCode::Right);
        assert_eq!(app.text_offset(), (1, 1));
        typed(&mut app, 'j');
        assert_eq!(app.input_index(), expected);
        assert_eq!(app.text_offset(), (0, 0));
    }
    for expected in [3usize, 2, 1, 0] {
        press(&mut app, KeyCode::Down);
        typed(&mut app, 'k');
        assert_eq!(app.input_index(), expected);
        assert_eq!(app.text_offset(), (0, 0));
    }
    assert_eq!(app.req_index(), 0);
}

#[test]
fn rows_scroll_only_in_the_detail_panel() {
    let mut app = app_with(&["a"]);
    press(&mut app, KeyCode::Down);
    assert_eq!(app.text_offset(), (0, 0));
    typed(&mut app, 'l');
    press(&mut app, KeyCode::Up);
    assert_eq!(app.text_offset(), (0, 0));
    press(&mut app, KeyCode::Down);
    press(&mut app, KeyCode::Down);
    assert_eq!(app.text_offset(), (2, 0));
    press(&mut app, KeyCode::Up);
    assert_eq!(app.text_offset(), (1, 0));
}

#[test]
fn columns_scroll_with_any_focus() {
    let mut app = app_with(&["a"]);
    press(&mut app, KeyCode::Left);
    assert_eq!(app.text_offset(), (0, 0));
    press(&mut app, KeyCode::Right);
    press(&mut app, KeyCode::Right);
    press(&mut app, KeyCode::Right);
    assert_eq!(app.text_offset(), (0, 3));
    press(&mut app, KeyCode::Left);
    assert_eq!(app.text_offset(), (0, 2));
}

#[test]
fn the_scroll_offset_stops_at_its_largest_value() {
    let mut app = app_with(&["a"]);
    typed(&mut app, 'l');
    for _ in 0..65_540u32 {
        press(&mut app, KeyCode::Right);
        press(&mut app, KeyCode::Down);
    }
    assert_eq!(app.text_offset(), (65_535, 65_535));
    press(&mut app, KeyCode::Left);
    press(&mut app, KeyCode::Up);
    assert_eq!(app.text_offset(), (65_534, 65_534));
}

#[test]
fn esc_and_q_stop_the_client() {
    let mut app = app_with(&["a"]);
    assert_eq!(press(&mut app, KeyCode::Esc), Effect::Nothing);
    assert!(!app.is_running());
    let mut app = app_with(&["a"]);
    assert_eq!(typed(&mut app, 'q'), Effect::Nothing);
    assert!(!app.is_running());
}

#[test]
fn i_starts_text_entry_in_the_detail_panel() {
    let mut app = app_with(&["a"]);
    assert_eq!(typed(&mut app, 'i'), Effect::Nothing);
    assert_eq!(app.input_status(), InputStatus::INSERT);
    assert_eq!(app.sel_element(), SelElement::INFOPANEL);
    assert_eq!(app.input_index(), 0);
}

#[test]
fn ticks_and_keys_without_meaning_change_nothing() {
    let mut app = app_with(&["a", "b"]);
    typed(&mut app, 'j');
    let events = [
        Event::Tick,
        Event::Key(KeyEvent { code: KeyCode::Other, modifiers: MOD_NONE }),
        Event::Key(KeyEvent { code: KeyCode::Home, modifiers: MOD_NONE }),
        Event::Key(KeyEvent { code: KeyCode::Backspace, modifiers: MOD_NONE }),
        Event::Key(KeyEvent { code: KeyCode::Char('z'), modifiers: MOD_NONE }),
    ];
    for event in events {
        assert_eq!(app.handle_keys(event), Effect::Nothing);
        assert!(app.is_running());
        assert_eq!(app.req_index(), 1);
        assert_eq!(names_of(&app), vec!["a", "b"]);
        assert_eq!(shown(&app), vec!["b", "GET", "http://b.test/", ""]);
        assert_eq!(app.input_status(), InputStatus::NORMAL);
        assert_eq!(app.sel_element(), SelElement::LIST);
        assert_eq!(app.text_offset(), (0, 0));
    }
}

#[test]
fn modifiers_do_not_matter_to_commands() {
    let mut app = app_with(&["a", "b"]);
    app.handle_keys(Event::Key(KeyEvent { code: KeyCode::Char('j'), modifiers: 2 }));
    assert_eq!(app.req_index(), 1);
}

#[test]
fn x_asks_for_the_removal_and_keeps_the_request() {
    let mut app = app_with(&["a", "b"]);
    typed(&mut app, 'j');
    assert_eq!(typed(&mut app, 'x'), Effect::Delete { id: "id-b".to_string() });
    assert_eq!(names_of(&app), vec!["a", "b"]);
    assert_eq!(app.req_index(), 1);
}

#[test]
fn x_asks_for_nothing_in_an_empty_list() {
    let mut app = App::new(Vec::new());
    assert_eq!(typed(&mut app, 'x'), Effect::Nothing);
    app.deleted();
    assert_eq!(app.requests().len(), 0);
    assert_eq!(app.req_index(), 0);
}

#[test]
fn a_removed_request_leaves_the_list() {
    let mut app = app_with(&["a", "b", "c"]);
    typed(&mut app, 'j');
    app.deleted();
    assert_eq!(names_of(&app), vec!["a", "c"]);
    assert_eq!(app.req_index(), 0);
    assert_eq!(shown(&app), vec!["c", "GET", "http://c.test/", ""]);
}

#[test]
fn removing_the_first_request_keeps_the_selection_on_top() {
    let mut app = app_with(&["a", "b"]);
    app.deleted();
    assert_eq!(names_of(&app), vec!["b"]);
    assert_eq!(app.req_index(), 0);
    assert_eq!(shown(&app), vec!["b", "GET", "http://b.test/", ""]);
}

#[test]
fn removing_the_last_request_blanks_the_buffers() {
    let mut app = app_with(&["a", "b"]);
    typed(&mut app, 'j');
    app.deleted();
    assert_eq!(names_of(&app), vec!["a"]);
    assert_eq!(app.req_index(), 0);
    assert_eq!(shown(&app), vec!["", "", "", ""]);
}

#[test]
fn removing_the_only_request_empties_everything() {
    let mut app = app_with(&["a"]);
    assert_eq!(typed(&mut app, 'x'), Effect::Delete { id: "id-a".to_string() });
    app.deleted();
    assert_eq!(app.requests().len(), 0);
    assert_eq!(app.req_index(), 0);
    assert_eq!(shown(&app), vec!["", "", "", ""]);
    for field in app.inputs() {
        assert_eq!(field.cursor(), 0);
    }
}
