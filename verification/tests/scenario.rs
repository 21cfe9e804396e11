use almagro::app::request::{Call, Reply, Request};
use almagro::app::{App, Effect, InputStatus};
use almagro::event::{Event, KeyCode, KeyEvent, MOD_NONE};

fn press(app: &mut App, code: KeyCode) -> Effect {
    app.handle_keys(Event::Key(KeyEvent { code, modifiers: MOD_NONE }))
}

fn type_text(app: &mut App, text: &str) {
    for c in text.chars() {
        assert_eq!(press(app, KeyCode::Char(c)), Effect::Nothing);
    }
}

#[test]
fn create_edit_and_run_a_request() {
    let mut app = App::new(Vec::new());

    let effect = press(&mut app, KeyCode::Char('n'));
    assert_eq!(effect, Effect::Create { record: Request::new("Request #1") });
    app.stored("7f3c".to_string());
    assert_eq!(app.requests()[0].name, "Request #1");
    assert_eq!(app.requests()[0].req_type, "GET");
    assert_eq!(app.requests()[0].db_id, "7f3c");

    press(&mut app, KeyCode::Char('l'));
    press(&mut app, KeyCode::Char('j'));
    press(&mut app, KeyCode::Char('j'));
    press(&mut app, KeyCode::Char('i'));
    assert_eq!(app.input_status(), InputStatus::INSERT);
    type_text(&mut app, "http://localhost/ping");
    let effect = press(&mut app, KeyCode::Enter);
    let mut saved = Request::new("Request #1");
    saved.url = "http://localhost/ping".to_string();
    saved.db_id = "7f3c".to_string();
    assert_eq!(effect, Effect::Update { id: "7f3c".to_string(), record: saved });
    assert_eq!(app.input_status(), InputStatus::NORMAL);

    let effect = press(&mut app, KeyCode::Enter);
    assert_eq!(
        effect,
        Effect::Run {
            call: Call {
                method: "GET".to_string(),
                url: "http://localhost/ping".to_string(),
                body: String::new(),
            }
        }
    );
    app.run_finished(Reply::Response { status: "200".to_string(), body: "pong".to_string() });
    assert_eq!(app.requests()[0].status, "200");
    assert_eq!(app.requests()[0].resp, "pong");
    assert!(app.is_running());
}

#[test]
fn delete_the_only_request_and_add_one_again() {
    let mut app = App::new(Vec::new());
    press(&mut app, KeyCode::Char('n'));
    app.stored("old".to_string());
    assert_eq!(press(&mut app, KeyCode::Char('x')), Effect::Delete { id: "old".to_string() });
    app.deleted();
    assert_eq!(app.requests().len(), 0);
    for field in app.inputs() {
        assert_eq!(field.value(), "");
    }

    let effect = press(&mut app, KeyCode::Char('n'));
    assert_eq!(effect, Effect::Create { record: Request::new("Request #1") });
    assert_eq!(app.requests()[0].db_id, "");
    app.stored("new".to_string());
    assert_eq!(app.requests()[0].db_id, "new");
    assert_ne!(app.requests()[0].db_id, "old");
}

#[test]
fn a_removal_that_failed_leaves_the_request() {
    let mut app = App::new(Vec::new());
    press(&mut app, KeyCode::Char('n'));
    app.stored("kept".to_string());
    assert_eq!(press(&mut app, KeyCode::Char('x')), Effect::Delete { id: "kept".to_string() });
    assert_eq!(app.requests().len(), 1);
    assert_eq!(app.requests()[0].db_id, "kept");
    assert_eq!(app.inputs()[0].value(), "Request #1");
}

#[test]
fn a_first_save_that_failed_gives_no_identifier() {
    let mut app = App::new(Vec::new());
    press(&mut app, KeyCode::Char('n'));
    assert_eq!(app.requests().len(), 1);
    assert_eq!(app.requests()[0].db_id, "");
    press(&mut app, KeyCode::Char('i'));
    type_text(&mut app, "!");
    let effect = press(&mut app, KeyCode::Enter);
    let mut record = Request::new("Request #1!");
    record.db_id = String::new();
    assert_eq!(effect, Effect::Create { record });
}
