use qstf::ui::select::{Item, Message as SelectMessage, ScrollAction};
use qstf::ui::{Action, App, Error, FromServer, FromUi, Message, Size, ToServer, UserEvent};

fn item(id: u32, name: &str, hint: Option<&str>) -> Item {
    Item {
        obj_id: id,
        name: name.to_string(),
        arg_hint: hint.map(|h| h.to_string()),
        icon: None,
    }
}

fn started() -> App {
    let (mut app, _) = App::new(String::new());
    app.update(Message::Start);
    app
}

fn app_with_results() -> App {
    let (mut app, _) = App::new("http://127.0.0.1:50051".to_string());
    app.update(Message::Start);
    app.update(Message::FromServer(Ok(FromServer::Search(vec![
        item(7, "firefox", Some("url")),
        item(9, "terminal", None),
    ]))));
    app
}

fn typed(app: &mut App, text: &str) -> Vec<Action> {
    app.update(Message::FromUi(FromUi::InputChanged(text.to_string())))
}

#[test]
fn new_app_sizes_the_window() {
    let (app, acts) = App::new("http://127.0.0.1:50051".to_string());
    assert_eq!(app.title(), "Qst");
    assert_eq!(app.placeholder(), "[prompt]content");
    assert_eq!(app.input(), "");
    assert_eq!(app.select_list().apps().len(), 0);
    assert_eq!(acts.len(), 2);
    assert!(matches!(
        acts[0],
        Action::ResizeWindow(Size {
            width: 300,
            height: 245
        })
    ));
    assert!(matches!(acts[1], Action::Scroll(ScrollAction::Stay)));
}

#[test]
fn start_connects_to_the_endpoint() {
    let (mut app, _) = App::new("http://127.0.0.1:50051".to_string());
    let acts = app.update(Message::Start);
    assert_eq!(acts.len(), 1);
    match &acts[0] {
        Action::Dispatch(Message::ToServer(ToServer::Connect(ep))) => {
            assert_eq!(ep, "http://127.0.0.1:50051")
        }
        other => panic!("unexpected {:?}", other),
    }
}

#[test]
fn requests_are_sent_with_retry() {
    let mut app = started();
    let acts = app.update(Message::ToServer(ToServer::Search {
        prompt: "p".to_string(),
        content: "c".to_string(),
    }));
    assert_eq!(acts.len(), 1);
    assert!(matches!(&acts[0], Action::Send { req: ToServer::Search { prompt, content }, retry: true } if prompt == "p" && content == "c"));
}

#[test]
fn server_replies() {
    let mut app = started();
    let acts = app.update(Message::FromServer(Ok(FromServer::Connected)));
    assert!(matches!(acts.as_slice(), [Action::FocusInput]));
    let acts = app.update(Message::FromServer(Ok(FromServer::Submit)));
    assert!(matches!(acts.as_slice(), [Action::Exit(0)]));
    let acts = app.update(Message::FromServer(Err(Error::from("boom"))));
    assert!(acts.is_empty());
    let acts = app.update(Message::FromServer(Ok(FromServer::Search(vec![item(1, "x", None)]))));
    assert!(matches!(acts.as_slice(), [Action::Scroll(ScrollAction::SnapToStart)]));
    assert_eq!(app.select_list().apps().len(), 1);
}

#[test]
fn typing_a_prompt_searches() {
    let mut app = started();
    let acts = typed(&mut app, "|app|fire");
    assert_eq!(app.input(), "|app|fire");
    assert_eq!(acts.len(), 1);
    assert!(matches!(&acts[0], Action::Send { req: ToServer::Search { prompt, content }, retry: false } if prompt == "app" && content == "fire"));
}

#[test]
fn typing_without_a_closing_bar_sends_nothing() {
    let mut app = started();
    let acts = typed(&mut app, "|app");
    assert_eq!(app.input(), "|app");
    assert!(acts.is_empty());
}

#[test]
fn clearing_the_input_empties_the_list() {
    let mut app = started();
    typed(&mut app, "abc");
    let acts = typed(&mut app, "");
    assert_eq!(app.input(), "");
    assert_eq!(acts.len(), 1);
    assert!(matches!(&acts[0], Action::Dispatch(Message::FromServer(Ok(FromServer::Search(l)))) if l.is_empty()));
}

#[test]
fn enter_picks_then_submits_with_the_typed_arguments() {
    let mut app = app_with_results();
    typed(&mut app, "|app|fire");
    // the first enter picks the selected entry and asks for its arguments
    let acts = app.update(Message::FromUi(FromUi::Submit));
    assert!(acts.is_empty());
    assert_eq!(app.placeholder(), "url");
    assert_eq!(app.input(), "");
    // typing the arguments is a search line too: without a prompt of its
    // own it switches to the empty prompt
    let acts = typed(&mut app, "https://example.org");
    assert!(matches!(&acts[0], Action::Send { req: ToServer::Search { prompt, .. }, .. } if prompt.is_empty()));
    // the second enter submits the picked entry
    let acts = app.update(Message::FromUi(FromUi::Submit));
    assert_eq!(acts.len(), 1);
    assert!(matches!(&acts[0], Action::Send { req: ToServer::Submit { prompt, obj_id: 7, hint: Some(h) }, retry: false } if prompt.is_empty() && h == "https://example.org"));
}

#[test]
fn entry_without_hint_asks_for_none_args() {
    let mut app = app_with_results();
    app.update(Message::UserEvent(UserEvent::KeyDown));
    app.update(Message::FromUi(FromUi::Submit));
    assert_eq!(app.placeholder(), "none args");
}

#[test]
fn arrow_key_undoes_the_pick() {
    let mut app = app_with_results();
    typed(&mut app, "|app|fire");
    app.update(Message::FromUi(FromUi::Submit));
    assert_eq!(app.input(), "");
    app.update(Message::UserEvent(UserEvent::KeyUp));
    assert_eq!(app.input(), "|app|fire");
    assert_eq!(app.placeholder(), "[prompt]content");
}

#[test]
fn pushing_the_picked_entry_submits_it() {
    let mut app = app_with_results();
    let acts = app.update(Message::FromUi(FromUi::Select(SelectMessage::Push { idx: 1, obj_id: 9 })));
    // the first push picks the entry
    assert_eq!(acts.len(), 2);
    assert!(matches!(acts[0], Action::Scroll(_)));
    assert!(matches!(acts[1], Action::FocusInput));
    assert_eq!(app.placeholder(), "none args");
    typed(&mut app, "x");
    let acts = app.update(Message::FromUi(FromUi::Select(SelectMessage::Push { idx: 1, obj_id: 9 })));
    assert_eq!(acts.len(), 3);
    assert!(matches!(&acts[0], Action::Send { req: ToServer::Submit { obj_id: 9, hint: Some(h), .. }, .. } if h == "x"));
    assert!(matches!(acts[2], Action::FocusInput));
}

#[test]
fn pushing_another_entry_picks_it() {
    let mut app = app_with_results();
    app.update(Message::FromUi(FromUi::Select(SelectMessage::Push { idx: 1, obj_id: 9 })));
    let acts = app.update(Message::FromUi(FromUi::Select(SelectMessage::Push { idx: 0, obj_id: 7 })));
    assert_eq!(acts.len(), 2);
    assert_eq!(app.placeholder(), "url");
}

#[test]
fn resizing_sets_the_list_height() {
    let mut app = app_with_results();
    let acts = app.update(Message::UserEvent(UserEvent::Resized {
        width: 400,
        height: 300,
    }));
    assert!(matches!(acts.as_slice(), [Action::Scroll(ScrollAction::Stay)]));
    // a window lower than the input line leaves no room for the list
    let acts = app.update(Message::UserEvent(UserEvent::Resized {
        width: 400,
        height: 50,
    }));
    assert!(matches!(
        acts.as_slice(),
        [Action::Scroll(ScrollAction::SnapTo {
            offset: 35,
            total: 75
        })]
    ));
}

#[test]
fn other_events_do_nothing() {
    let mut app = app_with_results();
    assert!(app.update(Message::UserEvent(UserEvent::Other)).is_empty());
}

#[test]
fn down_on_an_empty_list_is_not_allowed() {
    let (app, _) = App::new(String::new());
    assert!(!app.update_allowed(&Message::UserEvent(UserEvent::KeyDown)));
    assert!(app.update_allowed(&Message::UserEvent(UserEvent::KeyUp)));
    let app = app_with_results();
    assert!(app.update_allowed(&Message::UserEvent(UserEvent::KeyDown)));
}

#[test]
fn nothing_is_sent_before_the_channel_opens() {
    let (mut app, _) = App::new(String::new());
    let req = Message::ToServer(ToServer::Connect(String::new()));
    assert!(!app.update_allowed(&req));
    assert!(!app.update_allowed(&Message::FromUi(FromUi::InputChanged("|a|b".to_string()))));
    // clearing the input or a line without a prompt closer sends nothing
    assert!(app.update_allowed(&Message::FromUi(FromUi::InputChanged(String::new()))));
    assert!(app.update_allowed(&Message::FromUi(FromUi::InputChanged("|a".to_string()))));
    assert!(app.update_allowed(&Message::Start));
    app.update(Message::Start);
    assert!(app.update_allowed(&req));
}
