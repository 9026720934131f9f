use qstf::rpc::{Display, FastExt, Server as Registry};
use qstf::src_tauri::rpc::error::{Error, ErrorKind};
use qstf::src_tauri::rpc::service::{endpoint_with_addr, on_request_failure, Retry};
use qstf::src_tauri::rpc::{lookup, ExtLookup};
use qstf::src_tauri::server::{
    search_reply, submit_reply, SearchOutcome, SearchStart, Server, SubmitOutcome, SubmitStart,
};
use qstf::ui::setting::{ExtInfo, Setting};

#[test]
fn errors_have_kinds() {
    let e = Error::new(ErrorKind::Abort, "a");
    assert_eq!(e.kind, ErrorKind::Abort);
    assert_eq!(e.msg, "a");
    assert_eq!(Error::unknown("u").kind, ErrorKind::Unknown);
    assert_eq!(Error::unknown("u").msg, "u");
    assert_eq!(Error::abort("b").kind, ErrorKind::Abort);
    assert_eq!(Error::abort("b").msg, "b");
}

#[test]
fn prompt_pattern_needs_word_characters() {
    let mut s = Server::new(());
    assert_eq!(s.extract_prompt("|app|fire fox").as_deref(), Some("fire fox"));
    assert_eq!(s.prompt, "app");
    // no prompt: nothing found, the last prompt stays
    assert_eq!(s.extract_prompt("firefox"), None);
    assert_eq!(s.extract_prompt("||x"), None);
    assert_eq!(s.prompt, "app");
    // the match may start anywhere in the line
    assert_eq!(s.extract_prompt("go |calc|1+1").as_deref(), Some("1+1"));
    assert_eq!(s.prompt, "calc");
}

#[test]
fn failed_preconditions_are_retried() {
    assert!(matches!(on_request_failure(9, "retry"), Retry::Now));
    assert!(matches!(on_request_failure(9, "wait"), Retry::AfterWait));
    match on_request_failure(9, "other") {
        Retry::Fail(e) => {
            assert_eq!(e.kind, ErrorKind::Unknown);
            assert_eq!(e.msg, "other");
        }
        _ => panic!("expected a failure"),
    }
    assert!(matches!(on_request_failure(14, "retry"), Retry::Fail(_)));
}

#[test]
fn endpoints_are_whole_uris() {
    let ep = endpoint_with_addr("http://127.0.0.1:50051").unwrap();
    assert_eq!(ep.endpoint().uri().to_string(), "http://127.0.0.1:50051/");
    let e = match endpoint_with_addr("not a uri") {
        Err(e) => e,
        Ok(_) => panic!("expected an invalid endpoint"),
    };
    assert_eq!(e.kind, ErrorKind::Unknown);
    // tonic's display text, not its debug form
    assert_eq!(e.msg, "invalid URI");
}

#[test]
fn lookups_use_cached_services() {
    let mut r = Registry::from_config(vec![
        FastExt { id: "e1".to_string(), prompt: "app".to_string(), service: Some(1u8) },
        FastExt { id: "e2".to_string(), prompt: "calc".to_string(), service: None },
    ]);
    assert!(matches!(lookup(&r, "app"), ExtLookup::Cached(id) if id == "e1"));
    assert!(matches!(lookup(&r, "calc"), ExtLookup::Missing(id) if id == "e2"));
    assert!(matches!(lookup(&r, "web"), ExtLookup::NoSuchPrompt));
    r.insert_ext("e2".to_string(), 2);
    assert!(matches!(lookup(&r, "calc"), ExtLookup::Cached(_)));
}

#[test]
fn replies_to_the_webview() {
    assert_eq!(search_reply(SearchOutcome::InvalidPrompt).unwrap_err(), "invalid prompt");
    assert_eq!(search_reply(SearchOutcome::NoService).unwrap_err(), "no service");
    assert_eq!(
        search_reply(SearchOutcome::Failed(Error::unknown("x"))).unwrap_err(),
        "search failed: x"
    );
    let items = search_reply(SearchOutcome::Found(vec![Display {
        obj_id: 2,
        name: "n".to_string(),
        hint: None,
    }]))
    .unwrap();
    assert_eq!(items.len(), 1);
    assert_eq!(items[0].obj_id, 2);
    assert_eq!(items[0].name, "n");
    assert!(items[0].hint.is_none() && items[0].icon.is_none());
    assert_eq!(submit_reply(SubmitOutcome::NoService).unwrap_err(), "no service");
    assert_eq!(
        submit_reply(SubmitOutcome::Failed(Error::abort("y"))).unwrap_err(),
        "submit failed: y"
    );
    assert!(submit_reply(SubmitOutcome::Done).is_ok());
}

#[test]
fn settings_list_the_extensions() {
    let ext = |id: u32, name: &str| ExtInfo {
        id,
        name: name.to_string(),
        dir: String::new(),
        command: String::new(),
    };
    let s = Setting::new(vec![ext(1, "apps"), ext(2, "calc")]);
    assert_eq!(s.title(), "Setting");
    let opts = s.options();
    assert_eq!(opts.len(), 2);
    assert_eq!((opts[1].name.as_str(), opts[1].idx), ("calc", 1));
    let p = s.picked().unwrap();
    assert_eq!((p.name.as_str(), p.idx), ("apps", 0));
    assert!(Setting::new(vec![]).picked().is_none());
}

#[test]
fn searches_start_with_the_prompt_lookup() {
    let registry = Registry::from_config(vec![
        FastExt { id: "e1".to_string(), prompt: "app".to_string(), service: Some(1u8) },
        FastExt { id: "e2".to_string(), prompt: "calc".to_string(), service: None },
    ]);
    let mut s = Server::new(registry);
    assert!(matches!(s.start_search("no prompt"), SearchStart::Reply(Err(m)) if m == "invalid prompt"));
    assert!(matches!(s.start_submit(), SubmitStart::Reply(Err(m)) if m == "no service"));
    assert!(matches!(s.start_search("|web|x"), SearchStart::Reply(Err(m)) if m == "no service"));
    assert!(matches!(s.start_search("|app|fire"), SearchStart::Cached { id, content } if id == "e1" && content == "fire"));
    assert!(matches!(s.start_submit(), SubmitStart::Cached(id) if id == "e1"));
    assert!(matches!(s.start_search("|calc|1+1"), SearchStart::Missing { id, content } if id == "e2" && content == "1+1"));
    assert!(matches!(s.start_submit(), SubmitStart::Missing(id) if id == "e2"));
}
