use qstf::rpc::daemon::{ExtAddrResult, SetUpResult};
use qstf::rpc::extension::{DisplayList, SearchResult, SubmitResult};
use qstf::rpc::response::Response;
use qstf::rpc::service::{endpoint_with_addr, on_request_failure, Error, IntoResult, Retry};
use qstf::rpc::utils::{match_grpc_result, Attempt, Status, TryConnect};
use qstf::rpc::{Display, FastExt, Server};
use qstf::ui::FromServer;
use qstf::utils::{convert, route, ExtReply, ExtRequest, Route};
use qstf::ui::ToServer;

fn ext(id: &str, prompt: &str, service: Option<u32>) -> FastExt<u32> {
    FastExt {
        id: id.to_string(),
        prompt: prompt.to_string(),
        service,
    }
}

fn display(id: u32, name: &str) -> Display {
    Display {
        obj_id: id,
        name: name.to_string(),
        hint: Some("h".to_string()),
    }
}

#[test]
fn registry_maps_prompts_to_extensions() {
    let s = Server::from_config(vec![ext("e1", "app", Some(1)), ext("e2", "calc", None)]);
    assert_eq!(s.ext_id("app").map(|s| s.as_str()), Some("e1"));
    assert_eq!(s.ext_id("calc").map(|s| s.as_str()), Some("e2"));
    assert_eq!(s.ext_id("web"), None);
    assert_eq!(s.ext("e1"), Some(&1));
    assert_eq!(s.ext("e2"), None);
}

#[test]
fn later_entry_with_the_same_prompt_wins() {
    let s = Server::from_config(vec![ext("e1", "app", Some(1)), ext("e2", "app", Some(2))]);
    assert_eq!(s.ext_id("app").map(|s| s.as_str()), Some("e2"));
    assert_eq!(s.ext("e1"), Some(&1));
}

#[test]
fn get_ext_keeps_the_first_service() {
    let mut s = Server::from_config(vec![ext("e2", "calc", None)]);
    assert_eq!(s.get_ext("e2", None), None);
    assert_eq!(s.get_ext("e2", Some(5)), Some(&5));
    assert_eq!(s.get_ext("e2", Some(6)), Some(&5));
    assert_eq!(s.insert_ext("e3".to_string(), 8), &8);
    assert_eq!(s.ext("e3"), Some(&8));
}

#[test]
fn endpoints_are_built_from_addresses() {
    let ep = endpoint_with_addr("127.0.0.1:50051").unwrap();
    assert_eq!(ep.endpoint().uri().to_string(), "http://127.0.0.1:50051/");
    let e = match endpoint_with_addr("bad host:1") {
        Err(e) => e,
        Ok(_) => panic!("expected an invalid endpoint"),
    };
    assert!(e.msg.starts_with("can't create endpoint tonic::transport::Error("));
}

#[test]
fn unavailable_servers_are_asked_again() {
    assert!(matches!(on_request_failure(14, "x"), Retry::Again));
    match on_request_failure(5, "status: NotFound") {
        Retry::Fail(e) => assert_eq!(e.msg, "request failed: status: NotFound"),
        _ => panic!("expected a failure"),
    }
}

#[test]
fn connection_attempts_are_bounded() {
    let mut t = TryConnect::new(3);
    let mut retried = 0;
    while t.attempt() == Attempt::Retryable {
        t.on_failure();
        retried += 1;
    }
    assert_eq!(retried, 2);
    assert_eq!(TryConnect::new(1).attempt(), Attempt::Last);
}

#[test]
fn grpc_results_are_matched() {
    let ok: Result<usize, Error> = match_grpc_result("search", Some(("abc", Status::Success)), |s: &str| s.len());
    assert_eq!(ok.unwrap(), 3);
    let failed = match_grpc_result("search", Some(("abc", Status::Failure)), |s: &str| s.len());
    assert_eq!(failed.unwrap_err().msg, "search executed but failed");
    let lost = match_grpc_result("submit", None::<(&str, Status)>, |s: &str| s.len());
    assert_eq!(lost.unwrap_err().msg, "submit failed");
}

#[test]
fn replies_turn_into_results() {
    let r = SearchResult {
        status: Status::Success,
        display_list: Some(DisplayList { list: vec![display(1, "a")] }),
    };
    assert!(r.ok());
    assert_eq!(r.into_result().unwrap().len(), 1);
    let r = SearchResult { status: Status::Failure, display_list: None };
    assert!(!r.ok());
    assert_eq!(r.into_result().unwrap_err().msg, "search executed but failed");
    assert!(SubmitResult { status: Status::Success }.into_result().is_ok());
    assert_eq!(
        SubmitResult { status: Status::Failure }.into_result().unwrap_err().msg,
        "submit executed but failed"
    );
    assert_eq!(
        ExtAddrResult { status: Status::Success, addr: "127.0.0.1:1".to_string() }.into_result().unwrap(),
        "127.0.0.1:1"
    );
    assert_eq!(
        ExtAddrResult { status: Status::Failure, addr: String::new() }.into_result().unwrap_err().msg,
        "submit executed but failed"
    );
    let setup = SetUpResult { status: Status::Failure, running: vstd::hash_map::StringHashMap::new() };
    assert_eq!(setup.into_result().err().unwrap().msg, "search executed but failed");
}

#[test]
fn errors_carry_their_message() {
    assert_eq!(Error::new("m".to_string()).msg, "m");
    assert_eq!(Error::from("n").msg, "n");
    assert_eq!(Error::from("o".to_string()).msg, "o");
}

#[test]
fn requests_are_routed() {
    assert!(matches!(route(ToServer::Connect("x".to_string())), Route::Reply(FromServer::Connected)));
    match route(ToServer::Search { prompt: "p".to_string(), content: "c".to_string() }) {
        Route::Ext { prompt, req: ExtRequest::Search { content } } => {
            assert_eq!(prompt, "p");
            assert_eq!(content, "c");
        }
        _ => panic!("unexpected route"),
    }
    match route(ToServer::Submit { prompt: "p".to_string(), obj_id: 4, hint: None }) {
        Route::Ext { prompt, req: ExtRequest::Submit { obj_id: 4, hint: None } } => assert_eq!(prompt, "p"),
        _ => panic!("unexpected route"),
    }
}

#[test]
fn extension_replies_are_converted() {
    match convert(None) {
        Err(e) => assert_eq!(format!("{:?}", e), format!("{:?}", qstf::ui::Error::from("no such prompt"))),
        Ok(_) => panic!("expected an error"),
    }
    match convert(Some(Err(Error::new("down".to_string())))) {
        Err(e) => assert_eq!(format!("{:?}", e), format!("{:?}", qstf::ui::Error::from("down"))),
        Ok(_) => panic!("expected an error"),
    }
    match convert(Some(Ok(ExtReply::Search(vec![display(3, "vim")])))) {
        Ok(FromServer::Search(items)) => {
            assert_eq!(items.len(), 1);
            assert_eq!(items[0].obj_id, 3);
            assert_eq!(items[0].name, "vim");
            assert_eq!(items[0].arg_hint.as_deref(), Some("h"));
            assert!(items[0].icon.is_none());
        }
        _ => panic!("unexpected reply"),
    }
    assert!(matches!(convert(Some(Ok(ExtReply::Submit))), Ok(FromServer::Submit)));
}
