use wechat_session::cursor::SyncKey;
use wechat_session::error::EngineError;
use wechat_session::scrape::{
    collect_login_fields, extract_login_fields, extract_redirect_uri, extract_sync_status,
    extract_uuid, pick_group, read_sync_status, regex_cap, require_field, SyncStatus,
};
use wechat_session::store::WeChat;
use wechat_session::sync::{
    check_new_message, decide, exit_signal, fetch_request, message_sync_url, on_fetch_body,
    on_poll_answer,
    poll_request, sync_action, sync_check_url, sync_step, SyncAction, SyncState,
};

fn parse_json(text: &str) -> Option<serde_json::Value> {
    serde_json::from_str(text).ok()
}

fn logged_in() -> WeChat {
    let mut w = WeChat::new();
    w.set_uin("UIN1");
    w.set_sid("SID1");
    w.set_skey("SK1");
    w.set_pass_ticket("PT1");
    w.set_cookies(&vec!["wxuin=1; Domain=x".to_string(), "wxsid=2; Path=/".to_string()]);
    w.set_sync_key(Some(vec![SyncKey { key: 1, val: 10 }, SyncKey { key: 2, val: 20 }]));
    w
}

#[test]
fn regex_cap_gives_first_group() {
    assert_eq!(regex_cap("a=12;b=34", "b=(\\d+)"), Some("34".to_string()));
    assert_eq!(regex_cap("a=12;b=34", "c=(\\d+)"), None);
    assert_eq!(regex_cap("a=12", "a="), None);
    assert_eq!(regex_cap("a=12", "a=("), None);
}

#[test]
fn pick_group_by_index() {
    let caps = Some(vec![Some("ab".to_string()), None, Some("b".to_string())]);
    assert_eq!(pick_group(&caps, 0), Some("ab".to_string()));
    assert_eq!(pick_group(&caps, 1), None);
    assert_eq!(pick_group(&caps, 2), Some("b".to_string()));
    assert_eq!(pick_group(&caps, 3), None);
    assert_eq!(pick_group(&None, 0), None);
}

#[test]
fn require_field_turns_absence_into_parse_error() {
    assert_eq!(require_field(Some("x".to_string())), Ok("x".to_string()));
    assert_eq!(require_field(None), Err(EngineError::Parse));
}

#[test]
fn uuid_is_scraped_from_login_init_answer() {
    let body = "window.QRLogin.code = 200; window.QRLogin.uuid = \"oZYNmWV5SQ==\";";
    assert_eq!(extract_uuid(body), Ok("oZYNmWV5SQ==".to_string()));
    assert_eq!(extract_uuid("window.QRLogin.code = 500;"), Err(EngineError::Parse));
    assert_eq!(extract_uuid(""), Err(EngineError::Parse));
}

#[test]
fn redirect_uri_is_scraped_from_status_answer() {
    let body = "window.code=200;\nwindow.redirect_uri=\"https://web.wechat.com/cgi-bin/mmwebwx-bin/webwxnewloginpage?ticket=Au1@qrticket_0&uuid=oZYNmWV5SQ==&lang=zh_CN&scan=1487767062\";";
    assert_eq!(
        extract_redirect_uri(body),
        Ok("https://web.wechat.com/cgi-bin/mmwebwx-bin/webwxnewloginpage?ticket=Au1@qrticket_0&uuid=oZYNmWV5SQ==&lang=zh_CN&scan=1487767062".to_string())
    );
    assert_eq!(extract_redirect_uri("window.code=408;"), Err(EngineError::Parse));
    assert_eq!(extract_redirect_uri("window.redirect_uri=\"\";"), Err(EngineError::Parse));
}

#[test]
fn login_fields_are_all_or_nothing() {
    let body = "<error><ret>0</ret><skey>SK1</skey><wxsid>SID1</wxsid><wxuin>UIN1</wxuin><pass_ticket>PT1</pass_ticket></error>";
    let f = extract_login_fields(body).unwrap();
    assert_eq!(f.skey, "SK1");
    assert_eq!(f.sid, "SID1");
    assert_eq!(f.uin, "UIN1");
    assert_eq!(f.pass_ticket, "PT1");
    let partial = "<skey>SK1</skey><wxsid>SID1</wxsid><wxuin>UIN1</wxuin>";
    assert_eq!(extract_login_fields(partial).err(), Some(EngineError::Parse));
    let s = |x: &str| Some(x.to_string());
    assert!(collect_login_fields(s("a"), s("b"), s("c"), s("d")).is_ok());
    assert_eq!(collect_login_fields(None, s("b"), s("c"), s("d")).err(), Some(EngineError::Parse));
    assert_eq!(collect_login_fields(s("a"), None, s("c"), s("d")).err(), Some(EngineError::Parse));
    assert_eq!(collect_login_fields(s("a"), s("b"), None, s("d")).err(), Some(EngineError::Parse));
    assert_eq!(collect_login_fields(s("a"), s("b"), s("c"), None).err(), Some(EngineError::Parse));
}

#[test]
fn sync_status_is_scraped_from_long_poll_answer() {
    assert_eq!(
        extract_sync_status("window.synccheck={retcode:\"0\",selector:\"2\"}"),
        Ok(SyncStatus { retcode: 0, selector: 2 })
    );
    assert_eq!(
        extract_sync_status("window.synccheck={retcode:\"1101\",selector:\"0\"}"),
        Ok(SyncStatus { retcode: 1101, selector: 0 })
    );
}

#[test]
fn malformed_long_poll_answer_is_a_parse_error() {
    assert_eq!(extract_sync_status(""), Err(EngineError::Parse));
    assert_eq!(extract_sync_status("window.synccheck={retcode:\"0\"}"), Err(EngineError::Parse));
    assert_eq!(
        extract_sync_status("window.synccheck={retcode:\"x\",selector:\"2\"}"),
        Err(EngineError::Parse)
    );
    assert_eq!(
        extract_sync_status("{retcode:\"99999999999999999999\",selector:\"2\"}"),
        Err(EngineError::Parse)
    );
    assert_eq!(on_poll_answer("<html>gateway timeout</html>"), Err(EngineError::Parse));
}

#[test]
fn read_sync_status_needs_both_groups_as_numbers() {
    let s = |x: &str| Some(x.to_string());
    assert_eq!(
        read_sync_status(&Some(vec![s("w"), s("0"), s("7")])),
        Ok(SyncStatus { retcode: 0, selector: 7 })
    );
    assert_eq!(read_sync_status(&Some(vec![s("w"), s("0")])), Err(EngineError::Parse));
    assert_eq!(read_sync_status(&Some(vec![s("w"), None, s("7")])), Err(EngineError::Parse));
    assert_eq!(read_sync_status(&Some(vec![s("w"), s("0"), s("x")])), Err(EngineError::Parse));
    assert_eq!(read_sync_status(&None), Err(EngineError::Parse));
}

#[test]
fn sync_loop_transition_table() {
    assert_eq!(sync_action(&SyncStatus { retcode: 0, selector: 0 }), SyncAction::Continue);
    assert_eq!(sync_action(&SyncStatus { retcode: 0, selector: 2 }), SyncAction::Fetch);
    assert_eq!(sync_action(&SyncStatus { retcode: 0, selector: 7 }), SyncAction::Continue);
    assert_eq!(sync_action(&SyncStatus { retcode: 1, selector: 0 }), SyncAction::Terminate);
    assert_eq!(sync_action(&SyncStatus { retcode: 1, selector: 2 }), SyncAction::Terminate);
    assert_eq!(sync_action(&SyncStatus { retcode: 1101, selector: 6 }), SyncAction::Terminate);
    assert_eq!(decide(Err(EngineError::Parse)), Err(EngineError::Parse));
    assert_eq!(decide(Ok(SyncStatus { retcode: 0, selector: 2 })), Ok(SyncAction::Fetch));
}

#[test]
fn poll_answer_decides_the_next_action() {
    assert_eq!(on_poll_answer("window.synccheck={retcode:\"0\",selector:\"0\"}"), Ok(SyncAction::Continue));
    assert_eq!(on_poll_answer("window.synccheck={retcode:\"0\",selector:\"2\"}"), Ok(SyncAction::Fetch));
    assert_eq!(on_poll_answer("window.synccheck={retcode:\"1\",selector:\"2\"}"), Ok(SyncAction::Terminate));
}

#[test]
fn long_poll_address_embeds_credentials_cursor_and_time() {
    let w = logged_in();
    assert_eq!(
        sync_check_url(&w, 1487767062000),
        "https://webpush.web.wechat.com/cgi-bin/mmwebwx-bin/synccheck?sid=SID1&uin=UIN1&skey=SK1&deviceid=&synckey=1_10|2_20&r=1487767062000&_=1487767062000"
    );
    assert_eq!(
        message_sync_url(&w),
        "https://web.wechat.com/cgi-bin/mmwebwx-bin/webwxsync?sid=SID1&skey=SK1&pass_ticket=PT1"
    );
}

#[test]
fn poll_request_uses_push_host_headers() {
    let w = logged_in();
    let q = poll_request(&w, 5000).unwrap();
    assert!(q.url.ends_with("&synckey=1_10|2_20&r=5000&_=5000"));
    assert_eq!(q.headers.host, "webpush.web.wechat.com");
    assert_eq!(q.headers.referer, "https://webpush.web.wechat.com/?&lang=zh_CN");
    assert_eq!(q.headers.accept, "*/*");
    assert_eq!(q.headers.content_type, None);
    assert_eq!(q.headers.cookies, w.cookie_jar);
}

#[test]
fn requests_need_credentials_and_cursor() {
    let fresh = WeChat::new();
    assert_eq!(poll_request(&fresh, 1).err(), Some(EngineError::Precondition));
    assert_eq!(fetch_request(&fresh, 1).err(), Some(EngineError::Precondition));
    let mut w = logged_in();
    w.sync_keys = None;
    assert_eq!(poll_request(&w, 1).err(), Some(EngineError::Precondition));
    let mut w = logged_in();
    w.set_skey("");
    assert_eq!(fetch_request(&w, 1).err(), Some(EngineError::Precondition));
}

#[test]
fn fetch_request_carries_cursor_and_complement() {
    let w = logged_in();
    let q = fetch_request(&w, 1487767062000).unwrap();
    assert_eq!(q.url, "https://web.wechat.com/cgi-bin/mmwebwx-bin/webwxsync?sid=SID1&skey=SK1&pass_ticket=PT1");
    assert_eq!(q.headers.host, "web.wechat.com");
    assert_eq!(q.payload.rr, !1487767062000i64);
    assert_eq!(q.payload.rr, -1487767062001);
    assert_eq!(q.payload.sync_key.count, 2);
    assert_eq!(q.payload.sync_key.list, vec![SyncKey { key: 1, val: 10 }, SyncKey { key: 2, val: 20 }]);
    assert_eq!(q.payload.base_request.uin, "UIN1");
    assert_eq!(q.payload.base_request.device_id, "");
}

#[test]
fn fetch_answer_replaces_the_cursor() {
    let mut w = logged_in();
    let doc = parse_json("{\"SyncKey\":{\"List\":[{\"Key\":9,\"Val\":9}]},\"SyncCheckKey\":{\"Count\":2,\"List\":[{\"Key\":1,\"Val\":11},{\"Key\":3,\"Val\":30}]}}").unwrap();
    assert_eq!(check_new_message(&mut w, &doc), Ok(()));
    assert_eq!(w.sync_keys, Some(vec![SyncKey { key: 1, val: 11 }, SyncKey { key: 3, val: 30 }]));
    assert_eq!(w.sync_key_str(), "1_11|3_30");
    assert_eq!(w.uin(), "UIN1");
}

#[test]
fn fetch_answer_without_list_keeps_the_cursor() {
    let mut w = logged_in();
    assert_eq!(on_fetch_body(&mut w, "{\"BaseResponse\":{\"Ret\":0}}"), Ok(()));
    assert_eq!(w.sync_key_str(), "1_10|2_20");
    assert_eq!(on_fetch_body(&mut w, "{\"SyncCheckKey\":{\"List\":7}}"), Ok(()));
    assert_eq!(w.sync_key_str(), "1_10|2_20");
}

#[test]
fn unreadable_fetch_answer_is_a_parse_error() {
    let mut w = logged_in();
    assert_eq!(on_fetch_body(&mut w, "not json"), Err(EngineError::Parse));
    assert_eq!(
        on_fetch_body(&mut w, "{\"SyncCheckKey\":{\"List\":[{\"Key\":1,\"Val\":\"x\"}]}}"),
        Err(EngineError::Parse)
    );
    assert_eq!(
        on_fetch_body(&mut w, "{\"SyncCheckKey\":{\"List\":[{\"Key\":1.5,\"Val\":2}]}}"),
        Err(EngineError::Parse)
    );
    assert_eq!(w.sync_key_str(), "1_10|2_20");
}

#[test]
fn sync_state_machine() {
    assert_eq!(sync_step(SyncState::Active, Ok(SyncAction::Continue)), (SyncState::Active, false));
    assert_eq!(sync_step(SyncState::Active, Ok(SyncAction::Fetch)), (SyncState::Active, true));
    assert_eq!(sync_step(SyncState::Active, Ok(SyncAction::Terminate)), (SyncState::Terminated, false));
    assert_eq!(sync_step(SyncState::Active, Err(EngineError::Parse)), (SyncState::Terminated, false));
    assert_eq!(sync_step(SyncState::Terminated, Ok(SyncAction::Fetch)), (SyncState::Terminated, false));
    assert_eq!(sync_step(SyncState::Terminated, Ok(SyncAction::Continue)), (SyncState::Terminated, false));
}

#[test]
fn session_end_is_signalled_to_the_host() {
    assert_eq!(
        exit_signal(on_poll_answer("window.synccheck={retcode:\"1101\",selector:\"0\"}")),
        Some(EngineError::SessionTerminated)
    );
    assert_eq!(exit_signal(on_poll_answer("garbage")), Some(EngineError::Parse));
    assert_eq!(exit_signal(Err(EngineError::Transport)), Some(EngineError::Transport));
    assert_eq!(exit_signal(on_poll_answer("window.synccheck={retcode:\"0\",selector:\"2\"}")), None);
    assert_eq!(exit_signal(Ok(SyncAction::Continue)), None);
}
