//! The login handshake: its phases, the addresses of its requests, and what
//! each answer puts into the credential store.

use vstd::prelude::*;
use vstd::string::*;
use crate::cursor::{SyncKey, cursor_view};
use crate::dispatch::{SrvMsg, SrvMsgView, events_view};
use crate::error::EngineError;
use crate::json::{
    ContactEntry, ContactView, contacts_in, contacts_view, json_parse, own_user_in, parsed_json,
    read_contacts, read_own_user, read_sync_keys, sync_keys_in,
};
use crate::scrape::{
    LoginFields, LoginFieldsView, extract_login_fields, extract_redirect_uri, field_view,
    group_at, login_fields_of, pass_ticket_pattern, redirect_pattern, regex_captures, required,
    sid_pattern, skey_pattern, uin_pattern,
};
use crate::store::{
    BaseRequest, HeaderSet, StatusNotify, User, WeChat, base_of, main_headers, merged_jar,
    status_notify_of, texts,
};

verus! {

/// The phases of the handshake, in the order in which they are passed.
#[derive(Clone, Copy, Debug, PartialEq, Eq, Structural)]
pub enum LoginPhase {
    RequestUuid,
    RenderQr,
    PollPending,
    PollConfirmed,
    FetchLoginPage,
    InitSession,
    StatusNotify,
    EnterSyncLoop,
    /// A step has failed; the handshake is over.
    Failed,
}

/// The place of a phase on the forward path.
pub open spec fn phase_rank(p: LoginPhase) -> nat {
    match p {
        LoginPhase::RequestUuid => 0,
        LoginPhase::RenderQr => 1,
        LoginPhase::PollPending => 2,
        LoginPhase::PollConfirmed => 3,
        LoginPhase::FetchLoginPage => 4,
        LoginPhase::InitSession => 5,
        LoginPhase::StatusNotify => 6,
        LoginPhase::EnterSyncLoop => 7,
        LoginPhase::Failed => 8,
    }
}

/// The phase after `p`: the next on the path where the step succeeded,
/// `Failed` where it did not. The two last phases are never left.
pub open spec fn next_phase_spec(p: LoginPhase, ok: bool) -> LoginPhase {
    match p {
        LoginPhase::EnterSyncLoop => LoginPhase::EnterSyncLoop,
        LoginPhase::Failed => LoginPhase::Failed,
        _ => if !ok {
            LoginPhase::Failed
        } else {
            match p {
                LoginPhase::RequestUuid => LoginPhase::RenderQr,
                LoginPhase::RenderQr => LoginPhase::PollPending,
                LoginPhase::PollPending => LoginPhase::PollConfirmed,
                LoginPhase::PollConfirmed => LoginPhase::FetchLoginPage,
                LoginPhase::FetchLoginPage => LoginPhase::InitSession,
                LoginPhase::InitSession => LoginPhase::StatusNotify,
                _ => LoginPhase::EnterSyncLoop,
            }
        },
    }
}

/// The handshake never goes back: a successful step moves one place
/// forward, and no step moves to an earlier phase.
pub proof fn lemma_handshake_forward(p: LoginPhase, ok: bool)
    ensures
        phase_rank(next_phase_spec(p, ok)) >= phase_rank(p),
        ok && phase_rank(p) < 7 ==> phase_rank(next_phase_spec(p, ok)) == phase_rank(p) + 1,
        !ok && phase_rank(p) < 7 ==> next_phase_spec(p, ok) == LoginPhase::Failed,
        phase_rank(p) >= 7 ==> next_phase_spec(p, ok) == p,
{
}

/// The phase that follows `p` after a step that succeeded or failed.
pub fn next_phase(p: LoginPhase, ok: bool) -> (r: LoginPhase)
    ensures
        r == next_phase_spec(p, ok),
{
    match p {
        LoginPhase::EnterSyncLoop => LoginPhase::EnterSyncLoop,
        LoginPhase::Failed => LoginPhase::Failed,
        _ => {
            if !ok {
                LoginPhase::Failed
            } else {
                match p {
                    LoginPhase::RequestUuid => LoginPhase::RenderQr,
                    LoginPhase::RenderQr => LoginPhase::PollPending,
                    LoginPhase::PollPending => LoginPhase::PollConfirmed,
                    LoginPhase::PollConfirmed => LoginPhase::FetchLoginPage,
                    LoginPhase::FetchLoginPage => LoginPhase::InitSession,
                    LoginPhase::InitSession => LoginPhase::StatusNotify,
                    _ => LoginPhase::EnterSyncLoop,
                }
            }
        },
    }
}

/// A request with a base body.
#[derive(Clone, Debug)]
pub struct InitRequest {
    pub url: String,
    pub headers: HeaderSet,
    pub payload: BaseRequest,
}

/// The presence signal.
#[derive(Clone, Debug)]
pub struct NotifyRequest {
    pub url: String,
    pub headers: HeaderSet,
    pub payload: StatusNotify,
}

/// Whether an entry stands for a person: its member count is exactly zero.
pub open spec fn is_direct(e: ContactView) -> bool {
    e.member_count == Some(0i64)
}

/// The events for a contact list: one `AddContact` for each entry that
/// stands for a person, in the order of the list; group chats give none.
pub open spec fn contact_events(l: Seq<ContactView>) -> Seq<SrvMsgView>
    decreases l.len(),
{
    if l.len() == 0 {
        Seq::empty()
    } else if is_direct(l.last()) {
        contact_events(l.drop_last()).push(
            SrvMsgView::AddContact(l.last().user_name, l.last().nick_name),
        )
    } else {
        contact_events(l.drop_last())
    }
}

/// The address of the login-init endpoint.
pub open spec fn jslogin_url_spec() -> Seq<char> {
    "https://login.web.wechat.com/jslogin?appid=wx782c26e4c19acffb"@
}

/// The address of the login image for a token.
pub open spec fn qr_code_url_spec(uuid: Seq<char>) -> Seq<char> {
    "https://login.weixin.qq.com/qrcode/"@ + uuid
}

/// The address of the status check for a token: `tip=1` while the scan is
/// pending, `tip=0` for the confirmation.
pub open spec fn login_status_url_spec(uuid: Seq<char>, pending: bool) -> Seq<char> {
    "https://login.weixin.qq.com/cgi-bin/mmwebwx-bin/login?uuid="@ + uuid + "&tip="@ + (if pending {
        "1"@
    } else {
        "0"@
    })
}

/// The address of the login page behind a redirect address.
pub open spec fn login_page_url_spec(redirect_uri: Seq<char>) -> Seq<char> {
    redirect_uri + "&fun=new"@
}

/// The address of the session setup.
pub open spec fn init_url_spec(pass_ticket: Seq<char>, skey: Seq<char>) -> Seq<char> {
    "https://web.wechat.com/cgi-bin/mmwebwx-bin/webwxinit?lang=zh_CN&pass_ticket="@ + pass_ticket
        + "&skey="@ + skey
}

/// The address of the presence signal.
pub open spec fn status_notify_url_spec(pass_ticket: Seq<char>) -> Seq<char> {
    "https://web.wechat.com/cgi-bin/mmwebwx-bin/webwxstatusnotify?lang=zh_CN&pass_ticket="@
        + pass_ticket
}

/// The login page's address in a status answer, or the parse error.
pub open spec fn login_page_of(redirect: Result<Seq<char>, EngineError>) -> Result<
    Seq<char>,
    EngineError,
> {
    match redirect {
        Ok(u) => Ok(login_page_url_spec(u)),
        Err(e) => Err(e),
    }
}

/// The address of the login-init endpoint.
pub fn jslogin_url() -> (r: String)
    ensures
        r@ == jslogin_url_spec(),
{
    String::from_str("https://login.web.wechat.com/jslogin?appid=wx782c26e4c19acffb")
}

/// The address of the login image for a token.
pub fn qr_code_url(uuid: &str) -> (r: String)
    ensures
        r@ == qr_code_url_spec(uuid@),
{
    let mut r = String::from_str("https://login.weixin.qq.com/qrcode/");
    r.append(uuid);
    r
}

/// The address of the status check for a token.
pub fn login_status_url(uuid: &str, pending: bool) -> (r: String)
    ensures
        r@ == login_status_url_spec(uuid@, pending),
{
    let mut r = String::from_str("https://login.weixin.qq.com/cgi-bin/mmwebwx-bin/login?uuid=");
    r.append(uuid);
    r.append("&tip=");
    if pending {
        r.append("1");
    } else {
        r.append("0");
    }
    r
}

/// The address of the login page behind a redirect address.
pub fn login_page_url(redirect_uri: &str) -> (r: String)
    ensures
        r@ == login_page_url_spec(redirect_uri@),
{
    let mut r = String::from_str(redirect_uri);
    r.append("&fun=new");
    r
}

/// Reads the answer of the confirmed status check and gives the address of
/// the login page. An answer without a redirect address is a parse error.
pub fn on_confirmed(body: &str) -> (r: Result<String, EngineError>)
    ensures
        field_view(r) == login_page_of(
            required(group_at(regex_captures(redirect_pattern(), body@), 1)),
        ),
{
    match extract_redirect_uri(body) {
        Ok(uri) => Ok(login_page_url(uri.as_str())),
        Err(e) => Err(e),
    }
}

/// The event that asks the host to show the login image stored at `path`.
pub fn show_login_image(path: &str) -> (r: SrvMsg)
    ensures
        r@ == SrvMsgView::ShowVerifyImage(path@),
{
    SrvMsg::ShowVerifyImage(String::from_str(path))
}

/// The store after the login page's credentials and cookies are taken in.
pub open spec fn committed(before: WeChat, after: WeChat, f: LoginFieldsView, cookies: Seq<String>) -> bool {
    &&& after.uin@ == f.uin
    &&& after.sid@ == f.sid
    &&& after.skey@ == f.skey
    &&& after.pass_ticket@ == f.pass_ticket
    &&& texts(after.cookie_jar@) == merged_jar(texts(before.cookie_jar@), cookies)
    &&& after.user_info == before.user_info
    &&& after.sync_keys == before.sync_keys
}

/// What the login page does to the store: with all four credentials it is
/// committed, with any of them absent it stays as it was.
pub open spec fn login_page_effect(
    before: WeChat,
    after: WeChat,
    fields: Result<LoginFieldsView, EngineError>,
    cookies: Seq<String>,
    r: Result<(), EngineError>,
) -> bool {
    match fields {
        Ok(f) => r.is_ok() && committed(before, after, f, cookies),
        Err(e) => r == Err::<(), EngineError>(e) && after == before,
    }
}

/// The credentials that a login page carries in its four tags, or the
/// parse error.
pub open spec fn login_fields_of_page(body: Seq<char>) -> Result<LoginFieldsView, EngineError> {
    login_fields_of(
        group_at(regex_captures(skey_pattern(), body), 1),
        group_at(regex_captures(sid_pattern(), body), 1),
        group_at(regex_captures(uin_pattern(), body), 1),
        group_at(regex_captures(pass_ticket_pattern(), body), 1),
    )
}

/// Puts the four credentials and the cookies of the login page into the
/// store.
pub fn commit_login(wechat: &mut WeChat, fields: &LoginFields, cookies: &Vec<String>)
    requires
        old(wechat).cookie_jar@.len() + cookies@.len() >= 1,
    ensures
        committed(*old(wechat), *final(wechat), fields@, cookies@),
{
    wechat.set_uin(fields.uin.as_str());
    wechat.set_skey(fields.skey.as_str());
    wechat.set_sid(fields.sid.as_str());
    wechat.set_pass_ticket(fields.pass_ticket.as_str());
    wechat.set_cookies(cookies);
}

/// Takes in the login page: scrapes the four credentials from its body
/// and, only where all four are there, puts them and the cookies of its
/// set-cookie header into the store. Otherwise the store is untouched and
/// the parse error is returned.
pub fn on_login_page(wechat: &mut WeChat, body: &str, cookies: &Vec<String>) -> (r: Result<
    (),
    EngineError,
>)
    requires
        old(wechat).cookie_jar@.len() + cookies@.len() >= 1,
    ensures
        login_page_effect(
            *old(wechat),
            *final(wechat),
            login_fields_of_page(body@),
            cookies@,
            r,
        ),
{
    match extract_login_fields(body) {
        Ok(fields) => {
            commit_login(wechat, &fields, cookies);
            Ok(())
        },
        Err(e) => Err(e),
    }
}

/// The request of the session setup: the address with pass ticket and
/// session key, the main header set, and the base body. A store that
/// lacks a credential gives the precondition error.
pub fn init_request(wechat: &WeChat) -> (r: Result<InitRequest, EngineError>)
    ensures
        r.is_ok() == wechat.authenticated(),
        r matches Err(e) ==> e == EngineError::Precondition,
        r matches Ok(q) ==> {
            &&& q.url@ == init_url_spec(wechat.pass_ticket@, wechat.skey@)
            &&& main_headers(q.headers, wechat.cookie_jar@)
            &&& base_of(q.payload, *wechat)
        },
{
    if !wechat.is_authenticated() {
        return Err(EngineError::Precondition);
    }
    let mut url = String::from_str(
        "https://web.wechat.com/cgi-bin/mmwebwx-bin/webwxinit?lang=zh_CN&pass_ticket=",
    );
    url.append(wechat.pass_ticket());
    url.append("&skey=");
    url.append(wechat.skey());
    Ok(InitRequest { url, headers: wechat.headers(), payload: wechat.base_data() })
}

/// The presence signal: the address with the pass ticket, the main header
/// set, and the status body stamped with `now`. A store that lacks a
/// credential or the user's profile gives the precondition error.
pub fn status_notify_request(wechat: &WeChat, now: i64) -> (r: Result<NotifyRequest, EngineError>)
    ensures
        r.is_ok() == (wechat.authenticated() && wechat.user_info.is_some()),
        r matches Err(e) ==> e == EngineError::Precondition,
        r matches Ok(q) ==> {
            &&& q.url@ == status_notify_url_spec(wechat.pass_ticket@)
            &&& main_headers(q.headers, wechat.cookie_jar@)
            &&& status_notify_of(q.payload, *wechat, now)
        },
{
    if !wechat.is_authenticated() || wechat.user_info.is_none() {
        return Err(EngineError::Precondition);
    }
    let mut url = String::from_str(
        "https://web.wechat.com/cgi-bin/mmwebwx-bin/webwxstatusnotify?lang=zh_CN&pass_ticket=",
    );
    url.append(wechat.pass_ticket());
    Ok(NotifyRequest { url, headers: wechat.headers(), payload: wechat.status_notify_data(now) })
}

/// The events for a contact list: an `AddContact` for each person, in list
/// order, and none for a group chat.
pub fn direct_contacts(list: &Vec<ContactEntry>) -> (r: Vec<SrvMsg>)
    ensures
        events_view(r@) == contact_events(contacts_view(list@)),
{
    let mut r: Vec<SrvMsg> = Vec::new();
    let mut i: usize = 0;
    let ghost all = contacts_view(list@);
    assert(all.subrange(0, 0) =~= Seq::<ContactView>::empty());
    assert(events_view(r@) =~= Seq::<SrvMsgView>::empty());
    while i < list.len()
        invariant
            i <= list.len(),
            all == contacts_view(list@),
            events_view(r@) == contact_events(all.subrange(0, i as int)),
        decreases list.len() - i,
    {
        let entry = &list[i];
        let ghost before = events_view(r@);
        proof {
            let q = all.subrange(0, i as int + 1);
            assert(q.drop_last() =~= all.subrange(0, i as int));
            assert(q.last() == entry@);
        }
        let direct = match entry.member_count {
            Some(n) => n == 0,
            None => false,
        };
        if direct {
            let msg = SrvMsg::AddContact(
                User {
                    user_name: entry.user.user_name.clone(),
                    nick_name: entry.user.nick_name.clone(),
                },
            );
            r.push(msg);
            assert(events_view(r@) =~= before.push(
                SrvMsgView::AddContact(entry@.user_name, entry@.nick_name),
            ));
        }
        i = i + 1;
    }
    assert(all.subrange(0, list.len() as int) =~= all);
    r
}

/// The four credentials and the cookie jar are the same in both stores.
pub open spec fn same_session(a: WeChat, b: WeChat) -> bool {
    a.uin == b.uin && a.sid == b.sid && a.skey == b.skey && a.pass_ticket == b.pass_ticket
        && a.cookie_jar == b.cookie_jar
}

/// Puts what the session setup's answer held into the store: the cursor,
/// whole, and the user's profile; and gives the events for the contact
/// list. Without a cursor the store's cursor stays as it was.
pub fn on_init_session(
    wechat: &mut WeChat,
    sync_key: Option<Vec<SyncKey>>,
    user: User,
    contacts: &Vec<ContactEntry>,
) -> (r: Vec<SrvMsg>)
    ensures
        events_view(r@) == contact_events(contacts_view(contacts@)),
        final(wechat).sync_keys == match sync_key {
            Some(l) => Some(l),
            None => old(wechat).sync_keys,
        },
        final(wechat).user_info == Some(user),
        same_session(*old(wechat), *final(wechat)),
{
    wechat.set_sync_key(sync_key);
    wechat.set_user_info(user);
    direct_contacts(contacts)
}

/// The views of the events that were found, or the error.
pub open spec fn events_result_view(r: Result<Vec<SrvMsg>, EngineError>) -> Result<
    Seq<SrvMsgView>,
    EngineError,
> {
    match r {
        Ok(v) => Ok(events_view(v@)),
        Err(e) => Err(e),
    }
}

/// What the session setup's answer does: where it holds a readable cursor
/// (or none), the user's name and a contact list, these are committed and
/// the contacts' events returned; otherwise the store stays as it was and
/// the outcome is the parse error.
pub open spec fn init_effect(
    before: WeChat,
    after: WeChat,
    doc: serde_json::Value,
    r: Result<Seq<SrvMsgView>, EngineError>,
) -> bool {
    match (
        sync_keys_in(doc, "/SyncKey"@),
        own_user_in(doc),
        contacts_in(doc, "/ContactList"@),
    ) {
        (Ok(keys), Ok(user), Ok(contacts)) => {
            &&& r == Ok::<Seq<SrvMsgView>, EngineError>(contact_events(contacts))
            &&& cursor_view(after.sync_keys) == match keys {
                Some(l) => Some(l),
                None => cursor_view(before.sync_keys),
            }
            &&& after.user_info matches Some(u) && u.user_name@ == user.0 && u.nick_name@
                == user.1
            &&& same_session(before, after)
        },
        _ => r == Err::<Seq<SrvMsgView>, EngineError>(EngineError::Parse) && after == before,
    }
}

/// Takes in the parsed answer of the session setup: commits its `SyncKey`
/// and `User` to the store and gives an `AddContact` for each entry of its
/// `ContactList` with member count zero, in order. An answer that cannot
/// be read leaves the store untouched.
pub fn on_init_answer(wechat: &mut WeChat, doc: &serde_json::Value) -> (r: Result<
    Vec<SrvMsg>,
    EngineError,
>)
    ensures
        init_effect(*old(wechat), *final(wechat), *doc, events_result_view(r)),
{
    let keys = match read_sync_keys(doc, "/SyncKey") {
        Ok(k) => k,
        Err(e) => {
            return Err(e);
        },
    };
    let user = match read_own_user(doc) {
        Ok(u) => u,
        Err(e) => {
            return Err(e);
        },
    };
    let contacts = match read_contacts(doc, "/ContactList") {
        Ok(c) => c,
        Err(e) => {
            return Err(e);
        },
    };
    Ok(on_init_session(wechat, keys, user, &contacts))
}

/// What the body of the session setup's answer does: what its document
/// does, where it is JSON; otherwise nothing, with the parse error.
pub open spec fn init_body_effect(
    before: WeChat,
    after: WeChat,
    body: Seq<char>,
    r: Result<Seq<SrvMsgView>, EngineError>,
) -> bool {
    match parsed_json(body) {
        Some(doc) => init_effect(before, after, doc, r),
        None => r == Err::<Seq<SrvMsgView>, EngineError>(EngineError::Parse) && after == before,
    }
}

/// Takes in the body of the session setup's answer. A body that is no
/// JSON, or lacks what the setup needs, is a parse error and leaves the
/// store untouched; otherwise the credentials and cookies stay, and the
/// cursor and the user's profile are set.
pub fn on_init_body(wechat: &mut WeChat, body: &str) -> (r: Result<Vec<SrvMsg>, EngineError>)
    ensures
        init_body_effect(*old(wechat), *final(wechat), body@, events_result_view(r)),
{
    match json_parse(body) {
        Some(doc) => on_init_answer(wechat, &doc),
        None => Err(EngineError::Parse),
    }
}

} // verus!
