//! The sync loop's decisions: the long-poll request, what each answer asks
//! for, and the message fetch that replaces the cursor.

use vstd::prelude::*;
use vstd::string::*;
use crate::cursor::{SyncKey, cursor_view, join_cursor};
use crate::decimal::{decimal_text, render_i64};
use crate::error::EngineError;
use crate::json::{json_parse, parsed_json, read_sync_keys, sync_keys_in};
use crate::scrape::{SyncStatus, regex_captures, sync_status_of, sync_status_pattern, extract_sync_status};
use crate::store::{HeaderSet, MessageCheck, WeChat, main_headers, message_check_of, push_headers};

verus! {

/// What the loop does after a long-poll answer.
#[derive(Clone, Copy, Debug, PartialEq, Eq, Structural)]
pub enum SyncAction {
    /// Nothing is pending: poll again at once.
    Continue,
    /// New messages: fetch them once, then poll again.
    Fetch,
    /// The server has ended the session: leave the loop for good.
    Terminate,
}

/// The two states of the loop.
#[derive(Clone, Copy, Debug, PartialEq, Eq, Structural)]
pub enum SyncState {
    /// The loop polls.
    Active,
    /// The loop has ended, and does not start again.
    Terminated,
}

/// The long-poll request.
#[derive(Clone, Debug)]
pub struct PollRequest {
    pub url: String,
    pub headers: HeaderSet,
}

/// The message-fetch request.
#[derive(Clone, Debug)]
pub struct FetchRequest {
    pub url: String,
    pub headers: HeaderSet,
    pub payload: MessageCheck,
}

/// The action that a pair of status codes asks for: a nonzero return code
/// ends the loop whatever the selector; otherwise selector 2 asks for a
/// fetch and any other selector for nothing.
pub open spec fn sync_action_spec(status: SyncStatus) -> SyncAction {
    if status.retcode != 0 {
        SyncAction::Terminate
    } else if status.selector == 2 {
        SyncAction::Fetch
    } else {
        SyncAction::Continue
    }
}

/// The action that a long-poll answer asks for, or the parse error of an
/// answer without status codes.
pub open spec fn poll_outcome(status: Result<SyncStatus, EngineError>) -> Result<
    SyncAction,
    EngineError,
> {
    match status {
        Ok(s) => Ok(sync_action_spec(s)),
        Err(e) => Err(e),
    }
}

/// The state after a long-poll answer, and whether a message fetch is due
/// before the next poll. A loop that has ended stays so and fetches
/// nothing; an active loop ends on a parse error or a call to terminate,
/// and fetches exactly where the answer asks for it.
pub open spec fn sync_step_spec(state: SyncState, outcome: Result<SyncAction, EngineError>) -> (
    SyncState,
    bool,
) {
    match state {
        SyncState::Terminated => (SyncState::Terminated, false),
        SyncState::Active => match outcome {
            Ok(SyncAction::Continue) => (SyncState::Active, false),
            Ok(SyncAction::Fetch) => (SyncState::Active, true),
            Ok(SyncAction::Terminate) => (SyncState::Terminated, false),
            Err(_) => (SyncState::Terminated, false),
        },
    }
}

/// What the host is told when an answer ends the loop: that the server
/// has ended the session, or the error; nothing while the loop goes on.
pub open spec fn exit_signal_spec(outcome: Result<SyncAction, EngineError>) -> Option<EngineError> {
    match outcome {
        Ok(SyncAction::Terminate) => Some(EngineError::SessionTerminated),
        Ok(_) => None,
        Err(e) => Some(e),
    }
}

/// The address of the long poll.
pub open spec fn sync_check_url_spec(
    sid: Seq<char>,
    uin: Seq<char>,
    skey: Seq<char>,
    cursor: Seq<SyncKey>,
    now: i64,
) -> Seq<char> {
    "https://webpush.web.wechat.com/cgi-bin/mmwebwx-bin/synccheck?sid="@ + sid + "&uin="@ + uin
        + "&skey="@ + skey + "&deviceid="@ + "&synckey="@ + join_cursor(cursor) + "&r="@
        + decimal_text(now as int) + "&_="@ + decimal_text(now as int)
}

/// The address of the message fetch.
pub open spec fn message_sync_url_spec(
    sid: Seq<char>,
    skey: Seq<char>,
    pass_ticket: Seq<char>,
) -> Seq<char> {
    "https://web.wechat.com/cgi-bin/mmwebwx-bin/webwxsync?sid="@ + sid + "&skey="@ + skey
        + "&pass_ticket="@ + pass_ticket
}

/// The transitions of the loop: with return code 0 the loop goes on, and
/// fetches exactly where the selector is 2; with any other return code it
/// ends, and never fetches.
pub proof fn lemma_sync_transitions(status: SyncStatus)
    ensures
        status.retcode == 0 && status.selector != 2 ==> sync_action_spec(status)
            == SyncAction::Continue,
        status.retcode == 0 && status.selector == 2 ==> sync_action_spec(status)
            == SyncAction::Fetch,
        status.retcode != 0 ==> sync_action_spec(status) == SyncAction::Terminate,
        (sync_action_spec(status) == SyncAction::Fetch) ==> status.retcode == 0,
{
}

/// An answer without readable status codes never lets the loop go on: its
/// outcome is the parse error, on which an active loop ends without a fetch.
pub proof fn lemma_malformed_answer_stops(caps: Option<Seq<Option<Seq<char>>>>)
    requires
        sync_status_of(caps).is_err(),
    ensures
        poll_outcome(sync_status_of(caps)) == Err::<SyncAction, EngineError>(EngineError::Parse),
        sync_step_spec(SyncState::Active, poll_outcome(sync_status_of(caps))) == (
            SyncState::Terminated,
            false,
        ),
{
}

/// The loop's state machine over the status codes: from `Active`, return
/// code 0 keeps the loop active, with a fetch exactly for selector 2; any
/// other return code, or an answer without status codes, ends it without a
/// fetch; and nothing leads out of `Terminated`.
pub proof fn lemma_sync_state_machine(state: SyncState, status: Result<SyncStatus, EngineError>)
    ensures
        state == SyncState::Terminated ==> sync_step_spec(state, poll_outcome(status)) == (
            SyncState::Terminated,
            false,
        ),
        state == SyncState::Active ==> sync_step_spec(state, poll_outcome(status)) == (match status {
            Ok(s) => if s.retcode != 0 {
                (SyncState::Terminated, false)
            } else {
                (SyncState::Active, s.selector == 2)
            },
            Err(_) => (SyncState::Terminated, false),
        }),
{
}

/// Moves the loop's state over one long-poll answer and says whether a
/// message fetch is due.
pub fn sync_step(state: SyncState, outcome: Result<SyncAction, EngineError>) -> (r: (
    SyncState,
    bool,
))
    ensures
        r == sync_step_spec(state, outcome),
{
    match state {
        SyncState::Terminated => (SyncState::Terminated, false),
        SyncState::Active => match outcome {
            Ok(SyncAction::Continue) => (SyncState::Active, false),
            Ok(SyncAction::Fetch) => (SyncState::Active, true),
            Ok(SyncAction::Terminate) => (SyncState::Terminated, false),
            Err(_) => (SyncState::Terminated, false),
        },
    }
}

/// The loop ends exactly where the host is told so: an active loop stays
/// active on the answers that give no signal, and on no others.
pub proof fn lemma_exit_signal(outcome: Result<SyncAction, EngineError>)
    ensures
        exit_signal_spec(outcome).is_none() <==> sync_step_spec(SyncState::Active, outcome).0
            == SyncState::Active,
{
}

/// What the host is told when an answer ends the loop, if it does.
pub fn exit_signal(outcome: Result<SyncAction, EngineError>) -> (r: Option<EngineError>)
    ensures
        r == exit_signal_spec(outcome),
{
    match outcome {
        Ok(SyncAction::Terminate) => Some(EngineError::SessionTerminated),
        Ok(_) => None,
        Err(e) => Some(e),
    }
}

/// Decides what a pair of status codes asks for.
pub fn sync_action(status: &SyncStatus) -> (r: SyncAction)
    ensures
        r == sync_action_spec(*status),
{
    if status.retcode != 0 {
        SyncAction::Terminate
    } else if status.selector == 2 {
        SyncAction::Fetch
    } else {
        SyncAction::Continue
    }
}

/// Decides what a scraped long-poll answer asks for.
pub fn decide(status: Result<SyncStatus, EngineError>) -> (r: Result<SyncAction, EngineError>)
    ensures
        r == poll_outcome(status),
{
    match status {
        Ok(s) => Ok(sync_action(&s)),
        Err(e) => Err(e),
    }
}

/// Reads a long-poll answer and decides what it asks for. A body without
/// the status codes is a parse error, on which the loop must stop.
pub fn on_poll_answer(body: &str) -> (r: Result<SyncAction, EngineError>)
    ensures
        r == poll_outcome(sync_status_of(regex_captures(sync_status_pattern(), body@))),
{
    decide(extract_sync_status(body))
}

/// The address of the long poll for the store's credentials and cursor.
pub fn sync_check_url(wechat: &WeChat, now: i64) -> (r: String)
    requires
        wechat.sync_keys.is_some(),
    ensures
        r@ == sync_check_url_spec(
            wechat.sid@,
            wechat.uin@,
            wechat.skey@,
            wechat.sync_keys.unwrap()@,
            now,
        ),
{
    let stamp = render_i64(now);
    let cursor = wechat.sync_key_str();
    let mut r = String::from_str(
        "https://webpush.web.wechat.com/cgi-bin/mmwebwx-bin/synccheck?sid=",
    );
    r.append(wechat.sid());
    r.append("&uin=");
    r.append(wechat.uin());
    r.append("&skey=");
    r.append(wechat.skey());
    r.append("&deviceid=");
    r.append("&synckey=");
    r.append(cursor.as_str());
    r.append("&r=");
    r.append(stamp.as_str());
    r.append("&_=");
    r.append(stamp.as_str());
    r
}

/// The address of the message fetch for the store's credentials.
pub fn message_sync_url(wechat: &WeChat) -> (r: String)
    ensures
        r@ == message_sync_url_spec(wechat.sid@, wechat.skey@, wechat.pass_ticket@),
{
    let mut r = String::from_str("https://web.wechat.com/cgi-bin/mmwebwx-bin/webwxsync?sid=");
    r.append(wechat.sid());
    r.append("&skey=");
    r.append(wechat.skey());
    r.append("&pass_ticket=");
    r.append(wechat.pass_ticket());
    r
}

/// Whether the store can make the sync loop's requests: all credentials
/// and a cursor are there.
pub open spec fn ready_to_sync(wechat: &WeChat) -> bool {
    wechat.authenticated() && wechat.sync_keys.is_some()
}

/// The long-poll request: the address with the credentials, the cursor and
/// the time stamp, and the header set of the push host. A store that lacks
/// a credential or the cursor gives the precondition error.
pub fn poll_request(wechat: &WeChat, now: i64) -> (r: Result<PollRequest, EngineError>)
    ensures
        r.is_ok() == ready_to_sync(wechat),
        r matches Err(e) ==> e == EngineError::Precondition,
        r matches Ok(q) ==> {
            &&& q.url@ == sync_check_url_spec(
                wechat.sid@,
                wechat.uin@,
                wechat.skey@,
                wechat.sync_keys.unwrap()@,
                now,
            )
            &&& push_headers(q.headers, wechat.cookie_jar@)
        },
{
    if !wechat.is_authenticated() || wechat.sync_keys.is_none() {
        return Err(EngineError::Precondition);
    }
    Ok(PollRequest { url: sync_check_url(wechat, now), headers: wechat.sync_headers() })
}

/// The message-fetch request: the address with the credentials, the main
/// header set, and the body with the cursor and the complement of the time
/// stamp. A store that lacks a credential or the cursor gives the
/// precondition error.
pub fn fetch_request(wechat: &WeChat, now: i64) -> (r: Result<FetchRequest, EngineError>)
    ensures
        r.is_ok() == ready_to_sync(wechat),
        r matches Err(e) ==> e == EngineError::Precondition,
        r matches Ok(q) ==> {
            &&& q.url@ == message_sync_url_spec(wechat.sid@, wechat.skey@, wechat.pass_ticket@)
            &&& main_headers(q.headers, wechat.cookie_jar@)
            &&& message_check_of(q.payload, *wechat, now)
        },
{
    if !wechat.is_authenticated() || wechat.sync_keys.is_none() {
        return Err(EngineError::Precondition);
    }
    Ok(
        FetchRequest {
            url: message_sync_url(wechat),
            headers: wechat.headers(),
            payload: wechat.message_check_data(now),
        },
    )
}

/// What the answer of a message fetch does: the cursor under its
/// `SyncCheckKey` replaces the store's cursor whole; an answer without a
/// list there leaves the cursor; one with an unreadable entry is a parse
/// error. Nothing else in the store changes.
pub open spec fn fetch_effect(
    before: WeChat,
    after: WeChat,
    doc: serde_json::Value,
    r: Result<(), EngineError>,
) -> bool {
    match sync_keys_in(doc, "/SyncCheckKey"@) {
        Ok(keys) => {
            &&& r.is_ok()
            &&& cursor_view(after.sync_keys) == match keys {
                Some(l) => Some(l),
                None => cursor_view(before.sync_keys),
            }
            &&& after == (WeChat { sync_keys: after.sync_keys, ..before })
        },
        Err(e) => r == Err::<(), EngineError>(e) && after == before,
    }
}

/// Takes in the parsed answer of a message fetch: the cursor that the
/// server sent under `SyncCheckKey` becomes the store's cursor.
pub fn check_new_message(wechat: &mut WeChat, doc: &serde_json::Value) -> (r: Result<
    (),
    EngineError,
>)
    ensures
        fetch_effect(*old(wechat), *final(wechat), *doc, r),
{
    match read_sync_keys(doc, "/SyncCheckKey") {
        Ok(keys) => {
            wechat.set_sync_key(keys);
            Ok(())
        },
        Err(e) => Err(e),
    }
}

/// What the body of a message fetch's answer does: what its document
/// does, where it is JSON; otherwise nothing, with the parse error.
pub open spec fn fetch_body_effect(
    before: WeChat,
    after: WeChat,
    body: Seq<char>,
    r: Result<(), EngineError>,
) -> bool {
    match parsed_json(body) {
        Some(doc) => fetch_effect(before, after, doc, r),
        None => r == Err::<(), EngineError>(EngineError::Parse) && after == before,
    }
}

/// Takes in the body of a message fetch's answer. A body that is no JSON
/// or holds an unreadable cursor is a parse error and leaves the store
/// untouched; in any case only the cursor can change.
pub fn on_fetch_body(wechat: &mut WeChat, body: &str) -> (r: Result<(), EngineError>)
    ensures
        fetch_body_effect(*old(wechat), *final(wechat), body@, r),
        r matches Err(e) ==> e == EngineError::Parse && *final(wechat) == *old(wechat),
        *final(wechat) == (WeChat { sync_keys: final(wechat).sync_keys, ..*old(wechat) }),
{
    match json_parse(body) {
        Some(doc) => check_new_message(wechat, &doc),
        None => Err(EngineError::Parse),
    }
}

} // verus!
