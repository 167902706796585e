//! The login handshake as a state machine: from the phase and the answer
//! of the last request to the next phase, the events for the host, and the
//! next request.

use vstd::prelude::*;
use vstd::string::*;
use crate::dispatch::{SrvMsg, SrvMsgView, events_view};
use crate::error::EngineError;
use crate::json::{contacts_in, own_user_in, parsed_json, sync_keys_in};
use crate::login::{
    InitRequest, LoginPhase, NotifyRequest, init_body_effect, init_request, init_url_spec,
    jslogin_url,
    jslogin_url_spec, login_fields_of_page, login_page_effect, login_page_of, login_status_url,
    login_status_url_spec, next_phase, next_phase_spec, on_confirmed, on_init_body, on_login_page,
    qr_code_url, qr_code_url_spec, show_login_image, status_notify_request,
    status_notify_url_spec,
};
use crate::scrape::{
    extract_uuid, group_at, redirect_pattern, regex_captures, required, uuid_pattern,
};
use crate::store::{HeaderSet, WeChat, base_of, main_headers, status_notify_of};

verus! {

/// What the transport brought back for a request: the body, and the
/// entries of the set-cookie header. For the login image the body is the
/// path at which the image was stored.
#[derive(Clone, Debug)]
pub struct Answer {
    pub body: String,
    pub cookies: Vec<String>,
}

/// The handshake's state: the phase, and what earlier answers gave.
#[derive(Clone, Debug)]
pub struct Handshake {
    pub phase: LoginPhase,
    /// The login token, from the phase `RenderQr` on.
    pub uuid: String,
    /// The address of the login page, from the phase `FetchLoginPage` on.
    pub login_page: String,
    /// Why the handshake failed, in the phase `Failed`.
    pub failure: Option<EngineError>,
}

/// The next thing for the transport to do.
#[derive(Clone, Debug)]
pub enum LoginCommand {
    /// GET the address, with the session's headers where there are some.
    Get { url: String, headers: Option<HeaderSet> },
    /// GET the login image at the address and store it for the host.
    FetchImage { url: String },
    /// POST the base body to the session setup.
    Init(InitRequest),
    /// POST the presence signal; its answer is not read.
    Notify(NotifyRequest),
    /// Hand over to the sync loop; the handshake is done.
    EnterSyncLoop,
    /// Stop: the handshake has failed.
    Stop(EngineError),
}

/// Whether a GET command asks for `url` with the main session's headers.
pub open spec fn is_session_get(c: LoginCommand, url: Seq<char>, wechat: WeChat) -> bool {
    c matches LoginCommand::Get { url: u, headers: Some(h) } && u@ == url && main_headers(
        h,
        wechat.cookie_jar@,
    )
}

/// Whether a GET command asks for `url` without any session header.
pub open spec fn is_plain_get(c: LoginCommand, url: Seq<char>) -> bool {
    c matches LoginCommand::Get { url: u, headers: None } && u@ == url
}

/// The request that each phase makes.
pub open spec fn command_spec(h: Handshake, wechat: WeChat, now: i64, c: LoginCommand) -> bool {
    match h.phase {
        LoginPhase::RequestUuid => is_plain_get(c, jslogin_url_spec()),
        LoginPhase::RenderQr => c matches LoginCommand::FetchImage { url } && url@
            == qr_code_url_spec(h.uuid@),
        LoginPhase::PollPending => is_session_get(c, login_status_url_spec(h.uuid@, true), wechat),
        LoginPhase::PollConfirmed => is_session_get(
            c,
            login_status_url_spec(h.uuid@, false),
            wechat,
        ),
        LoginPhase::FetchLoginPage => is_plain_get(c, h.login_page@),
        LoginPhase::InitSession => if wechat.authenticated() {
            c matches LoginCommand::Init(q) && q.url@ == init_url_spec(
                wechat.pass_ticket@,
                wechat.skey@,
            ) && main_headers(q.headers, wechat.cookie_jar@) && base_of(q.payload, wechat)
        } else {
            c matches LoginCommand::Stop(e) && e == EngineError::Precondition
        },
        LoginPhase::StatusNotify => if wechat.authenticated() && wechat.user_info.is_some() {
            c matches LoginCommand::Notify(q) && q.url@ == status_notify_url_spec(
                wechat.pass_ticket@,
            ) && main_headers(q.headers, wechat.cookie_jar@) && status_notify_of(
                q.payload,
                wechat,
                now,
            )
        } else {
            c matches LoginCommand::Stop(e) && e == EngineError::Precondition
        },
        LoginPhase::EnterSyncLoop => c is EnterSyncLoop,
        LoginPhase::Failed => c matches LoginCommand::Stop(e) && e == (match h.failure {
            Some(f) => f,
            None => EngineError::Parse,
        }),
    }
}

/// The handshake after a failed step: the phase `Failed` with the reason,
/// and all else as before.
pub open spec fn failed_with(before: Handshake, after: Handshake, e: EngineError) -> bool {
    after.phase == LoginPhase::Failed && after.failure == Some(e) && after.uuid == before.uuid
        && after.login_page == before.login_page
}

/// The handshake after a successful step that learnt nothing new: the next
/// phase, and all else as before.
pub open spec fn moved_on(before: Handshake, after: Handshake) -> bool {
    after.phase == next_phase_spec(before.phase, true) && after.failure == before.failure
        && after.uuid == before.uuid && after.login_page == before.login_page
}

/// Whether the body of the session setup's answer can be taken in: it is
/// JSON and holds a readable cursor (or none), the user's name and a
/// contact list.
pub open spec fn init_answer_ok(body: Seq<char>) -> bool {
    match parsed_json(body) {
        Some(doc) => sync_keys_in(doc, "/SyncKey"@).is_ok() && own_user_in(doc).is_ok()
            && contacts_in(doc, "/ContactList"@).is_ok(),
        None => false,
    }
}

/// What an answer does in each phase, to the handshake, to the store and
/// by way of events.
pub open spec fn advance_spec(
    before: Handshake,
    store_before: WeChat,
    after: Handshake,
    store_after: WeChat,
    answer: Answer,
    events: Seq<SrvMsgView>,
) -> bool {
    match before.phase {
        LoginPhase::RequestUuid => store_after == store_before && events.len() == 0 && (
        match required(group_at(regex_captures(uuid_pattern(), answer.body@), 1)) {
            Ok(u) => after.phase == LoginPhase::RenderQr && after.uuid@ == u && after.failure
                == before.failure && after.login_page == before.login_page,
            Err(e) => failed_with(before, after, e),
        }),
        LoginPhase::RenderQr => store_after == store_before && moved_on(before, after) && events
            == seq![SrvMsgView::ShowVerifyImage(answer.body@)],
        LoginPhase::PollPending => store_after == store_before && moved_on(before, after)
            && events.len() == 0,
        LoginPhase::PollConfirmed => store_after == store_before && events.len() == 0 && (
        match login_page_of(
            required(group_at(regex_captures(redirect_pattern(), answer.body@), 1)),
        ) {
            Ok(p) => after.phase == LoginPhase::FetchLoginPage && after.login_page@ == p
                && after.failure == before.failure && after.uuid == before.uuid,
            Err(e) => failed_with(before, after, e),
        }),
        LoginPhase::FetchLoginPage => events.len() == 0 && (match login_fields_of_page(
            answer.body@,
        ) {
            Ok(f) => moved_on(before, after) && login_page_effect(
                store_before,
                store_after,
                Ok(f),
                answer.cookies@,
                Ok(()),
            ),
            Err(e) => failed_with(before, after, e) && store_after == store_before,
        }),
        LoginPhase::InitSession => if init_answer_ok(answer.body@) {
            moved_on(before, after) && init_body_effect(
                store_before,
                store_after,
                answer.body@,
                Ok(events),
            )
        } else {
            failed_with(before, after, EngineError::Parse) && store_after == store_before
                && events.len() == 0
        },
        LoginPhase::StatusNotify => store_after == store_before && moved_on(before, after)
            && events.len() == 0,
        _ => store_after == store_before && after == before && events.len() == 0,
    }
}

/// The handshake never goes back, whatever the answers are: the phase
/// after an answer is the next on the path or `Failed`, and the two last
/// phases are never left.
pub proof fn lemma_advance_forward(
    before: Handshake,
    store_before: WeChat,
    after: Handshake,
    store_after: WeChat,
    answer: Answer,
    events: Seq<SrvMsgView>,
)
    requires
        advance_spec(before, store_before, after, store_after, answer, events),
    ensures
        after.phase == next_phase_spec(before.phase, true) || after.phase == next_phase_spec(
            before.phase,
            false,
        ),
{
}

impl Handshake {
    /// The handshake before its first request.
    pub fn new() -> (r: Handshake)
        ensures
            r.phase == LoginPhase::RequestUuid,
            r.uuid@.len() == 0,
            r.login_page@.len() == 0,
            r.failure.is_none(),
    {
        Handshake {
            phase: LoginPhase::RequestUuid,
            uuid: String::new(),
            login_page: String::new(),
            failure: None,
        }
    }

    /// The request that the current phase makes.
    pub fn command(&self, wechat: &WeChat, now: i64) -> (r: LoginCommand)
        ensures
            command_spec(*self, *wechat, now, r),
    {
        match self.phase {
            LoginPhase::RequestUuid => LoginCommand::Get { url: jslogin_url(), headers: None },
            LoginPhase::RenderQr => LoginCommand::FetchImage {
                url: qr_code_url(self.uuid.as_str()),
            },
            LoginPhase::PollPending => LoginCommand::Get {
                url: login_status_url(self.uuid.as_str(), true),
                headers: Some(wechat.headers()),
            },
            LoginPhase::PollConfirmed => LoginCommand::Get {
                url: login_status_url(self.uuid.as_str(), false),
                headers: Some(wechat.headers()),
            },
            LoginPhase::FetchLoginPage => LoginCommand::Get {
                url: self.login_page.clone(),
                headers: None,
            },
            LoginPhase::InitSession => match init_request(wechat) {
                Ok(q) => LoginCommand::Init(q),
                Err(e) => LoginCommand::Stop(e),
            },
            LoginPhase::StatusNotify => match status_notify_request(wechat, now) {
                Ok(q) => LoginCommand::Notify(q),
                Err(e) => LoginCommand::Stop(e),
            },
            LoginPhase::EnterSyncLoop => LoginCommand::EnterSyncLoop,
            LoginPhase::Failed => LoginCommand::Stop(
                match self.failure {
                    Some(f) => f,
                    None => EngineError::Parse,
                },
            ),
        }
    }

    /// Marks the handshake as failed for the reason `e`.
    pub fn fail(&mut self, e: EngineError)
        ensures
            failed_with(*old(self), *final(self), e),
    {
        self.phase = LoginPhase::Failed;
        self.failure = Some(e);
    }

    /// Takes in the answer to the current phase's request: moves to the
    /// next phase or to `Failed`, commits to the store what the answer
    /// gave, and returns the events that the host is owed.
    pub fn advance(&mut self, wechat: &mut WeChat, answer: &Answer) -> (r: Vec<SrvMsg>)
        requires
            old(self).phase == LoginPhase::FetchLoginPage ==> old(wechat).cookie_jar@.len()
                + answer.cookies@.len() >= 1,
        ensures
            advance_spec(
                *old(self),
                *old(wechat),
                *final(self),
                *final(wechat),
                *answer,
                events_view(r@),
            ),
    {
        let mut events: Vec<SrvMsg> = Vec::new();
        match self.phase {
            LoginPhase::RequestUuid => {
                match extract_uuid(answer.body.as_str()) {
                    Ok(u) => {
                        self.uuid = u;
                        self.phase = LoginPhase::RenderQr;
                    },
                    Err(e) => {
                        self.fail(e);
                    },
                }
            },
            LoginPhase::RenderQr => {
                events.push(show_login_image(answer.body.as_str()));
                self.phase = next_phase(self.phase, true);
                assert(events_view(events@) =~= seq![SrvMsgView::ShowVerifyImage(answer.body@)]);
            },
            LoginPhase::PollPending => {
                self.phase = next_phase(self.phase, true);
            },
            LoginPhase::PollConfirmed => {
                match on_confirmed(answer.body.as_str()) {
                    Ok(p) => {
                        self.login_page = p;
                        self.phase = LoginPhase::FetchLoginPage;
                    },
                    Err(e) => {
                        self.fail(e);
                    },
                }
            },
            LoginPhase::FetchLoginPage => {
                match on_login_page(wechat, answer.body.as_str(), &answer.cookies) {
                    Ok(()) => {
                        self.phase = next_phase(self.phase, true);
                    },
                    Err(e) => {
                        self.fail(e);
                    },
                }
            },
            LoginPhase::InitSession => {
                match on_init_body(wechat, answer.body.as_str()) {
                    Ok(found) => {
                        events = found;
                        self.phase = next_phase(self.phase, true);
                    },
                    Err(e) => {
                        self.fail(e);
                    },
                }
            },
            LoginPhase::StatusNotify => {
                self.phase = next_phase(self.phase, true);
            },
            _ => {},
        }
        events
    }
}

} // verus!
