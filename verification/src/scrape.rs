//! Scraping of response bodies: one function for each field that the engine
//! takes out of the service's HTML and JavaScript answers.

use vstd::prelude::*;
use vstd::string::*;
use crate::decimal::{parse_decimal, parse_decimal_spec};
use crate::error::EngineError;
use crate::text::opt_text;

verus! {

/// The capture groups of the leftmost match of the regular expression
/// `pattern` in `text`, as the `regex` crate finds them: group 0 is the whole
/// match, and a group that took no part in the match is `None`. The whole is
/// `None` where the text holds no match or the pattern is no valid
/// expression.
pub uninterp spec fn regex_captures(pattern: Seq<char>, text: Seq<char>) -> Option<
    Seq<Option<Seq<char>>>,
>;

/// The texts of a list of capture groups.
pub open spec fn groups_view(g: Seq<Option<String>>) -> Seq<Option<Seq<char>>> {
    Seq::new(g.len(), |i: int| opt_text(g[i]))
}

/// The texts of the capture groups of a match, where there is one.
pub open spec fn captures_view(c: Option<Vec<Option<String>>>) -> Option<Seq<Option<Seq<char>>>> {
    match c {
        Some(v) => Some(groups_view(v@)),
        None => None,
    }
}

/// Group `index` of a match: `None` where there is no match, no such group,
/// or the group took no part in the match.
pub open spec fn group_at(caps: Option<Seq<Option<Seq<char>>>>, index: int) -> Option<Seq<char>> {
    match caps {
        Some(g) => if 0 <= index < g.len() {
            g[index]
        } else {
            None
        },
        None => None,
    }
}

/// Trusted: compiles `pattern` with `regex::Regex::new` and searches `text`
/// with `Regex::captures`, handing out each group's text as an owned string.
/// The contract only gives the outcome its name, `regex_captures`: a pattern
/// that does not compile and a text without a match both come back as `None`.
#[verifier::external_body]
fn regex_groups(pattern: &str, text: &str) -> (r: Option<Vec<Option<String>>>)
    ensures
        captures_view(r) == regex_captures(pattern@, text@),
{
    match regex::Regex::new(pattern) {
        Ok(re) => re.captures(text).map(
            |c| c.iter().map(|m| m.map(|x| x.as_str().to_owned())).collect(),
        ),
        Err(_) => None,
    }
}

/// Picks group `index` out of the groups of a match.
pub fn pick_group(caps: &Option<Vec<Option<String>>>, index: usize) -> (r: Option<String>)
    ensures
        opt_text(r) == group_at(captures_view(*caps), index as int),
{
    match caps {
        Some(g) => {
            if index < g.len() {
                match &g[index] {
                    Some(s) => Some(s.clone()),
                    None => None,
                }
            } else {
                None
            }
        },
        None => None,
    }
}

/// The first capture group of `pattern` in `text`.
pub fn regex_cap(text: &str, pattern: &str) -> (r: Option<String>)
    ensures
        opt_text(r) == group_at(regex_captures(pattern@, text@), 1),
{
    let caps = regex_groups(pattern, text);
    pick_group(&caps, 1)
}

/// The pattern of the login token in the answer of the login-init endpoint.
pub open spec fn uuid_pattern() -> Seq<char> {
    "uuid\\s+=\\s+\"([\\w=]+)\""@
}

/// The pattern of the redirect address in the answer of the status check.
pub open spec fn redirect_pattern() -> Seq<char> {
    "redirect_uri=\"([^\"]+)\""@
}

/// The pattern of the session key in the login page.
pub open spec fn skey_pattern() -> Seq<char> {
    "<skey>(.*)</skey>"@
}

/// The pattern of the session id in the login page.
pub open spec fn sid_pattern() -> Seq<char> {
    "<wxsid>(.*)</wxsid>"@
}

/// The pattern of the user number in the login page.
pub open spec fn uin_pattern() -> Seq<char> {
    "<wxuin>(.*)</wxuin>"@
}

/// The pattern of the pass ticket in the login page.
pub open spec fn pass_ticket_pattern() -> Seq<char> {
    "<pass_ticket>(.*)</pass_ticket>"@
}

/// The pattern of the two status codes in the answer of the long poll.
pub open spec fn sync_status_pattern() -> Seq<char> {
    "retcode:\"(\\d+)\",selector:\"(\\d+)\""@
}

/// A field that must be there: its absence is a parse error.
pub open spec fn required(field: Option<Seq<char>>) -> Result<Seq<char>, EngineError> {
    match field {
        Some(t) => Ok(t),
        None => Err(EngineError::Parse),
    }
}

/// The text of a scraped field, or the error.
pub open spec fn field_view(r: Result<String, EngineError>) -> Result<Seq<char>, EngineError> {
    match r {
        Ok(s) => Ok(s@),
        Err(e) => Err(e),
    }
}

/// Turns an absent field into a parse error.
pub fn require_field(field: Option<String>) -> (r: Result<String, EngineError>)
    ensures
        field_view(r) == required(opt_text(field)),
{
    match field {
        Some(s) => Ok(s),
        None => Err(EngineError::Parse),
    }
}

/// The login token in the answer of the login-init endpoint: the first group
/// of `uuid = "<token>"`. A body without it is a parse error.
pub fn extract_uuid(body: &str) -> (r: Result<String, EngineError>)
    ensures
        field_view(r) == required(group_at(regex_captures(uuid_pattern(), body@), 1)),
{
    require_field(regex_cap(body, "uuid\\s+=\\s+\"([\\w=]+)\""))
}

/// The redirect address in the answer of the confirmed status check: the
/// first group of `redirect_uri="<url>"`. A body without it is a parse error.
pub fn extract_redirect_uri(body: &str) -> (r: Result<String, EngineError>)
    ensures
        field_view(r) == required(group_at(regex_captures(redirect_pattern(), body@), 1)),
{
    require_field(regex_cap(body, "redirect_uri=\"([^\"]+)\""))
}

/// The four credentials that the login page carries.
#[derive(Clone, Debug)]
pub struct LoginFields {
    pub skey: String,
    pub sid: String,
    pub uin: String,
    pub pass_ticket: String,
}

/// The texts of the four credentials.
pub struct LoginFieldsView {
    pub skey: Seq<char>,
    pub sid: Seq<char>,
    pub uin: Seq<char>,
    pub pass_ticket: Seq<char>,
}

impl View for LoginFields {
    type V = LoginFieldsView;

    open spec fn view(&self) -> LoginFieldsView {
        LoginFieldsView {
            skey: self.skey@,
            sid: self.sid@,
            uin: self.uin@,
            pass_ticket: self.pass_ticket@,
        }
    }
}

/// The credentials in four scraped fields: all four, or a parse error where
/// any is absent.
pub open spec fn login_fields_of(
    skey: Option<Seq<char>>,
    sid: Option<Seq<char>>,
    uin: Option<Seq<char>>,
    pass_ticket: Option<Seq<char>>,
) -> Result<LoginFieldsView, EngineError> {
    match (skey, sid, uin, pass_ticket) {
        (Some(k), Some(s), Some(u), Some(p)) => Ok(
            LoginFieldsView { skey: k, sid: s, uin: u, pass_ticket: p },
        ),
        _ => Err(EngineError::Parse),
    }
}

/// The texts of scraped credentials, or the error.
pub open spec fn login_fields_view(r: Result<LoginFields, EngineError>) -> Result<
    LoginFieldsView,
    EngineError,
> {
    match r {
        Ok(f) => Ok(f@),
        Err(e) => Err(e),
    }
}

/// Puts four scraped fields together, all or nothing.
pub fn collect_login_fields(
    skey: Option<String>,
    sid: Option<String>,
    uin: Option<String>,
    pass_ticket: Option<String>,
) -> (r: Result<LoginFields, EngineError>)
    ensures
        login_fields_view(r) == login_fields_of(
            opt_text(skey),
            opt_text(sid),
            opt_text(uin),
            opt_text(pass_ticket),
        ),
{
    match (skey, sid, uin, pass_ticket) {
        (Some(k), Some(s), Some(u), Some(p)) => Ok(
            LoginFields { skey: k, sid: s, uin: u, pass_ticket: p },
        ),
        _ => Err(EngineError::Parse),
    }
}

/// The credentials in the login page: the contents of its `skey`, `wxsid`,
/// `wxuin` and `pass_ticket` tags. A page that lacks one is a parse error.
pub fn extract_login_fields(body: &str) -> (r: Result<LoginFields, EngineError>)
    ensures
        login_fields_view(r) == login_fields_of(
            group_at(regex_captures(skey_pattern(), body@), 1),
            group_at(regex_captures(sid_pattern(), body@), 1),
            group_at(regex_captures(uin_pattern(), body@), 1),
            group_at(regex_captures(pass_ticket_pattern(), body@), 1),
        ),
{
    let skey = regex_cap(body, "<skey>(.*)</skey>");
    let sid = regex_cap(body, "<wxsid>(.*)</wxsid>");
    let uin = regex_cap(body, "<wxuin>(.*)</wxuin>");
    let pass_ticket = regex_cap(body, "<pass_ticket>(.*)</pass_ticket>");
    collect_login_fields(skey, sid, uin, pass_ticket)
}

/// The two status codes of a long-poll answer.
#[derive(Clone, Copy, Debug, PartialEq, Eq, Structural)]
pub struct SyncStatus {
    /// Zero while the session is valid.
    pub retcode: i64,
    /// The kind of pending activity; 2 stands for new messages.
    pub selector: i64,
}

/// The status codes in the two groups of a match: both groups read as
/// decimal numbers, or a parse error.
pub open spec fn sync_status_of(caps: Option<Seq<Option<Seq<char>>>>) -> Result<
    SyncStatus,
    EngineError,
> {
    match (group_at(caps, 1), group_at(caps, 2)) {
        (Some(a), Some(b)) => match (parse_decimal_spec(a), parse_decimal_spec(b)) {
            (Some(retcode), Some(selector)) => Ok(SyncStatus { retcode, selector }),
            _ => Err(EngineError::Parse),
        },
        _ => Err(EngineError::Parse),
    }
}

/// Reads the status codes out of the groups of a match.
pub fn read_sync_status(caps: &Option<Vec<Option<String>>>) -> (r: Result<SyncStatus, EngineError>)
    ensures
        r == sync_status_of(captures_view(*caps)),
{
    match (pick_group(caps, 1), pick_group(caps, 2)) {
        (Some(a), Some(b)) => match (parse_decimal(a.as_str()), parse_decimal(b.as_str())) {
            (Some(retcode), Some(selector)) => Ok(SyncStatus { retcode, selector }),
            _ => Err(EngineError::Parse),
        },
        _ => Err(EngineError::Parse),
    }
}

/// The status codes in the answer of the long poll, which holds
/// `retcode:"<digits>",selector:"<digits>"`. A body without that pattern, or
/// with a number beyond 64 bits, is a parse error.
pub fn extract_sync_status(body: &str) -> (r: Result<SyncStatus, EngineError>)
    ensures
        r == sync_status_of(regex_captures(sync_status_pattern(), body@)),
{
    let caps = regex_groups("retcode:\"(\\d+)\",selector:\"(\\d+)\"", body);
    read_sync_status(&caps)
}

} // verus!
