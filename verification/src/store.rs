//! The credential store: session identifiers, cookie jar, user profile and
//! sync cursor, and the request payloads and header sets derived from them.

use vstd::prelude::*;
use vstd::string::*;
use crate::cursor::{SyncKey, join_cursor, sync_key_text};
use crate::text::{segment_before, find_char, lemma_first_index_bounds, opt_text};

verus! {

/// A contact: the server's stable identifier and the display name.
#[derive(Clone, Debug)]
pub struct User {
    pub user_name: String,
    pub nick_name: String,
}

/// The base of every authenticated request body.
#[derive(Clone, Debug)]
pub struct BaseRequest {
    pub uin: String,
    pub sid: String,
    pub skey: String,
    pub device_id: String,
}

/// The body of the presence signal sent after the session is set up.
#[derive(Clone, Debug)]
pub struct StatusNotify {
    pub base_request: BaseRequest,
    pub code: i64,
    pub from_user_name: String,
    pub to_user_name: String,
    pub client_msg_id: i64,
}

/// The sync cursor as request bodies carry it: the entries and their count.
#[derive(Clone, Debug)]
pub struct SyncKeyList {
    pub count: usize,
    pub list: Vec<SyncKey>,
}

/// The body of a message fetch.
#[derive(Clone, Debug)]
pub struct MessageCheck {
    pub base_request: BaseRequest,
    pub sync_key: SyncKeyList,
    pub rr: i64,
}

/// The headers of a request: the cookies and four fixed fields.
#[derive(Clone, Debug)]
pub struct HeaderSet {
    pub cookies: Vec<String>,
    pub content_type: Option<String>,
    pub host: String,
    pub referer: String,
    pub accept: String,
}

/// The session state that the handshake fills and the sync loop reads.
#[derive(Clone, Debug)]
pub struct WeChat {
    pub uin: String,
    pub sid: String,
    pub skey: String,
    pub pass_ticket: String,
    /// The cookies sent with each request, in the order received.
    pub cookie_jar: Vec<String>,
    /// The profile of the logged-in user, once the session is set up.
    pub user_info: Option<User>,
    /// The sync cursor, once the server has sent one.
    pub sync_keys: Option<Vec<SyncKey>>,
}

/// The texts of a list of strings.
pub open spec fn texts(v: Seq<String>) -> Seq<Seq<char>> {
    Seq::new(v.len(), |i: int| v[i]@)
}

/// The first `;`-separated segment of each entry of a set-cookie header.
pub open spec fn first_segments(entries: Seq<String>) -> Seq<Seq<char>> {
    Seq::new(entries.len(), |i: int| segment_before(entries[i]@, ';'))
}

/// The jar after a set-cookie header is merged into it: the first segment
/// of each entry is appended, then the jar's first entry is dropped.
pub open spec fn merged_jar(jar: Seq<Seq<char>>, entries: Seq<String>) -> Seq<Seq<char>> {
    (jar + first_segments(entries)).drop_first()
}

/// The header set of the main session for a jar of cookies.
pub open spec fn main_headers(h: HeaderSet, jar: Seq<String>) -> bool {
    &&& h.cookies@ == jar
    &&& opt_text(h.content_type) == Some("application/json; charset=UTF-8"@)
    &&& h.host@ == "web.wechat.com"@
    &&& h.referer@ == "https://web.wechat.com/?&lang=zh_CN"@
    &&& h.accept@ == "application/json, text/plain, */*"@
}

/// The header set of the long poll for a jar of cookies: the fields of the
/// push host, and no content type.
pub open spec fn push_headers(h: HeaderSet, jar: Seq<String>) -> bool {
    &&& h.cookies@ == jar
    &&& h.content_type.is_none()
    &&& h.host@ == "webpush.web.wechat.com"@
    &&& h.referer@ == "https://webpush.web.wechat.com/?&lang=zh_CN"@
    &&& h.accept@ == "*/*"@
}

/// The base body for a store: its three identifiers and an empty device id.
pub open spec fn base_of(b: BaseRequest, w: WeChat) -> bool {
    b.uin == w.uin && b.sid == w.sid && b.skey == w.skey && b.device_id@ == Seq::<char>::empty()
}

/// The presence body for a store with a profile and a time stamp: the
/// base, code 3, the user's own name twice, and the stamp as message id.
pub open spec fn status_notify_of(p: StatusNotify, w: WeChat, time_stamp: i64) -> bool {
    &&& base_of(p.base_request, w)
    &&& p.code == 3
    &&& w.user_info matches Some(u) && p.from_user_name@ == u.user_name@ && p.to_user_name@
        == u.user_name@
    &&& p.client_msg_id == time_stamp
}

/// The fetch body for a store with a cursor and a time stamp: the base,
/// the cursor with its count, and the complement of the stamp.
pub open spec fn message_check_of(p: MessageCheck, w: WeChat, time_stamp: i64) -> bool {
    &&& base_of(p.base_request, w)
    &&& w.sync_keys matches Some(l) && p.sync_key.list@ == l@ && p.sync_key.count == l@.len()
    &&& p.rr == complement(time_stamp)
    &&& p.rr == !time_stamp
}

/// The bitwise complement of a 64-bit integer in two's complement.
pub open spec fn complement(t: i64) -> i64 {
    (-(t as int) - 1) as i64
}

/// Seconds turned into milliseconds, where the product fits in 64 bits.
pub open spec fn millis_spec(sec: i64) -> Option<i64> {
    if i64::MIN <= sec * 1000 <= i64::MAX {
        Some((sec * 1000) as i64)
    } else {
        None
    }
}

/// Merging a header of `n` entries changes the jar's length by `n - 1`.
pub proof fn lemma_merged_jar_len(jar: Seq<Seq<char>>, entries: Seq<String>)
    requires
        jar.len() + entries.len() >= 1,
    ensures
        merged_jar(jar, entries).len() == jar.len() + entries.len() - 1,
{
}

/// Merging a header of `n >= 1` entries into an empty jar leaves `n - 1`
/// entries: the segments of all entries but the first, in order.
pub proof fn lemma_merged_into_empty(entries: Seq<String>)
    requires
        entries.len() >= 1,
    ensures
        merged_jar(Seq::empty(), entries).len() == entries.len() - 1,
        merged_jar(Seq::empty(), entries) == first_segments(entries).drop_first(),
{
    assert(Seq::<Seq<char>>::empty() + first_segments(entries) =~= first_segments(entries));
}

/// Trusted: reads the clock with `time::get_time` and hands out the seconds
/// since the epoch. Nothing is claimed of the value.
#[verifier::external_body]
fn clock_seconds() -> (r: i64) {
    time::get_time().sec
}

/// Seconds as milliseconds; `None` where the product leaves 64 bits.
pub fn millis_of_seconds(sec: i64) -> (r: Option<i64>)
    ensures
        r == millis_spec(sec),
{
    if sec > 9223372036854775i64 || sec < -9223372036854775i64 {
        None
    } else {
        Some(sec * 1000)
    }
}

/// The current time in milliseconds since the epoch, at the resolution of a
/// second. `None` where the clock's value is beyond what 64 bits hold in
/// milliseconds.
pub fn time_stamp() -> (r: Option<i64>)
    ensures
        r matches Some(ms) ==> ms % 1000 == 0,
{
    millis_of_seconds(clock_seconds())
}

/// The bitwise complement of `t`.
pub fn complement_of(t: i64) -> (r: i64)
    ensures
        r == complement(t),
        r == !t,
{
    assert(!t == (-(t as int) - 1) as i64) by (bit_vector);
    !t
}

/// A copy of a list of strings.
pub fn copy_strings(v: &Vec<String>) -> (r: Vec<String>)
    ensures
        r@ == v@,
{
    let mut r: Vec<String> = Vec::new();
    let mut i: usize = 0;
    while i < v.len()
        invariant
            i <= v.len(),
            r@ == v@.subrange(0, i as int),
        decreases v.len() - i,
    {
        r.push(v[i].clone());
        assert(r@ =~= v@.subrange(0, i as int + 1));
        i = i + 1;
    }
    assert(v@.subrange(0, v.len() as int) =~= v@);
    r
}

/// A copy of a cursor.
pub fn copy_keys(v: &Vec<SyncKey>) -> (r: Vec<SyncKey>)
    ensures
        r@ == v@,
{
    let mut r: Vec<SyncKey> = Vec::new();
    let mut i: usize = 0;
    while i < v.len()
        invariant
            i <= v.len(),
            r@ == v@.subrange(0, i as int),
        decreases v.len() - i,
    {
        r.push(v[i]);
        assert(r@ =~= v@.subrange(0, i as int + 1));
        i = i + 1;
    }
    assert(v@.subrange(0, v.len() as int) =~= v@);
    r
}

impl WeChat {
    /// All four credentials are set.
    pub open spec fn authenticated(&self) -> bool {
        self.uin@.len() > 0 && self.sid@.len() > 0 && self.skey@.len() > 0
            && self.pass_ticket@.len() > 0
    }

    /// The store before login: every credential empty, no profile, no
    /// cursor, and the jar holding the one empty placeholder that the first
    /// merge of cookies drops.
    pub fn new() -> (r: WeChat)
        ensures
            r.uin@.len() == 0,
            r.sid@.len() == 0,
            r.skey@.len() == 0,
            r.pass_ticket@.len() == 0,
            texts(r.cookie_jar@) == seq![Seq::<char>::empty()],
            r.user_info.is_none(),
            r.sync_keys.is_none(),
    {
        let mut jar: Vec<String> = Vec::new();
        jar.push(String::new());
        let r = WeChat {
            uin: String::new(),
            sid: String::new(),
            skey: String::new(),
            pass_ticket: String::new(),
            cookie_jar: jar,
            user_info: None,
            sync_keys: None,
        };
        assert(texts(r.cookie_jar@) =~= seq![Seq::<char>::empty()]);
        r
    }

    /// The user number; empty until it is set.
    pub fn uin(&self) -> (r: &str)
        ensures
            r@ == self.uin@,
    {
        self.uin.as_str()
    }

    /// Sets the user number and nothing else.
    pub fn set_uin(&mut self, uin: &str)
        ensures
            final(self).uin@ == uin@,
            *final(self) == (WeChat { uin: final(self).uin, ..*old(self) }),
    {
        self.uin = String::from_str(uin);
    }

    /// The session id; empty until it is set.
    pub fn sid(&self) -> (r: &str)
        ensures
            r@ == self.sid@,
    {
        self.sid.as_str()
    }

    /// Sets the session id and nothing else.
    pub fn set_sid(&mut self, sid: &str)
        ensures
            final(self).sid@ == sid@,
            *final(self) == (WeChat { sid: final(self).sid, ..*old(self) }),
    {
        self.sid = String::from_str(sid);
    }

    /// The session key; empty until it is set.
    pub fn skey(&self) -> (r: &str)
        ensures
            r@ == self.skey@,
    {
        self.skey.as_str()
    }

    /// Sets the session key and nothing else.
    pub fn set_skey(&mut self, skey: &str)
        ensures
            final(self).skey@ == skey@,
            *final(self) == (WeChat { skey: final(self).skey, ..*old(self) }),
    {
        self.skey = String::from_str(skey);
    }

    /// The pass ticket; empty until it is set.
    pub fn pass_ticket(&self) -> (r: &str)
        ensures
            r@ == self.pass_ticket@,
    {
        self.pass_ticket.as_str()
    }

    /// Sets the pass ticket and nothing else.
    pub fn set_pass_ticket(&mut self, pass_ticket: &str)
        ensures
            final(self).pass_ticket@ == pass_ticket@,
            *final(self) == (WeChat { pass_ticket: final(self).pass_ticket, ..*old(self) }),
    {
        self.pass_ticket = String::from_str(pass_ticket);
    }

    /// Whether all four credentials are set, as every authenticated request
    /// needs.
    pub fn is_authenticated(&self) -> (r: bool)
        ensures
            r == self.authenticated(),
    {
        self.uin.as_str().unicode_len() > 0 && self.sid.as_str().unicode_len() > 0
            && self.skey.as_str().unicode_len() > 0 && self.pass_ticket.as_str().unicode_len()
            > 0
    }

    /// The cursor as the long-poll address carries it: `key_value` pairs
    /// joined by `|`.
    pub fn sync_key_str(&self) -> (r: String)
        requires
            self.sync_keys.is_some(),
        ensures
            r@ == join_cursor(self.sync_keys.unwrap()@),
    {
        match &self.sync_keys {
            Some(list) => sync_key_text(list),
            None => String::new(),
        }
    }

    /// The cursor as request bodies carry it: the entries and their count.
    pub fn sync_key(&self) -> (r: SyncKeyList)
        requires
            self.sync_keys.is_some(),
        ensures
            r.list@ == self.sync_keys.unwrap()@,
            r.count == r.list@.len(),
    {
        match &self.sync_keys {
            Some(list) => SyncKeyList { count: list.len(), list: copy_keys(list) },
            None => SyncKeyList { count: 0, list: Vec::new() },
        }
    }

    /// Replaces the cursor by the list that the server sent, whole. Where
    /// the answer held no list, the cursor stays as it is.
    pub fn set_sync_key(&mut self, list: Option<Vec<SyncKey>>)
        ensures
            final(self).sync_keys == match list {
                Some(l) => Some(l),
                None => old(self).sync_keys,
            },
            *final(self) == (WeChat { sync_keys: final(self).sync_keys, ..*old(self) }),
    {
        match list {
            Some(l) => {
                self.sync_keys = Some(l);
            },
            None => {},
        }
    }

    /// Stores the profile of the logged-in user.
    pub fn set_user_info(&mut self, user: User)
        ensures
            final(self).user_info == Some(user),
            *final(self) == (WeChat { user_info: final(self).user_info, ..*old(self) }),
    {
        self.user_info = Some(user);
    }

    /// The identifier of the logged-in user.
    pub fn user_name(&self) -> (r: &str)
        requires
            self.user_info.is_some(),
        ensures
            r@ == self.user_info.unwrap().user_name@,
    {
        match &self.user_info {
            Some(u) => u.user_name.as_str(),
            None => "",
        }
    }

    /// Merges a set-cookie header into the jar: of each entry the part
    /// before its first `;` is appended, then the first entry of the jar is
    /// dropped, whatever it is.
    pub fn set_cookies(&mut self, cookies: &Vec<String>)
        requires
            old(self).cookie_jar@.len() + cookies@.len() >= 1,
        ensures
            texts(final(self).cookie_jar@) == merged_jar(texts(old(self).cookie_jar@), cookies@),
            final(self).cookie_jar@.len() == old(self).cookie_jar@.len() + cookies@.len() - 1,
            *final(self) == (WeChat { cookie_jar: final(self).cookie_jar, ..*old(self) }),
    {
        let mut i: usize = 0;
        let ghost before = texts(self.cookie_jar@);
        assert(before + first_segments(cookies@).subrange(0, 0) =~= before);
        while i < cookies.len()
            invariant
                i <= cookies@.len(),
                texts(self.cookie_jar@) == before + first_segments(cookies@).subrange(0, i as int),
                *self == (WeChat { cookie_jar: self.cookie_jar, ..*old(self) }),
            decreases cookies@.len() - i,
        {
            let entry = cookies[i].as_str();
            let cut: usize = find_char(entry, 0, ';');
            proof {
                lemma_first_index_bounds(entry@, ';');
                assert(entry@.subrange(0, entry@.len() as int) =~= entry@);
            }
            let first = entry.substring_char(0, cut);
            let ghost jar = texts(self.cookie_jar@);
            self.cookie_jar.push(String::from_str(first));
            assert(texts(self.cookie_jar@) =~= jar.push(first@));
            assert(before + first_segments(cookies@).subrange(0, i as int + 1) =~= jar.push(
                first@,
            ));
            i = i + 1;
        }
        assert(first_segments(cookies@).subrange(0, cookies@.len() as int) =~= first_segments(
            cookies@,
        ));
        let ghost full = texts(self.cookie_jar@);
        self.cookie_jar.remove(0);
        assert(texts(self.cookie_jar@) =~= full.drop_first());
    }

    /// The headers of the main session: the cookie jar and the fixed fields
    /// of the service's main host.
    pub fn headers(&self) -> (r: HeaderSet)
        ensures
            main_headers(r, self.cookie_jar@),
    {
        HeaderSet {
            cookies: copy_strings(&self.cookie_jar),
            content_type: Some(String::from_str("application/json; charset=UTF-8")),
            host: String::from_str("web.wechat.com"),
            referer: String::from_str("https://web.wechat.com/?&lang=zh_CN"),
            accept: String::from_str("application/json, text/plain, */*"),
        }
    }

    /// The headers of the long poll: the same cookie jar, but the fields of
    /// the push host, and no content type.
    pub fn sync_headers(&self) -> (r: HeaderSet)
        ensures
            push_headers(r, self.cookie_jar@),
    {
        HeaderSet {
            cookies: copy_strings(&self.cookie_jar),
            content_type: None,
            host: String::from_str("webpush.web.wechat.com"),
            referer: String::from_str("https://webpush.web.wechat.com/?&lang=zh_CN"),
            accept: String::from_str("*/*"),
        }
    }

    /// The base of a request body: the three identifiers and an empty
    /// device id.
    pub fn base_data(&self) -> (r: BaseRequest)
        ensures
            base_of(r, *self),
    {
        BaseRequest {
            uin: self.uin.clone(),
            sid: self.sid.clone(),
            skey: self.skey.clone(),
            device_id: String::new(),
        }
    }

    /// The body of the presence signal: the base, code 3, the user's own
    /// name as sender and receiver, and the time stamp as message id.
    pub fn status_notify_data(&self, time_stamp: i64) -> (r: StatusNotify)
        requires
            self.user_info.is_some(),
        ensures
            status_notify_of(r, *self, time_stamp),
    {
        StatusNotify {
            base_request: self.base_data(),
            code: 3,
            from_user_name: String::from_str(self.user_name()),
            to_user_name: String::from_str(self.user_name()),
            client_msg_id: time_stamp,
        }
    }

    /// The body of a message fetch: the base, the cursor, and as `rr` the
    /// bitwise complement of the time stamp.
    pub fn message_check_data(&self, time_stamp: i64) -> (r: MessageCheck)
        requires
            self.sync_keys.is_some(),
        ensures
            message_check_of(r, *self, time_stamp),
    {
        MessageCheck {
            base_request: self.base_data(),
            sync_key: self.sync_key(),
            rr: complement_of(time_stamp),
        }
    }
}

} // verus!
