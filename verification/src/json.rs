//! Reading the service's JSON answers: the sync cursor, the user's profile
//! and the contact list, looked up in a parsed document by JSON pointers.

use vstd::prelude::*;
use vstd::string::*;
use crate::cursor::SyncKey;
use crate::decimal::{decimal_digits, render_u64};
use crate::error::EngineError;
use crate::store::User;

verus! {

/// A parsed JSON document of `serde_json`.
#[verifier::external_type_specification]
#[verifier::external_body]
pub struct ExValue(serde_json::Value);

/// The integers of a document: for each JSON pointer that addresses a
/// number which fits in `i64` and is no float, that number.
pub uninterp spec fn json_ints(doc: serde_json::Value) -> Map<Seq<char>, i64>;

/// The strings of a document: for each JSON pointer that addresses a
/// string, its text.
pub uninterp spec fn json_strs(doc: serde_json::Value) -> Map<Seq<char>, Seq<char>>;

/// The arrays of a document: for each JSON pointer that addresses an
/// array, its length.
pub uninterp spec fn json_lens(doc: serde_json::Value) -> Map<Seq<char>, nat>;

/// The integer at a pointer, if there is one.
pub open spec fn int_at(doc: serde_json::Value, pointer: Seq<char>) -> Option<i64> {
    if json_ints(doc).contains_key(pointer) {
        Some(json_ints(doc)[pointer])
    } else {
        None
    }
}

/// The string at a pointer, if there is one.
pub open spec fn str_at(doc: serde_json::Value, pointer: Seq<char>) -> Option<Seq<char>> {
    if json_strs(doc).contains_key(pointer) {
        Some(json_strs(doc)[pointer])
    } else {
        None
    }
}

/// The length of the array at a pointer, if there is one.
pub open spec fn len_at(doc: serde_json::Value, pointer: Seq<char>) -> Option<nat> {
    if json_lens(doc).contains_key(pointer) {
        Some(json_lens(doc)[pointer])
    } else {
        None
    }
}

/// The document that a text denotes, as `serde_json` parses it; `None`
/// where the text is no JSON.
pub uninterp spec fn parsed_json(text: Seq<char>) -> Option<serde_json::Value>;

/// Trusted: parses a text with `serde_json::from_str` into a document;
/// `None` where the text is no JSON. The contract only gives the outcome
/// its name, `parsed_json`: the same text denotes the same document.
#[verifier::external_body]
pub(crate) fn json_parse(text: &str) -> (r: Option<serde_json::Value>)
    ensures
        r == parsed_json(text@),
{
    serde_json::from_str::<serde_json::Value>(text).ok()
}

/// Trusted: looks the pointer up with `Value::pointer` and reads the value
/// there with `Value::as_i64`. The contract says that the outcome is the
/// document's integer at that pointer, or `None` where it has none there.
#[verifier::external_body]
fn json_i64(doc: &serde_json::Value, pointer: &str) -> (r: Option<i64>)
    ensures
        r.is_some() == json_ints(*doc).contains_key(pointer@),
        r matches Some(n) ==> n == json_ints(*doc)[pointer@],
{
    doc.pointer(pointer).and_then(|v| v.as_i64())
}

/// Trusted: looks the pointer up with `Value::pointer` and reads the value
/// there with `Value::as_str`. The contract says that the outcome is the
/// document's string at that pointer, or `None` where it has none there.
#[verifier::external_body]
fn json_str(doc: &serde_json::Value, pointer: &str) -> (r: Option<String>)
    ensures
        r.is_some() == json_strs(*doc).contains_key(pointer@),
        r matches Some(s) ==> s@ == json_strs(*doc)[pointer@],
{
    doc.pointer(pointer).and_then(|v| v.as_str()).map(|s| s.to_owned())
}

/// Trusted: looks the pointer up with `Value::pointer` and, where the value
/// there is an array (`Value::as_array`), gives its length. The contract
/// says that the outcome is the length of the document's array at that
/// pointer, or `None` where it has none there.
#[verifier::external_body]
fn json_len(doc: &serde_json::Value, pointer: &str) -> (r: Option<usize>)
    ensures
        r.is_some() == json_lens(*doc).contains_key(pointer@),
        r matches Some(n) ==> n as nat == json_lens(*doc)[pointer@],
{
    doc.pointer(pointer).and_then(|v| v.as_array()).map(|a| a.len())
}

/// The pointer of item `i` of the array at `list`.
pub open spec fn item_pointer_spec(list: Seq<char>, i: nat) -> Seq<char> {
    list + "/"@ + decimal_digits(i)
}

/// The pointer of the field `name` behind the pointer `base`.
pub open spec fn field_pointer_spec(base: Seq<char>, name: Seq<char>) -> Seq<char> {
    base + "/"@ + name
}

/// The pointer of item `i` of the array at `list`.
pub fn item_pointer(list: &str, i: usize) -> (r: String)
    ensures
        r@ == item_pointer_spec(list@, i as nat),
{
    let mut r = String::from_str(list);
    r.append("/");
    let digits = render_u64(i as u64);
    r.append(digits.as_str());
    r
}

/// The pointer of the field `name` behind the pointer `base`. The name
/// must hold neither `/` nor `~`, which a pointer writes otherwise.
pub fn field_pointer(base: &str, name: &str) -> (r: String)
    ensures
        r@ == field_pointer_spec(base@, name@),
{
    let mut r = String::from_str(base);
    r.append("/");
    r.append(name);
    r
}

/// Entry `i` of the cursor list at `list`: its `Key` and `Val`, where both
/// are integers.
pub open spec fn key_at(doc: serde_json::Value, list: Seq<char>, i: nat) -> Option<SyncKey> {
    match (
        int_at(doc, field_pointer_spec(item_pointer_spec(list, i), "Key"@)),
        int_at(doc, field_pointer_spec(item_pointer_spec(list, i), "Val"@)),
    ) {
        (Some(k), Some(v)) => Some(SyncKey { key: k, val: v }),
        _ => None,
    }
}

/// The cursor under the field at `base`: `Ok(None)` where its `List` is no
/// array, the entries in order where each has an integer `Key` and `Val`,
/// and the parse error where one has not.
pub open spec fn sync_keys_in(doc: serde_json::Value, base: Seq<char>) -> Result<
    Option<Seq<SyncKey>>,
    EngineError,
> {
    let list = field_pointer_spec(base, "List"@);
    match len_at(doc, list) {
        None => Ok(None),
        Some(n) => if forall|i: nat| i < n ==> (#[trigger] key_at(doc, list, i)).is_some() {
            Ok(Some(Seq::new(n, |i: int| key_at(doc, list, i as nat).unwrap())))
        } else {
            Err(EngineError::Parse)
        },
    }
}

/// The view of a cursor that was read, or the error.
pub open spec fn keys_view(r: Result<Option<Vec<SyncKey>>, EngineError>) -> Result<
    Option<Seq<SyncKey>>,
    EngineError,
> {
    match r {
        Ok(Some(l)) => Ok(Some(l@)),
        Ok(None) => Ok(None),
        Err(e) => Err(e),
    }
}

/// Reads the cursor under the field at `base` of a document.
pub fn read_sync_keys(doc: &serde_json::Value, base: &str) -> (r: Result<
    Option<Vec<SyncKey>>,
    EngineError,
>)
    ensures
        keys_view(r) == sync_keys_in(*doc, base@),
{
    let list = field_pointer(base, "List");
    match json_len(doc, list.as_str()) {
        None => Ok(None),
        Some(n) => {
            let mut out: Vec<SyncKey> = Vec::new();
            let mut i: usize = 0;
            while i < n
                invariant
                    i <= n,
                    out@.len() == i,
                    list@ == field_pointer_spec(base@, "List"@),
                    len_at(*doc, list@) == Some(n as nat),
                    forall|j: nat| j < i ==> #[trigger] key_at(*doc, list@, j) == Some(out@[j as int]),
                decreases n - i,
            {
                let item = item_pointer(list.as_str(), i);
                let kp = field_pointer(item.as_str(), "Key");
                let vp = field_pointer(item.as_str(), "Val");
                match (json_i64(doc, kp.as_str()), json_i64(doc, vp.as_str())) {
                    (Some(k), Some(v)) => {
                        out.push(SyncKey { key: k, val: v });
                    },
                    _ => {
                        assert(key_at(*doc, list@, i as nat).is_none());
                        return Err(EngineError::Parse);
                    },
                }
                i = i + 1;
            }
            assert(out@ =~= Seq::new(n as nat, |i: int| key_at(*doc, list@, i as nat).unwrap()));
            Ok(Some(out))
        },
    }
}

/// The texts of a contact and its member count.
pub struct ContactView {
    pub user_name: Seq<char>,
    pub nick_name: Seq<char>,
    pub member_count: Option<i64>,
}

/// An entry of the contact list that the server sends at session setup.
#[derive(Clone, Debug)]
pub struct ContactEntry {
    pub user: User,
    /// The number of members: zero for a person, more for a group chat,
    /// `None` where the entry carries no such integer.
    pub member_count: Option<i64>,
}

impl View for ContactEntry {
    type V = ContactView;

    open spec fn view(&self) -> ContactView {
        ContactView {
            user_name: self.user.user_name@,
            nick_name: self.user.nick_name@,
            member_count: self.member_count,
        }
    }
}

/// The views of a list of contacts.
pub open spec fn contacts_view(l: Seq<ContactEntry>) -> Seq<ContactView> {
    Seq::new(l.len(), |i: int| l[i]@)
}

/// Entry `i` of the contact list at `list`: its `UserName` and `NickName`,
/// where both are strings, and its `MemberCount`, where that is an integer.
pub open spec fn contact_at(doc: serde_json::Value, list: Seq<char>, i: nat) -> Option<
    ContactView,
> {
    match (
        str_at(doc, field_pointer_spec(item_pointer_spec(list, i), "UserName"@)),
        str_at(doc, field_pointer_spec(item_pointer_spec(list, i), "NickName"@)),
    ) {
        (Some(u), Some(n)) => Some(
            ContactView {
                user_name: u,
                nick_name: n,
                member_count: int_at(
                    doc,
                    field_pointer_spec(item_pointer_spec(list, i), "MemberCount"@),
                ),
            },
        ),
        _ => None,
    }
}

/// The contact list at `list`: its entries in order, or the parse error
/// where there is no array or an entry lacks a name.
pub open spec fn contacts_in(doc: serde_json::Value, list: Seq<char>) -> Result<
    Seq<ContactView>,
    EngineError,
> {
    match len_at(doc, list) {
        None => Err(EngineError::Parse),
        Some(n) => if forall|i: nat| i < n ==> (#[trigger] contact_at(doc, list, i)).is_some() {
            Ok(Seq::new(n, |i: int| contact_at(doc, list, i as nat).unwrap()))
        } else {
            Err(EngineError::Parse)
        },
    }
}

/// The views of contacts that were read, or the error.
pub open spec fn contacts_result_view(r: Result<Vec<ContactEntry>, EngineError>) -> Result<
    Seq<ContactView>,
    EngineError,
> {
    match r {
        Ok(l) => Ok(contacts_view(l@)),
        Err(e) => Err(e),
    }
}

/// Reads the contact list at the pointer `list` of a document.
pub fn read_contacts(doc: &serde_json::Value, list: &str) -> (r: Result<
    Vec<ContactEntry>,
    EngineError,
>)
    ensures
        contacts_result_view(r) == contacts_in(*doc, list@),
{
    match json_len(doc, list) {
        None => Err(EngineError::Parse),
        Some(n) => {
            let mut out: Vec<ContactEntry> = Vec::new();
            let mut i: usize = 0;
            while i < n
                invariant
                    i <= n,
                    out@.len() == i,
                    len_at(*doc, list@) == Some(n as nat),
                    forall|j: nat|
                        j < i ==> #[trigger] contact_at(*doc, list@, j) == Some(out@[j as int]@),
                decreases n - i,
            {
                let item = item_pointer(list, i);
                let up = field_pointer(item.as_str(), "UserName");
                let np = field_pointer(item.as_str(), "NickName");
                let mp = field_pointer(item.as_str(), "MemberCount");
                match (json_str(doc, up.as_str()), json_str(doc, np.as_str())) {
                    (Some(u), Some(k)) => {
                        let member_count = json_i64(doc, mp.as_str());
                        out.push(
                            ContactEntry {
                                user: User { user_name: u, nick_name: k },
                                member_count,
                            },
                        );
                    },
                    _ => {
                        assert(contact_at(*doc, list@, i as nat).is_none());
                        return Err(EngineError::Parse);
                    },
                }
                i = i + 1;
            }
            assert(contacts_view(out@) =~= Seq::new(
                n as nat,
                |i: int| contact_at(*doc, list@, i as nat).unwrap(),
            ));
            Ok(out)
        },
    }
}

/// The profile of the logged-in user in a session-setup answer: the
/// `UserName` under `User`, which must be a string, and the `NickName`,
/// empty where there is none.
pub open spec fn own_user_in(doc: serde_json::Value) -> Result<(Seq<char>, Seq<char>), EngineError> {
    match str_at(doc, "/User/UserName"@) {
        None => Err(EngineError::Parse),
        Some(u) => Ok(
            (
                u,
                match str_at(doc, "/User/NickName"@) {
                    Some(n) => n,
                    None => Seq::empty(),
                },
            ),
        ),
    }
}

/// The texts of a profile that was read, or the error.
pub open spec fn user_result_view(r: Result<User, EngineError>) -> Result<
    (Seq<char>, Seq<char>),
    EngineError,
> {
    match r {
        Ok(u) => Ok((u.user_name@, u.nick_name@)),
        Err(e) => Err(e),
    }
}

/// Reads the profile of the logged-in user from a session-setup answer.
pub fn read_own_user(doc: &serde_json::Value) -> (r: Result<User, EngineError>)
    ensures
        user_result_view(r) == own_user_in(*doc),
{
    match json_str(doc, "/User/UserName") {
        None => Err(EngineError::Parse),
        Some(u) => {
            let nick = match json_str(doc, "/User/NickName") {
                Some(n) => n,
                None => String::new(),
            };
            Ok(User { user_name: u, nick_name: nick })
        },
    }
}

} // verus!
