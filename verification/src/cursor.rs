//! The sync cursor: the server's watermark, a list of (key, value) pairs,
//! and its text form `key_value|key_value|...`.

use vstd::prelude::*;
use vstd::string::*;
use crate::decimal::{decimal_text, parse_decimal_spec, parse_decimal, render_i64, lemma_decimal_text_chars, lemma_parse_decimal_text};
use crate::text::{first_index_of, segment_before, segment_after, find_char, lemma_first_index_joined, lemma_first_index_absent};

verus! {

/// One entry of the sync cursor: a channel's key and its counter.
#[derive(Clone, Copy, Debug, PartialEq, Eq, Structural)]
pub struct SyncKey {
    pub key: i64,
    pub val: i64,
}

/// The text of one entry: key, underscore, value.
pub open spec fn entry_text(e: SyncKey) -> Seq<char> {
    decimal_text(e.key as int) + seq!['_'] + decimal_text(e.val as int)
}

/// The text of a cursor: its entries' texts with `|` between them. The
/// empty cursor has the empty text.
pub open spec fn join_cursor(l: Seq<SyncKey>) -> Seq<char>
    decreases l.len(),
{
    if l.len() == 0 {
        Seq::empty()
    } else if l.len() == 1 {
        entry_text(l[0])
    } else {
        entry_text(l[0]) + seq!['|'] + join_cursor(l.drop_first())
    }
}

/// What one `key_value` text denotes: the text is cut at its first
/// underscore and both parts are read as signed decimal numbers.
pub open spec fn parse_entry_spec(s: Seq<char>) -> Option<SyncKey> {
    if first_index_of(s, '_') >= s.len() {
        None
    } else {
        match (
            parse_decimal_spec(segment_before(s, '_')),
            parse_decimal_spec(segment_after(s, '_')),
        ) {
            (Some(k), Some(v)) => Some(SyncKey { key: k, val: v }),
            _ => None,
        }
    }
}

/// `list` behind `head`, where both are there.
pub open spec fn prepend(head: Seq<SyncKey>, list: Option<Seq<SyncKey>>) -> Option<Seq<SyncKey>> {
    match list {
        Some(l) => Some(head + l),
        None => None,
    }
}

/// What a text of one or more entries denotes: the text is cut at each `|`,
/// and every piece must be an entry.
pub open spec fn parse_entries_spec(s: Seq<char>) -> Option<Seq<SyncKey>>
    decreases s.len(),
{
    match parse_entry_spec(segment_before(s, '|')) {
        None => None,
        Some(e) => {
            let i = first_index_of(s, '|');
            if 0 <= i < s.len() {
                prepend(seq![e], parse_entries_spec(s.subrange(i + 1, s.len() as int)))
            } else {
                Some(seq![e])
            }
        },
    }
}

/// What a cursor text denotes: the empty cursor for the empty text.
pub open spec fn parse_cursor_spec(s: Seq<char>) -> Option<Seq<SyncKey>> {
    if s.len() == 0 {
        Some(Seq::empty())
    } else {
        parse_entries_spec(s)
    }
}

/// The views of the entries of a vector are the entries themselves.
pub open spec fn cursor_view(v: Option<Vec<SyncKey>>) -> Option<Seq<SyncKey>> {
    match v {
        Some(l) => Some(l@),
        None => None,
    }
}

/// An entry's text is not empty, holds no `|`, and reads back as the entry.
pub proof fn lemma_entry_round_trip(e: SyncKey)
    ensures
        entry_text(e).len() > 0,
        !entry_text(e).contains('|'),
        parse_entry_spec(entry_text(e)) == Some(e),
{
    let k = decimal_text(e.key as int);
    let v = decimal_text(e.val as int);
    let t = entry_text(e);
    lemma_decimal_text_chars(e.key as int, '_');
    lemma_decimal_text_chars(e.key as int, '|');
    lemma_decimal_text_chars(e.val as int, '|');
    lemma_first_index_joined(k, '_', v);
    lemma_parse_decimal_text(e.key);
    lemma_parse_decimal_text(e.val);
    if t.contains('|') {
        let j = choose|j: int| 0 <= j < t.len() && t[j] == '|';
        if j < k.len() {
            assert(k[j] == '|');
            assert(k.contains('|'));
        } else if j > k.len() {
            assert(v[j - k.len() - 1] == '|');
            assert(v.contains('|'));
        }
    }
}

/// Reading the text of a cursor gives the cursor back: the same entries in
/// the same order.
pub proof fn lemma_cursor_round_trip(l: Seq<SyncKey>)
    ensures
        parse_cursor_spec(join_cursor(l)) == Some(l),
    decreases l.len(),
{
    if l.len() == 0 {
        assert(l =~= Seq::empty());
    } else {
        let e = l[0];
        lemma_entry_round_trip(e);
        if l.len() == 1 {
            lemma_first_index_absent(entry_text(e), '|');
            assert(l =~= seq![e]);
        } else {
            let rest = l.drop_first();
            lemma_cursor_round_trip(rest);
            lemma_entry_round_trip(rest[0]);
            lemma_join_nonempty(rest);
            lemma_first_index_joined(entry_text(e), '|', join_cursor(rest));
            assert(seq![e] + rest =~= l);
        }
    }
}

/// The text of a cursor with an entry is not empty.
pub proof fn lemma_join_nonempty(l: Seq<SyncKey>)
    requires
        l.len() > 0,
    ensures
        join_cursor(l).len() > 0,
{
    lemma_entry_round_trip(l[0]);
}

/// Two cursors with the same text are the same cursor.
pub proof fn lemma_join_cursor_injective(a: Seq<SyncKey>, b: Seq<SyncKey>)
    requires
        join_cursor(a) == join_cursor(b),
    ensures
        a == b,
{
    lemma_cursor_round_trip(a);
    lemma_cursor_round_trip(b);
}

/// Writes one entry as `key_value`.
pub fn render_entry(e: &SyncKey) -> (r: String)
    ensures
        r@ == entry_text(*e),
{
    proof {
        reveal_strlit("_");
    }
    let mut r = render_i64(e.key);
    r.append("_");
    let v = render_i64(e.val);
    r.append(v.as_str());
    assert(r@ =~= entry_text(*e));
    r
}

/// Writes a cursor as its entries joined by `|`.
pub fn sync_key_text(list: &Vec<SyncKey>) -> (r: String)
    ensures
        r@ == join_cursor(list@),
{
    let n: usize = list.len();
    let mut r = String::new();
    let mut i: usize = n;
    assert(list@.subrange(n as int, n as int) =~= Seq::empty());
    while i > 0
        invariant
            i <= n,
            n == list@.len(),
            r@ == join_cursor(list@.subrange(i as int, n as int)),
        decreases i,
    {
        i = i - 1;
        let ghost tail = list@.subrange(i as int + 1, n as int);
        let ghost cur = list@.subrange(i as int, n as int);
        proof {
            assert(cur.drop_first() =~= tail);
            assert(cur[0] == list@[i as int]);
            reveal_strlit("|");
        }
        let mut head = render_entry(&list[i]);
        if i + 1 < n {
            head.append("|");
            head.append(r.as_str());
        }
        proof {
            if i + 1 < n {
                assert(head@ =~= entry_text(cur[0]) + seq!['|'] + join_cursor(tail));
            }
        }
        r = head;
    }
    assert(list@.subrange(0, n as int) =~= list@);
    r
}

/// Reads one `key_value` text.
pub fn parse_entry(s: &str) -> (r: Option<SyncKey>)
    ensures
        r == parse_entry_spec(s@),
{
    let n: usize = s.unicode_len();
    let i: usize = find_char(s, 0, '_');
    assert(s@.subrange(0, n as int) =~= s@);
    if i >= n {
        return None;
    }
    let k = parse_decimal(s.substring_char(0, i));
    let v = parse_decimal(s.substring_char(i + 1, n));
    match (k, v) {
        (Some(key), Some(val)) => Some(SyncKey { key, val }),
        _ => None,
    }
}

/// Reads a cursor text: the inverse of `sync_key_text`. `None` where a
/// piece between two `|` is not a `key_value` pair of 64-bit integers.
pub fn parse_cursor(s: &str) -> (r: Option<Vec<SyncKey>>)
    ensures
        cursor_view(r) == parse_cursor_spec(s@),
{
    let n: usize = s.unicode_len();
    let mut out: Vec<SyncKey> = Vec::new();
    if n == 0 {
        return Some(out);
    }
    let mut start: usize = 0;
    assert(s@.subrange(0, n as int) =~= s@);
    assert(Seq::<SyncKey>::empty() + Seq::<SyncKey>::empty() =~= Seq::<SyncKey>::empty());
    loop
        invariant
            start <= n,
            0 < n == s@.len(),
            parse_entries_spec(s@) == prepend(
                out@,
                parse_entries_spec(s@.subrange(start as int, n as int)),
            ),
        decreases n - start,
    {
        let end: usize = find_char(s, start, '|');
        let ghost rem = s@.subrange(start as int, n as int);
        let seg = s.substring_char(start, end);
        assert(seg@ =~= segment_before(rem, '|'));
        match parse_entry(seg) {
            None => {
                assert(parse_entries_spec(rem).is_none());
                return None;
            },
            Some(e) => {
                let ghost before = out@;
                out.push(e);
                if end >= n {
                    assert(before + seq![e] =~= out@);
                    return Some(out);
                }
                proof {
                    let next = s@.subrange(end as int + 1, n as int);
                    assert(segment_after(rem, '|') =~= next);
                    match parse_entries_spec(next) {
                        Some(l) => {
                            assert(before + (seq![e] + l) =~= out@ + l);
                        },
                        None => {},
                    }
                }
                start = end + 1;
            },
        }
    }
}

} // verus!
