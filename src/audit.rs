//! The text of augmentation audit blocks and of session log lines, and the
//! timestamps they carry.

use crate::text::{chars_of, push_all, slice_chars, string_of, trim, trim_chars};
use chrono::{DateTime, SecondsFormat};
use std::time::{SystemTime, UNIX_EPOCH};
use vstd::prelude::*;

verus! {

/// The longest injected text that an audit block holds whole.
pub const MAX_AUDITED_CHARS: usize = 2000;

/// The injected text as an audit block holds it: trimmed, clipped to its first
/// `MAX_AUDITED_CHARS` characters and marked with `"..."` when longer.
pub open spec fn audited_injection(text: Seq<char>) -> Seq<char> {
    let t = trim(text);
    if t.len() > MAX_AUDITED_CHARS {
        t.take(MAX_AUDITED_CHARS as int) + "..."@
    } else {
        t
    }
}

/// One audit block: a header with the time and the query, the injected text
/// or a `<none>` marker, and a blank separator line.
pub open spec fn audit_block(timestamp: Seq<char>, query: Seq<char>, injected: Option<Seq<char>>) -> Seq<char> {
    "["@ + timestamp + "] query: "@ + query + "\n"@ + match injected {
        Some(t) => "injected:\n"@ + audited_injection(t) + "\n"@,
        None => "injected: <none>\n"@,
    } + "\n"@
}

/// `s` with each `'\n'` written as the two characters `\` and `n`.
pub open spec fn escape_newlines(s: Seq<char>) -> Seq<char>
    decreases s.len(),
{
    if s.len() == 0 {
        seq![]
    } else {
        escape_newlines(s.drop_last()) + if s.last() == '\n' {
            seq!['\\', 'n']
        } else {
            seq![s.last()]
        }
    }
}

/// One session log line, without its line ending.
pub open spec fn log_line_text(timestamp: Seq<char>, event: Seq<char>, detail: Seq<char>) -> Seq<char> {
    timestamp + " | "@ + event + " | "@ + escape_newlines(detail)
}

/// The view of an optional string slice.
pub open spec fn opt_view(s: Option<&str>) -> Option<Seq<char>> {
    match s {
        Some(t) => Some(t@),
        None => None,
    }
}

/// The shape of every RFC 3339 time stamp with milliseconds in UTC:
/// `YYYY-MM-DDTHH:MM:SS.mmmZ` (a signed, longer year outside 0 to 9999).
pub open spec fn millis_stamp_shape(t: Seq<char>) -> bool {
    t.len() >= 24 && t.last() == 'Z' && !t.contains('\n')
}

/// The shape of every compact UTC time stamp: `YYYYMMDDTHHMMSSZ` (a signed,
/// longer year outside 0 to 9999).
pub open spec fn compact_stamp_shape(t: Seq<char>) -> bool {
    t.len() >= 16 && t.last() == 'Z'
}

/// Relies on `SystemTime::now` and `SystemTime::duration_since(UNIX_EPOCH)`:
/// the seconds and nanoseconds since the Unix epoch, or none where the clock
/// reads earlier. A `Duration`'s nanoseconds part is below one second.
#[verifier::external_body]
fn unix_time_now() -> (r: Option<(u64, u32)>)
    ensures
        r matches Some((_, nanos)) ==> nanos < 1_000_000_000,
{
    match SystemTime::now().duration_since(UNIX_EPOCH) {
        Ok(d) => Some((d.as_secs(), d.subsec_nanos())),
        Err(_) => None,
    }
}

/// Relies on `chrono::DateTime::from_timestamp`, none out of range, and on
/// `DateTime::to_rfc3339_opts(SecondsFormat::Millis, true)`, which writes
/// `YYYY-MM-DDTHH:MM:SS.mmmZ` for a UTC time.
#[verifier::external_body]
fn rfc3339_millis_at(secs: i64, nanos: u32) -> (r: Option<String>)
    ensures
        r matches Some(t) ==> millis_stamp_shape(t@),
{
    match DateTime::from_timestamp(secs, nanos) {
        Some(t) => Some(t.to_rfc3339_opts(SecondsFormat::Millis, true)),
        None => None,
    }
}

/// Relies on `chrono::DateTime::from_timestamp`, none out of range, and on
/// `DateTime::format("%Y%m%dT%H%M%SZ")`, which writes `YYYYMMDDTHHMMSSZ`.
#[verifier::external_body]
fn compact_utc_at(secs: i64, nanos: u32) -> (r: Option<String>)
    ensures
        r matches Some(t) ==> compact_stamp_shape(t@),
{
    match DateTime::from_timestamp(secs, nanos) {
        Some(t) => Some(t.format("%Y%m%dT%H%M%SZ").to_string()),
        None => None,
    }
}

/// The current UTC time in RFC 3339 form with milliseconds; none where the
/// clock reads before the Unix epoch or out of range.
pub(crate) fn now_rfc3339_millis() -> (r: Option<String>)
    ensures
        r matches Some(t) ==> millis_stamp_shape(t@),
{
    match unix_time_now() {
        Some((secs, nanos)) => if secs <= i64::MAX as u64 {
            rfc3339_millis_at(secs as i64, nanos)
        } else {
            None
        },
        None => None,
    }
}

/// The current UTC time as `YYYYMMDDTHHMMSSZ`; none where the clock reads
/// before the Unix epoch or out of range.
pub(crate) fn now_compact_utc() -> (r: Option<String>)
    ensures
        r matches Some(t) ==> compact_stamp_shape(t@),
{
    match unix_time_now() {
        Some((secs, nanos)) => if secs <= i64::MAX as u64 {
            compact_utc_at(secs as i64, nanos)
        } else {
            None
        },
        None => None,
    }
}

/// Writes each `'\n'` of a log detail as the two characters `\` and `n`, so
/// that a detail never splits a log line.
pub fn sanitize(detail: &str) -> (r: String)
    ensures
        r@ == escape_newlines(detail@),
        !r@.contains('\n'),
{
    let s = chars_of(detail);
    let mut out: Vec<char> = Vec::new();
    let mut i: usize = 0;
    assert(s@.take(0) =~= Seq::<char>::empty());
    while i < s.len()
        invariant
            i <= s.len(),
            out@ == escape_newlines(s@.take(i as int)),
            forall|k: int| 0 <= k < out@.len() ==> out@[k] != '\n',
        decreases s.len() - i,
    {
        assert(s@.take(i + 1).drop_last() =~= s@.take(i as int));
        if s[i] == '\n' {
            out.push('\\');
            out.push('n');
        } else {
            out.push(s[i]);
        }
        i += 1;
        assert(out@ =~= escape_newlines(s@.take(i as int)));
    }
    assert(s@.take(i as int) =~= s@);
    string_of(&out)
}

/// The injected text as an audit block holds it.
fn audited_text(text: &str) -> (r: Vec<char>)
    ensures
        r@ == audited_injection(text@),
{
    let t = trim_chars(&chars_of(text));
    if t.len() > MAX_AUDITED_CHARS {
        let mut head = slice_chars(&t, 0, MAX_AUDITED_CHARS);
        push_all(&mut head, &chars_of("..."));
        head
    } else {
        t
    }
}

/// The audit block for one augmentation attempt, stamped with `timestamp`.
pub fn audit_entry(timestamp: &str, query: &str, injected: Option<&str>) -> (r: String)
    ensures
        r@ == audit_block(timestamp@, query@, opt_view(injected)),
{
    let mut out = chars_of("[");
    push_all(&mut out, &chars_of(timestamp));
    push_all(&mut out, &chars_of("] query: "));
    push_all(&mut out, &chars_of(query));
    push_all(&mut out, &chars_of("\n"));
    match injected {
        Some(text) => {
            push_all(&mut out, &chars_of("injected:\n"));
            push_all(&mut out, &audited_text(text));
            push_all(&mut out, &chars_of("\n"));
        },
        None => {
            push_all(&mut out, &chars_of("injected: <none>\n"));
        },
    }
    push_all(&mut out, &chars_of("\n"));
    assert(out@ =~= audit_block(timestamp@, query@, opt_view(injected)));
    string_of(&out)
}

/// The audit block for one augmentation attempt, stamped with the current
/// time; none where the clock cannot be read.
pub fn audit_entry_now(query: &str, injected: Option<&str>) -> (r: Option<String>)
    ensures
        r matches Some(b) ==> exists|timestamp: Seq<char>|
            millis_stamp_shape(timestamp) && b@ == audit_block(timestamp, query@, opt_view(injected)),
{
    match now_rfc3339_millis() {
        Some(timestamp) => Some(audit_entry(timestamp.as_str(), query, injected)),
        None => None,
    }
}

/// One session log line: time, event and sanitized detail, separated by `" | "`.
pub fn log_line(timestamp: &str, event: &str, detail: &str) -> (r: String)
    ensures
        r@ == log_line_text(timestamp@, event@, detail@),
{
    let mut out = chars_of(timestamp);
    push_all(&mut out, &chars_of(" | "));
    push_all(&mut out, &chars_of(event));
    push_all(&mut out, &chars_of(" | "));
    let clean = sanitize(detail);
    push_all(&mut out, &chars_of(clean.as_str()));
    string_of(&out)
}

/// One session log line stamped with the current time; none where the clock
/// cannot be read. The line holds no line break unless `event` does.
pub fn log_line_now(event: &str, detail: &str) -> (r: Option<String>)
    ensures
        r matches Some(l) ==> exists|timestamp: Seq<char>|
            millis_stamp_shape(timestamp) && l@ == log_line_text(timestamp, event@, detail@),
        !event@.contains('\n') ==> (r matches Some(l) ==> !l@.contains('\n')),
{
    match now_rfc3339_millis() {
        Some(timestamp) => {
            proof {
                if !event@.contains('\n') {
                    lemma_log_line_single(timestamp@, event@, detail@);
                }
            }
            Some(log_line(timestamp.as_str(), event, detail))
        },
        None => None,
    }
}

/// A sanitized detail holds no line break.
pub proof fn lemma_escaped_has_no_newline(s: Seq<char>)
    ensures
        !escape_newlines(s).contains('\n'),
    decreases s.len(),
{
    if s.len() > 0 {
        lemma_escaped_has_no_newline(s.drop_last());
        let head = escape_newlines(s.drop_last());
        let tail = if s.last() == '\n' {
            seq!['\\', 'n']
        } else {
            seq![s.last()]
        };
        let e = escape_newlines(s);
        assert(e == head + tail);
        assert forall|i: int| 0 <= i < e.len() implies e[i] != '\n' by {
            if i < head.len() {
                assert(e[i] == head[i]);
            } else {
                assert(e[i] == tail[i - head.len()]);
            }
        }
    }
}

/// A session log line is one line: where its time stamp and event hold no
/// line break, neither does the line, whatever the detail holds.
pub proof fn lemma_log_line_single(timestamp: Seq<char>, event: Seq<char>, detail: Seq<char>)
    requires
        !timestamp.contains('\n'),
        !event.contains('\n'),
    ensures
        !log_line_text(timestamp, event, detail).contains('\n'),
{
    reveal_strlit(" | ");
    lemma_escaped_has_no_newline(detail);
    let sep = " | "@;
    let parts = seq![timestamp, sep, event, sep, escape_newlines(detail)];
    let l = log_line_text(timestamp, event, detail);
    assert forall|i: int| 0 <= i < l.len() implies l[i] != '\n' by {
        let a = timestamp.len();
        let b = a + 3;
        let c = b + event.len();
        let d = c + 3;
        if i < a {
            assert(l[i] == timestamp[i]);
        } else if i < b {
            assert(l[i] == sep[i - a]);
        } else if i < c {
            assert(l[i] == event[i - b]);
        } else if i < d {
            assert(l[i] == sep[i - c]);
        } else {
            assert(l[i] == escape_newlines(detail)[i - d]);
        }
    }
}

/// Every audit block starts with `[` and ends with a blank line, so blocks
/// appended one after another stay apart and each can be told from the next.
pub proof fn lemma_audit_block_framed(timestamp: Seq<char>, query: Seq<char>, injected: Option<Seq<char>>)
    ensures
        audit_block(timestamp, query, injected).len() >= 2,
        audit_block(timestamp, query, injected)[0] == '[',
        audit_block(timestamp, query, injected).last() == '\n',
        audit_block(timestamp, query, injected)[audit_block(timestamp, query, injected).len() - 2]
            == '\n',
{
    reveal_strlit("[");
    reveal_strlit("\n");
    reveal_strlit("injected:\n");
    reveal_strlit("injected: <none>\n");
    let head = "["@ + timestamp + "] query: "@ + query + "\n"@;
    let mid = match injected {
        Some(t) => "injected:\n"@ + audited_injection(t) + "\n"@,
        None => "injected: <none>\n"@,
    };
    let b = audit_block(timestamp, query, injected);
    assert(b == head + mid + "\n"@);
    assert(head[0] == '[');
    assert(mid.last() == '\n');
    assert(b[b.len() - 2] == mid[mid.len() - 1]);
}

} // verus!
