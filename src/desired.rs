//! The record the provider should hold after a run: the caller's public
//! address under the configured name.
use vstd::prelude::*;
use crate::model::Record;

verus! {

/// `c` has Unicode's `White_Space` property, the whitespace of `str::trim`.
pub open spec fn is_white_space(c: char) -> bool {
    let u = c as u32;
    ||| 0x09 <= u <= 0x0d
    ||| u == 0x20
    ||| u == 0x85
    ||| u == 0xa0
    ||| u == 0x1680
    ||| 0x2000 <= u <= 0x200a
    ||| u == 0x2028
    ||| u == 0x2029
    ||| u == 0x202f
    ||| u == 0x205f
    ||| u == 0x3000
}

/// `s` without its leading whitespace.
pub open spec fn trim_start_spec(s: Seq<char>) -> Seq<char>
    decreases s.len(),
{
    if s.len() > 0 && is_white_space(s[0]) {
        trim_start_spec(s.drop_first())
    } else {
        s
    }
}

/// `s` without its trailing whitespace.
pub open spec fn trim_end_spec(s: Seq<char>) -> Seq<char>
    decreases s.len(),
{
    if s.len() > 0 && is_white_space(s.last()) {
        trim_end_spec(s.drop_last())
    } else {
        s
    }
}

/// `s` without its leading and trailing whitespace.
pub open spec fn trim_spec(s: Seq<char>) -> Seq<char> {
    trim_end_spec(trim_start_spec(s))
}

/// Relies on `str::trim`: the text without its leading and trailing
/// characters of Unicode's `White_Space` property.
#[verifier::external_body]
fn trim_text<'a>(s: &'a str) -> (r: &'a str)
    ensures
        r@ == trim_spec(s@),
{
    s.trim()
}

/// Relies on `From<std::time::SystemTime>` for `chrono::DateTime<Utc>` and on
/// the `Display` of `chrono::DateTime`: the current time as text. Nothing is
/// known of its value. The conversion handles clocks before the Unix epoch;
/// it fails only for a clock outside chrono's range of dates (beyond about
/// 262,000 years from year 0).
#[verifier::external_body]
fn utc_now_text() -> (r: String) {
    chrono::DateTime::<chrono::Utc>::from(std::time::SystemTime::now()).to_string()
}

/// The marker that every written record carries as its comment.
pub open spec fn comment_prefix() -> Seq<char> {
    "DDNS Last update at "@
}

/// The comment of a record written at the time `stamp`.
pub open spec fn comment_spec(stamp: Seq<char>) -> Seq<char> {
    comment_prefix() + stamp
}

/// `c` is a comment that this library writes, whatever its time.
pub open spec fn is_update_comment(c: Seq<char>) -> bool {
    c.len() >= comment_prefix().len() && c.subrange(0, comment_prefix().len() as int)
        == comment_prefix()
}

/// `r` is the desired record for the address `ip` and the name `name`:
/// an `A` record, without identifier.
pub open spec fn is_desired(r: Record, ip: Seq<char>, name: Seq<char>) -> bool {
    &&& r.content@ == ip
    &&& r.name@ == name
    &&& r.type_@ == "A"@
    &&& r.id is None
}

/// The public address held in the body of the address-echo service's answer:
/// the body without surrounding whitespace, not otherwise checked.
pub fn public_ip_from_body(body: &str) -> (r: String)
    ensures
        r@ == trim_spec(body@),
{
    String::from_str(trim_text(body))
}

/// The comment of a record written at the time `stamp`.
pub fn update_comment(stamp: &str) -> (r: String)
    ensures
        r@ == comment_spec(stamp@),
{
    let mut c = String::from_str("DDNS Last update at ");
    c.append(stamp);
    c
}

/// The record that should stand at the provider: address `ip` under
/// `record_name`, marked as written at the time `stamp`.
pub fn desired_record(ip: String, record_name: &str, stamp: &str) -> (r: Record)
    ensures
        is_desired(r, ip@, record_name@),
        r.content == ip,
        r.comment is Some && r.comment->Some_0@ == comment_spec(stamp@),
{
    Record {
        content: ip,
        name: String::from_str(record_name),
        type_: String::from_str("A"),
        comment: Some(update_comment(stamp)),
        id: None,
    }
}

/// The record that should stand at the provider: address `ip` under
/// `record_name`, marked as written now (read from the system clock).
pub fn desired_record_now(ip: String, record_name: &str) -> (r: Record)
    ensures
        is_desired(r, ip@, record_name@),
        r.content == ip,
        r.comment is Some && is_update_comment(r.comment->Some_0@),
{
    let stamp = utc_now_text();
    let r = desired_record(ip, record_name, stamp.as_str());
    assert(comment_spec(stamp@).subrange(0, comment_prefix().len() as int) =~= comment_prefix());
    r
}

} // verus!
