//! Canonical JSON for audit events.
//!
//! The exporter emits one JSON object per event — compact, with a fixed key
//! order — and a pretty-printed array for whole-trail exports.  A
//! specification-level parser for exactly this canonical form makes the
//! export round trip provable: parsing an exported trail yields the original
//! events, field for field.

use vstd::prelude::*;
use crate::audit::{AuditEvent, AuditEventType, EventView, opt_view};
use crate::integrity::hex_digit;
use crate::text::{chars_vec, is_prefix_of};

verus! {

/// JSON escaping of one character: quotes and backslashes get a backslash,
/// control characters become `\u00XX`, everything else stands as itself.
pub open spec fn escape_char(c: char) -> Seq<char> {
    if c == '"' {
        seq!['\\', '"']
    } else if c == '\\' {
        seq!['\\', '\\']
    } else if (c as u32) < 32 {
        seq!['\\', 'u', '0', '0', hex_digit((c as u32) as int / 16), hex_digit(
            (c as u32) as int % 16,
        )]
    } else {
        seq![c]
    }
}

/// JSON escaping of a whole string.
pub open spec fn escape_str(s: Seq<char>) -> Seq<char>
    decreases s.len(),
{
    if s.len() == 0 {
        Seq::empty()
    } else {
        escape_char(s[0]) + escape_str(s.drop_first())
    }
}

/// A quoted, escaped JSON string.
#[verifier::opaque]
pub open spec fn jstring_of(s: Seq<char>) -> Seq<char> {
    seq!['"'] + escape_str(s) + seq!['"']
}

/// The decimal digits of a non-negative integer, most significant first.
pub open spec fn dec_digits(n: int) -> Seq<char>
    recommends
        n >= 0,
    decreases n,
{
    if n < 10 {
        seq![hex_digit(if n < 0 { 0 } else { n })]
    } else {
        dec_digits(n / 10).push(hex_digit(n % 10))
    }
}

/// The decimal rendering of an integer, with a leading minus when negative.
pub open spec fn int_chars(n: int) -> Seq<char> {
    if n < 0 {
        seq!['-'] + dec_digits(-n)
    } else {
        dec_digits(n)
    }
}

proof fn lemma_escape_push(s: Seq<char>, c: char)
    ensures
        escape_str(s.push(c)) == escape_str(s) + escape_char(c),
    decreases s.len(),
{
    if s.len() == 0 {
        assert(s =~= Seq::<char>::empty());
        assert(s.push(c).drop_first() =~= s);
        assert(escape_str(s) == Seq::<char>::empty());
        assert(s.push(c)[0] == c);
        assert(escape_str(s.push(c)) == escape_char(c) + escape_str(s));
        assert(escape_str(s.push(c)) =~= escape_str(s) + escape_char(c));
    } else {
        lemma_escape_push(s.drop_first(), c);
        assert(s.push(c).drop_first() =~= s.drop_first().push(c));
        assert(escape_str(s.push(c)) =~= escape_str(s) + escape_char(c));
    }
}

fn escape_char_exec(c: char, out: &mut Vec<char>)
    ensures
        final(out)@ == old(out)@ + escape_char(c),
{
    let u = c as u32;
    if c == '"' {
        out.push('\\');
        out.push('"');
        assert(final(out)@ =~= old(out)@ + escape_char(c));
    } else if c == '\\' {
        out.push('\\');
        out.push('\\');
        assert(final(out)@ =~= old(out)@ + escape_char(c));
    } else if u < 32 {
        out.push('\\');
        out.push('u');
        out.push('0');
        out.push('0');
        out.push(crate::integrity::hex_digit_char((u / 16) as u8));
        out.push(crate::integrity::hex_digit_char((u % 16) as u8));
        assert(final(out)@ =~= old(out)@ + escape_char(c));
    } else {
        out.push(c);
        assert(final(out)@ =~= old(out)@ + escape_char(c));
    }
}

/// Append the JSON escaping of `s` to `out`.
fn escape_str_exec(s: &String, out: &mut Vec<char>)
    ensures
        final(out)@ == old(out)@ + escape_str(s@),
{
    let cs = chars_vec(s.as_str());
    let n = cs.len();
    proof {
        assert(s@.take(0) =~= Seq::<char>::empty());
        assert(out@ =~= out@ + escape_str(s@.take(0)));
    }
    let mut i: usize = 0;
    while i < n
        invariant
            n == cs@.len(),
            cs@ == s@,
            0 <= i <= n,
            out@ == old(out)@ + escape_str(s@.take(i as int)),
        decreases n - i,
    {
        proof {
            lemma_escape_push(s@.take(i as int), s@[i as int]);
            assert(s@.take(i + 1) =~= s@.take(i as int).push(s@[i as int]));
        }
        escape_char_exec(cs[i], out);
        i = i + 1;
    }
    proof {
        assert(s@.take(n as int) =~= s@);
    }
}

fn dec_digits_exec(n: u64, out: &mut Vec<char>)
    ensures
        final(out)@ == old(out)@ + dec_digits(n as int),
    decreases n,
{
    if n < 10 {
        out.push(crate::integrity::hex_digit_char(n as u8));
        assert(final(out)@ =~= old(out)@ + dec_digits(n as int));
    } else {
        dec_digits_exec(n / 10, out);
        out.push(crate::integrity::hex_digit_char((n % 10) as u8));
        assert(final(out)@ =~= old(out)@ + dec_digits(n as int));
    }
}

/// Append the decimal rendering of `n` to `out`.
fn int_chars_exec(n: i64, out: &mut Vec<char>)
    ensures
        final(out)@ == old(out)@ + int_chars(n as int),
{
    if n < 0 {
        out.push('-');
        let mag: u64 = if n == i64::MIN {
            9223372036854775808u64
        } else {
            (-n) as u64
        };
        assert(mag as int == -(n as int));
        dec_digits_exec(mag, out);
        assert(final(out)@ =~= old(out)@ + int_chars(n as int));
    } else {
        dec_digits_exec(n as u64, out);
    }
}

// Probes of the character model used by the escape round trip.
proof fn lemma_char_code_round(c: char)
    requires
        (c as u32) < 32,
    ensures
        (((c as u32) as u8) as char) == c,
{
}

/// Pushing one element is appending a singleton.
pub broadcast proof fn lemma_push_concat<A>(s: Seq<A>, c: A)
    ensures
        #[trigger] s.push(c) == s + seq![c],
{
    assert(s.push(c) =~= s + seq![c]);
}

/// A character that JSON escaping leaves unchanged.
pub open spec fn plain_char(c: char) -> bool {
    c != '"' && c != '\\' && (c as u32) >= 32
}

proof fn lemma_escape_plain(s: Seq<char>)
    requires
        forall|i: int| 0 <= i < s.len() ==> plain_char(#[trigger] s[i]),
    ensures
        escape_str(s) == s,
    decreases s.len(),
{
    if s.len() == 0 {
        assert(escape_str(s) =~= s);
    } else {
        assert(plain_char(s[0]));
        lemma_escape_plain(s.drop_first());
        assert(escape_str(s) =~= s);
    }
}

proof fn lemma_escape_plain_type(t: AuditEventType)
    ensures
        escape_str(event_type_chars(t)) == event_type_chars(t),
{
    let s = event_type_chars(t);
    assert forall|i: int| 0 <= i < s.len() implies plain_char(#[trigger] s[i]) by {
        match t {
            AuditEventType::PackageInstall => {},
            AuditEventType::PackageUninstall => {},
            AuditEventType::PackageUpdate => {},
            AuditEventType::IntegrityCheck => {},
            AuditEventType::VulnerabilityScan => {},
            AuditEventType::RuntimeProtection => {},
            AuditEventType::ConfigurationChange => {},
        }
    }
    lemma_escape_plain(s);
}


// ---------------------------------------------------------------------------
// The canonical object layout: fixed keys in a fixed order.
// ---------------------------------------------------------------------------

/// The characters of the `id` key, quoted and followed by a colon.
#[verifier::opaque]
pub open spec fn key_id() -> Seq<char> {
    seq!['"', 'i', 'd', '"', ':']
}

fn push_key_id(out: &mut Vec<char>)
    ensures
        final(out)@ == old(out)@ + key_id(),
{
    out.push('"');
    out.push('i');
    out.push('d');
    out.push('"');
    out.push(':');
    proof {
        reveal(key_id);
        assert(final(out)@ =~= old(out)@ + key_id());
    }
}

/// The characters of the `timestamp` key, quoted and followed by a colon.
#[verifier::opaque]
pub open spec fn key_timestamp() -> Seq<char> {
    seq!['"', 't', 'i', 'm', 'e', 's', 't', 'a', 'm', 'p', '"', ':']
}

fn push_key_timestamp(out: &mut Vec<char>)
    ensures
        final(out)@ == old(out)@ + key_timestamp(),
{
    out.push('"');
    out.push('t');
    out.push('i');
    out.push('m');
    out.push('e');
    out.push('s');
    out.push('t');
    out.push('a');
    out.push('m');
    out.push('p');
    out.push('"');
    out.push(':');
    proof {
        reveal(key_timestamp);
        assert(final(out)@ =~= old(out)@ + key_timestamp());
    }
}

/// The characters of the `event_type` key, quoted and followed by a colon.
#[verifier::opaque]
pub open spec fn key_event_type() -> Seq<char> {
    seq!['"', 'e', 'v', 'e', 'n', 't', '_', 't', 'y', 'p', 'e', '"', ':']
}

fn push_key_event_type(out: &mut Vec<char>)
    ensures
        final(out)@ == old(out)@ + key_event_type(),
{
    out.push('"');
    out.push('e');
    out.push('v');
    out.push('e');
    out.push('n');
    out.push('t');
    out.push('_');
    out.push('t');
    out.push('y');
    out.push('p');
    out.push('e');
    out.push('"');
    out.push(':');
    proof {
        reveal(key_event_type);
        assert(final(out)@ =~= old(out)@ + key_event_type());
    }
}

/// The characters of the `package_name` key, quoted and followed by a colon.
#[verifier::opaque]
pub open spec fn key_package_name() -> Seq<char> {
    seq!['"', 'p', 'a', 'c', 'k', 'a', 'g', 'e', '_', 'n', 'a', 'm', 'e', '"', ':']
}

fn push_key_package_name(out: &mut Vec<char>)
    ensures
        final(out)@ == old(out)@ + key_package_name(),
{
    out.push('"');
    out.push('p');
    out.push('a');
    out.push('c');
    out.push('k');
    out.push('a');
    out.push('g');
    out.push('e');
    out.push('_');
    out.push('n');
    out.push('a');
    out.push('m');
    out.push('e');
    out.push('"');
    out.push(':');
    proof {
        reveal(key_package_name);
        assert(final(out)@ =~= old(out)@ + key_package_name());
    }
}

/// The characters of the `package_version` key, quoted and followed by a colon.
#[verifier::opaque]
pub open spec fn key_package_version() -> Seq<char> {
    seq!['"', 'p', 'a', 'c', 'k', 'a', 'g', 'e', '_', 'v', 'e', 'r', 's', 'i', 'o', 'n', '"', ':']
}

fn push_key_package_version(out: &mut Vec<char>)
    ensures
        final(out)@ == old(out)@ + key_package_version(),
{
    out.push('"');
    out.push('p');
    out.push('a');
    out.push('c');
    out.push('k');
    out.push('a');
    out.push('g');
    out.push('e');
    out.push('_');
    out.push('v');
    out.push('e');
    out.push('r');
    out.push('s');
    out.push('i');
    out.push('o');
    out.push('n');
    out.push('"');
    out.push(':');
    proof {
        reveal(key_package_version);
        assert(final(out)@ =~= old(out)@ + key_package_version());
    }
}

/// The characters of the `user` key, quoted and followed by a colon.
#[verifier::opaque]
pub open spec fn key_user() -> Seq<char> {
    seq!['"', 'u', 's', 'e', 'r', '"', ':']
}

fn push_key_user(out: &mut Vec<char>)
    ensures
        final(out)@ == old(out)@ + key_user(),
{
    out.push('"');
    out.push('u');
    out.push('s');
    out.push('e');
    out.push('r');
    out.push('"');
    out.push(':');
    proof {
        reveal(key_user);
        assert(final(out)@ =~= old(out)@ + key_user());
    }
}

/// The characters of the `ip_address` key, quoted and followed by a colon.
#[verifier::opaque]
pub open spec fn key_ip_address() -> Seq<char> {
    seq!['"', 'i', 'p', '_', 'a', 'd', 'd', 'r', 'e', 's', 's', '"', ':']
}

fn push_key_ip_address(out: &mut Vec<char>)
    ensures
        final(out)@ == old(out)@ + key_ip_address(),
{
    out.push('"');
    out.push('i');
    out.push('p');
    out.push('_');
    out.push('a');
    out.push('d');
    out.push('d');
    out.push('r');
    out.push('e');
    out.push('s');
    out.push('s');
    out.push('"');
    out.push(':');
    proof {
        reveal(key_ip_address);
        assert(final(out)@ =~= old(out)@ + key_ip_address());
    }
}

/// The characters of the `details` key, quoted and followed by a colon.
#[verifier::opaque]
pub open spec fn key_details() -> Seq<char> {
    seq!['"', 'd', 'e', 't', 'a', 'i', 'l', 's', '"', ':']
}

fn push_key_details(out: &mut Vec<char>)
    ensures
        final(out)@ == old(out)@ + key_details(),
{
    out.push('"');
    out.push('d');
    out.push('e');
    out.push('t');
    out.push('a');
    out.push('i');
    out.push('l');
    out.push('s');
    out.push('"');
    out.push(':');
    proof {
        reveal(key_details);
        assert(final(out)@ =~= old(out)@ + key_details());
    }
}

/// The characters of the `success` key, quoted and followed by a colon.
#[verifier::opaque]
pub open spec fn key_success() -> Seq<char> {
    seq!['"', 's', 'u', 'c', 'c', 'e', 's', 's', '"', ':']
}

fn push_key_success(out: &mut Vec<char>)
    ensures
        final(out)@ == old(out)@ + key_success(),
{
    out.push('"');
    out.push('s');
    out.push('u');
    out.push('c');
    out.push('c');
    out.push('e');
    out.push('s');
    out.push('s');
    out.push('"');
    out.push(':');
    proof {
        reveal(key_success);
        assert(final(out)@ =~= old(out)@ + key_success());
    }
}

/// The characters of the `error_message` key, quoted and followed by a colon.
#[verifier::opaque]
pub open spec fn key_error_message() -> Seq<char> {
    seq!['"', 'e', 'r', 'r', 'o', 'r', '_', 'm', 'e', 's', 's', 'a', 'g', 'e', '"', ':']
}

fn push_key_error_message(out: &mut Vec<char>)
    ensures
        final(out)@ == old(out)@ + key_error_message(),
{
    out.push('"');
    out.push('e');
    out.push('r');
    out.push('r');
    out.push('o');
    out.push('r');
    out.push('_');
    out.push('m');
    out.push('e');
    out.push('s');
    out.push('s');
    out.push('a');
    out.push('g');
    out.push('e');
    out.push('"');
    out.push(':');
    proof {
        reveal(key_error_message);
        assert(final(out)@ =~= old(out)@ + key_error_message());
    }
}

/// The characters `null`.
pub open spec fn null_chars() -> Seq<char> {
    seq!['n', 'u', 'l', 'l']
}

/// The characters `true` or `false`.
pub open spec fn bool_chars(b: bool) -> Seq<char> {
    if b {
        seq!['t', 'r', 'u', 'e']
    } else {
        seq!['f', 'a', 'l', 's', 'e']
    }
}


/// The name of an event kind, as it appears in exports.
pub open spec fn event_type_chars(t: AuditEventType) -> Seq<char> {
    match t {
        AuditEventType::PackageInstall => seq!['P', 'a', 'c', 'k', 'a', 'g', 'e', 'I', 'n', 's', 't', 'a', 'l', 'l'],
        AuditEventType::PackageUninstall => seq!['P', 'a', 'c', 'k', 'a', 'g', 'e', 'U', 'n', 'i', 'n', 's', 't', 'a', 'l', 'l'],
        AuditEventType::PackageUpdate => seq!['P', 'a', 'c', 'k', 'a', 'g', 'e', 'U', 'p', 'd', 'a', 't', 'e'],
        AuditEventType::IntegrityCheck => seq!['I', 'n', 't', 'e', 'g', 'r', 'i', 't', 'y', 'C', 'h', 'e', 'c', 'k'],
        AuditEventType::VulnerabilityScan => seq!['V', 'u', 'l', 'n', 'e', 'r', 'a', 'b', 'i', 'l', 'i', 't', 'y', 'S', 'c', 'a', 'n'],
        AuditEventType::RuntimeProtection => seq!['R', 'u', 'n', 't', 'i', 'm', 'e', 'P', 'r', 'o', 't', 'e', 'c', 't', 'i', 'o', 'n'],
        AuditEventType::ConfigurationChange => seq!['C', 'o', 'n', 'f', 'i', 'g', 'u', 'r', 'a', 't', 'i', 'o', 'n', 'C', 'h', 'a', 'n', 'g', 'e'],
    }
}


pub(crate) fn push_event_type_name(t: AuditEventType, out: &mut Vec<char>)
    ensures
        final(out)@ == old(out)@ + event_type_chars(t),
{
    match t {
        AuditEventType::PackageInstall => {
            out.push('P');
            out.push('a');
            out.push('c');
            out.push('k');
            out.push('a');
            out.push('g');
            out.push('e');
            out.push('I');
            out.push('n');
            out.push('s');
            out.push('t');
            out.push('a');
            out.push('l');
            out.push('l');
        },
        AuditEventType::PackageUninstall => {
            out.push('P');
            out.push('a');
            out.push('c');
            out.push('k');
            out.push('a');
            out.push('g');
            out.push('e');
            out.push('U');
            out.push('n');
            out.push('i');
            out.push('n');
            out.push('s');
            out.push('t');
            out.push('a');
            out.push('l');
            out.push('l');
        },
        AuditEventType::PackageUpdate => {
            out.push('P');
            out.push('a');
            out.push('c');
            out.push('k');
            out.push('a');
            out.push('g');
            out.push('e');
            out.push('U');
            out.push('p');
            out.push('d');
            out.push('a');
            out.push('t');
            out.push('e');
        },
        AuditEventType::IntegrityCheck => {
            out.push('I');
            out.push('n');
            out.push('t');
            out.push('e');
            out.push('g');
            out.push('r');
            out.push('i');
            out.push('t');
            out.push('y');
            out.push('C');
            out.push('h');
            out.push('e');
            out.push('c');
            out.push('k');
        },
        AuditEventType::VulnerabilityScan => {
            out.push('V');
            out.push('u');
            out.push('l');
            out.push('n');
            out.push('e');
            out.push('r');
            out.push('a');
            out.push('b');
            out.push('i');
            out.push('l');
            out.push('i');
            out.push('t');
            out.push('y');
            out.push('S');
            out.push('c');
            out.push('a');
            out.push('n');
        },
        AuditEventType::RuntimeProtection => {
            out.push('R');
            out.push('u');
            out.push('n');
            out.push('t');
            out.push('i');
            out.push('m');
            out.push('e');
            out.push('P');
            out.push('r');
            out.push('o');
            out.push('t');
            out.push('e');
            out.push('c');
            out.push('t');
            out.push('i');
            out.push('o');
            out.push('n');
        },
        AuditEventType::ConfigurationChange => {
            out.push('C');
            out.push('o');
            out.push('n');
            out.push('f');
            out.push('i');
            out.push('g');
            out.push('u');
            out.push('r');
            out.push('a');
            out.push('t');
            out.push('i');
            out.push('o');
            out.push('n');
            out.push('C');
            out.push('h');
            out.push('a');
            out.push('n');
            out.push('g');
            out.push('e');
        },
    }
    assert(final(out)@ =~= old(out)@ + event_type_chars(t));
}


/// A JSON value for an optional string: `null` or a quoted string.
#[verifier::opaque]
pub open spec fn opt_json(o: Option<Seq<char>>) -> Seq<char> {
    match o {
        Some(s) => jstring_of(s),
        None => null_chars(),
    }
}

/// One details entry: `"key":"value"`.
pub open spec fn detail_entry_json(kv: (Seq<char>, Seq<char>)) -> Seq<char> {
    jstring_of(kv.0) + seq![':'] + jstring_of(kv.1)
}

/// The comma-separated details entries.
pub open spec fn details_entries_json(d: Seq<(Seq<char>, Seq<char>)>) -> Seq<char>
    decreases d.len(),
{
    if d.len() == 0 {
        Seq::empty()
    } else if d.len() == 1 {
        detail_entry_json(d[0])
    } else {
        details_entries_json(d.drop_last()) + seq![','] + detail_entry_json(d.last())
    }
}

/// The details object.
#[verifier::opaque]
pub open spec fn details_json(d: Seq<(Seq<char>, Seq<char>)>) -> Seq<char> {
    seq!['{'] + details_entries_json(d) + seq!['}']
}

/// The canonical JSON object for one event: every field, fixed key order,
/// no whitespace.
#[verifier::opaque]
pub open spec fn event_json(m: EventView) -> Seq<char> {
    seq!['{'] + key_id() + jstring_of(m.id) + seq![','] + key_timestamp() + int_chars(m.timestamp)
        + seq![','] + key_event_type() + jstring_of(event_type_chars(m.event_type)) + seq![',']
        + key_package_name() + opt_json(m.package_name) + seq![','] + key_package_version()
        + opt_json(m.package_version) + seq![','] + key_user() + opt_json(m.user) + seq![',']
        + key_ip_address() + opt_json(m.ip_address) + seq![','] + key_details() + details_json(
        m.details,
    ) + seq![','] + key_success() + bool_chars(m.success) + seq![','] + key_error_message()
        + opt_json(m.error_message) + seq!['}']
}

/// The events of an exported array, one per line.
pub open spec fn events_array_body(ms: Seq<EventView>) -> Seq<char>
    decreases ms.len(),
{
    if ms.len() == 0 {
        Seq::empty()
    } else if ms.len() == 1 {
        event_json(ms[0])
    } else {
        events_array_body(ms.drop_last()) + seq![',', '\n', ' ', ' '] + event_json(ms.last())
    }
}

/// A whole exported trail: a pretty-printed JSON array, one event per line.
pub open spec fn json_export(ms: Seq<EventView>) -> Seq<char> {
    if ms.len() == 0 {
        seq!['[', ']']
    } else {
        seq!['[', '\n', ' ', ' '] + events_array_body(ms) + seq!['\n', ']']
    }
}

fn push_jstring(s: &String, out: &mut Vec<char>)
    ensures
        final(out)@ == old(out)@ + jstring_of(s@),
{
    out.push('"');
    escape_str_exec(s, out);
    out.push('"');
    proof {
        reveal(jstring_of);
        assert(final(out)@ =~= old(out)@ + jstring_of(s@));
    }
}

fn push_opt_string(o: &Option<String>, out: &mut Vec<char>)
    ensures
        final(out)@ == old(out)@ + opt_json(opt_view(*o)),
{
    proof {
        reveal(opt_json);
    }
    match o {
        Some(s) => {
            push_jstring(s, out);
        },
        None => {
            out.push('n');
            out.push('u');
            out.push('l');
            out.push('l');
            assert(final(out)@ =~= old(out)@ + null_chars());
        },
    }
}

pub(crate) fn push_bool(b: bool, out: &mut Vec<char>)
    ensures
        final(out)@ == old(out)@ + bool_chars(b),
{
    if b {
        out.push('t');
        out.push('r');
        out.push('u');
        out.push('e');
    } else {
        out.push('f');
        out.push('a');
        out.push('l');
        out.push('s');
        out.push('e');
    }
    assert(final(out)@ =~= old(out)@ + bool_chars(b));
}

pub(crate) fn push_details(d: &Vec<(String, String)>, out: &mut Vec<char>)
    ensures
        final(out)@ == old(out)@ + details_json(
            d@.map_values(|kv: (String, String)| (kv.0@, kv.1@)),
        ),
{
    let ghost dv = d@.map_values(|kv: (String, String)| (kv.0@, kv.1@));
    out.push('{');
    let n = d.len();
    proof {
        assert(dv.take(0) =~= Seq::<(Seq<char>, Seq<char>)>::empty());
        assert(out@ =~= old(out)@ + seq!['{'] + details_entries_json(dv.take(0)));
    }
    let mut i: usize = 0;
    while i < n
        invariant
            n == d@.len(),
            dv == d@.map_values(|kv: (String, String)| (kv.0@, kv.1@)),
            dv.len() == n,
            0 <= i <= n,
            out@ == old(out)@ + seq!['{'] + details_entries_json(dv.take(i as int)),
        decreases n - i,
    {
        proof {
            assert(dv.take(i + 1).drop_last() =~= dv.take(i as int));
            assert(dv.take(i + 1).last() == dv[i as int]);
            assert(dv[i as int] == (d@[i as int].0@, d@[i as int].1@));
        }
        if i > 0 {
            out.push(',');
        }
        push_jstring(&d[i].0, out);
        out.push(':');
        push_jstring(&d[i].1, out);
        proof {
            if i == 0 {
                assert(dv.take(1) =~= seq![dv[0]]);
                assert(dv.take(1).len() == 1);
                assert(out@ =~= old(out)@ + seq!['{'] + details_entries_json(dv.take(i + 1)));
            } else {
                assert(dv.take(i + 1).len() >= 2);
                assert(out@ =~= old(out)@ + seq!['{'] + details_entries_json(dv.take(i + 1)));
            }
        }
        i = i + 1;
    }
    out.push('}');
    proof {
        reveal(details_json);
        assert(dv.take(n as int) =~= dv);
        assert(out@ =~= old(out)@ + details_json(dv));
    }
}

/// The canonical JSON object for one event, as characters.
#[verifier::rlimit(100)]
pub fn event_json_chars(e: &AuditEvent) -> (r: Vec<char>)
    ensures
        r@ == event_json(e@),
{
    broadcast use lemma_push_concat;

    let mut out: Vec<char> = Vec::new();
    out.push('{');
    proof {
        assert(out@ =~= seq!['{']);
    }
    push_key_id(&mut out);
    push_jstring(&e.id, &mut out);
    let ghost g1 = seq!['{'] + key_id() + jstring_of(e.id@);
    proof {
        assert(out@ == g1);
    }
    out.push(',');
    push_key_timestamp(&mut out);
    int_chars_exec(e.timestamp, &mut out);
    let ghost g2 = g1 + seq![','] + key_timestamp() + int_chars(e.timestamp as int);
    proof {
        assert(out@ == g2);
    }
    out.push(',');
    push_key_event_type(&mut out);
    let ghost g3a = g2 + seq![','] + key_event_type();
    proof {
        assert(out@ == g3a);
    }
    out.push('"');
    push_event_type_name(e.event_type, &mut out);
    out.push('"');
    let ghost g3 = g3a + jstring_of(event_type_chars(e.event_type));
    proof {
        reveal(jstring_of);
        lemma_escape_plain_type(e.event_type);
        assert(out@ == g3a + seq!['"'] + event_type_chars(e.event_type) + seq!['"']);
        assert(g3a + seq!['"'] + event_type_chars(e.event_type) + seq!['"'] =~= g3);
        assert(out@ == g3);
    }
    out.push(',');
    push_key_package_name(&mut out);
    push_opt_string(&e.package_name, &mut out);
    let ghost g4 = g3 + seq![','] + key_package_name() + opt_json(e@.package_name);
    proof {
        assert(out@ == g4);
    }
    out.push(',');
    push_key_package_version(&mut out);
    push_opt_string(&e.package_version, &mut out);
    let ghost g5 = g4 + seq![','] + key_package_version() + opt_json(e@.package_version);
    proof {
        assert(out@ == g5);
    }
    out.push(',');
    push_key_user(&mut out);
    push_opt_string(&e.user, &mut out);
    let ghost g6 = g5 + seq![','] + key_user() + opt_json(e@.user);
    proof {
        assert(out@ == g6);
    }
    out.push(',');
    push_key_ip_address(&mut out);
    push_opt_string(&e.ip_address, &mut out);
    let ghost g7 = g6 + seq![','] + key_ip_address() + opt_json(e@.ip_address);
    proof {
        assert(out@ == g7);
    }
    out.push(',');
    push_key_details(&mut out);
    push_details(&e.details, &mut out);
    let ghost g8 = g7 + seq![','] + key_details() + details_json(e@.details);
    proof {
        assert(out@ == g8);
    }
    out.push(',');
    push_key_success(&mut out);
    push_bool(e.success, &mut out);
    let ghost g9 = g8 + seq![','] + key_success() + bool_chars(e@.success);
    proof {
        assert(out@ == g9);
    }
    out.push(',');
    push_key_error_message(&mut out);
    push_opt_string(&e.error_message, &mut out);
    out.push('}');
    let ghost g10 = g9 + seq![','] + key_error_message() + opt_json(e@.error_message)
        + seq!['}'];
    proof {
        assert(out@ == g10);
        reveal(event_json);
        assert(g10 == event_json(e@));
    }
    out
}


// ---------------------------------------------------------------------------
// A parser for exactly the canonical form above, at the specification level.
// It exists to state and prove the export round trip.
// ---------------------------------------------------------------------------

/// A decimal digit.
pub open spec fn is_dec_digit(c: char) -> bool {
    48 <= c as u32 <= 57
}

/// The value of a decimal digit.
pub open spec fn dec_val(c: char) -> int {
    c as u32 - 48
}

/// A lowercase hex digit.
pub open spec fn is_hex_lower(c: char) -> bool {
    is_dec_digit(c) || (97 <= c as u32 <= 102)
}

/// The value of a lowercase hex digit.
pub open spec fn hex_val(c: char) -> int {
    if is_dec_digit(c) {
        dec_val(c)
    } else {
        c as u32 - 87
    }
}

/// Consume an expected literal prefix.
pub open spec fn expect(s: Seq<char>, lit: Seq<char>) -> Option<Seq<char>> {
    if is_prefix_of(lit, s) {
        Some(s.skip(lit.len() as int))
    } else {
        None
    }
}

/// Parse a string body up to and including the closing quote; the opening
/// quote has already been consumed.  Returns the unescaped content and the
/// rest of the input.
pub open spec fn parse_jstring(s: Seq<char>) -> Option<(Seq<char>, Seq<char>)>
    decreases s.len(),
{
    if s.len() == 0 {
        None
    } else if s[0] == '"' {
        Some((Seq::empty(), s.drop_first()))
    } else if s[0] == '\\' {
        if s.len() >= 2 && (s[1] == '"' || s[1] == '\\') {
            match parse_jstring(s.skip(2)) {
                Some((content, rest)) => Some((seq![s[1]] + content, rest)),
                None => None,
            }
        } else if s.len() >= 6 && s[1] == 'u' && s[2] == '0' && s[3] == '0' && is_hex_lower(s[4])
            && is_hex_lower(s[5]) {
            let code = hex_val(s[4]) * 16 + hex_val(s[5]);
            match parse_jstring(s.skip(6)) {
                Some((content, rest)) => Some((seq![((code as u8) as char)] + content, rest)),
                None => None,
            }
        } else {
            None
        }
    } else {
        match parse_jstring(s.drop_first()) {
            Some((content, rest)) => Some((seq![s[0]] + content, rest)),
            None => None,
        }
    }
}

/// Accumulate decimal digits, maximal munch.
pub open spec fn parse_digits(s: Seq<char>, acc: int) -> (int, Seq<char>)
    decreases s.len(),
{
    if s.len() == 0 || !is_dec_digit(s[0]) {
        (acc, s)
    } else {
        parse_digits(s.drop_first(), acc * 10 + dec_val(s[0]))
    }
}

/// Parse an optionally signed integer.
pub open spec fn parse_int(s: Seq<char>) -> Option<(int, Seq<char>)> {
    if s.len() >= 2 && s[0] == '-' && is_dec_digit(s[1]) {
        let (n, rest) = parse_digits(s.drop_first(), 0);
        Some((-n, rest))
    } else if s.len() >= 1 && is_dec_digit(s[0]) {
        let (n, rest) = parse_digits(s, 0);
        Some((n, rest))
    } else {
        None
    }
}

/// Parse `null` or a quoted string.
pub open spec fn parse_opt_string(s: Seq<char>) -> Option<(Option<Seq<char>>, Seq<char>)> {
    if s.len() >= 1 && s[0] == 'n' {
        match expect(s, null_chars()) {
            Some(rest) => Some((None, rest)),
            None => None,
        }
    } else if s.len() >= 1 && s[0] == '"' {
        match parse_jstring(s.drop_first()) {
            Some((content, rest)) => Some((Some(content), rest)),
            None => None,
        }
    } else {
        None
    }
}

/// Parse `true` or `false`.
pub open spec fn parse_bool(s: Seq<char>) -> Option<(bool, Seq<char>)> {
    match expect(s, bool_chars(true)) {
        Some(rest) => Some((true, rest)),
        None => match expect(s, bool_chars(false)) {
            Some(rest) => Some((false, rest)),
            None => None,
        },
    }
}

/// The event kind named by a string, if any.
pub open spec fn event_type_of_chars(s: Seq<char>) -> Option<AuditEventType> {
    if s == event_type_chars(AuditEventType::PackageInstall) {
        Some(AuditEventType::PackageInstall)
    } else if s == event_type_chars(AuditEventType::PackageUninstall) {
        Some(AuditEventType::PackageUninstall)
    } else if s == event_type_chars(AuditEventType::PackageUpdate) {
        Some(AuditEventType::PackageUpdate)
    } else if s == event_type_chars(AuditEventType::IntegrityCheck) {
        Some(AuditEventType::IntegrityCheck)
    } else if s == event_type_chars(AuditEventType::VulnerabilityScan) {
        Some(AuditEventType::VulnerabilityScan)
    } else if s == event_type_chars(AuditEventType::RuntimeProtection) {
        Some(AuditEventType::RuntimeProtection)
    } else if s == event_type_chars(AuditEventType::ConfigurationChange) {
        Some(AuditEventType::ConfigurationChange)
    } else {
        None
    }
}

/// Parse the entries of a non-empty details object, up to and including the
/// closing brace.
pub open spec fn parse_detail_entries(s: Seq<char>) -> Option<
    (Seq<(Seq<char>, Seq<char>)>, Seq<char>),
>
    decreases s.len(),
{
    if s.len() == 0 || s[0] != '"' {
        None
    } else {
        match parse_jstring(s.drop_first()) {
            None => None,
            Some((k, r1)) => if r1.len() >= 2 && r1[0] == ':' && r1[1] == '"' {
                match parse_jstring(r1.skip(2)) {
                    None => None,
                    Some((v, r2)) => if r2.len() >= 1 && r2[0] == ',' {
                        if r2.len() < s.len() {
                            match parse_detail_entries(r2.drop_first()) {
                                Some((entries, rest)) => Some((seq![(k, v)] + entries, rest)),
                                None => None,
                            }
                        } else {
                            None
                        }
                    } else if r2.len() >= 1 && r2[0] == '}' {
                        Some((seq![(k, v)], r2.drop_first()))
                    } else {
                        None
                    },
                }
            } else {
                None
            },
        }
    }
}

/// Parse a whole details object, braces included.
pub open spec fn parse_details(s: Seq<char>) -> Option<(Seq<(Seq<char>, Seq<char>)>, Seq<char>)> {
    if s.len() >= 1 && s[0] == '{' {
        let t = s.drop_first();
        if t.len() >= 1 && t[0] == '}' {
            Some((Seq::empty(), t.drop_first()))
        } else {
            parse_detail_entries(t)
        }
    } else {
        None
    }
}

/// Parse one canonical event object, braces included.
pub open spec fn parse_event(s: Seq<char>) -> Option<(EventView, Seq<char>)> {
    match expect(s, seq!['{'] + key_id() + seq!['"']) {
        None => None,
        Some(r0) => match parse_jstring(r0) {
            None => None,
            Some((id, r1)) => match expect(r1, seq![','] + key_timestamp()) {
                None => None,
                Some(r2) => match parse_int(r2) {
                    None => None,
                    Some((timestamp, r3)) => match expect(
                        r3,
                        seq![','] + key_event_type() + seq!['"'],
                    ) {
                        None => None,
                        Some(r4) => match parse_jstring(r4) {
                            None => None,
                            Some((tname, r5)) => match event_type_of_chars(tname) {
                                None => None,
                                Some(event_type) => parse_event_mid(id, timestamp, event_type, r5),
                            },
                        },
                    },
                },
            },
        },
    }
}

/// The middle of `parse_event`: package name and version.
pub open spec fn parse_event_mid(
    id: Seq<char>,
    timestamp: int,
    event_type: AuditEventType,
    s: Seq<char>,
) -> Option<(EventView, Seq<char>)> {
    match expect(s, seq![','] + key_package_name()) {
        None => None,
        Some(r0) => match parse_opt_string(r0) {
            None => None,
            Some((package_name, r1)) => match expect(r1, seq![','] + key_package_version()) {
                None => None,
                Some(r2) => match parse_opt_string(r2) {
                    None => None,
                    Some((package_version, r3)) => parse_event_tail(
                        id,
                        timestamp,
                        event_type,
                        package_name,
                        package_version,
                        r3,
                    ),
                },
            },
        },
    }
}

/// The second half of `parse_event`: user, IP address, details, success and
/// error message, then the closing brace.
pub open spec fn parse_event_tail(
    id: Seq<char>,
    timestamp: int,
    event_type: AuditEventType,
    package_name: Option<Seq<char>>,
    package_version: Option<Seq<char>>,
    s: Seq<char>,
) -> Option<(EventView, Seq<char>)> {
    match expect(s, seq![','] + key_user()) {
        None => None,
        Some(r0) => match parse_opt_string(r0) {
            None => None,
            Some((user, r1)) => match expect(r1, seq![','] + key_ip_address()) {
                None => None,
                Some(r2) => match parse_opt_string(r2) {
                    None => None,
                    Some((ip_address, r3)) => match expect(r3, seq![','] + key_details()) {
                        None => None,
                        Some(r4) => match parse_details(r4) {
                            None => None,
                            Some((details, r5)) => match expect(r5, seq![','] + key_success()) {
                                None => None,
                                Some(r6) => match parse_bool(r6) {
                                    None => None,
                                    Some((success, r7)) => match expect(
                                        r7,
                                        seq![','] + key_error_message(),
                                    ) {
                                        None => None,
                                        Some(r8) => match parse_opt_string(r8) {
                                            None => None,
                                            Some((error_message, r9)) => match expect(
                                                r9,
                                                seq!['}'],
                                            ) {
                                                None => None,
                                                Some(rest) => Some(
                                                    (
                                                        EventView {
                                                            id,
                                                            timestamp,
                                                            event_type,
                                                            package_name,
                                                            package_version,
                                                            user,
                                                            ip_address,
                                                            details,
                                                            success,
                                                            error_message,
                                                        },
                                                        rest,
                                                    ),
                                                ),
                                            },
                                        },
                                    },
                                },
                            },
                        },
                    },
                },
            },
        },
    }
}

/// Parse the body of a non-empty exported array: events separated by
/// `,\n  `, closed by `\n]`.
pub open spec fn parse_events_body(s: Seq<char>) -> Option<(Seq<EventView>, Seq<char>)>
    decreases s.len(),
{
    match parse_event(s) {
        None => None,
        Some((m, r1)) => if is_prefix_of(seq![',', '\n', ' ', ' '], r1) {
            let r2 = r1.skip(4);
            if r2.len() < s.len() {
                match parse_events_body(r2) {
                    Some((ms, rest)) => Some((seq![m] + ms, rest)),
                    None => None,
                }
            } else {
                None
            }
        } else {
            match expect(r1, seq!['\n', ']']) {
                Some(rest) => Some((seq![m], rest)),
                None => None,
            }
        },
    }
}

/// Parse a whole exported trail.
pub open spec fn parse_events(s: Seq<char>) -> Option<Seq<EventView>> {
    if s == seq!['[', ']'] {
        Some(Seq::empty())
    } else {
        match expect(s, seq!['[', '\n', ' ', ' ']) {
            None => None,
            Some(r) => match parse_events_body(r) {
                Some((ms, rest)) => if rest.len() == 0 {
                    Some(ms)
                } else {
                    None
                },
                None => None,
            },
        }
    }
}


// ---------------------------------------------------------------------------
// Round-trip lemmas: parsing what the serializer emitted gives the original
// values back.
// ---------------------------------------------------------------------------

proof fn lemma_expect_concat(lit: Seq<char>, rest: Seq<char>)
    ensures
        expect(lit + rest, lit) == Some(rest),
{
    assert(lit =~= (lit + rest).subrange(0, lit.len() as int));
    assert((lit + rest).skip(lit.len() as int) =~= rest);
}

proof fn lemma_jstring_round(content: Seq<char>, rest: Seq<char>)
    ensures
        parse_jstring(escape_str(content) + seq!['"'] + rest) == Some((content, rest)),
    decreases content.len(),
{
    let s = escape_str(content) + seq!['"'] + rest;
    if content.len() == 0 {
        assert(escape_str(content) =~= Seq::<char>::empty());
        assert(s =~= seq!['"'] + rest);
        assert(s[0] == '"');
        assert(s.drop_first() =~= rest);
        assert(parse_jstring(s) == Some((Seq::<char>::empty(), rest)));
        assert(content =~= Seq::<char>::empty());
    } else {
        let c = content[0];
        let tail = content.drop_first();
        lemma_jstring_round(tail, rest);
        let inner = escape_str(tail) + seq!['"'] + rest;
        assert(escape_str(content) == escape_char(c) + escape_str(tail));
        assert(s =~= escape_char(c) + inner);
        if c == '"' {
            assert(escape_char(c) =~= seq!['\\', '"']);
            assert(s[0] == '\\' && s.len() >= 2 && s[1] == '"');
            assert(s.skip(2) =~= inner);
            assert(seq![s[1]] + tail =~= content);
        } else if c == '\\' {
            assert(s[0] == '\\' && s.len() >= 2 && s[1] == '\\');
            assert(s.skip(2) =~= inner);
            assert(seq![s[1]] + tail =~= content);
        } else if (c as u32) < 32 {
            let code = (c as u32) as int;
            assert(escape_char(c) =~= seq!['\\', 'u', '0', '0', hex_digit(code / 16), hex_digit(
                code % 16,
            )]);
            assert(s.len() >= 6);
            assert(s[0] == '\\' && s[1] == 'u' && s[2] == '0' && s[3] == '0');
            assert(s[4] == hex_digit(code / 16) && s[5] == hex_digit(code % 16));
            lemma_hex_digit_val(code / 16);
            lemma_hex_digit_val(code % 16);
            assert(s[1] != '"' && s[1] != '\\');
            assert(hex_val(s[4]) * 16 + hex_val(s[5]) == code);
            assert(s.skip(6) =~= inner);
            assert(0 <= code < 32);
            lemma_char_code_round(c);
            assert((code as u8) == ((c as u32) as u8));
            assert((((code as u8) as char)) == c);
            assert(seq![(code as u8) as char] + tail =~= content);
        } else {
            assert(escape_char(c) =~= seq![c]);
            assert(s[0] == c);
            assert(c != '"' && c != '\\');
            assert(s.drop_first() =~= inner);
            assert(seq![s[0]] + tail =~= content);
        }
    }
}

proof fn lemma_hex_digit_val(n: int)
    requires
        0 <= n < 16,
    ensures
        is_hex_lower(hex_digit(n)),
        hex_val(hex_digit(n)) == n,
{
}

/// Powers of ten.
pub open spec fn pow10(k: nat) -> int
    decreases k,
{
    if k == 0 {
        1
    } else {
        10 * pow10((k - 1) as nat)
    }
}

proof fn lemma_dec_digit_plain(n: int)
    requires
        0 <= n < 10,
    ensures
        is_dec_digit(hex_digit(n)),
        dec_val(hex_digit(n)) == n,
{
}

proof fn lemma_digits_round(n: int, acc: int, rest: Seq<char>)
    requires
        n >= 0,
    ensures
        parse_digits(dec_digits(n) + rest, acc) == parse_digits(
            rest,
            acc * pow10(dec_digits(n).len() as nat) + n,
        ),
    decreases n,
{
    let s = dec_digits(n) + rest;
    if n < 10 {
        lemma_dec_digit_plain(n);
        assert(dec_digits(n) =~= seq![hex_digit(n)]);
        assert(s[0] == hex_digit(n));
        assert(is_dec_digit(s[0]));
        assert(s.drop_first() =~= rest);
        assert(parse_digits(s, acc) == parse_digits(rest, acc * 10 + n));
        assert(pow10(1) == 10 * pow10(0));
        assert(acc * pow10(1) == acc * 10) by (nonlinear_arith)
            requires pow10(1) == 10;
    } else {
        let hi = n / 10;
        let lo = n % 10;
        let l = dec_digits(hi).len() as nat;
        lemma_dec_digit_plain(lo);
        assert(dec_digits(n) == dec_digits(hi).push(hex_digit(lo)));
        assert(s =~= dec_digits(hi) + (seq![hex_digit(lo)] + rest));
        lemma_digits_round(hi, acc, seq![hex_digit(lo)] + rest);
        let acc2 = acc * pow10(l) + hi;
        assert(parse_digits(s, acc) == parse_digits(seq![hex_digit(lo)] + rest, acc2));
        let s2 = seq![hex_digit(lo)] + rest;
        assert(s2[0] == hex_digit(lo) && is_dec_digit(s2[0]));
        assert(s2.drop_first() =~= rest);
        assert(parse_digits(s2, acc2) == parse_digits(rest, acc2 * 10 + lo));
        assert(dec_digits(n).len() == l + 1);
        assert(pow10((l + 1) as nat) == 10 * pow10(l));
        assert(acc2 * 10 + lo == acc * pow10((l + 1) as nat) + n) by (nonlinear_arith)
            requires
                acc2 == acc * pow10(l) + hi,
                pow10((l + 1) as nat) == 10 * pow10(l),
                hi == n / 10,
                lo == n % 10,
                n >= 10;
    }
}

proof fn lemma_int_round(n: int, rest: Seq<char>)
    requires
        rest.len() == 0 || !is_dec_digit(rest[0]),
    ensures
        parse_int(int_chars(n) + rest) == Some((n, rest)),
{
    let s = int_chars(n) + rest;
    if n < 0 {
        assert(int_chars(n) == seq!['-'] + dec_digits(-n));
        assert(s =~= seq!['-'] + (dec_digits(-n) + rest));
        assert(s[0] == '-');
        lemma_first_digit(-n);
        assert(s[1] == dec_digits(-n)[0]);
        assert(is_dec_digit(s[1]));
        assert(s.drop_first() =~= dec_digits(-n) + rest);
        lemma_digits_round(-n, 0, rest);
        assert(parse_digits(dec_digits(-n) + rest, 0) == parse_digits(
            rest,
            0 * pow10(dec_digits(-n).len() as nat) + (-n),
        ));
        assert(0 * pow10(dec_digits(-n).len() as nat) == 0) by (nonlinear_arith);
        assert(parse_digits(rest, -n) == ((-n), rest));
        assert(parse_int(s) == Some((n, rest)));
    } else {
        lemma_first_digit(n);
        assert(s[0] == dec_digits(n)[0]);
        assert(is_dec_digit(s[0]));
        assert(s[0] != '-');
        lemma_digits_round(n, 0, rest);
        assert(s =~= dec_digits(n) + rest);
        assert(0 * pow10(dec_digits(n).len() as nat) == 0) by (nonlinear_arith);
        assert(parse_digits(rest, n) == (n, rest));
        assert(parse_int(s) == Some((n, rest)));
    }
}

proof fn lemma_first_digit(n: int)
    requires
        n >= 0,
    ensures
        dec_digits(n).len() >= 1,
        is_dec_digit(dec_digits(n)[0]),
    decreases n,
{
    if n < 10 {
        lemma_dec_digit_plain(n);
    } else {
        lemma_first_digit(n / 10);
        assert(dec_digits(n)[0] == dec_digits(n / 10)[0]);
    }
}

proof fn lemma_opt_string_round(o: Option<Seq<char>>, rest: Seq<char>)
    ensures
        parse_opt_string(opt_json(o) + rest) == Some((o, rest)),
{
    reveal(opt_json);
    reveal(jstring_of);
    let s = opt_json(o) + rest;
    match o {
        None => {
            assert(s =~= null_chars() + rest);
            assert(s[0] == 'n');
            lemma_expect_concat(null_chars(), rest);
        },
        Some(content) => {
            assert(opt_json(o) == jstring_of(content));
            assert(s =~= seq!['"'] + (escape_str(content) + seq!['"'] + rest));
            assert(s[0] == '"');
            assert(s[0] != 'n');
            assert(s.drop_first() =~= escape_str(content) + seq!['"'] + rest);
            lemma_jstring_round(content, rest);
        },
    }
}

proof fn lemma_bool_round(b: bool, rest: Seq<char>)
    ensures
        parse_bool(bool_chars(b) + rest) == Some((b, rest)),
{
    let s = bool_chars(b) + rest;
    if b {
        lemma_expect_concat(bool_chars(true), rest);
    } else {
        assert(s[0] == 'f');
        assert(!is_prefix_of(bool_chars(true), s)) by {
            if is_prefix_of(bool_chars(true), s) {
                assert(s.subrange(0, 4)[0] == 't');
            }
        }
        lemma_expect_concat(bool_chars(false), rest);
    }
}

proof fn lemma_event_type_round(t: AuditEventType)
    ensures
        event_type_of_chars(event_type_chars(t)) == Some(t),
{
    let pi = event_type_chars(AuditEventType::PackageInstall);
    let pu = event_type_chars(AuditEventType::PackageUninstall);
    let pd = event_type_chars(AuditEventType::PackageUpdate);
    let ic = event_type_chars(AuditEventType::IntegrityCheck);
    let vs = event_type_chars(AuditEventType::VulnerabilityScan);
    let rp = event_type_chars(AuditEventType::RuntimeProtection);
    let cc = event_type_chars(AuditEventType::ConfigurationChange);
    assert(pi.len() == 14 && pu.len() == 16 && pd.len() == 13 && ic.len() == 14 && vs.len() == 17
        && rp.len() == 17 && cc.len() == 19);
    assert(pi[0] == 'P' && ic[0] == 'I');
    assert(vs[0] == 'V' && rp[0] == 'R');
    match t {
        AuditEventType::PackageInstall => {},
        AuditEventType::PackageUninstall => {},
        AuditEventType::PackageUpdate => {},
        AuditEventType::IntegrityCheck => {
            assert(ic != pi) by {
                if ic == pi {
                    assert(ic[0] == pi[0]);
                }
            }
        },
        AuditEventType::VulnerabilityScan => {},
        AuditEventType::RuntimeProtection => {
            assert(rp != vs) by {
                if rp == vs {
                    assert(rp[0] == vs[0]);
                }
            }
        },
        AuditEventType::ConfigurationChange => {},
    }
}


proof fn lemma_entries_front(d: Seq<(Seq<char>, Seq<char>)>)
    requires
        d.len() >= 2,
    ensures
        details_entries_json(d) == detail_entry_json(d[0]) + seq![','] + details_entries_json(
            d.drop_first(),
        ),
    decreases d.len(),
{
    if d.len() == 2 {
        assert(d.drop_last() =~= seq![d[0]]);
        assert(d.drop_first() =~= seq![d[1]]);
        assert(details_entries_json(seq![d[0]]) == detail_entry_json(seq![d[0]][0]));
        assert(details_entries_json(seq![d[1]]) == detail_entry_json(seq![d[1]][0]));
        assert(details_entries_json(d) =~= detail_entry_json(d[0]) + seq![',']
            + details_entries_json(d.drop_first()));
    } else {
        let ddl = d.drop_last();
        lemma_entries_front(ddl);
        assert(ddl[0] == d[0]);
        let ddf = d.drop_first();
        assert(ddf.drop_last() =~= ddl.drop_first());
        assert(ddf.last() == d.last());
        assert(ddf.len() >= 2);
        assert(details_entries_json(ddf) == details_entries_json(ddf.drop_last()) + seq![',']
            + detail_entry_json(ddf.last()));
        assert(details_entries_json(d) == details_entries_json(ddl) + seq![',']
            + detail_entry_json(d.last()));
        assert(details_entries_json(d) =~= detail_entry_json(d[0]) + seq![',']
            + details_entries_json(ddf));
    }
}

#[verifier::rlimit(100)]
proof fn lemma_detail_entries_round(d: Seq<(Seq<char>, Seq<char>)>, rest: Seq<char>)
    requires
        d.len() >= 1,
    ensures
        parse_detail_entries(details_entries_json(d) + seq!['}'] + rest) == Some((d, rest)),
    decreases d.len(),
{
    reveal(jstring_of);
    let s = details_entries_json(d) + seq!['}'] + rest;
    let k = d[0].0;
    let v = d[0].1;
    if d.len() == 1 {
        assert(details_entries_json(d) == detail_entry_json(d[0]));
        let tail1 = seq![':'] + jstring_of(v) + seq!['}'] + rest;
        assert(s =~= seq!['"'] + (escape_str(k) + seq!['"'] + tail1));
        assert(s[0] == '"');
        assert(s.drop_first() =~= escape_str(k) + seq!['"'] + tail1);
        lemma_jstring_round(k, tail1);
        let r1 = tail1;
        assert(r1[0] == ':' && r1[1] == '"');
        assert(r1.skip(2) =~= escape_str(v) + seq!['"'] + (seq!['}'] + rest));
        lemma_jstring_round(v, seq!['}'] + rest);
        let r2 = seq!['}'] + rest;
        assert(r2[0] == '}' && r2[0] != ',');
        assert(r2.drop_first() =~= rest);
        assert(seq![(k, v)] =~= d);
    } else {
        lemma_entries_front(d);
        let ddf = d.drop_first();
        let u = seq![','] + details_entries_json(ddf) + seq!['}'] + rest;
        let tail1 = seq![':'] + jstring_of(v) + u;
        assert(s =~= seq!['"'] + (escape_str(k) + seq!['"'] + tail1));
        assert(s[0] == '"');
        assert(s.drop_first() =~= escape_str(k) + seq!['"'] + tail1);
        lemma_jstring_round(k, tail1);
        let r1 = tail1;
        assert(r1[0] == ':' && r1[1] == '"');
        assert(r1.skip(2) =~= escape_str(v) + seq!['"'] + u);
        lemma_jstring_round(v, u);
        let r2 = u;
        assert(r2[0] == ',');
        assert(s.len() >= r2.len() + 5);
        assert(r2.len() < s.len());
        assert(r2.drop_first() =~= details_entries_json(ddf) + seq!['}'] + rest);
        lemma_detail_entries_round(ddf, rest);
        assert(seq![(k, v)] + ddf =~= d);
    }
}

proof fn lemma_details_round(d: Seq<(Seq<char>, Seq<char>)>, rest: Seq<char>)
    ensures
        parse_details(details_json(d) + rest) == Some((d, rest)),
{
    reveal(details_json);
    reveal(jstring_of);
    let s = details_json(d) + rest;
    assert(s[0] == '{');
    let t = s.drop_first();
    assert(t =~= details_entries_json(d) + seq!['}'] + rest);
    if d.len() == 0 {
        assert(details_entries_json(d) == Seq::<char>::empty());
        assert(t =~= seq!['}'] + rest);
        assert(t[0] == '}');
        assert(t.drop_first() =~= rest);
        assert(d =~= Seq::<(Seq<char>, Seq<char>)>::empty());
    } else {
        if d.len() == 1 {
            assert(details_entries_json(d) == detail_entry_json(d[0]));
        } else {
            lemma_entries_front(d);
        }
        assert(details_entries_json(d)[0] == '"');
        assert(t[0] == '"');
        assert(t[0] != '}');
        lemma_detail_entries_round(d, rest);
    }
}

/// The exported characters that remain before the `user` key.
pub open spec fn suffix_user(m: EventView, rest: Seq<char>) -> Seq<char> {
    (seq![','] + key_user()) + (opt_json(m.user) + suffix_ip(m, rest))
}

/// The exported characters that remain before the `ip_address` key.
pub open spec fn suffix_ip(m: EventView, rest: Seq<char>) -> Seq<char> {
    (seq![','] + key_ip_address()) + (opt_json(m.ip_address) + suffix_details(m, rest))
}

/// The exported characters that remain before the `details` key.
pub open spec fn suffix_details(m: EventView, rest: Seq<char>) -> Seq<char> {
    (seq![','] + key_details()) + (details_json(m.details) + suffix_success(m, rest))
}

/// The exported characters that remain before the `success` key.
pub open spec fn suffix_success(m: EventView, rest: Seq<char>) -> Seq<char> {
    (seq![','] + key_success()) + (bool_chars(m.success) + suffix_error(m, rest))
}

/// The exported characters that remain before the `error_message` key.
pub open spec fn suffix_error(m: EventView, rest: Seq<char>) -> Seq<char> {
    (seq![','] + key_error_message()) + (opt_json(m.error_message) + (seq!['}'] + rest))
}

/// The exported characters that remain before the `package_name` key.
pub open spec fn suffix_package(m: EventView, rest: Seq<char>) -> Seq<char> {
    (seq![','] + key_package_name()) + (opt_json(m.package_name) + ((seq![',']
        + key_package_version()) + (opt_json(m.package_version) + suffix_user(m, rest))))
}

proof fn lemma_event_tail_round(m: EventView, rest: Seq<char>)
    ensures
        parse_event_tail(
            m.id,
            m.timestamp,
            m.event_type,
            m.package_name,
            m.package_version,
            suffix_user(m, rest),
        ) == Some((m, rest)),
{
    lemma_expect_concat(seq![','] + key_user(), opt_json(m.user) + suffix_ip(m, rest));
    lemma_opt_string_round(m.user, suffix_ip(m, rest));
    lemma_expect_concat(seq![','] + key_ip_address(), opt_json(m.ip_address) + suffix_details(
        m,
        rest,
    ));
    lemma_opt_string_round(m.ip_address, suffix_details(m, rest));
    lemma_expect_concat(seq![','] + key_details(), details_json(m.details) + suffix_success(
        m,
        rest,
    ));
    lemma_details_round(m.details, suffix_success(m, rest));
    lemma_expect_concat(seq![','] + key_success(), bool_chars(m.success) + suffix_error(m, rest));
    lemma_bool_round(m.success, suffix_error(m, rest));
    lemma_expect_concat(seq![','] + key_error_message(), opt_json(m.error_message) + (seq!['}']
        + rest));
    lemma_opt_string_round(m.error_message, seq!['}'] + rest);
    lemma_expect_concat(seq!['}'], rest);
}

proof fn lemma_event_mid_round(m: EventView, rest: Seq<char>)
    ensures
        parse_event_mid(m.id, m.timestamp, m.event_type, suffix_package(m, rest))
            == parse_event_tail(
            m.id,
            m.timestamp,
            m.event_type,
            m.package_name,
            m.package_version,
            suffix_user(m, rest),
        ),
{
    lemma_expect_concat(seq![','] + key_package_name(), opt_json(m.package_name) + ((seq![',']
        + key_package_version()) + (opt_json(m.package_version) + suffix_user(m, rest))));
    lemma_opt_string_round(m.package_name, (seq![','] + key_package_version()) + (opt_json(
        m.package_version,
    ) + suffix_user(m, rest)));
    lemma_expect_concat(seq![','] + key_package_version(), opt_json(m.package_version)
        + suffix_user(m, rest));
    lemma_opt_string_round(m.package_version, suffix_user(m, rest));
}

proof fn assoc3<T>(a: Seq<T>, b: Seq<T>, c: Seq<T>)
    ensures
        (a + b) + c == a + (b + c),
{
    assert((a + b) + c =~= a + (b + c));
}

#[verifier::rlimit(100)]
proof fn lemma_event_flatten(m: EventView, rest: Seq<char>)
    ensures
        event_json(m) + rest == (seq!['{'] + key_id() + seq!['\"']) + ((escape_str(m.id)
            + seq!['\"']) + ((seq![','] + key_timestamp()) + (int_chars(m.timestamp) + ((seq![',']
            + key_event_type() + seq!['\"']) + ((escape_str(event_type_chars(m.event_type))
            + seq!['\"']) + suffix_package(m, rest)))))),
{
    reveal(event_json);
    let tc = event_type_chars(m.event_type);
    let quote = seq!['"'];
    let b_open = seq!['{'];
    let k_id = key_id();
    let v_id = jstring_of(m.id);
    let c1 = seq![','];
    let k_ts = key_timestamp();
    let v_ts = int_chars(m.timestamp);
    let c2 = seq![','];
    let k_ty = key_event_type();
    let v_ty = jstring_of(tc);
    let c3 = seq![','];
    let k_pn = key_package_name();
    let v_pn = opt_json(m.package_name);
    let c4 = seq![','];
    let k_pv = key_package_version();
    let v_pv = opt_json(m.package_version);
    let c5 = seq![','];
    let k_us = key_user();
    let v_us = opt_json(m.user);
    let c6 = seq![','];
    let k_ip = key_ip_address();
    let v_ip = opt_json(m.ip_address);
    let c7 = seq![','];
    let k_de = key_details();
    let v_de = details_json(m.details);
    let c8 = seq![','];
    let k_su = key_success();
    let v_su = bool_chars(m.success);
    let c9 = seq![','];
    let k_er = key_error_message();
    let v_er = opt_json(m.error_message);
    let b_close = seq!['}'];
    let p1 = b_open;
    let p2 = p1 + k_id;
    let p3 = p2 + v_id;
    let p4 = p3 + c1;
    let p5 = p4 + k_ts;
    let p6 = p5 + v_ts;
    let p7 = p6 + c2;
    let p8 = p7 + k_ty;
    let p9 = p8 + v_ty;
    let p10 = p9 + c3;
    let p11 = p10 + k_pn;
    let p12 = p11 + v_pn;
    let p13 = p12 + c4;
    let p14 = p13 + k_pv;
    let p15 = p14 + v_pv;
    let p16 = p15 + c5;
    let p17 = p16 + k_us;
    let p18 = p17 + v_us;
    let p19 = p18 + c6;
    let p20 = p19 + k_ip;
    let p21 = p20 + v_ip;
    let p22 = p21 + c7;
    let p23 = p22 + k_de;
    let p24 = p23 + v_de;
    let p25 = p24 + c8;
    let p26 = p25 + k_su;
    let p27 = p26 + v_su;
    let p28 = p27 + c9;
    let p29 = p28 + k_er;
    let p30 = p29 + v_er;
    let p31 = p30 + b_close;
    let s31 = b_close + rest;
    let s30 = v_er + s31;
    let s29 = k_er + s30;
    let s28 = c9 + s29;
    let s27 = v_su + s28;
    let s26 = k_su + s27;
    let s25 = c8 + s26;
    let s24 = v_de + s25;
    let s23 = k_de + s24;
    let s22 = c7 + s23;
    let s21 = v_ip + s22;
    let s20 = k_ip + s21;
    let s19 = c6 + s20;
    let s18 = v_us + s19;
    let s17 = k_us + s18;
    let s16 = c5 + s17;
    let s15 = v_pv + s16;
    let s14 = k_pv + s15;
    let s13 = c4 + s14;
    let s12 = v_pn + s13;
    let s11 = k_pn + s12;
    let s10 = c3 + s11;
    let s9 = v_ty + s10;
    let s8 = k_ty + s9;
    let s7 = c2 + s8;
    let s6 = v_ts + s7;
    let s5 = k_ts + s6;
    let s4 = c1 + s5;
    let s3 = v_id + s4;
    let s2 = k_id + s3;
    let s1 = b_open + s2;
    assert(event_json(m) == p31);
    assoc3(p30, b_close, rest);
    assoc3(p29, v_er, s31);
    assoc3(p28, k_er, s30);
    assoc3(p27, c9, s29);
    assoc3(p26, v_su, s28);
    assoc3(p25, k_su, s27);
    assoc3(p24, c8, s26);
    assoc3(p23, v_de, s25);
    assoc3(p22, k_de, s24);
    assoc3(p21, c7, s23);
    assoc3(p20, v_ip, s22);
    assoc3(p19, k_ip, s21);
    assoc3(p18, c6, s20);
    assoc3(p17, v_us, s19);
    assoc3(p16, k_us, s18);
    assoc3(p15, c5, s17);
    assoc3(p14, v_pv, s16);
    assoc3(p13, k_pv, s15);
    assoc3(p12, c4, s14);
    assoc3(p11, v_pn, s13);
    assoc3(p10, k_pn, s12);
    assoc3(p9, c3, s11);
    assoc3(p8, v_ty, s10);
    assoc3(p7, k_ty, s9);
    assoc3(p6, c2, s8);
    assoc3(p5, v_ts, s7);
    assoc3(p4, k_ts, s6);
    assoc3(p3, c1, s5);
    assoc3(p2, v_id, s4);
    assoc3(p1, k_id, s3);
    assert(event_json(m) + rest == s1);
    assert(v_id == (quote + escape_str(m.id)) + quote) by {
        reveal(jstring_of);
    }
    assert(v_ty == (quote + escape_str(tc)) + quote) by {
        reveal(jstring_of);
    }
    assoc3(quote + escape_str(m.id), quote, s4);
    assoc3(quote, escape_str(m.id), quote + s4);
    assoc3(quote + escape_str(tc), quote, s10);
    assoc3(quote, escape_str(tc), quote + s10);
    assoc3(k_id, quote, escape_str(m.id) + (quote + s4));
    assoc3(b_open, k_id + quote, escape_str(m.id) + (quote + s4));
    assoc3(b_open, k_id, quote);
    assoc3(escape_str(m.id), quote, s4);
    assoc3(c1, k_ts, s6);
    assoc3(k_ty, quote, escape_str(tc) + (quote + s10));
    assoc3(c2, k_ty + quote, escape_str(tc) + (quote + s10));
    assoc3(c2, k_ty, quote);
    assoc3(escape_str(tc), quote, s10);
    assoc3(c3, k_pn, s12);
    assoc3(c4, k_pv, s15);
    assoc3(c5, k_us, s18);
    assoc3(c6, k_ip, s21);
    assoc3(c7, k_de, s24);
    assoc3(c8, k_su, s27);
    assoc3(c9, k_er, s30);
    assert(event_json(m) + rest == (b_open + k_id + quote) + ((escape_str(m.id) + quote)
        + ((c1 + k_ts) + (v_ts + ((c2 + k_ty + quote) + ((escape_str(tc) + quote)
        + suffix_package(m, rest)))))));
}

#[verifier::rlimit(100)]
proof fn lemma_event_first_round(m: EventView, rest: Seq<char>)
    ensures
        parse_event(event_json(m) + rest) == parse_event_mid(
            m.id,
            m.timestamp,
            m.event_type,
            suffix_package(m, rest),
        ),
{
    let tc = event_type_chars(m.event_type);
    let u3a = suffix_package(m, rest);
    let u2 = (seq![','] + key_event_type() + seq!['"']) + ((escape_str(tc) + seq!['"']) + u3a);
    let u1 = (seq![','] + key_timestamp()) + (int_chars(m.timestamp) + u2);
    let s0 = event_json(m) + rest;
    lemma_event_flatten(m, rest);
    assert(s0 == (seq!['{'] + key_id() + seq!['"']) + ((escape_str(m.id) + seq!['"']) + u1));
    lemma_expect_concat(seq!['{'] + key_id() + seq!['"'], (escape_str(m.id) + seq!['"']) + u1);
    lemma_jstring_round(m.id, u1);
    lemma_expect_concat(seq![','] + key_timestamp(), int_chars(m.timestamp) + u2);
    assert(u2[0] == ',');
    assert(!is_dec_digit(u2[0]));
    lemma_int_round(m.timestamp, u2);
    lemma_expect_concat(seq![','] + key_event_type() + seq!['"'], (escape_str(tc) + seq!['"'])
        + u3a);
    lemma_jstring_round(tc, u3a);
    lemma_event_type_round(m.event_type);
}

proof fn lemma_event_round(m: EventView, rest: Seq<char>)
    ensures
        parse_event(event_json(m) + rest) == Some((m, rest)),
{
    lemma_event_first_round(m, rest);
    lemma_event_mid_round(m, rest);
    lemma_event_tail_round(m, rest);
}

#[verifier::rlimit(100)]
proof fn lemma_array_body_front(ms: Seq<EventView>)
    requires
        ms.len() >= 2,
    ensures
        events_array_body(ms) == event_json(ms[0]) + seq![',', '\n', ' ', ' ']
            + events_array_body(ms.drop_first()),
    decreases ms.len(),
{
    if ms.len() == 2 {
        assert(ms.drop_last() =~= seq![ms[0]]);
        assert(ms.drop_first() =~= seq![ms[1]]);
        assert(events_array_body(seq![ms[0]]) == event_json(seq![ms[0]][0]));
        assert(events_array_body(seq![ms[1]]) == event_json(seq![ms[1]][0]));
        assert(events_array_body(ms) =~= event_json(ms[0]) + seq![',', '\n', ' ', ' ']
            + events_array_body(ms.drop_first()));
    } else {
        let mdl = ms.drop_last();
        lemma_array_body_front(mdl);
        let mdf = ms.drop_first();
        assert(mdf.drop_last() =~= mdl.drop_first());
        assert(mdf.last() == ms.last());
        assert(mdf.len() >= 2);
        assert(events_array_body(mdf) == events_array_body(mdf.drop_last()) + seq![',', '\n', ' ',
            ' '] + event_json(mdf.last()));
        assert(events_array_body(ms) == events_array_body(mdl) + seq![',', '\n', ' ', ' ']
            + event_json(ms.last()));
        assert(events_array_body(ms) =~= event_json(ms[0]) + seq![',', '\n', ' ', ' ']
            + events_array_body(mdf));
    }
}

proof fn lemma_event_json_len(m: EventView)
    ensures
        event_json(m).len() >= 2,
        event_json(m)[0] == '{',
{
    reveal(event_json);
}

#[verifier::rlimit(100)]
proof fn lemma_events_body_round(ms: Seq<EventView>, rest: Seq<char>)
    requires
        ms.len() >= 1,
        rest.len() == 0 || rest[0] != ',',
    ensures
        parse_events_body(events_array_body(ms) + seq!['\n', ']'] + rest) == Some((ms, rest)),
    decreases ms.len(),
{
    let ej = event_json(ms[0]);
    let sep = seq![',', '\n', ' ', ' '];
    let tail = seq!['\n', ']'];
    let s0 = events_array_body(ms) + tail + rest;
    lemma_event_json_len(ms[0]);
    if ms.len() == 1 {
        assert(events_array_body(ms) == ej);
        assoc3(ej, tail, rest);
        lemma_event_round(ms[0], tail + rest);
        let r1 = tail + rest;
        assert(r1[0] == '\n');
        assert(!is_prefix_of(sep, r1)) by {
            if is_prefix_of(sep, r1) {
                assert(r1.subrange(0, 4)[0] == ',');
            }
        }
        lemma_expect_concat(tail, rest);
        assert(seq![ms[0]] =~= ms);
    } else {
        lemma_array_body_front(ms);
        let mdf = ms.drop_first();
        let body = events_array_body(mdf);
        assert(events_array_body(ms) == (ej + sep) + body);
        assoc3((ej + sep) + body, tail, rest);
        assoc3(ej + sep, body, tail + rest);
        assoc3(ej, sep, body + (tail + rest));
        let r1 = sep + (body + (tail + rest));
        assert(s0 == ej + r1);
        lemma_event_round(ms[0], r1);
        lemma_expect_concat(sep, body + (tail + rest));
        assert(is_prefix_of(sep, r1));
        assert(r1.skip(4) == body + (tail + rest));
        assoc3(body, tail, rest);
        assert(r1.skip(4).len() < s0.len());
        lemma_events_body_round(mdf, rest);
        assert(seq![ms[0]] + mdf =~= ms);
    }
}

/// Export fidelity: parsing an exported trail with the canonical parser
/// yields exactly the exported events — every field of every record — in
/// the same order.
#[verifier::rlimit(100)]
pub proof fn lemma_export_round_trip(ms: Seq<EventView>)
    ensures
        parse_events(json_export(ms)) == Some(ms),
{
    if ms.len() == 0 {
        assert(json_export(ms) == seq!['[', ']']);
        assert(ms =~= Seq::<EventView>::empty());
    } else {
        let s = json_export(ms);
        lemma_event_json_len(ms[0]);
        if ms.len() == 1 {
            assert(events_array_body(ms) == event_json(ms[0]));
            assert(events_array_body(ms).len() >= 2);
        } else {
            lemma_array_body_front(ms);
            assert(events_array_body(ms).len() >= 2);
        }
        assert(s.len() >= 8);
        assert(s != seq!['[', ']']) by {
            if s == seq!['[', ']'] {
                assert(s.len() == 2);
            }
        }
        assert(s =~= (seq!['[', '\n', ' ', ' ']) + (events_array_body(ms) + seq!['\n', ']']
            + Seq::<char>::empty()));
        lemma_expect_concat(seq!['[', '\n', ' ', ' '], events_array_body(ms) + seq!['\n', ']']
            + Seq::<char>::empty());
        lemma_events_body_round(ms, Seq::<char>::empty());
    }
}

} // verus!
