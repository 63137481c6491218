//! Audit trail: an append-only, queryable log of security events.
//!
//! Events are immutable once appended and keep insertion order.  The trail
//! itself only ever grows within a process lifetime; a durable sink, when
//! configured, receives one serialized line per event, produced here and
//! written by the caller at the I/O edge.

use vstd::prelude::*;
use crate::performance::now_millis;
use crate::text::string_from_chars;

verus! {

/// Kinds of audit events.
#[derive(Debug, Clone, Copy, PartialEq, Eq, Structural)]
pub enum AuditEventType {
    /// A package was installed
    PackageInstall,
    /// A package was removed
    PackageUninstall,
    /// A package was updated
    PackageUpdate,
    /// An artifact digest was verified
    IntegrityCheck,
    /// A vulnerability database was queried
    VulnerabilityScan,
    /// A lifecycle script ran under runtime protection
    RuntimeProtection,
    /// The configuration was changed
    ConfigurationChange,
}

/// Audit event record: immutable once appended to a trail.
#[derive(Debug)]
pub struct AuditEvent {
    /// Unique identifier of this event
    pub id: String,
    /// Creation time, in milliseconds since the epoch
    pub timestamp: i64,
    /// What kind of action this event records
    pub event_type: AuditEventType,
    /// The package concerned, if any
    pub package_name: Option<String>,
    /// The package version concerned, if any
    pub package_version: Option<String>,
    /// The acting user, if known
    pub user: Option<String>,
    /// The actor's source IP address, if known
    pub ip_address: Option<String>,
    /// Free-form key/value details: a mapping, with at most one entry per
    /// key when built through `with_detail`
    pub details: Vec<(String, String)>,
    /// Whether the recorded action succeeded
    pub success: bool,
    /// The error text of a failed action
    pub error_message: Option<String>,
}

/// The mathematical model of an audit event: every field as a plain value.
pub ghost struct EventView {
    /// View of the id
    pub id: Seq<char>,
    /// The timestamp
    pub timestamp: int,
    /// The event kind
    pub event_type: AuditEventType,
    /// View of the package name
    pub package_name: Option<Seq<char>>,
    /// View of the package version
    pub package_version: Option<Seq<char>>,
    /// View of the user
    pub user: Option<Seq<char>>,
    /// View of the IP address
    pub ip_address: Option<Seq<char>>,
    /// Views of the detail entries
    pub details: Seq<(Seq<char>, Seq<char>)>,
    /// The success flag
    pub success: bool,
    /// View of the error message
    pub error_message: Option<Seq<char>>,
}

/// The view of an optional string.
pub open spec fn opt_view(s: Option<String>) -> Option<Seq<char>> {
    match s {
        Some(v) => Some(v@),
        None => None,
    }
}

impl View for AuditEvent {
    type V = EventView;

    open spec fn view(&self) -> EventView {
        EventView {
            id: self.id@,
            timestamp: self.timestamp as int,
            event_type: self.event_type,
            package_name: opt_view(self.package_name),
            package_version: opt_view(self.package_version),
            user: opt_view(self.user),
            ip_address: opt_view(self.ip_address),
            details: self.details@.map_values(|kv: (String, String)| (kv.0@, kv.1@)),
            success: self.success,
            error_message: opt_view(self.error_message),
        }
    }
}

/// Relies on `uuid::Uuid::new_v4` and its `Display` impl: a random
/// version-4 UUID in hyphenated form is always 36 characters long.  The
/// value itself is random and nothing more is promised of it.
#[verifier::external_body]
fn fresh_event_id() -> (r: String)
    ensures
        r@.len() == 36,
{
    uuid::Uuid::new_v4().to_string()
}

/// The detail entries with the entry for `key` replaced by `value`, or
/// appended when no entry holds the key — a map insert over an association
/// list.
pub open spec fn upsert_detail(
    details: Seq<(String, String)>,
    key: String,
    value: String,
) -> Seq<(String, String)>
    decreases details.len(),
{
    if details.len() == 0 {
        seq![(key, value)]
    } else if details[0].0@ == key@ {
        seq![(key, value)] + details.drop_first()
    } else {
        seq![details[0]] + upsert_detail(details.drop_first(), key, value)
    }
}

proof fn lemma_upsert_at(details: Seq<(String, String)>, key: String, value: String, i: int)
    requires
        0 <= i < details.len(),
        details[i].0@ == key@,
        forall|j: int| 0 <= j < i ==> #[trigger] details[j].0@ != key@,
    ensures
        upsert_detail(details, key, value) == details.update(i, (key, value)),
    decreases i,
{
    if i == 0 {
        assert(upsert_detail(details, key, value) =~= details.update(0, (key, value)));
    } else {
        assert(details[0].0@ != key@);
        lemma_upsert_at(details.drop_first(), key, value, i - 1);
        assert(upsert_detail(details, key, value) =~= details.update(i, (key, value)));
    }
}

proof fn lemma_upsert_absent(details: Seq<(String, String)>, key: String, value: String)
    requires
        forall|j: int| 0 <= j < details.len() ==> #[trigger] details[j].0@ != key@,
    ensures
        upsert_detail(details, key, value) == details.push((key, value)),
    decreases details.len(),
{
    if details.len() == 0 {
        assert(upsert_detail(details, key, value) =~= details.push((key, value)));
    } else {
        lemma_upsert_absent(details.drop_first(), key, value);
        assert(upsert_detail(details, key, value) =~= details.push((key, value)));
    }
}

/// The value of the most recent detail entry for a key, if any.
pub open spec fn detail_value(details: Seq<(String, String)>, key: Seq<char>) -> Option<Seq<char>>
    decreases details.len(),
{
    if details.len() == 0 {
        None
    } else if details.last().0@ == key {
        Some(details.last().1@)
    } else {
        detail_value(details.drop_last(), key)
    }
}

impl AuditEvent {
    /// Create a new audit event of the given kind: fresh id, current
    /// timestamp, no package, no actor, no details, successful.
    pub fn new(event_type: AuditEventType) -> (e: Self)
        ensures
            e.event_type == event_type,
            e.id@.len() == 36,
            e.package_name is None,
            e.package_version is None,
            e.user is None,
            e.ip_address is None,
            e.details@.len() == 0,
            e.success,
            e.error_message is None,
    {
        AuditEvent {
            id: fresh_event_id(),
            timestamp: now_millis(),
            event_type,
            package_name: None,
            package_version: None,
            user: None,
            ip_address: None,
            details: Vec::new(),
            success: true,
            error_message: None,
        }
    }

    /// Set the package name for this event.
    pub fn with_package_name(self, name: String) -> (e: Self)
        ensures
            e == (Self { package_name: Some(name), ..self }),
    {
        Self { package_name: Some(name), ..self }
    }

    /// Set the package version for this event.
    pub fn with_package_version(self, version: String) -> (e: Self)
        ensures
            e == (Self { package_version: Some(version), ..self }),
    {
        Self { package_version: Some(version), ..self }
    }

    /// Set the user for this event.
    pub fn with_user(self, user: String) -> (e: Self)
        ensures
            e == (Self { user: Some(user), ..self }),
    {
        Self { user: Some(user), ..self }
    }

    /// Set the IP address for this event.
    pub fn with_ip_address(self, ip: String) -> (e: Self)
        ensures
            e == (Self { ip_address: Some(ip), ..self }),
    {
        Self { ip_address: Some(ip), ..self }
    }

    /// Add a detail to this event.  An entry for an existing key replaces
    /// that entry in place; a new key is appended — the details behave as a
    /// mapping.
    pub fn with_detail(self, key: String, value: String) -> (e: Self)
        ensures
            e.details@ == upsert_detail(self.details@, key, value),
            e.id == self.id,
            e.timestamp == self.timestamp,
            e.event_type == self.event_type,
            e.package_name == self.package_name,
            e.package_version == self.package_version,
            e.user == self.user,
            e.ip_address == self.ip_address,
            e.success == self.success,
            e.error_message == self.error_message,
    {
        let mut details = self.details;
        let n = details.len();
        let mut i: usize = 0;
        while i < n
            invariant
                details@ == self.details@,
                n == details@.len(),
                0 <= i <= n,
                forall|j: int| 0 <= j < i ==> #[trigger] details@[j].0@ != key@,
            decreases n - i,
        {
            if crate::text::string_eq_str(&details[i].0, key.as_str()) {
                proof {
                    lemma_upsert_at(details@, key, value, i as int);
                }
                details.set(i, (key.clone(), value.clone()));
                return Self { details, ..self };
            }
            i = i + 1;
        }
        proof {
            lemma_upsert_absent(details@, key, value);
        }
        details.push((key, value));
        Self { details, ..self }
    }

    /// Mark this event as failed with an error message.
    pub fn with_error(self, error: String) -> (e: Self)
        ensures
            e == (Self { success: false, error_message: Some(error), ..self }),
    {
        Self { success: false, error_message: Some(error), ..self }
    }

    /// Look up the value recorded for a detail key: the most recent entry
    /// wins, as in a map insert.
    pub fn detail(&self, key: &str) -> (r: Option<&String>)
        ensures
            match r {
                Some(v) => detail_value(self.details@, key@) == Some(v@),
                None => detail_value(self.details@, key@) is None,
            },
    {
        let n = self.details.len();
        proof {
            assert(self.details@.take(n as int) =~= self.details@);
        }
        let mut i: usize = n;
        while i > 0
            invariant
                0 <= i <= n,
                n == self.details@.len(),
                detail_value(self.details@, key@) == detail_value(
                    self.details@.take(i as int),
                    key@,
                ),
            decreases i,
        {
            proof {
                assert(self.details@.take(i as int).drop_last() =~= self.details@.take(i - 1));
                assert(self.details@.take(i as int).last() == self.details@[i - 1]);
            }
            if crate::text::string_eq_str(&self.details[i - 1].0, key) {
                return Some(&self.details[i - 1].1);
            }
            i = i - 1;
        }
        proof {
            assert(self.details@.take(0) =~= Seq::<(String, String)>::empty());
        }
        None
    }
}

/// Duplicate an event, field for field: the copy has the same view.
pub fn clone_event(e: &AuditEvent) -> (r: AuditEvent)
    ensures
        r@ == e@,
{
    let mut details: Vec<(String, String)> = Vec::new();
    let n = e.details.len();
    let mut i: usize = 0;
    while i < n
        invariant
            0 <= i <= n,
            n == e.details@.len(),
            details@ == e.details@.take(i as int),
        decreases n - i,
    {
        details.push((e.details[i].0.clone(), e.details[i].1.clone()));
        proof {
            assert(details@ =~= e.details@.take(i + 1));
        }
        i = i + 1;
    }
    proof {
        assert(e.details@.take(n as int) =~= e.details@);
    }
    let r = AuditEvent {
        id: e.id.clone(),
        timestamp: e.timestamp,
        event_type: e.event_type,
        package_name: clone_opt_string(&e.package_name),
        package_version: clone_opt_string(&e.package_version),
        user: clone_opt_string(&e.user),
        ip_address: clone_opt_string(&e.ip_address),
        details,
        success: e.success,
        error_message: clone_opt_string(&e.error_message),
    };
    proof {
        assert(r@.details =~= e@.details);
    }
    r
}

fn clone_opt_string(s: &Option<String>) -> (r: Option<String>)
    ensures
        r == *s,
{
    match s {
        Some(v) => Some(v.clone()),
        None => None,
    }
}

/// Error taxonomy of trail persistence: appending to the in-memory log
/// cannot fail, only the durable sink can.
#[derive(Debug)]
pub enum AuditError {
    /// The durable sink could not be written
    IoFailure(String),
}

/// The events whose package name is exactly `name`, in insertion order.
pub open spec fn events_with_package(events: Seq<AuditEvent>, name: Seq<char>) -> Seq<AuditEvent>
    decreases events.len(),
{
    if events.len() == 0 {
        Seq::empty()
    } else {
        let rest = events_with_package(events.drop_last(), name);
        if event_has_package(events.last(), name) {
            rest.push(events.last())
        } else {
            rest
        }
    }
}

/// The event names this package.
pub open spec fn event_has_package(e: AuditEvent, name: Seq<char>) -> bool {
    match e.package_name {
        Some(n) => n@ == name,
        None => false,
    }
}

/// Audit trail manager: an in-memory ordered log, optionally mirrored to a
/// durable sink by the caller.
#[derive(Debug)]
pub struct AuditTrail {
    events: Vec<AuditEvent>,
    output_file: Option<String>,
}

impl AuditTrail {
    /// The logged events, in insertion order, for contracts.
    pub closed spec fn spec_events(&self) -> Seq<AuditEvent> {
        self.events@
    }

    /// The configured sink path, for contracts.
    pub closed spec fn spec_output_file(&self) -> Option<String> {
        self.output_file
    }

    /// Create a new audit trail with no durable sink.
    pub fn new() -> (t: Self)
        ensures
            t.spec_events().len() == 0,
            t.spec_output_file() is None,
    {
        AuditTrail { events: Vec::new(), output_file: None }
    }

    /// Create a new audit trail that should be mirrored to the given file.
    pub fn with_output_file(output_file: String) -> (t: Self)
        ensures
            t.spec_events().len() == 0,
            t.spec_output_file() == Some(output_file),
    {
        AuditTrail { events: Vec::new(), output_file: Some(output_file) }
    }

    /// The configured sink path, if any.
    pub fn output_file(&self) -> (r: &Option<String>)
        ensures
            *r == self.spec_output_file(),
    {
        &self.output_file
    }

    /// Append an event to the in-memory trail.  The in-memory append never
    /// fails and never reorders: the new log is the old log plus the event.
    /// Mirroring to the durable sink is the caller's I/O; a sink failure
    /// must not roll this append back.
    pub fn add_event(&mut self, event: AuditEvent) -> (r: Result<(), AuditError>)
        ensures
            r is Ok,
            final(self).spec_events() == old(self).spec_events().push(event),
            final(self).spec_output_file() == old(self).spec_output_file(),
    {
        self.events.push(event);
        Ok(())
    }

    /// All events in the audit trail, in insertion order.
    pub fn events(&self) -> (r: &Vec<AuditEvent>)
        ensures
            r@ == self.spec_events(),
    {
        &self.events
    }

    /// The events for one package, preserving their relative order.
    pub fn events_for_package(&self, package_name: &str) -> (r: Vec<&AuditEvent>)
        ensures
            r@.map_values(|e: &AuditEvent| *e) == events_with_package(
                self.spec_events(),
                package_name@,
            ),
    {
        let n = self.events.len();
        let mut r: Vec<&AuditEvent> = Vec::new();
        proof {
            assert(self.spec_events().take(0) =~= Seq::<AuditEvent>::empty());
            assert(r@.map_values(|e: &AuditEvent| *e) =~= events_with_package(
                self.spec_events().take(0),
                package_name@,
            ));
        }
        let mut i: usize = 0;
        while i < n
            invariant
                0 <= i <= n,
                n == self.spec_events().len(),
                r@.map_values(|e: &AuditEvent| *e) == events_with_package(
                    self.spec_events().take(i as int),
                    package_name@,
                ),
            decreases n - i,
        {
            proof {
                assert(self.spec_events().take(i + 1).drop_last() =~= self.spec_events().take(
                    i as int,
                ));
                assert(self.spec_events().take(i + 1).last() == self.spec_events()[i as int]);
            }
            let matches: bool = match &self.events[i].package_name {
                Some(name) => crate::text::string_eq_str(name, package_name),
                None => false,
            };
            if matches {
                r.push(&self.events[i]);
            }
            proof {
                assert(r@.map_values(|e: &AuditEvent| *e) =~= events_with_package(
                    self.spec_events().take(i + 1),
                    package_name@,
                ));
            }
            i = i + 1;
        }
        proof {
            assert(self.spec_events().take(n as int) =~= self.spec_events());
        }
        r
    }
}

impl Default for AuditTrail {
    /// Same as `AuditTrail::new`.
    fn default() -> (t: Self)
        ensures
            t.spec_events().len() == 0,
            t.spec_output_file() is None,
    {
        AuditTrail::new()
    }
}

/// Audit ordering: appending events keeps insertion order — each append
/// extends the log by exactly its event — and the per-package view keeps
/// the relative order of the events it selects.
pub proof fn lemma_audit_ordering(
    events: Seq<AuditEvent>,
    e1: AuditEvent,
    e2: AuditEvent,
    e3: AuditEvent,
    name: Seq<char>,
)
    ensures
        events.push(e1).push(e2).push(e3) == events + seq![e1, e2, e3],
        event_has_package(e1, name) && event_has_package(e2, name) ==> events_with_package(
            events.push(e1).push(e2),
            name,
        ) == events_with_package(events, name).push(e1).push(e2),
{
    assert(events.push(e1).push(e2).push(e3) =~= events + seq![e1, e2, e3]);
    if event_has_package(e1, name) && event_has_package(e2, name) {
        assert(events.push(e1).push(e2).drop_last() =~= events.push(e1));
        assert(events.push(e1).drop_last() =~= events);
        assert(events_with_package(events.push(e1), name) == events_with_package(
            events,
            name,
        ).push(e1));
        assert(events_with_package(events.push(e1).push(e2), name) == events_with_package(
            events,
            name,
        ).push(e1).push(e2));
    }
}


// ---------------------------------------------------------------------------
// Exports
// ---------------------------------------------------------------------------

/// The views of a sequence of events.
pub open spec fn views_of_events(events: Seq<AuditEvent>) -> Seq<EventView> {
    events.map_values(|e: AuditEvent| e@)
}

/// The RFC 3339 rendering of a timestamp in milliseconds since the epoch,
/// named but not written out: the trusted wrapper below ties it to the
/// calendar crate.
pub uninterp spec fn rfc3339_of(ms: int) -> Seq<char>;

/// Relies on `chrono::DateTime::from_timestamp_millis` and
/// `DateTime::to_rfc3339`: the RFC 3339 text of a UTC timestamp is a pure
/// function of the millisecond value (out-of-range values give an empty
/// string).
#[verifier::external_body]
fn format_rfc3339(ms: i64) -> (r: String)
    ensures
        r@ == rfc3339_of(ms as int),
{
    match chrono::DateTime::<chrono::Utc>::from_timestamp_millis(ms) {
        Some(dt) => dt.to_rfc3339(),
        None => String::new(),
    }
}

/// The view of an optional string, with `None` as the empty string.
pub open spec fn opt_or_empty(o: Option<Seq<char>>) -> Seq<char> {
    match o {
        Some(s) => s,
        None => Seq::empty(),
    }
}

/// The header row of a CSV export.
pub open spec fn csv_header(i: int) -> Seq<char> {
    if i == 0 { "ID"@ } else if i == 1 { "Timestamp"@ } else if i == 2 { "EventType"@ }
    else if i == 3 { "PackageName"@ } else if i == 4 { "PackageVersion"@ }
    else if i == 5 { "User"@ } else if i == 6 { "IPAddress"@ } else if i == 7 { "Success"@ }
    else if i == 8 { "ErrorMessage"@ } else { "Details"@ }
}

/// Column `i` of the CSV row for one event: id, RFC 3339 timestamp, event
/// kind, package name, package version, user, IP address, success flag,
/// error message, details as JSON.
pub open spec fn csv_column(m: EventView, i: int) -> Seq<char> {
    if i == 0 { m.id } else if i == 1 { rfc3339_of(m.timestamp) }
    else if i == 2 { crate::json::event_type_chars(m.event_type) }
    else if i == 3 { opt_or_empty(m.package_name) } else if i == 4 { opt_or_empty(m.package_version) }
    else if i == 5 { opt_or_empty(m.user) } else if i == 6 { opt_or_empty(m.ip_address) }
    else if i == 7 { crate::json::bool_chars(m.success) }
    else if i == 8 { opt_or_empty(m.error_message) }
    else { crate::json::details_json(m.details) }
}

fn opt_string_or_empty(o: &Option<String>) -> (r: String)
    ensures
        r@ == opt_or_empty(opt_view(*o)),
{
    match o {
        Some(s) => s.clone(),
        None => String::new(),
    }
}

fn csv_row_of_event(e: &AuditEvent) -> (r: Vec<String>)
    ensures
        r@.len() == 10,
        forall|i: int| 0 <= i < 10 ==> #[trigger] r@[i]@ == csv_column(e@, i),
{
    let mut r: Vec<String> = Vec::new();
    r.push(e.id.clone());
    r.push(format_rfc3339(e.timestamp));
    let mut ty: Vec<char> = Vec::new();
    crate::json::push_event_type_name(e.event_type, &mut ty);
    r.push(string_from_chars(&ty));
    r.push(opt_string_or_empty(&e.package_name));
    r.push(opt_string_or_empty(&e.package_version));
    r.push(opt_string_or_empty(&e.user));
    r.push(opt_string_or_empty(&e.ip_address));
    let mut sc: Vec<char> = Vec::new();
    crate::json::push_bool(e.success, &mut sc);
    r.push(string_from_chars(&sc));
    r.push(opt_string_or_empty(&e.error_message));
    let mut dc: Vec<char> = Vec::new();
    crate::json::push_details(&e.details, &mut dc);
    r.push(string_from_chars(&dc));
    r
}

/// Whether a CSV field must be quoted: it contains a comma, a quote or a
/// line break.
pub open spec fn csv_needs_quote(f: Seq<char>) -> bool {
    exists|i: int| 0 <= i < f.len() && (#[trigger] f[i] == ',' || f[i] == '"' || f[i] == '\n'
        || f[i] == '\r')
}

/// A field's quotes doubled, for use inside a quoted field.
pub open spec fn csv_double_quotes(f: Seq<char>) -> Seq<char>
    decreases f.len(),
{
    if f.len() == 0 {
        Seq::empty()
    } else if f[0] == '"' {
        seq!['"', '"'] + csv_double_quotes(f.drop_first())
    } else {
        seq![f[0]] + csv_double_quotes(f.drop_first())
    }
}

/// A CSV field as it appears in the file: quoted with doubled quotes when
/// it holds a separator, quote or line break, bare otherwise.
pub open spec fn csv_field_enc(f: Seq<char>) -> Seq<char> {
    if csv_needs_quote(f) {
        seq!['"'] + csv_double_quotes(f) + seq!['"']
    } else {
        f
    }
}

/// One CSV line for an event: the ten encoded columns joined by commas.
pub open spec fn csv_cells(m: EventView, upto: int) -> Seq<char>
    decreases upto,
{
    if upto <= 1 {
        csv_field_enc(csv_column(m, 0))
    } else {
        csv_cells(m, upto - 1) + seq![','] + csv_field_enc(csv_column(m, upto - 1))
    }
}

/// The header line: the ten column names joined by commas.
pub open spec fn csv_header_cells(upto: int) -> Seq<char>
    decreases upto,
{
    if upto <= 1 {
        csv_field_enc(csv_header(0))
    } else {
        csv_header_cells(upto - 1) + seq![','] + csv_field_enc(csv_header(upto - 1))
    }
}

/// The whole CSV text: a header line and one line per event, each ended by
/// a line feed.
pub open spec fn csv_text(events: Seq<EventView>) -> Seq<char>
    decreases events.len(),
{
    if events.len() == 0 {
        csv_header_cells(10) + seq!['\n']
    } else {
        csv_text(events.drop_last()) + csv_cells(events.last(), 10) + seq!['\n']
    }
}

proof fn lemma_double_quotes_push(f: Seq<char>, c: char)
    ensures
        csv_double_quotes(f.push(c)) == csv_double_quotes(f) + (if c == '"' {
            seq!['"', '"']
        } else {
            seq![c]
        }),
    decreases f.len(),
{
    if f.len() == 0 {
        assert(f =~= Seq::<char>::empty());
        assert(f.push(c).drop_first() =~= f);
        assert(csv_double_quotes(f) == Seq::<char>::empty());
        assert(f.push(c)[0] == c);
        assert(csv_double_quotes(f.push(c)) =~= csv_double_quotes(f) + (if c == '"' {
            seq!['"', '"']
        } else {
            seq![c]
        }));
    } else {
        lemma_double_quotes_push(f.drop_first(), c);
        assert(f.push(c).drop_first() =~= f.drop_first().push(c));
        assert(csv_double_quotes(f.push(c)) =~= csv_double_quotes(f) + (if c == '"' {
            seq!['"', '"']
        } else {
            seq![c]
        }));
    }
}

fn push_csv_field(f: &String, out: &mut Vec<char>)
    ensures
        final(out)@ == old(out)@ + csv_field_enc(f@),
{
    let cs = crate::text::chars_vec(f.as_str());
    let n = cs.len();
    let mut quote = false;
    let mut i: usize = 0;
    while i < n
        invariant
            n == cs@.len(),
            cs@ == f@,
            0 <= i <= n,
            quote == exists|j: int| 0 <= j < i && (#[trigger] f@[j] == ',' || f@[j] == '"'
                || f@[j] == '\n' || f@[j] == '\r'),
        decreases n - i,
    {
        let c = cs[i];
        if c == ',' || c == '"' || c == '\n' || c == '\r' {
            quote = true;
        }
        i = i + 1;
    }
    proof {
        assert(quote == csv_needs_quote(f@));
    }
    if !quote {
        let mut copy = crate::text::chars_vec(f.as_str());
        out.append(&mut copy);
        return ;
    }
    out.push('"');
    proof {
        assert(f@.take(0) =~= Seq::<char>::empty());
    }
    let mut j: usize = 0;
    while j < n
        invariant
            n == cs@.len(),
            cs@ == f@,
            0 <= j <= n,
            csv_needs_quote(f@),
            out@ == old(out)@ + seq!['"'] + csv_double_quotes(f@.take(j as int)),
        decreases n - j,
    {
        proof {
            lemma_double_quotes_push(f@.take(j as int), f@[j as int]);
            assert(f@.take(j + 1) =~= f@.take(j as int).push(f@[j as int]));
        }
        let c = cs[j];
        if c == '"' {
            out.push('"');
            out.push('"');
        } else {
            out.push(c);
        }
        proof {
            assert(out@ =~= old(out)@ + seq!['"'] + csv_double_quotes(f@.take(j + 1)));
        }
        j = j + 1;
    }
    out.push('"');
    proof {
        assert(f@.take(n as int) =~= f@);
        assert(out@ =~= old(out)@ + csv_field_enc(f@));
    }
}

fn push_csv_line(row: &Vec<String>, m: Ghost<EventView>, header: bool, out: &mut Vec<char>)
    requires
        row@.len() == 10,
        forall|i: int| 0 <= i < 10 ==> #[trigger] row@[i]@ == if header {
            csv_header(i)
        } else {
            csv_column(m@, i)
        },
    ensures
        final(out)@ == old(out)@ + (if header {
            csv_header_cells(10)
        } else {
            csv_cells(m@, 10)
        }) + seq!['\n'],
{
    push_csv_field(&row[0], out);
    proof {
        if header {
            assert(out@ =~= old(out)@ + csv_header_cells(1));
        } else {
            assert(out@ =~= old(out)@ + csv_cells(m@, 1));
        }
    }
    let mut i: usize = 1;
    while i < 10
        invariant
            1 <= i <= 10,
            row@.len() == 10,
            forall|k: int| 0 <= k < 10 ==> #[trigger] row@[k]@ == if header {
                csv_header(k)
            } else {
                csv_column(m@, k)
            },
            out@ == old(out)@ + (if header {
                csv_header_cells(i as int)
            } else {
                csv_cells(m@, i as int)
            }),
        decreases 10 - i,
    {
        out.push(',');
        push_csv_field(&row[i], out);
        proof {
            if header {
                assert(out@ =~= old(out)@ + csv_header_cells(i + 1));
            } else {
                assert(out@ =~= old(out)@ + csv_cells(m@, i + 1));
            }
        }
        i = i + 1;
    }
    out.push('\n');
    proof {
        assert(final(out)@ =~= old(out)@ + (if header {
            csv_header_cells(10)
        } else {
            csv_cells(m@, 10)
        }) + seq!['\n']);
    }
}

impl AuditTrail {
    /// One serialized line for the durable sink: the canonical JSON object
    /// of the event, newline-delimited by the caller.
    pub fn event_json_line(event: &AuditEvent) -> (r: String)
        ensures
            r@ == crate::json::event_json(event@),
    {
        let cs = crate::json::event_json_chars(event);
        string_from_chars(&cs)
    }

    /// The full in-memory log as a pretty-printed JSON array, one event per
    /// line.  Parsing this text back yields every event, field for field:
    /// see `crate::json::lemma_export_round_trip`.
    pub fn export_to_json(&self) -> (r: String)
        ensures
            r@ == crate::json::json_export(views_of_events(self.spec_events())),
    {
        let ghost vs = views_of_events(self.spec_events());
        let n = self.events.len();
        if n == 0 {
            let mut out: Vec<char> = Vec::new();
            out.push('[');
            out.push(']');
            proof {
                assert(vs.len() == 0);
                assert(out@ =~= crate::json::json_export(vs));
            }
            return string_from_chars(&out);
        }
        let mut out: Vec<char> = Vec::new();
        out.push('[');
        out.push('\n');
        out.push(' ');
        out.push(' ');
        proof {
            assert(vs.take(1) =~= seq![vs[0]]);
        }
        let mut i: usize = 0;
        while i < n
            invariant
                1 <= n == self.spec_events().len(),
                vs == views_of_events(self.spec_events()),
                vs.len() == n,
                0 <= i <= n,
                i == 0 ==> out@ == seq!['[', '\n', ' ', ' '],
                i >= 1 ==> out@ == seq!['[', '\n', ' ', ' '] + crate::json::events_array_body(
                    vs.take(i as int),
                ),
            decreases n - i,
        {
            proof {
                assert(vs.take(i + 1).drop_last() =~= vs.take(i as int));
                assert(vs.take(i + 1).last() == vs[i as int]);
                assert(vs[i as int] == self.spec_events()[i as int]@);
            }
            if i > 0 {
                out.push(',');
                out.push('\n');
                out.push(' ');
                out.push(' ');
            }
            let mut obj = crate::json::event_json_chars(&self.events[i]);
            out.append(&mut obj);
            proof {
                if i == 0 {
                    assert(vs.take(1) =~= seq![vs[0]]);
                    assert(crate::json::events_array_body(vs.take(1)) == crate::json::event_json(
                        vs[0],
                    ));
                    assert(out@ =~= seq!['[', '\n', ' ', ' '] + crate::json::events_array_body(
                        vs.take(i + 1),
                    ));
                } else {
                    assert(out@ =~= seq!['[', '\n', ' ', ' '] + crate::json::events_array_body(
                        vs.take(i + 1),
                    ));
                }
            }
            i = i + 1;
        }
        out.push('\n');
        out.push(']');
        proof {
            assert(vs.take(n as int) =~= vs);
            assert(out@ =~= crate::json::json_export(vs));
        }
        string_from_chars(&out)
    }

    /// The full in-memory log as CSV rows: a header row and one row per
    /// event, every row exactly ten columns wide.
    pub fn export_csv_rows(&self) -> (r: Vec<Vec<String>>)
        ensures
            r@.len() == self.spec_events().len() + 1,
            forall|i: int| 0 <= i < r@.len() ==> #[trigger] r@[i]@.len() == 10,
            forall|i: int| 0 <= i < 10 ==> #[trigger] r@[0]@[i]@ == csv_header(i),
            forall|i: int, j: int|
                1 <= i < r@.len() && 0 <= j < 10 ==> #[trigger] r@[i]@[j]@ == csv_column(
                    self.spec_events()[i - 1]@,
                    j,
                ),
    {
        let mut rows: Vec<Vec<String>> = Vec::new();
        let mut header: Vec<String> = Vec::new();
        header.push("ID".to_owned());
        header.push("Timestamp".to_owned());
        header.push("EventType".to_owned());
        header.push("PackageName".to_owned());
        header.push("PackageVersion".to_owned());
        header.push("User".to_owned());
        header.push("IPAddress".to_owned());
        header.push("Success".to_owned());
        header.push("ErrorMessage".to_owned());
        header.push("Details".to_owned());
        rows.push(header);
        let n = self.events.len();
        let mut i: usize = 0;
        while i < n
            invariant
                n == self.spec_events().len(),
                0 <= i <= n,
                rows@.len() == i + 1,
                forall|k: int| 0 <= k < rows@.len() ==> #[trigger] rows@[k]@.len() == 10,
                forall|k: int| 0 <= k < 10 ==> #[trigger] rows@[0]@[k]@ == csv_header(k),
                forall|k: int, j: int|
                    1 <= k < rows@.len() && 0 <= j < 10 ==> #[trigger] rows@[k]@[j]@ == csv_column(
                        self.spec_events()[k - 1]@,
                        j,
                    ),
            decreases n - i,
        {
            let row = csv_row_of_event(&self.events[i]);
            rows.push(row);
            i = i + 1;
        }
        rows
    }

    /// The full in-memory log as CSV text: the header line and one line per
    /// event, fields quoted where needed.
    pub fn export_to_csv(&self) -> (r: String)
        ensures
            r@ == csv_text(views_of_events(self.spec_events())),
    {
        let ghost vs = views_of_events(self.spec_events());
        let mut out: Vec<char> = Vec::new();
        let mut header: Vec<String> = Vec::new();
        header.push("ID".to_owned());
        header.push("Timestamp".to_owned());
        header.push("EventType".to_owned());
        header.push("PackageName".to_owned());
        header.push("PackageVersion".to_owned());
        header.push("User".to_owned());
        header.push("IPAddress".to_owned());
        header.push("Success".to_owned());
        header.push("ErrorMessage".to_owned());
        header.push("Details".to_owned());
        let ghost dummy: EventView = vstd::pervasive::arbitrary();
        push_csv_line(&header, Ghost(dummy), true, &mut out);
        proof {
            assert(vs.take(0) =~= Seq::<EventView>::empty());
            assert(out@ =~= csv_text(vs.take(0)));
        }
        let n = self.events.len();
        let mut i: usize = 0;
        while i < n
            invariant
                n == self.spec_events().len(),
                vs == views_of_events(self.spec_events()),
                vs.len() == n,
                0 <= i <= n,
                out@ == csv_text(vs.take(i as int)),
            decreases n - i,
        {
            proof {
                assert(vs.take(i + 1).drop_last() =~= vs.take(i as int));
                assert(vs.take(i + 1).last() == vs[i as int]);
                assert(vs[i as int] == self.spec_events()[i as int]@);
            }
            let row = csv_row_of_event(&self.events[i]);
            push_csv_line(&row, Ghost(self.spec_events()[i as int]@), false, &mut out);
            proof {
                assert(out@ =~= csv_text(vs.take(i + 1)));
            }
            i = i + 1;
        }
        proof {
            assert(vs.take(n as int) =~= vs);
        }
        string_from_chars(&out)
    }
}

} // verus!
