//! The wire text of each metric kind, and the assembly of one datagram line.
use vstd::prelude::*;
use vstd::string::*;
use vstd::utf8::encode_utf8;
use crate::decimal::{decimal, push_decimal};
use crate::time::{elapsed_millis, millis_between, Timestamp};

verus! {

/// `stat:value|kind`, the shape shared by counts, gauges, histograms,
/// distributions, sets and timings.
pub open spec fn typed_text(stat: Seq<char>, value: Seq<char>, kind: Seq<char>) -> Seq<char> {
    stat + seq![':'] + value + seq!['|'] + kind
}

/// A metric that can be written as one line of the wire protocol.
pub trait Metric {
    /// The line this metric stands for, before namespace and tags.
    spec fn spec_text(&self) -> Seq<char>;

    /// Whether the client's namespace is put before the line.
    spec fn spec_uses_namespace(&self) -> bool;

    /// Renders the metric.
    fn metric_type_format(&self) -> (r: String)
        ensures
            r@ == self.spec_text(),
    ;

    /// Tells whether the client's namespace is put before the metric.
    fn uses_namespace(&self) -> (r: bool)
        ensures
            r == self.spec_uses_namespace(),
    ;
}

/// Appends `stat:`.
fn push_stat(buf: &mut String, stat: &str)
    ensures
        final(buf)@ == old(buf)@ + stat@ + seq![':'],
{
    buf.append(stat);
    proof {
        reveal_strlit(":");
    }
    buf.append(":");
    proof {
        assert(buf@ =~= old(buf)@ + stat@ + seq![':']);
    }
}

/// A value given as text or as an integer.
enum Value<'a> {
    Text(&'a str),
    Integer(i64),
}

impl<'a> Value<'a> {
    /// The value as it goes on the wire.
    spec fn text(&self) -> Seq<char> {
        match *self {
            Value::Text(t) => t@,
            Value::Integer(i) => decimal(i as int),
        }
    }
}

/// Renders `stat:val|kind`.
fn value_metric(stat: &str, val: &Value, kind: &str) -> (r: String)
    ensures
        r@ == typed_text(stat@, val.text(), kind@),
{
    let mut buf = String::new();
    push_stat(&mut buf, stat);
    match *val {
        Value::Text(t) => buf.append(t),
        Value::Integer(i) => push_decimal(&mut buf, i as i128),
    }
    proof {
        reveal_strlit("|");
    }
    buf.append("|");
    buf.append(kind);
    proof {
        assert(buf@ =~= typed_text(stat@, val.text(), kind@));
    }
    buf
}

/// Renders `stat:n|kind` for an integer value.
fn integer_metric(stat: &str, n: i128, kind: &str) -> (r: String)
    ensures
        r@ == typed_text(stat@, decimal(n as int), kind@),
{
    let mut buf = String::new();
    push_stat(&mut buf, stat);
    push_decimal(&mut buf, n);
    proof {
        reveal_strlit("|");
    }
    buf.append("|");
    buf.append(kind);
    proof {
        assert(buf@ =~= typed_text(stat@, decimal(n as int), kind@));
    }
    buf
}

/// A change to a counter.
pub enum CountMetric<'a> {
    /// Adds the amount.
    Incr(&'a str, i64),
    /// Subtracts the amount.
    Decr(&'a str, i64),
    /// Adds the amount, whatever its sign.
    Arbitrary(&'a str, i64),
}

impl<'a> CountMetric<'a> {
    /// The signed change that this metric reports.
    pub open spec fn delta(&self) -> int {
        match *self {
            CountMetric::Incr(_, amount) => amount as int,
            CountMetric::Decr(_, amount) => -(amount as int),
            CountMetric::Arbitrary(_, amount) => amount as int,
        }
    }

    /// The counter's name.
    pub open spec fn stat(&self) -> Seq<char> {
        match *self {
            CountMetric::Incr(stat, _) => stat@,
            CountMetric::Decr(stat, _) => stat@,
            CountMetric::Arbitrary(stat, _) => stat@,
        }
    }
}

impl<'a> Metric for CountMetric<'a> {
    open spec fn spec_text(&self) -> Seq<char> {
        typed_text(self.stat(), decimal(self.delta()), seq!['c'])
    }

    open spec fn spec_uses_namespace(&self) -> bool {
        true
    }

    fn metric_type_format(&self) -> (r: String) {
        proof {
            reveal_strlit("c");
        }
        match *self {
            CountMetric::Incr(stat, amount) => integer_metric(stat, amount as i128, "c"),
            CountMetric::Decr(stat, amount) => integer_metric(stat, -(amount as i128), "c"),
            CountMetric::Arbitrary(stat, amount) => integer_metric(stat, amount as i128, "c"),
        }
    }

    fn uses_namespace(&self) -> (r: bool) {
        true
    }
}

/// A timing given directly in milliseconds.
pub struct TimingMetric<'a> {
    ms: i64,
    stat: &'a str,
}

impl<'a> TimingMetric<'a> {
    /// The timing's name.
    pub closed spec fn stat(&self) -> Seq<char> {
        self.stat@
    }

    /// The reported milliseconds.
    pub closed spec fn ms(&self) -> i64 {
        self.ms
    }

    /// A timing of `ms` milliseconds under the name `stat`.
    pub fn new(stat: &'a str, ms: i64) -> (r: Self)
        ensures
            r.stat() == stat@,
            r.ms() == ms,
    {
        TimingMetric { ms, stat }
    }
}

impl<'a> Metric for TimingMetric<'a> {
    open spec fn spec_text(&self) -> Seq<char> {
        typed_text(self.stat(), decimal(self.ms() as int), seq!['m', 's'])
    }

    open spec fn spec_uses_namespace(&self) -> bool {
        true
    }

    fn metric_type_format(&self) -> (r: String) {
        proof {
            reveal_strlit("ms");
        }
        integer_metric(self.stat, self.ms as i128, "ms")
    }

    fn uses_namespace(&self) -> (r: bool) {
        true
    }
}

/// A gauge: a value that is set, not added to.
pub struct GaugeMetric<'a> {
    stat: &'a str,
    val: Value<'a>,
}

impl<'a> GaugeMetric<'a> {
    /// The metric's name.
    pub closed spec fn stat(&self) -> Seq<char> {
        self.stat@
    }

    /// The value, as it goes on the wire.
    pub closed spec fn val(&self) -> Seq<char> {
        self.val.text()
    }

    /// The value `val`, given as text, under the name `stat`.
    pub fn new(stat: &'a str, val: &'a str) -> (r: Self)
        ensures
            r.stat() == stat@,
            r.val() == val@,
    {
        GaugeMetric { stat, val: Value::Text(val) }
    }

    /// The integer `val`, in decimal, under the name `stat`.
    pub fn with_integer(stat: &'a str, val: i64) -> (r: Self)
        ensures
            r.stat() == stat@,
            r.val() == decimal(val as int),
    {
        GaugeMetric { stat, val: Value::Integer(val) }
    }
}

impl<'a> Metric for GaugeMetric<'a> {
    open spec fn spec_text(&self) -> Seq<char> {
        typed_text(self.stat(), self.val(), seq!['g'])
    }

    open spec fn spec_uses_namespace(&self) -> bool {
        true
    }

    fn metric_type_format(&self) -> (r: String) {
        proof {
            reveal_strlit("g");
        }
        value_metric(self.stat, &self.val, "g")
    }

    fn uses_namespace(&self) -> (r: bool) {
        true
    }
}

/// A value to put into a histogram.
pub struct HistogramMetric<'a> {
    stat: &'a str,
    val: Value<'a>,
}

impl<'a> HistogramMetric<'a> {
    /// The metric's name.
    pub closed spec fn stat(&self) -> Seq<char> {
        self.stat@
    }

    /// The value, as it goes on the wire.
    pub closed spec fn val(&self) -> Seq<char> {
        self.val.text()
    }

    /// The value `val`, given as text, under the name `stat`.
    pub fn new(stat: &'a str, val: &'a str) -> (r: Self)
        ensures
            r.stat() == stat@,
            r.val() == val@,
    {
        HistogramMetric { stat, val: Value::Text(val) }
    }

    /// The integer `val`, in decimal, under the name `stat`.
    pub fn with_integer(stat: &'a str, val: i64) -> (r: Self)
        ensures
            r.stat() == stat@,
            r.val() == decimal(val as int),
    {
        HistogramMetric { stat, val: Value::Integer(val) }
    }
}

impl<'a> Metric for HistogramMetric<'a> {
    open spec fn spec_text(&self) -> Seq<char> {
        typed_text(self.stat(), self.val(), seq!['h'])
    }

    open spec fn spec_uses_namespace(&self) -> bool {
        true
    }

    fn metric_type_format(&self) -> (r: String) {
        proof {
            reveal_strlit("h");
        }
        value_metric(self.stat, &self.val, "h")
    }

    fn uses_namespace(&self) -> (r: bool) {
        true
    }
}

/// A value to put into a global distribution.
pub struct DistributionMetric<'a> {
    stat: &'a str,
    val: Value<'a>,
}

impl<'a> DistributionMetric<'a> {
    /// The metric's name.
    pub closed spec fn stat(&self) -> Seq<char> {
        self.stat@
    }

    /// The value, as it goes on the wire.
    pub closed spec fn val(&self) -> Seq<char> {
        self.val.text()
    }

    /// The value `val`, given as text, under the name `stat`.
    pub fn new(stat: &'a str, val: &'a str) -> (r: Self)
        ensures
            r.stat() == stat@,
            r.val() == val@,
    {
        DistributionMetric { stat, val: Value::Text(val) }
    }

    /// The integer `val`, in decimal, under the name `stat`.
    pub fn with_integer(stat: &'a str, val: i64) -> (r: Self)
        ensures
            r.stat() == stat@,
            r.val() == decimal(val as int),
    {
        DistributionMetric { stat, val: Value::Integer(val) }
    }
}

impl<'a> Metric for DistributionMetric<'a> {
    open spec fn spec_text(&self) -> Seq<char> {
        typed_text(self.stat(), self.val(), seq!['d'])
    }

    open spec fn spec_uses_namespace(&self) -> bool {
        true
    }

    fn metric_type_format(&self) -> (r: String) {
        proof {
            reveal_strlit("d");
        }
        value_metric(self.stat, &self.val, "d")
    }

    fn uses_namespace(&self) -> (r: bool) {
        true
    }
}

/// A member of a set, counted once however often it is reported.
pub struct SetMetric<'a> {
    stat: &'a str,
    val: Value<'a>,
}

impl<'a> SetMetric<'a> {
    /// The metric's name.
    pub closed spec fn stat(&self) -> Seq<char> {
        self.stat@
    }

    /// The value, as it goes on the wire.
    pub closed spec fn val(&self) -> Seq<char> {
        self.val.text()
    }

    /// The value `val`, given as text, under the name `stat`.
    pub fn new(stat: &'a str, val: &'a str) -> (r: Self)
        ensures
            r.stat() == stat@,
            r.val() == val@,
    {
        SetMetric { stat, val: Value::Text(val) }
    }

    /// The integer `val`, in decimal, under the name `stat`.
    pub fn with_integer(stat: &'a str, val: i64) -> (r: Self)
        ensures
            r.stat() == stat@,
            r.val() == decimal(val as int),
    {
        SetMetric { stat, val: Value::Integer(val) }
    }
}

impl<'a> Metric for SetMetric<'a> {
    open spec fn spec_text(&self) -> Seq<char> {
        typed_text(self.stat(), self.val(), seq!['s'])
    }

    open spec fn spec_uses_namespace(&self) -> bool {
        true
    }

    fn metric_type_format(&self) -> (r: String) {
        proof {
            reveal_strlit("s");
        }
        value_metric(self.stat, &self.val, "s")
    }

    fn uses_namespace(&self) -> (r: bool) {
        true
    }
}

/// A timing measured from a start and an end instant.
pub struct TimeMetric<'a> {
    start_time: &'a Timestamp,
    end_time: &'a Timestamp,
    stat: &'a str,
}

impl<'a> TimeMetric<'a> {
    /// The timing's name.
    pub closed spec fn stat(&self) -> Seq<char> {
        self.stat@
    }

    /// When the timed work began.
    pub closed spec fn start_time(&self) -> Timestamp {
        *self.start_time
    }

    /// When the timed work ended.
    pub closed spec fn end_time(&self) -> Timestamp {
        *self.end_time
    }

    /// The time from `start_time` to `end_time` under the name `stat`.
    pub fn new(stat: &'a str, start_time: &'a Timestamp, end_time: &'a Timestamp) -> (r: Self)
        ensures
            r.stat() == stat@,
            r.start_time() == *start_time,
            r.end_time() == *end_time,
    {
        TimeMetric { start_time, end_time, stat }
    }
}

impl<'a> Metric for TimeMetric<'a> {
    open spec fn spec_text(&self) -> Seq<char> {
        typed_text(
            self.stat(),
            decimal(millis_between(self.start_time(), self.end_time())),
            seq!['m', 's'],
        )
    }

    open spec fn spec_uses_namespace(&self) -> bool {
        true
    }

    fn metric_type_format(&self) -> (r: String) {
        proof {
            reveal_strlit("ms");
        }
        let ms = elapsed_millis(self.start_time, self.end_time);
        integer_metric(self.stat, ms, "ms")
    }

    fn uses_namespace(&self) -> (r: bool) {
        true
    }
}

/// Represents the different states a service can be in
#[derive(Clone, Copy, Debug)]
pub enum ServiceStatus {
    /// OK State
    OK,
    /// Warning State
    Warning,
    /// Critical State
    Critical,
    /// Unknown State
    Unknown,
}

impl ServiceStatus {
    /// The status's numeric code on the wire.
    pub open spec fn code(self) -> int {
        match self {
            ServiceStatus::OK => 0,
            ServiceStatus::Warning => 1,
            ServiceStatus::Critical => 2,
            ServiceStatus::Unknown => 3,
        }
    }

    fn to_int(self) -> (r: i32)
        ensures
            r == self.code(),
    {
        match self {
            ServiceStatus::OK => 0,
            ServiceStatus::Warning => 1,
            ServiceStatus::Critical => 2,
            ServiceStatus::Unknown => 3,
        }
    }
}

/// `|` + `key` + `value` when the value is present, else nothing.
pub open spec fn optional_field(key: Seq<char>, value: Option<Seq<char>>) -> Seq<char> {
    match value {
        Some(v) => seq!['|'] + key + v,
        None => Seq::empty(),
    }
}

/// The view of an optional text field.
pub open spec fn text_view(value: Option<&str>) -> Option<Seq<char>> {
    match value {
        Some(v) => Some(v@),
        None => None,
    }
}

/// The decimal rendering of an optional integer field.
pub open spec fn integer_view(value: Option<i64>) -> Option<Seq<char>> {
    match value {
        Some(v) => Some(decimal(v as int)),
        None => None,
    }
}

/// Appends `optional_field(key, text_view(value))`.
fn push_text_field(buf: &mut String, key: &str, value: Option<&str>)
    ensures
        final(buf)@ == old(buf)@ + optional_field(key@, text_view(value)),
{
    match value {
        Some(v) => {
            proof {
                reveal_strlit("|");
            }
            buf.append("|");
            buf.append(key);
            buf.append(v);
            proof {
                assert(buf@ =~= old(buf)@ + optional_field(key@, text_view(value)));
            }
        },
        None => {
            assert(buf@ =~= old(buf)@ + optional_field(key@, text_view(value)));
        },
    }
}

/// Appends `optional_field(key, integer_view(value))`.
fn push_integer_field(buf: &mut String, key: &str, value: Option<i64>)
    ensures
        final(buf)@ == old(buf)@ + optional_field(key@, integer_view(value)),
{
    match value {
        Some(v) => {
            proof {
                reveal_strlit("|");
            }
            buf.append("|");
            buf.append(key);
            push_decimal(buf, v as i128);
            proof {
                assert(buf@ =~= old(buf)@ + optional_field(key@, integer_view(value)));
            }
        },
        None => {
            assert(buf@ =~= old(buf)@ + optional_field(key@, integer_view(value)));
        },
    }
}

/// Struct for adding optional pieces to a service check
#[derive(Default, Clone, Copy, Debug)]
pub struct ServiceCheckOptions<'a> {
    /// An optional timestamp to include with the check
    pub timestamp: Option<i32>,
    /// An optional hostname to include with the check
    pub hostname: Option<&'a str>,
    /// An optional message to include with the check
    pub message: Option<&'a str>,
}

impl<'a> ServiceCheckOptions<'a> {
    /// The timestamp as a wider integer.
    pub open spec fn timestamp_view(&self) -> Option<i64> {
        match self.timestamp {
            Some(ts) => Some(ts as i64),
            None => None,
        }
    }

    /// The optional fields in their fixed order: `d`, `h`, `m`.
    pub open spec fn spec_text(&self) -> Seq<char> {
        optional_field(seq!['d', ':'], integer_view(self.timestamp_view()))
            + optional_field(seq!['h', ':'], text_view(self.hostname))
            + optional_field(seq!['m', ':'], text_view(self.message))
    }

    /// Appends the optional fields.
    fn push_text(&self, buf: &mut String)
        ensures
            final(buf)@ == old(buf)@ + self.spec_text(),
    {
        proof {
            reveal_strlit("d:");
            reveal_strlit("h:");
            reveal_strlit("m:");
        }
        let timestamp: Option<i64> = match self.timestamp {
            Some(ts) => Some(ts as i64),
            None => None,
        };
        push_integer_field(buf, "d:", timestamp);
        push_text_field(buf, "h:", self.hostname);
        push_text_field(buf, "m:", self.message);
        assert(buf@ =~= old(buf)@ + self.spec_text());
    }
}

/// A report of a service's status.
pub struct ServiceCheck<'a> {
    stat: &'a str,
    val: ServiceStatus,
    options: ServiceCheckOptions<'a>,
}

impl<'a> ServiceCheck<'a> {
    /// The service check's name.
    pub closed spec fn stat(&self) -> Seq<char> {
        self.stat@
    }

    /// The reported status.
    pub closed spec fn val(&self) -> ServiceStatus {
        self.val
    }

    /// The optional fields.
    pub closed spec fn options(&self) -> ServiceCheckOptions<'a> {
        self.options
    }

    /// The status `val` of the check `stat`, with the optional fields of `options`.
    pub fn new(stat: &'a str, val: ServiceStatus, options: ServiceCheckOptions<'a>) -> (r: Self)
        ensures
            r.stat() == stat@,
            r.val() == val,
            r.options() == options,
    {
        ServiceCheck { stat, val, options }
    }
}

impl<'a> Metric for ServiceCheck<'a> {
    /// `_sc|stat|status` and the optional fields.
    open spec fn spec_text(&self) -> Seq<char> {
        seq!['_', 's', 'c', '|'] + self.stat() + seq!['|'] + decimal(self.val().code())
            + self.options().spec_text()
    }

    open spec fn spec_uses_namespace(&self) -> bool {
        false
    }

    fn metric_type_format(&self) -> (r: String) {
        proof {
            reveal_strlit("_sc|");
            reveal_strlit("|");
        }
        let mut buf = String::new();
        buf.append("_sc|");
        buf.append(self.stat);
        buf.append("|");
        assert(buf@ =~= seq!['_', 's', 'c', '|'] + self.stat() + seq!['|']);
        push_decimal(&mut buf, self.val.to_int() as i128);
        self.options.push_text(&mut buf);
        buf
    }

    fn uses_namespace(&self) -> (r: bool) {
        false
    }
}

/// Optional pieces of an event.
#[derive(Default, Clone, Copy, Debug)]
pub struct EventOptions<'a> {
    /// When the event happened, in seconds since the Unix epoch.
    pub timestamp: Option<i64>,
    /// The host the event is about.
    pub hostname: Option<&'a str>,
    /// A key that groups related events.
    pub aggregation_key: Option<&'a str>,
    /// The event's priority, such as `normal` or `low`.
    pub priority: Option<&'a str>,
    /// The kind of source the event comes from.
    pub source_type_name: Option<&'a str>,
    /// The event's alert type, such as `error`, `warning`, `info` or `success`.
    pub alert_type: Option<&'a str>,
}

impl<'a> EventOptions<'a> {
    /// Options with every field absent.
    pub open spec fn absent() -> Self {
        EventOptions {
            timestamp: None,
            hostname: None,
            aggregation_key: None,
            priority: None,
            source_type_name: None,
            alert_type: None,
        }
    }

    /// The optional fields in their fixed order: `d`, `h`, `k`, `p`, `s`, `t`.
    pub open spec fn spec_text(&self) -> Seq<char> {
        self.first_text() + self.last_text()
    }

    /// The fields `d`, `h` and `k`.
    pub open spec fn first_text(&self) -> Seq<char> {
        optional_field(seq!['d', ':'], integer_view(self.timestamp))
            + optional_field(seq!['h', ':'], text_view(self.hostname))
            + optional_field(seq!['k', ':'], text_view(self.aggregation_key))
    }

    /// The fields `p`, `s` and `t`.
    pub open spec fn last_text(&self) -> Seq<char> {
        optional_field(seq!['p', ':'], text_view(self.priority))
            + optional_field(seq!['s', ':'], text_view(self.source_type_name))
            + optional_field(seq!['t', ':'], text_view(self.alert_type))
    }

    fn push_first(&self, buf: &mut String)
        ensures
            final(buf)@ == old(buf)@ + self.first_text(),
    {
        proof {
            reveal_strlit("d:");
            reveal_strlit("h:");
            reveal_strlit("k:");
        }
        push_integer_field(buf, "d:", self.timestamp);
        push_text_field(buf, "h:", self.hostname);
        push_text_field(buf, "k:", self.aggregation_key);
        assert(buf@ =~= old(buf)@ + self.first_text());
    }

    fn push_last(&self, buf: &mut String)
        ensures
            final(buf)@ == old(buf)@ + self.last_text(),
    {
        proof {
            reveal_strlit("p:");
            reveal_strlit("s:");
            reveal_strlit("t:");
        }
        push_text_field(buf, "p:", self.priority);
        push_text_field(buf, "s:", self.source_type_name);
        push_text_field(buf, "t:", self.alert_type);
        assert(buf@ =~= old(buf)@ + self.last_text());
    }

    /// Appends the optional fields.
    fn push_text(&self, buf: &mut String)
        ensures
            final(buf)@ == old(buf)@ + self.spec_text(),
    {
        self.push_first(buf);
        self.push_last(buf);
        assert(buf@ =~= old(buf)@ + self.spec_text());
    }
}

/// A free-form event with a title and a body.
pub struct Event<'a> {
    title: &'a str,
    text: &'a str,
    options: EventOptions<'a>,
}

impl<'a> Event<'a> {
    /// The event's title.
    pub closed spec fn title(&self) -> Seq<char> {
        self.title@
    }

    /// The event's body.
    pub closed spec fn text(&self) -> Seq<char> {
        self.text@
    }

    /// The optional fields.
    pub closed spec fn options(&self) -> EventOptions<'a> {
        self.options
    }

    /// An event with a title and a body and none of the optional fields.
    pub fn new(title: &'a str, text: &'a str) -> (r: Self)
        ensures
            r.title() == title@,
            r.text() == text@,
            r.options() == EventOptions::absent(),
    {
        Event {
            title,
            text,
            options: EventOptions {
                timestamp: None,
                hostname: None,
                aggregation_key: None,
                priority: None,
                source_type_name: None,
                alert_type: None,
            },
        }
    }

    /// An event with a title, a body and the optional fields of `options`.
    pub fn with_options(title: &'a str, text: &'a str, options: EventOptions<'a>) -> (r: Self)
        ensures
            r.title() == title@,
            r.text() == text@,
            r.options() == options,
    {
        Event { title, text, options }
    }
}

impl<'a> Metric for Event<'a> {
    /// `_e{T,B}:title|body` and the optional fields, where `T` and `B` are
    /// the byte lengths of the title and the body.
    open spec fn spec_text(&self) -> Seq<char> {
        seq!['_', 'e', '{'] + decimal(encode_utf8(self.title()).len() as int) + seq![',']
            + decimal(encode_utf8(self.text()).len() as int) + seq!['}', ':'] + self.title()
            + seq!['|'] + self.text() + self.options().spec_text()
    }

    open spec fn spec_uses_namespace(&self) -> bool {
        false
    }

    fn metric_type_format(&self) -> (r: String) {
        proof {
            reveal_strlit("_e{");
            reveal_strlit(",");
            reveal_strlit("}:");
            reveal_strlit("|");
        }
        let mut buf = String::new();
        buf.append("_e{");
        push_decimal(&mut buf, self.title.as_bytes().len() as i128);
        buf.append(",");
        push_decimal(&mut buf, self.text.as_bytes().len() as i128);
        buf.append("}:");
        let ghost head = buf@;
        buf.append(self.title);
        buf.append("|");
        buf.append(self.text);
        assert(buf@ =~= head + self.title() + seq!['|'] + self.text());
        self.options.push_text(&mut buf);
        buf
    }

    fn uses_namespace(&self) -> (r: bool) {
        false
    }
}

} // verus!
