//! A client library for emitting metrics, service checks and events to a
//! DogStatsD daemon over its line-oriented datagram protocol.
//!
//! The library holds what decides the bytes on the wire and when they leave:
//! the text of each metric kind, the assembly of a frame from namespace,
//! metric text and tags, the batching of frames into datagrams, and the
//! retry policy of a batch whose send failed. Sockets, threads and clocks
//! stay with the caller, which hands the results of its I/O to these
//! functions and acts on what they return.

mod batch;
mod decimal;
mod error;
mod frame;
mod metrics;
mod options;
mod retry;
mod time;

pub use batch::{
    concat_batches, flush_due, lemma_no_flush_below_thresholds, lemma_receive_all_keeps_bytes,
    lemma_shutdown_flushes_all, lines, receive, receive_all, terminated, BatchAction, Batcher,
    Message, NEWLINE,
};
pub use decimal::{decimal, digit_char, digits_of, push_decimal};
pub use error::{DogstatsdError, DogstatsdResult};
pub use frame::{
    applied_namespace, format_for_send, frame, join_default_tags, join_tags,
    lemma_event_ignores_namespace, lemma_service_check_ignores_namespace, metric_frame,
    owned_tag_bytes, tag_bytes, tag_section, COMMA, DOT, HASH, PIPE,
};
pub use metrics::{
    integer_view, optional_field, text_view, typed_text, CountMetric, DistributionMetric, Event,
    EventOptions, GaugeMetric, HistogramMetric, Metric, ServiceCheck, ServiceCheckOptions,
    ServiceStatus, SetMetric, TimeMetric, TimingMetric,
};
pub use options::{
    text_or, BatchingOptions, Options, OptionsBuilder, DEFAULT_FROM_ADDR, DEFAULT_TO_ADDR,
};
pub use retry::{
    after_failure, backoff, backoff_sum, doubled, failing_run, jittered,
    lemma_failing_transport_bounded, reconnects, Retry, RetryAction, SendOutcome, TransportKind,
    MAX_DELAY,
};
pub use time::{millis_between, Timestamp};
