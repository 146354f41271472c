//! The client's configuration, and a builder for it.
use vstd::prelude::*;
use vstd::string::*;
use std::time::Duration;

verus! {

/// The address bound for sending when none is given.
pub const DEFAULT_FROM_ADDR: &'static str = "0.0.0.0:0";

/// The daemon's address when none is given.
pub const DEFAULT_TO_ADDR: &'static str = "127.0.0.1:8125";

/// How frames are batched before they are sent, and how a failed send of a
/// batch is retried.
#[derive(Debug, PartialEq, Clone, Copy)]
pub struct BatchingOptions {
    /// The buffer length, in bytes, at which a batch is sent.
    pub max_buffer_size: usize,
    /// The age past which a batch is sent when the next frame arrives.
    pub max_time: Duration,
    /// The most attempts made to send a batch, the first one included; the
    /// first attempt is made even when this is 0.
    pub max_retry_attempts: usize,
    /// The backoff before the first retry, in milliseconds; it doubles with
    /// each retry.
    pub initial_retry_delay: u64,
}

/// The options of a client.
#[derive(Debug, PartialEq)]
pub struct Options {
    /// The address of the udp socket we'll bind to for sending.
    pub from_addr: String,
    /// The address of the udp socket we'll send metrics and events to.
    pub to_addr: String,
    /// A namespace to prefix all metrics with, joined with a '.'.
    pub namespace: String,
    /// Default tags to include with every request.
    pub default_tags: Vec<String>,
    /// If set, a Unix datagram socket at this path is used instead of UDP.
    pub socket_path: Option<String>,
    /// If set, frames are batched before they are sent.
    pub batching_options: Option<BatchingOptions>,
}

impl Default for Options {
    /// The default options: bind to `0.0.0.0:0`, send to `127.0.0.1:8125`,
    /// no namespace, no default tags, UDP, no batching.
    fn default() -> (r: Self)
        ensures
            r.from_addr@ == DEFAULT_FROM_ADDR@,
            r.to_addr@ == DEFAULT_TO_ADDR@,
            r.namespace@ == Seq::<char>::empty(),
            r.default_tags@ == Seq::<String>::empty(),
            r.socket_path.is_none(),
            r.batching_options.is_none(),
    {
        Options {
            from_addr: String::from_str(DEFAULT_FROM_ADDR),
            to_addr: String::from_str(DEFAULT_TO_ADDR),
            namespace: String::new(),
            default_tags: Vec::new(),
            socket_path: None,
            batching_options: None,
        }
    }
}

impl Options {
    /// Create a new options struct by supplying values for all fields.
    pub fn new(
        from_addr: &str,
        to_addr: &str,
        namespace: &str,
        default_tags: Vec<String>,
        socket_path: Option<String>,
        batching_options: Option<BatchingOptions>,
    ) -> (r: Self)
        ensures
            r.from_addr@ == from_addr@,
            r.to_addr@ == to_addr@,
            r.namespace@ == namespace@,
            r.default_tags == default_tags,
            r.socket_path == socket_path,
            r.batching_options == batching_options,
    {
        Options {
            from_addr: String::from_str(from_addr),
            to_addr: String::from_str(to_addr),
            namespace: String::from_str(namespace),
            default_tags,
            socket_path,
            batching_options,
        }
    }
}

/// A builder of `Options`: what is not set takes the value of `Options::default`.
#[derive(Default, Debug)]
pub struct OptionsBuilder {
    from_addr: Option<String>,
    to_addr: Option<String>,
    namespace: Option<String>,
    default_tags: Vec<String>,
    socket_path: Option<String>,
    batching_options: Option<BatchingOptions>,
}

/// The text of `value`, or `default` when it is absent.
pub open spec fn text_or(value: Option<String>, default: Seq<char>) -> Seq<char> {
    match value {
        Some(v) => v@,
        None => default,
    }
}

impl OptionsBuilder {
    /// The address to bind to, if set.
    pub closed spec fn spec_from_addr(&self) -> Option<String> {
        self.from_addr
    }

    /// The daemon's address, if set.
    pub closed spec fn spec_to_addr(&self) -> Option<String> {
        self.to_addr
    }

    /// The namespace, if set.
    pub closed spec fn spec_namespace(&self) -> Option<String> {
        self.namespace
    }

    /// The default tags added so far, in order.
    pub closed spec fn spec_default_tags(&self) -> Seq<String> {
        self.default_tags@
    }

    /// The Unix socket path, if set.
    pub closed spec fn spec_socket_path(&self) -> Option<String> {
        self.socket_path
    }

    /// The batching options, if set.
    pub closed spec fn spec_batching_options(&self) -> Option<BatchingOptions> {
        self.batching_options
    }

    /// A builder with nothing set.
    pub fn new() -> (r: Self)
        ensures
            r.spec_from_addr().is_none(),
            r.spec_to_addr().is_none(),
            r.spec_namespace().is_none(),
            r.spec_default_tags() == Seq::<String>::empty(),
            r.spec_socket_path().is_none(),
            r.spec_batching_options().is_none(),
    {
        OptionsBuilder {
            from_addr: None,
            to_addr: None,
            namespace: None,
            default_tags: Vec::new(),
            socket_path: None,
            batching_options: None,
        }
    }

    /// Sets the address to bind to.
    pub fn from_addr(&mut self, from_addr: String) -> (r: &mut OptionsBuilder)
        ensures
            r.spec_from_addr() == Some(from_addr),
            r.spec_to_addr() == old(self).spec_to_addr(),
            r.spec_namespace() == old(self).spec_namespace(),
            r.spec_default_tags() == old(self).spec_default_tags(),
            r.spec_socket_path() == old(self).spec_socket_path(),
            r.spec_batching_options() == old(self).spec_batching_options(),
            *final(self) == *final(r),
    {
        self.from_addr = Some(from_addr);
        self
    }

    /// Sets the daemon's address.
    pub fn to_addr(&mut self, to_addr: String) -> (r: &mut OptionsBuilder)
        ensures
            r.spec_from_addr() == old(self).spec_from_addr(),
            r.spec_to_addr() == Some(to_addr),
            r.spec_namespace() == old(self).spec_namespace(),
            r.spec_default_tags() == old(self).spec_default_tags(),
            r.spec_socket_path() == old(self).spec_socket_path(),
            r.spec_batching_options() == old(self).spec_batching_options(),
            *final(self) == *final(r),
    {
        self.to_addr = Some(to_addr);
        self
    }

    /// Sets the namespace.
    pub fn namespace(&mut self, namespace: String) -> (r: &mut OptionsBuilder)
        ensures
            r.spec_from_addr() == old(self).spec_from_addr(),
            r.spec_to_addr() == old(self).spec_to_addr(),
            r.spec_namespace() == Some(namespace),
            r.spec_default_tags() == old(self).spec_default_tags(),
            r.spec_socket_path() == old(self).spec_socket_path(),
            r.spec_batching_options() == old(self).spec_batching_options(),
            *final(self) == *final(r),
    {
        self.namespace = Some(namespace);
        self
    }

    /// Adds a default tag after those added before.
    pub fn default_tag(&mut self, default_tag: String) -> (r: &mut OptionsBuilder)
        ensures
            r.spec_from_addr() == old(self).spec_from_addr(),
            r.spec_to_addr() == old(self).spec_to_addr(),
            r.spec_namespace() == old(self).spec_namespace(),
            r.spec_default_tags() == old(self).spec_default_tags().push(default_tag),
            r.spec_socket_path() == old(self).spec_socket_path(),
            r.spec_batching_options() == old(self).spec_batching_options(),
            *final(self) == *final(r),
    {
        self.default_tags.push(default_tag);
        self
    }

    /// Sets, or clears, the Unix socket path.
    pub fn socket_path(&mut self, socket_path: Option<String>) -> (r: &mut OptionsBuilder)
        ensures
            r.spec_from_addr() == old(self).spec_from_addr(),
            r.spec_to_addr() == old(self).spec_to_addr(),
            r.spec_namespace() == old(self).spec_namespace(),
            r.spec_default_tags() == old(self).spec_default_tags(),
            r.spec_socket_path() == socket_path,
            r.spec_batching_options() == old(self).spec_batching_options(),
            *final(self) == *final(r),
    {
        self.socket_path = socket_path;
        self
    }

    /// Sets, or clears, the batching options.
    pub fn batching_options(&mut self, batching_options: Option<BatchingOptions>) -> (r: &mut OptionsBuilder)
        ensures
            r.spec_from_addr() == old(self).spec_from_addr(),
            r.spec_to_addr() == old(self).spec_to_addr(),
            r.spec_namespace() == old(self).spec_namespace(),
            r.spec_default_tags() == old(self).spec_default_tags(),
            r.spec_socket_path() == old(self).spec_socket_path(),
            r.spec_batching_options() == batching_options,
            *final(self) == *final(r),
    {
        self.batching_options = batching_options;
        self
    }

    /// The options set so far, with the defaults of `Options::default` for
    /// the addresses and the namespace that were not set.
    pub fn build(&self) -> (r: Options)
        ensures
            r.from_addr@ == text_or(self.spec_from_addr(), DEFAULT_FROM_ADDR@),
            r.to_addr@ == text_or(self.spec_to_addr(), DEFAULT_TO_ADDR@),
            r.namespace@ == text_or(self.spec_namespace(), Seq::empty()),
            r.default_tags@ == self.spec_default_tags(),
            r.socket_path == self.spec_socket_path(),
            r.batching_options == self.spec_batching_options(),
    {
        let from_addr = match &self.from_addr {
            Some(a) => a.clone(),
            None => String::from_str(DEFAULT_FROM_ADDR),
        };
        let to_addr = match &self.to_addr {
            Some(a) => a.clone(),
            None => String::from_str(DEFAULT_TO_ADDR),
        };
        let namespace = match &self.namespace {
            Some(n) => n.clone(),
            None => String::new(),
        };
        let socket_path = match &self.socket_path {
            Some(p) => Some(p.clone()),
            None => None,
        };
        let mut default_tags: Vec<String> = Vec::new();
        let mut i: usize = 0;
        while i < self.default_tags.len()
            invariant
                i <= self.default_tags@.len(),
                default_tags@ == self.default_tags@.subrange(0, i as int),
            decreases self.default_tags@.len() - i,
        {
            default_tags.push(self.default_tags[i].clone());
            i = i + 1;
            assert(default_tags@ =~= self.default_tags@.subrange(0, i as int));
        }
        assert(self.default_tags@.subrange(0, i as int) =~= self.default_tags@);
        Options {
            from_addr,
            to_addr,
            namespace,
            default_tags,
            socket_path,
            batching_options: self.batching_options,
        }
    }
}

} // verus!
