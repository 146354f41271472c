//! Assembly of one datagram line: namespace, metric text and tags.
use vstd::prelude::*;
use vstd::utf8::encode_utf8;
use crate::metrics::{Event, Metric, ServiceCheck};

verus! {

/// `,`, between two tags.
pub const COMMA: u8 = 44;

/// `.`, after the namespace.
pub const DOT: u8 = 46;

/// `|`, the first byte of the tag marker.
pub const PIPE: u8 = 124;

/// `#`, the second byte of the tag marker.
pub const HASH: u8 = 35;

/// The tags joined by commas, in their order.
pub open spec fn join_tags(tags: Seq<Seq<u8>>) -> Seq<u8>
    decreases tags.len(),
{
    if tags.len() == 0 {
        Seq::empty()
    } else if tags.len() == 1 {
        tags[0]
    } else {
        join_tags(tags.drop_last()) + seq![COMMA] + tags.last()
    }
}

/// `|#` with the per-call tags and then the default tags, comma-separated;
/// nothing when there are no tags of either kind.
pub open spec fn tag_section(tags: Seq<Seq<u8>>, default_tags: Seq<u8>) -> Seq<u8> {
    if tags.len() == 0 && default_tags.len() == 0 {
        Seq::empty()
    } else {
        seq![PIPE, HASH] + join_tags(tags) + (if tags.len() > 0 && default_tags.len() > 0 {
            seq![COMMA]
        } else {
            Seq::empty()
        }) + default_tags
    }
}

/// `namespace.` before the body when the namespace is not empty, then the
/// tag section.
pub open spec fn frame(namespace: Seq<u8>, body: Seq<u8>, tags: Seq<Seq<u8>>, default_tags: Seq<u8>) -> Seq<u8> {
    (if namespace.len() == 0 {
        Seq::empty()
    } else {
        namespace.push(DOT)
    }) + body + tag_section(tags, default_tags)
}

/// The UTF-8 bytes of each tag.
pub open spec fn tag_bytes(tags: Seq<&str>) -> Seq<Seq<u8>> {
    tags.map_values(|t: &str| encode_utf8(t@))
}

/// The namespace that applies to `metric`: the client's one, or none for the
/// kinds that never take it.
pub open spec fn applied_namespace<M: Metric>(metric: &M, namespace: Seq<u8>) -> Seq<u8> {
    if metric.spec_uses_namespace() {
        namespace
    } else {
        Seq::empty()
    }
}

/// The datagram line for `metric` under `namespace`, with per-call `tags`
/// and the pre-joined `default_tags`.
pub open spec fn metric_frame<M: Metric>(
    metric: &M,
    namespace: Seq<char>,
    tags: Seq<&str>,
    default_tags: Seq<u8>,
) -> Seq<u8> {
    frame(
        applied_namespace(metric, encode_utf8(namespace)),
        encode_utf8(metric.spec_text()),
        tag_bytes(tags),
        default_tags,
    )
}

/// Appends `bytes` to `buf`.
pub(crate) fn push_bytes(buf: &mut Vec<u8>, bytes: &[u8])
    ensures
        final(buf)@ == old(buf)@ + bytes@,
{
    let mut i: usize = 0;
    while i < bytes.len()
        invariant
            i <= bytes@.len(),
            buf@ == old(buf)@ + bytes@.subrange(0, i as int),
        decreases bytes@.len() - i,
    {
        buf.push(bytes[i]);
        i = i + 1;
        assert(buf@ =~= old(buf)@ + bytes@.subrange(0, i as int));
    }
    assert(bytes@.subrange(0, i as int) =~= bytes@);
}

/// Builds the datagram line for `in_metric`: the namespace and a `.` first
/// when the metric kind takes one and it is not empty, then the metric text,
/// then `|#` and the per-call tags followed by the default tags, all
/// comma-separated, when there is any tag.
pub fn format_for_send<M: Metric>(
    in_metric: &M,
    in_namespace: &str,
    tags: &[&str],
    default_tags: &Vec<u8>,
) -> (r: Vec<u8>)
    ensures
        r@ == metric_frame(in_metric, in_namespace@, tags@, default_tags@),
        tags@.len() == 0 && default_tags@.len() == 0 && (in_namespace@.len() == 0
            || !in_metric.spec_uses_namespace()) ==> r@ == encode_utf8(in_metric.spec_text()),
{
    let metric = in_metric.metric_type_format();
    let body = metric.as_str().as_bytes();
    let namespace: &[u8] = if in_metric.uses_namespace() {
        in_namespace.as_bytes()
    } else {
        &[]
    };
    let mut buf: Vec<u8> = Vec::with_capacity(body.len().saturating_add(namespace.len()));
    if namespace.len() > 0 {
        push_bytes(&mut buf, namespace);
        buf.push(DOT);
    }
    push_bytes(&mut buf, body);
    let ghost head = buf@;
    let has_tags = tags.len() > 0;
    if has_tags || default_tags.len() > 0 {
        buf.push(PIPE);
        buf.push(HASH);
    }
    let ghost opened = buf@;
    let mut i: usize = 0;
    while i < tags.len()
        invariant
            i <= tags@.len(),
            buf@ == opened + join_tags(tag_bytes(tags@).take(i as int)),
        decreases tags@.len() - i,
    {
        if i > 0 {
            buf.push(COMMA);
        }
        push_bytes(&mut buf, tags[i].as_bytes());
        proof {
            let done = tag_bytes(tags@).take(i as int + 1);
            assert(done.drop_last() =~= tag_bytes(tags@).take(i as int));
        }
        i = i + 1;
    }
    proof {
        assert(tag_bytes(tags@).take(i as int) =~= tag_bytes(tags@));
    }
    if default_tags.len() > 0 {
        if has_tags {
            buf.push(COMMA);
        }
        push_bytes(&mut buf, default_tags.as_slice());
    }
    proof {
        let ns = applied_namespace(in_metric, encode_utf8(in_namespace@));
        assert(ns == namespace@);
        assert(head =~= (if ns.len() == 0 {
            Seq::empty()
        } else {
            ns.push(DOT)
        }) + encode_utf8(in_metric.spec_text()));
        assert(buf@ =~= metric_frame(in_metric, in_namespace@, tags@, default_tags@));
    }
    buf
}

/// The UTF-8 bytes of each tag.
pub open spec fn owned_tag_bytes(tags: Seq<String>) -> Seq<Seq<u8>> {
    tags.map_values(|t: String| encode_utf8(t@))
}

/// Joins the default tags with commas, as they are put after the per-call
/// tags of every frame.
pub fn join_default_tags(tags: &Vec<String>) -> (r: Vec<u8>)
    ensures
        r@ == join_tags(owned_tag_bytes(tags@)),
{
    let mut buf: Vec<u8> = Vec::new();
    let mut i: usize = 0;
    while i < tags.len()
        invariant
            i <= tags@.len(),
            buf@ == join_tags(owned_tag_bytes(tags@).take(i as int)),
        decreases tags@.len() - i,
    {
        if i > 0 {
            buf.push(COMMA);
        }
        push_bytes(&mut buf, tags[i].as_str().as_bytes());
        proof {
            let done = owned_tag_bytes(tags@).take(i as int + 1);
            assert(done.drop_last() =~= owned_tag_bytes(tags@).take(i as int));
        }
        i = i + 1;
    }
    assert(owned_tag_bytes(tags@).take(i as int) =~= owned_tag_bytes(tags@));
    buf
}

/// An event's frame never carries a namespace: under any namespace it is
/// the event's text followed by the tag section.
pub proof fn lemma_event_ignores_namespace(
    event: &Event,
    namespace: Seq<char>,
    tags: Seq<&str>,
    default_tags: Seq<u8>,
)
    ensures
        metric_frame(event, namespace, tags, default_tags) == encode_utf8(event.spec_text())
            + tag_section(tag_bytes(tags), default_tags),
{
    assert(Seq::<u8>::empty() + encode_utf8(event.spec_text()) =~= encode_utf8(event.spec_text()));
}

/// A service check's frame never carries a namespace: under any namespace
/// it is the check's text followed by the tag section.
pub proof fn lemma_service_check_ignores_namespace(
    check: &ServiceCheck,
    namespace: Seq<char>,
    tags: Seq<&str>,
    default_tags: Seq<u8>,
)
    ensures
        metric_frame(check, namespace, tags, default_tags) == encode_utf8(check.spec_text())
            + tag_section(tag_bytes(tags), default_tags),
{
    assert(Seq::<u8>::empty() + encode_utf8(check.spec_text()) =~= encode_utf8(check.spec_text()));
}

} // verus!
