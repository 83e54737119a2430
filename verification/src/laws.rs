//! What holds of a session, of a lookup and of a DNS-over-HTTPS exchange
//! over any run of calls, stated over the same functions as the contracts of
//! the calls themselves.

use vstd::prelude::*;
use crate::dns::{
    finding, first_usable, lemma_finding, none_usable, verdict, DnsAnswer, Finding, HostKind,
    RecordType, Verdict,
};
use crate::stream::{left_by_read, prefix_of, rest_of, served_by_read};
use crate::transport::{absorbed, TransportEvent};

verus! {

/// A call on a session that touches its buffer.
pub enum SessionCall {
    /// A turn of draining, by `fill_buffer_until` or by `process`, with the
    /// event that was handed to it.
    Drain(Option<TransportEvent>),
    /// A turn of `poll_read` for up to this many bytes, with the event that
    /// was handed to it.
    Read(usize, Option<TransportEvent>),
}

/// What a session that held `held` holds after a run of calls.
pub open spec fn left_after(held: Seq<u8>, calls: Seq<SessionCall>) -> Seq<u8>
    decreases calls.len(),
{
    if calls.len() == 0 {
        held
    } else {
        let before = left_after(held, calls.drop_last());
        match calls.last() {
            SessionCall::Drain(arrived) => absorbed(before, arrived),
            SessionCall::Read(max, arrived) => left_by_read(before, max, arrived),
        }
    }
}

/// What the reads of a run of calls have handed out, one after the other.
pub open spec fn served_over(held: Seq<u8>, calls: Seq<SessionCall>) -> Seq<u8>
    decreases calls.len(),
{
    if calls.len() == 0 {
        Seq::empty()
    } else {
        let before = left_after(held, calls.drop_last());
        let served = served_over(held, calls.drop_last());
        match calls.last() {
            SessionCall::Drain(_) => served,
            SessionCall::Read(max, arrived) => served + served_by_read(before, max, arrived),
        }
    }
}

/// The payloads of the messages that came with a run of calls, one after the
/// other.
pub open spec fn arrived_over(calls: Seq<SessionCall>) -> Seq<u8>
    decreases calls.len(),
{
    if calls.len() == 0 {
        Seq::empty()
    } else {
        let arrived = match calls.last() {
            SessionCall::Drain(arrived) => arrived,
            SessionCall::Read(_, arrived) => arrived,
        };
        absorbed(arrived_over(calls.drop_last()), arrived)
    }
}

/// The sum of the sizes of a run of reads.
pub open spec fn total_of(sizes: Seq<usize>) -> nat
    decreases sizes.len(),
{
    if sizes.len() == 0 {
        0
    } else {
        total_of(sizes.drop_last()) + sizes.last() as nat
    }
}

/// The run in which each of `events` is drained in turn and then one read is
/// made for each of `sizes`.
pub open spec fn drains_then_reads(events: Seq<TransportEvent>, sizes: Seq<usize>) -> Seq<
    SessionCall,
> {
    Seq::new(events.len(), |i: int| SessionCall::Drain(Some(events[i]))) + Seq::new(
        sizes.len(),
        |j: int| SessionCall::Read(sizes[j], None),
    )
}

/// Over any run of calls, in any order and with any sizes, the bytes that the
/// reads have handed out followed by the bytes still buffered are the bytes
/// buffered at the start followed by the payloads that arrived: no byte is
/// lost, doubled or moved.
pub proof fn lemma_stream_keeps_order(held: Seq<u8>, calls: Seq<SessionCall>)
    ensures
        served_over(held, calls) + left_after(held, calls) == held + arrived_over(calls),
    decreases calls.len(),
{
    if calls.len() > 0 {
        let front = calls.drop_last();
        lemma_stream_keeps_order(held, front);
        let served = served_over(held, front);
        let before = left_after(held, front);
        match calls.last() {
            SessionCall::Drain(Some(TransportEvent::Message(payload))) => {
                assert(served + (before + payload@) =~= (served + before) + payload@);
            },
            SessionCall::Read(max, Some(TransportEvent::Message(payload))) => {
                let whole = before + payload@;
                assert((served + prefix_of(whole, max)) + rest_of(whole, max) =~= served + whole);
                assert(served + whole =~= (served + before) + payload@);
            },
            _ => {},
        }
    }
}

proof fn lemma_run_splits(held: Seq<u8>, first: Seq<SessionCall>, second: Seq<SessionCall>)
    ensures
        left_after(held, first + second) == left_after(left_after(held, first), second),
        served_over(held, first + second) == served_over(held, first) + served_over(
            left_after(held, first),
            second,
        ),
    decreases second.len(),
{
    if second.len() > 0 {
        assert((first + second).drop_last() =~= first + second.drop_last());
        lemma_run_splits(held, first, second.drop_last());
    }
}

proof fn lemma_drains(held: Seq<u8>, events: Seq<TransportEvent>)
    ensures
        served_over(held, drains_then_reads(events, Seq::empty())) == Seq::<u8>::empty(),
    decreases events.len(),
{
    let calls = drains_then_reads(events, Seq::empty());
    if events.len() > 0 {
        assert(calls.drop_last() =~= drains_then_reads(events.drop_last(), Seq::empty()));
        lemma_drains(held, events.drop_last());
    }
}

proof fn lemma_reads(held: Seq<u8>, sizes: Seq<usize>)
    ensures
        served_over(held, drains_then_reads(Seq::empty(), sizes)).len() == if held.len()
            <= total_of(sizes) {
            held.len()
        } else {
            total_of(sizes)
        },
        arrived_over(drains_then_reads(Seq::empty(), sizes)) == Seq::<u8>::empty(),
    decreases sizes.len(),
{
    let calls = drains_then_reads(Seq::empty(), sizes);
    if sizes.len() > 0 {
        let front = drains_then_reads(Seq::empty(), sizes.drop_last());
        assert(calls.drop_last() =~= front);
        lemma_reads(held, sizes.drop_last());
        lemma_stream_keeps_order(held, front);
    }
}

/// Bytes that arrive in any number of events and are then read in any number
/// of reads of any sizes come out as they went in: the reads hand out, in
/// order, the first bytes of what arrived, as many as their sizes add up to
/// or all of them where they add up to more, and the rest stays buffered.
pub proof fn lemma_round_trip(events: Seq<TransportEvent>, sizes: Seq<usize>)
    ensures
        ({
            let calls = drains_then_reads(events, sizes);
            let arrived = arrived_over(calls);
            let read = served_over(Seq::empty(), calls);
            let left = left_after(Seq::empty(), calls);
            &&& read + left == arrived
            &&& read.len() == if arrived.len() <= total_of(sizes) {
                arrived.len()
            } else {
                total_of(sizes)
            }
            &&& total_of(sizes) >= arrived.len() ==> read == arrived
        }),
{
    let calls = drains_then_reads(events, sizes);
    let drains = drains_then_reads(events, Seq::empty());
    let reads = drains_then_reads(Seq::empty(), sizes);
    assert(calls =~= drains + reads);
    lemma_run_splits(Seq::empty(), drains, reads);
    lemma_drains(Seq::empty(), events);
    let got = left_after(Seq::empty(), drains);
    lemma_reads(got, sizes);
    lemma_stream_keeps_order(Seq::empty(), calls);
    lemma_stream_keeps_order(Seq::empty(), drains);
    lemma_stream_keeps_order(got, reads);
}

/// How the same bytes are cut into events, and how the reads are sized, makes
/// no difference to what is read, as long as the reads ask for all of it.
pub proof fn lemma_chunking_independence(
    events: Seq<TransportEvent>,
    sizes: Seq<usize>,
    other_events: Seq<TransportEvent>,
    other_sizes: Seq<usize>,
)
    requires
        arrived_over(drains_then_reads(events, sizes)) == arrived_over(
            drains_then_reads(other_events, other_sizes),
        ),
        total_of(sizes) >= arrived_over(drains_then_reads(events, sizes)).len(),
        total_of(other_sizes) >= arrived_over(drains_then_reads(events, sizes)).len(),
    ensures
        served_over(Seq::empty(), drains_then_reads(events, sizes)) == served_over(
            Seq::empty(),
            drains_then_reads(other_events, other_sizes),
        ),
{
    lemma_round_trip(events, sizes);
    lemma_round_trip(other_events, other_sizes);
}

/// The address that a lookup ends with when its A query is answered by `a`
/// and its AAAA query, where it is sent, by `aaaa`; `None` where the lookup
/// ends with no record.
pub open spec fn lookup_address(a: Seq<DnsAnswer>, aaaa: Seq<DnsAnswer>) -> Option<Seq<char>> {
    match finding(RecordType::A, a) {
        Finding::Found(i) => Some(a[i].data@),
        _ => match finding(RecordType::Aaaa, aaaa) {
            Finding::Found(j) => Some(aaaa[j].data@),
            _ => None,
        },
    }
}

/// How many queries such a lookup sends.
pub open spec fn lookup_queries(a: Seq<DnsAnswer>) -> nat {
    match finding(RecordType::A, a) {
        Finding::Found(_) => 1,
        _ => 2,
    }
}

/// The first IPv4 address among the A answers is the result. The entries
/// after it play no part, and the AAAA query is not sent.
pub proof fn lemma_a_record_wins(a: Seq<DnsAnswer>, aaaa: Seq<DnsAnswer>, i: int)
    requires
        first_usable(a, HostKind::Ipv4, i),
    ensures
        lookup_address(a, aaaa) == Some(a[i].data@),
        lookup_queries(a) == 1,
{
    lemma_finding(RecordType::A, a);
}

/// A name with an AAAA record and no A record resolves to the IPv6 address,
/// by the second of two queries: the A query is sent first.
pub proof fn lemma_aaaa_only(a: Seq<DnsAnswer>, aaaa: Seq<DnsAnswer>, j: int)
    requires
        none_usable(a, HostKind::Ipv4),
        first_usable(aaaa, HostKind::Ipv6, j),
    ensures
        finding(RecordType::A, a) == Finding::AskAaaa,
        lookup_address(a, aaaa) == Some(aaaa[j].data@),
        lookup_queries(a) == 2,
{
    lemma_finding(RecordType::A, a);
    lemma_finding(RecordType::Aaaa, aaaa);
}

/// A name with neither record ends the lookup with no record, after both
/// queries have been sent.
pub proof fn lemma_no_record(a: Seq<DnsAnswer>, aaaa: Seq<DnsAnswer>)
    requires
        none_usable(a, HostKind::Ipv4),
        none_usable(aaaa, HostKind::Ipv6),
    ensures
        finding(RecordType::A, a) == Finding::AskAaaa,
        finding(RecordType::Aaaa, aaaa) == Finding::NoRecord,
        lookup_address(a, aaaa) is None,
        lookup_queries(a) == 2,
{
    lemma_finding(RecordType::A, a);
    lemma_finding(RecordType::Aaaa, aaaa);
}

/// How an exchange stands.
pub enum Course {
    /// A request is out and its reply has not come.
    Pending,
    /// The exchange ended with this reply.
    Delivered(Seq<u8>),
    /// The exchange ended for want of retries.
    Exhausted,
}

/// How an exchange that starts with `retries` retries in hand stands after
/// the bodies `replies` have come, one to each request in turn.
pub open spec fn doh_course(retries: nat, replies: Seq<Seq<u8>>) -> Course
    decreases replies.len(),
{
    if replies.len() == 0 {
        Course::Pending
    } else {
        match verdict(retries, replies[0]) {
            Verdict::Deliver => Course::Delivered(replies[0]),
            Verdict::GiveUp => Course::Exhausted,
            Verdict::Retry => doh_course((retries - 1) as nat, replies.drop_first()),
        }
    }
}

/// How many requests such an exchange has sent: the first one, and one for
/// each retry.
pub open spec fn doh_requests(retries: nat, replies: Seq<Seq<u8>>) -> nat
    decreases replies.len(),
{
    if replies.len() == 0 {
        1
    } else {
        match verdict(retries, replies[0]) {
            Verdict::Retry => 1 + doh_requests((retries - 1) as nat, replies.drop_first()),
            _ => 1,
        }
    }
}

/// Empty replies all along use up the retries, every one of them and no
/// more, and then the exchange fails: with `retries` retries configured,
/// `retries + 1` requests go out.
pub proof fn lemma_doh_exhausts(retries: nat, replies: Seq<Seq<u8>>)
    requires
        replies.len() > retries,
        forall|i: int| 0 <= i <= retries ==> (#[trigger] replies[i]).len() == 0,
    ensures
        doh_course(retries, replies) == Course::Exhausted,
        doh_requests(retries, replies) == retries + 1,
    decreases retries,
{
    if retries > 0 {
        let rest = replies.drop_first();
        assert forall|i: int| 0 <= i <= retries - 1 implies (#[trigger] rest[i]).len() == 0 by {
            assert(rest[i] == replies[i + 1]);
        }
        lemma_doh_exhausts((retries - 1) as nat, rest);
    }
}

/// The first reply with a body ends the exchange and is its result: after
/// `k` empty replies, with `k` retries or more configured, `k + 1` requests
/// have gone out and no further one does, whatever replies might follow.
pub proof fn lemma_doh_short_circuits(retries: nat, replies: Seq<Seq<u8>>, k: int)
    requires
        0 <= k <= retries,
        k < replies.len(),
        forall|i: int| 0 <= i < k ==> (#[trigger] replies[i]).len() == 0,
        replies[k].len() > 0,
    ensures
        doh_course(retries, replies) == Course::Delivered(replies[k]),
        doh_requests(retries, replies) == k + 1,
    decreases k,
{
    if k > 0 {
        let rest = replies.drop_first();
        assert forall|i: int| 0 <= i < k - 1 implies (#[trigger] rest[i]).len() == 0 by {
            assert(rest[i] == replies[i + 1]);
        }
        lemma_doh_short_circuits((retries - 1) as nat, rest, k - 1);
    }
}

} // verus!
