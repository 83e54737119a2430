//! Resolution over DNS-over-HTTPS: which queries go out, and what is made of
//! the replies.

use vstd::prelude::*;
use vstd::slice::slice_to_vec;
use crate::config::Config;
use crate::http::{Header, HttpRequest, HttpRequestView, Method};

verus! {

/// How a host string reads: as an IPv4 literal, as an IPv6 literal, or as
/// neither, which leaves a name.
#[derive(Clone, Copy, Debug, PartialEq, Eq, Structural)]
pub enum HostKind {
    Ipv4,
    Ipv6,
    Name,
}

/// The two record types that a lookup asks for, in this order.
#[derive(Clone, Copy, Debug, PartialEq, Eq, Structural)]
pub enum RecordType {
    A,
    Aaaa,
}

/// One entry of a reply's answer section: its data field, and how that reads.
#[derive(Debug, PartialEq, Eq)]
pub struct DnsAnswer {
    pub data: String,
    pub kind: HostKind,
}

/// Why a lookup gave no address.
#[derive(Debug, PartialEq, Eq)]
pub enum ResolveError {
    /// A query could not be exchanged, or its reply could not be read.
    Lookup(String),
    /// Neither the A nor the AAAA reply held a valid address.
    NoRecord,
    /// Every reply was empty, up to the last retry.
    Exhausted,
}

/// The kind of address that answers a query of the given type.
pub open spec fn answer_kind(asked: RecordType) -> HostKind {
    match asked {
        RecordType::A => HostKind::Ipv4,
        RecordType::Aaaa => HostKind::Ipv6,
    }
}

/// Entry `i` is the first of `answers` that reads as `kind`.
pub open spec fn first_usable(answers: Seq<DnsAnswer>, kind: HostKind, i: int) -> bool {
    &&& 0 <= i < answers.len()
    &&& answers[i].kind == kind
    &&& forall|j: int| 0 <= j < i ==> (#[trigger] answers[j]).kind != kind
}

/// No entry of `answers` reads as `kind`.
pub open spec fn none_usable(answers: Seq<DnsAnswer>, kind: HostKind) -> bool {
    forall|j: int| 0 <= j < answers.len() ==> (#[trigger] answers[j]).kind != kind
}

/// What a reply's answers bring to the lookup that asked for them.
pub enum Finding {
    /// The entry at this index is the address.
    Found(int),
    /// No entry will do, and the other record type is still to be asked for.
    AskAaaa,
    /// No entry will do, and nothing is left to ask.
    NoRecord,
}

/// What the answers to a query of type `asked` bring: the first entry that
/// reads as an address of the family asked for, whatever follows it; without
/// one, the AAAA query after the A query, and no record after that.
pub open spec fn finding(asked: RecordType, answers: Seq<DnsAnswer>) -> Finding {
    if exists|i: int| first_usable(answers, answer_kind(asked), i) {
        Finding::Found(choose|i: int| first_usable(answers, answer_kind(asked), i))
    } else if asked == RecordType::A {
        Finding::AskAaaa
    } else {
        Finding::NoRecord
    }
}

/// The text of a record type in a query.
pub open spec fn record_type_text(asked: RecordType) -> Seq<char> {
    match asked {
        RecordType::A => "A"@,
        RecordType::Aaaa => "AAAA"@,
    }
}

/// The query that asks the JSON resolver for one record type of a name.
pub open spec fn lookup_request(domain: Seq<char>, asked: RecordType) -> HttpRequestView {
    HttpRequestView {
        method: Method::Get,
        url: "https://dns.google/resolve?name="@ + domain + "&type="@ + record_type_text(asked),
        headers: Seq::empty(),
        body: None,
    }
}

/// What [`finding`] is on answers with a first usable entry, and on answers
/// with none.
pub proof fn lemma_finding(asked: RecordType, answers: Seq<DnsAnswer>)
    ensures
        forall|i: int| first_usable(answers, answer_kind(asked), i) ==> finding(asked, answers)
            == Finding::Found(i),
        none_usable(answers, answer_kind(asked)) ==> finding(asked, answers) == (if asked
            == RecordType::A {
            Finding::AskAaaa
        } else {
            Finding::NoRecord
        }),
{
    let kind = answer_kind(asked);
    assert forall|i: int| first_usable(answers, kind, i) implies finding(asked, answers)
        == Finding::Found(i) by {
        let first = choose|c: int| first_usable(answers, kind, c);
        assert(first == i);
    }
}

/// A lookup under way: the name, and the record type of the query that is out.
#[derive(Debug, PartialEq, Eq)]
pub struct Resolution {
    domain: String,
    asked: RecordType,
}

/// What a lookup does next.
#[derive(Debug, PartialEq, Eq)]
pub enum ResolveStep {
    /// Send this query and hand its reply to the lookup that comes with it.
    Query(Resolution, HttpRequest),
    /// The lookup is over: this is the address.
    Resolved(String),
    /// The lookup is over without an address.
    Failed(ResolveError),
}

fn build_lookup(domain: &str, asked: RecordType) -> (req: HttpRequest)
    ensures
        req@ == lookup_request(domain@, asked),
{
    let url = String::from_str("https://dns.google/resolve?name=").concat(domain).concat("&type=");
    let url = match asked {
        RecordType::A => url.concat("A"),
        RecordType::Aaaa => url.concat("AAAA"),
    };
    let req = HttpRequest { method: Method::Get, url, headers: Vec::new(), body: None };
    assert(req@.headers =~= Seq::empty());
    req
}

/// Finds the first answer that reads as `kind`.
fn find_usable(answers: &Vec<DnsAnswer>, kind: HostKind) -> (found: Option<usize>)
    ensures
        match found {
            Some(i) => first_usable(answers@, kind, i as int),
            None => none_usable(answers@, kind),
        },
{
    let mut i: usize = 0;
    while i < answers.len()
        invariant
            i <= answers.len(),
            forall|j: int| 0 <= j < i ==> (#[trigger] answers@[j]).kind != kind,
        decreases answers.len() - i,
    {
        if answers[i].kind == kind {
            return Some(i);
        }
        i = i + 1;
    }
    None
}

/// Starts a lookup of `domain`: the A query goes out first.
pub fn resolve(domain: &str) -> (r: (Resolution, HttpRequest))
    ensures
        r.0.domain() == domain@,
        r.0.asked() == RecordType::A,
        r.1@ == lookup_request(domain@, RecordType::A),
{
    let req = build_lookup(domain, RecordType::A);
    (Resolution { domain: String::from_str(domain), asked: RecordType::A }, req)
}

impl Resolution {
    /// The name being looked up.
    pub closed spec fn domain(&self) -> Seq<char> {
        self.domain@
    }

    /// The record type of the query that is out.
    pub closed spec fn asked(&self) -> RecordType {
        self.asked
    }

    /// Takes the reply to the query that is out: the answer entries, or why
    /// there are none to read.
    ///
    /// The first entry that reads as an address of the family asked for ends
    /// the lookup; entries after it are not looked at. An A reply without
    /// such an entry is followed by the AAAA query; an AAAA reply without one
    /// ends the lookup with `NoRecord`. A failed exchange ends it at once.
    pub fn reply(self, outcome: Result<Vec<DnsAnswer>, String>) -> (step: ResolveStep)
        ensures
            match step {
                ResolveStep::Resolved(addr) => {
                    &&& outcome matches Ok(answers)
                    &&& finding(self.asked(), answers@) matches Finding::Found(i)
                    &&& addr@ == answers@[i].data@
                },
                ResolveStep::Query(next, req) => {
                    &&& outcome matches Ok(answers)
                    &&& finding(self.asked(), answers@) == Finding::AskAaaa
                    &&& next.asked() == RecordType::Aaaa
                    &&& next.domain() == self.domain()
                    &&& req@ == lookup_request(self.domain(), RecordType::Aaaa)
                },
                ResolveStep::Failed(ResolveError::NoRecord) => {
                    &&& outcome matches Ok(answers)
                    &&& finding(self.asked(), answers@) == Finding::NoRecord
                },
                ResolveStep::Failed(ResolveError::Lookup(why)) => outcome matches Err(cause)
                    && why@ == cause@,
                ResolveStep::Failed(ResolveError::Exhausted) => false,
            },
    {
        let answers = match outcome {
            Ok(answers) => answers,
            Err(cause) => {
                return ResolveStep::Failed(ResolveError::Lookup(cause));
            },
        };
        let wanted = match self.asked {
            RecordType::A => HostKind::Ipv4,
            RecordType::Aaaa => HostKind::Ipv6,
        };
        let found = find_usable(&answers, wanted);
        proof {
            lemma_finding(self.asked, answers@);
        }
        match found {
            Some(i) => ResolveStep::Resolved(answers[i].data.clone()),
            None => match self.asked {
                RecordType::A => {
                    let req = build_lookup(self.domain.as_str(), RecordType::Aaaa);
                    ResolveStep::Query(
                        Resolution { domain: self.domain, asked: RecordType::Aaaa },
                        req,
                    )
                },
                RecordType::Aaaa => ResolveStep::Failed(ResolveError::NoRecord),
            },
        }
    }
}

/// What an exchange makes of a reply that arrived.
#[derive(Clone, Copy, Debug, PartialEq, Eq, Structural)]
pub enum Verdict {
    /// The reply has a body: it is the answer.
    Deliver,
    /// The reply is empty and a retry is left: ask again.
    Retry,
    /// The reply is empty and no retry is left.
    GiveUp,
}

/// The verdict on a reply with this body, with this many retries left.
pub open spec fn verdict(retries_left: nat, body: Seq<u8>) -> Verdict {
    if body.len() > 0 {
        Verdict::Deliver
    } else if retries_left > 0 {
        Verdict::Retry
    } else {
        Verdict::GiveUp
    }
}

/// The request that carries a wire-format query to the DNS-over-HTTPS
/// endpoint: a POST of the query as it is, marked as a DNS message both ways.
pub open spec fn doh_request(query: Seq<u8>) -> HttpRequestView {
    HttpRequestView {
        method: Method::Post,
        url: "https://1.1.1.1/dns-query"@,
        headers: seq![
            ("Content-Type"@, "application/dns-message"@),
            ("Accept"@, "application/dns-message"@),
        ],
        body: Some(query),
    }
}

/// A DNS-over-HTTPS exchange under way: the query, and what is left of the
/// retry allowance.
#[derive(Debug, PartialEq, Eq)]
pub struct DohExchange {
    query: Vec<u8>,
    retries_left: u32,
    backoff_ms: u64,
}

/// What an exchange does next.
#[derive(Debug, PartialEq, Eq)]
pub enum DohStep {
    /// Wait this long, send the request again, and hand the reply to the
    /// exchange that comes with it.
    Retry { exchange: DohExchange, after_ms: u64, request: HttpRequest },
    /// The exchange is over: these are the reply's bytes.
    Done(Vec<u8>),
    /// The exchange is over without a reply.
    Failed(ResolveError),
}

fn build_doh_request(query: &[u8]) -> (req: HttpRequest)
    ensures
        req@ == doh_request(query@),
{
    let mut headers: Vec<Header> = Vec::new();
    headers.push(
        Header {
            name: String::from_str("Content-Type"),
            value: String::from_str("application/dns-message"),
        },
    );
    headers.push(
        Header {
            name: String::from_str("Accept"),
            value: String::from_str("application/dns-message"),
        },
    );
    let req = HttpRequest {
        method: Method::Post,
        url: String::from_str("https://1.1.1.1/dns-query"),
        headers,
        body: Some(slice_to_vec(query)),
    };
    assert(req@.headers =~= doh_request(query@).headers);
    req
}

/// Starts the exchange of one wire-format query: the request goes out for
/// the first time, with the whole retry allowance of `config` in hand.
pub fn doh(req_wireformat: &[u8], config: &Config) -> (r: (DohExchange, HttpRequest))
    ensures
        r.0.query() == req_wireformat@,
        r.0.retries_left() == config.doh_retries,
        r.0.backoff_ms() == config.doh_backoff_ms,
        r.1@ == doh_request(req_wireformat@),
{
    let request = build_doh_request(req_wireformat);
    let exchange = DohExchange {
        query: slice_to_vec(req_wireformat),
        retries_left: config.doh_retries,
        backoff_ms: config.doh_backoff_ms,
    };
    (exchange, request)
}

impl DohExchange {
    /// The query being exchanged.
    pub closed spec fn query(&self) -> Seq<u8> {
        self.query@
    }

    /// How many more times the request may be sent again.
    pub closed spec fn retries_left(&self) -> nat {
        self.retries_left as nat
    }

    /// The pause before a retry, in milliseconds.
    pub closed spec fn backoff_ms(&self) -> u64 {
        self.backoff_ms
    }

    /// Takes the outcome of the request that is out: the reply's body, or why
    /// there is none.
    ///
    /// A body with bytes in it ends the exchange and is handed on as it is.
    /// An empty body uses up one retry: the same request goes out again after
    /// the pause, or, with no retry left, the exchange fails as exhausted. A
    /// request that could not be exchanged fails it at once.
    pub fn reply(self, outcome: Result<Vec<u8>, String>) -> (step: DohStep)
        ensures
            match step {
                DohStep::Done(bytes) => {
                    &&& outcome matches Ok(body)
                    &&& verdict(self.retries_left(), body@) == Verdict::Deliver
                    &&& bytes@ == body@
                },
                DohStep::Retry { exchange, after_ms, request } => {
                    &&& outcome matches Ok(body)
                    &&& verdict(self.retries_left(), body@) == Verdict::Retry
                    &&& exchange.query() == self.query()
                    &&& exchange.retries_left() == self.retries_left() - 1
                    &&& exchange.backoff_ms() == self.backoff_ms()
                    &&& after_ms == self.backoff_ms()
                    &&& request@ == doh_request(self.query())
                },
                DohStep::Failed(ResolveError::Exhausted) => {
                    &&& outcome matches Ok(body)
                    &&& verdict(self.retries_left(), body@) == Verdict::GiveUp
                },
                DohStep::Failed(ResolveError::Lookup(why)) => outcome matches Err(cause) && why@
                    == cause@,
                DohStep::Failed(ResolveError::NoRecord) => false,
            },
    {
        match outcome {
            Err(cause) => DohStep::Failed(ResolveError::Lookup(cause)),
            Ok(body) => {
                if body.len() > 0 {
                    DohStep::Done(body)
                } else if self.retries_left > 0 {
                    let request = build_doh_request(self.query.as_slice());
                    let after_ms: u64 = self.backoff_ms;
                    let exchange = DohExchange {
                        query: self.query,
                        retries_left: self.retries_left - 1,
                        backoff_ms: self.backoff_ms,
                    };
                    DohStep::Retry { exchange, after_ms, request }
                } else {
                    DohStep::Failed(ResolveError::Exhausted)
                }
            },
        }
    }
}

} // verus!
