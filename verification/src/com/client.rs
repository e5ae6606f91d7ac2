//! The requests to the pool, proxy or wallet as plain values, and the
//! ranking of nonce submissions.

use crate::com::encode::{decimal, form_urlencode, u64_to_string, urlencoded};
use std::cmp::Ordering;
use vstd::prelude::*;
use vstd::std_specs::cmp::{PartialEqSpecImpl, PartialOrdSpecImpl};
use vstd::utf8::encode_utf8;

verus! {

/// Parameters used for nonce submission. `block` counts the rounds that the
/// driver has seen; `deadline` is `deadline_unadjusted` divided by the base
/// target of the round.
#[derive(Clone, Copy, Debug, Eq)]
pub struct SubmissionParameters {
    pub account_id: u64,
    pub nonce: u64,
    pub height: u64,
    pub block: u64,
    pub deadline_unadjusted: u64,
    pub deadline: u64,
    pub gen_sig: [u8; 32],
}

/// Whether to send additional data for proxies.
#[derive(Clone, Copy, Debug, PartialEq, Eq, Structural)]
pub enum ProxyDetails {
    /// Send additional data like the miner's name.
    Enabled,
    /// Don't send any additional data.
    Disabled,
}

/// Compares two generation signatures byte by byte.
pub fn same_signature(a: &[u8; 32], b: &[u8; 32]) -> (same: bool)
    ensures
        same == (a@ == b@),
{
    let mut i: usize = 0;
    while i < 32
        invariant
            i <= 32,
            forall|j: int| 0 <= j < i ==> a@[j] == b@[j],
        decreases 32 - i,
    {
        if a[i] != b[i] {
            return false;
        }
        i += 1;
    }
    assert(a@ =~= b@);
    true
}

impl SubmissionParameters {
    /// `self` ranks below `other`: it is of an earlier round, or of the same
    /// round and either of another chain, so that `other` is the newer one,
    /// or of the same chain with a longer deadline.
    pub open spec fn ranks_below(&self, other: &SubmissionParameters) -> bool {
        self.block < other.block || (self.block == other.block && (self.gen_sig@
            != other.gen_sig@ || self.deadline > other.deadline))
    }

    /// `self` and `other` rank alike: they are of the same round and chain
    /// and have the same deadline.
    pub open spec fn ranks_with(&self, other: &SubmissionParameters) -> bool {
        self.block == other.block && self.gen_sig@ == other.gen_sig@ && self.deadline
            == other.deadline
    }

    /// How `self` ranks against `other`: below it, with it, or above it.
    pub open spec fn ordering(&self, other: &SubmissionParameters) -> Ordering {
        if self.ranks_below(other) {
            Ordering::Less
        } else if self.ranks_with(other) {
            Ordering::Equal
        } else {
            Ordering::Greater
        }
    }

    /// Ranks `self` against `other`: first by round, the later one above
    /// the earlier; within a round and chain by deadline, the shorter one
    /// above the longer. Of two submissions of one round on different
    /// chains the other one is the newer, and ranks above.
    pub fn cmp(&self, other: &SubmissionParameters) -> (r: Ordering)
        ensures
            r == self.ordering(other),
    {
        if self.block < other.block {
            Ordering::Less
        } else if self.block > other.block {
            Ordering::Greater
        } else if same_signature(&self.gen_sig, &other.gen_sig) {
            // on the same chain, the best deadline wins
            if self.deadline < other.deadline {
                Ordering::Greater
            } else if self.deadline == other.deadline {
                Ordering::Equal
            } else {
                Ordering::Less
            }
        } else {
            // switched to a new chain
            Ordering::Less
        }
    }

    /// All fields are equal.
    pub open spec fn same_as(&self, other: &SubmissionParameters) -> bool {
        &&& self.account_id == other.account_id
        &&& self.nonce == other.nonce
        &&& self.height == other.height
        &&& self.block == other.block
        &&& self.deadline_unadjusted == other.deadline_unadjusted
        &&& self.deadline == other.deadline
        &&& self.gen_sig@ == other.gen_sig@
    }
}

impl PartialEq for SubmissionParameters {
    fn eq(&self, other: &SubmissionParameters) -> (r: bool) {
        self.account_id == other.account_id && self.nonce == other.nonce && self.height
            == other.height && self.block == other.block && self.deadline_unadjusted
            == other.deadline_unadjusted && self.deadline == other.deadline && same_signature(
            &self.gen_sig,
            &other.gen_sig,
        )
    }
}

impl PartialEqSpecImpl for SubmissionParameters {
    open spec fn obeys_eq_spec() -> bool {
        true
    }

    open spec fn eq_spec(&self, other: &SubmissionParameters) -> bool {
        self.same_as(other)
    }
}

/// Useful for deciding which submission parameters are the newest and best:
/// the best ones are kept and sent again when sending fails, and better ones
/// that come in the meantime take their place. Submissions of the same
/// round and chain with the same deadline compare as equal, so that neither
/// takes the place of the other.
impl PartialOrd for SubmissionParameters {
    fn partial_cmp(&self, other: &SubmissionParameters) -> (r: Option<Ordering>) {
        Some(self.cmp(other))
    }
}

impl PartialOrdSpecImpl for SubmissionParameters {
    open spec fn obeys_partial_cmp_spec() -> bool {
        true
    }

    open spec fn partial_cmp_spec(&self, other: &SubmissionParameters) -> Option<Ordering> {
        Some(self.ordering(other))
    }
}

/// How a request is sent.
#[derive(Clone, Copy, Debug, PartialEq, Eq, Structural)]
pub enum Method {
    Get,
    Post,
}

/// A request to the pool, proxy or wallet: the last segment of its path
/// under the base address, its query, and its headers in the order in which
/// they are set. A header that is set again replaces the one set before.
pub struct Request {
    pub method: Method,
    pub path: String,
    pub query: String,
    pub headers: Vec<(String, String)>,
}

/// A client for communicating with pool, proxy or wallet: where its
/// requests go, and what it sends with every request.
pub struct Client {
    /// The address of the pool, proxy or wallet.
    pub base_uri: String,
    /// The secret phrase, form-urlencoded.
    pub secret_phrase: String,
    pub headers: Vec<(String, String)>,
}

/// The address `base` with the segment `path` behind its path, as the `url`
/// crate writes it; `None` where `base` is no address, or one that cannot
/// have segments.
pub uninterp spec fn uri_with_segment(base: Seq<char>, path: Seq<char>) -> Option<Seq<char>>;

/// Names and values of the headers `h` as text.
pub open spec fn header_views(h: Seq<(String, String)>) -> Seq<(Seq<char>, Seq<char>)> {
    h.map_values(|p: (String, String)| (p.0@, p.1@))
}

/// What the client calls itself.
pub open spec fn user_agent() -> Seq<char> {
    "Bencher/0.1.0"@
}

/// The headers of every request: the user agent; for a proxy also the
/// miner, the name of the machine and the plot file that stands for it; and
/// then the configured headers.
pub open spec fn common_headers(
    proxy_details: ProxyDetails,
    additional_headers: Seq<(Seq<char>, Seq<char>)>,
    hostname: Seq<char>,
) -> Seq<(Seq<char>, Seq<char>)> {
    seq![("User-Agent"@, user_agent())] + (if proxy_details == ProxyDetails::Enabled {
        seq![
            ("X-Miner"@, user_agent()),
            ("X-Minername"@, hostname),
            ("X-Plotfile"@, "ScavengerProxy/"@ + hostname),
        ]
    } else {
        Seq::empty()
    }) + additional_headers
}

/// The query of a nonce submission. The secret phrase is given
/// form-urlencoded. Without one the request goes to a pool or proxy, which
/// gets the unadjusted deadline too.
pub open spec fn submit_query(
    account_id: u64,
    nonce: u64,
    secret_phrase: Seq<char>,
    height: u64,
    deadline_unadjusted: u64,
) -> Seq<char> {
    "requestType=submitNonce&accountId="@ + decimal(account_id as nat) + "&nonce="@ + decimal(
        nonce as nat,
    ) + "&secretPhrase="@ + secret_phrase + "&blockheight="@ + decimal(height as nat) + (
    if secret_phrase.len() == 0 {
        "&deadline="@ + decimal(deadline_unadjusted as nat)
    } else {
        Seq::empty()
    })
}

/// `hostname::get`: the name of this machine, where the system gives one
/// that is valid Unicode. Nothing is claimed of the name.
#[verifier::external_body]
fn system_hostname() -> (name: Option<String>) {
    match hostname::get() {
        Ok(name) => name.into_string().ok(),
        Err(_) => None,
    }
}

/// `Url::parse`, `Url::path_segments_mut`, and `pop_if_empty` and `push`
/// of the segments, of the `url` crate: `base` is read as an address, an
/// empty last segment of its path is dropped, and `path` becomes the last
/// segment. There is no result where `base` does not parse or cannot be a
/// base. The contract gives the result its name and claims nothing else.
#[verifier::external_body]
fn push_segment(base: &str, path: &str) -> (uri: Option<String>)
    ensures
        match uri {
            Some(u) => uri_with_segment(base@, path@) == Some(u@),
            None => uri_with_segment(base@, path@) is None,
        },
{
    let mut url = url::Url::parse(base).ok()?;
    url.path_segments_mut().ok()?.pop_if_empty().push(path);
    Some(url.into())
}

fn header(name: &str, value: String) -> (h: (String, String))
    ensures
        h.0@ == name@,
        h.1@ == value@,
{
    (String::from_str(name), value)
}

fn copy_headers(headers: &Vec<(String, String)>) -> (copy: Vec<(String, String)>)
    ensures
        header_views(copy@) == header_views(headers@),
{
    let mut copy: Vec<(String, String)> = Vec::new();
    let mut i: usize = 0;
    while i < headers.len()
        invariant
            i <= headers@.len(),
            copy@.len() == i,
            forall|j: int|
                0 <= j < i ==> copy@[j].0@ == headers@[j].0@ && copy@[j].1@ == headers@[j].1@,
        decreases headers@.len() - i,
    {
        copy.push((headers[i].0.clone(), headers[i].1.clone()));
        i += 1;
    }
    copy
}

fn append_headers(to: &mut Vec<(String, String)>, headers: &Vec<(String, String)>)
    ensures
        header_views(final(to)@) == header_views(old(to)@) + header_views(headers@),
{
    let ghost before = to@;
    let mut i: usize = 0;
    while i < headers.len()
        invariant
            i <= headers@.len(),
            to@.len() == before.len() + i,
            forall|j: int| 0 <= j < before.len() ==> to@[j] == before[j],
            forall|j: int|
                0 <= j < i ==> to@[before.len() + j].0@ == headers@[j].0@ && to@[before.len()
                    + j].1@ == headers@[j].1@,
        decreases headers@.len() - i,
    {
        to.push((headers[i].0.clone(), headers[i].1.clone()));
        i += 1;
    }
}

impl Client {
    /// The name under which the client presents itself.
    pub fn ua() -> (ua: String)
        ensures
            ua@ == user_agent(),
    {
        String::from_str("Bencher/0.1.0")
    }

    /// The headers of every request of a client on the machine `hostname`.
    pub fn headers_on_host(
        proxy_details: ProxyDetails,
        additional_headers: &Vec<(String, String)>,
        hostname: &str,
    ) -> (headers: Vec<(String, String)>)
        ensures
            header_views(headers@) == common_headers(
                proxy_details,
                header_views(additional_headers@),
                hostname@,
            ),
    {
        let mut headers: Vec<(String, String)> = Vec::new();
        headers.push(header("User-Agent", Client::ua()));
        match proxy_details {
            ProxyDetails::Enabled => {
                // a user agent alone is not enough for some proxies
                headers.push(header("X-Miner", Client::ua()));
                headers.push(header("X-Minername", String::from_str(hostname)));
                headers.push(
                    header("X-Plotfile", String::from_str("ScavengerProxy/").concat(hostname)),
                );
            },
            ProxyDetails::Disabled => {
            },
        }
        append_headers(&mut headers, additional_headers);
        headers
    }

    /// The headers of every request of a client on this machine. A machine
    /// whose name cannot be had counts as nameless.
    pub fn submit_nonce_headers(
        proxy_details: ProxyDetails,
        additional_headers: &Vec<(String, String)>,
    ) -> (headers: Vec<(String, String)>)
        ensures
            exists|hostname: Seq<char>|
                header_views(headers@) == common_headers(
                    proxy_details,
                    header_views(additional_headers@),
                    hostname,
                ),
            proxy_details == ProxyDetails::Disabled ==> header_views(headers@) == common_headers(
                proxy_details,
                header_views(additional_headers@),
                Seq::empty(),
            ),
    {
        match proxy_details {
            ProxyDetails::Enabled => {
                let hostname = match system_hostname() {
                    Some(name) => name,
                    None => String::new(),
                };
                Client::headers_on_host(proxy_details, additional_headers, hostname.as_str())
            },
            ProxyDetails::Disabled => Client::headers_on_host(
                proxy_details,
                additional_headers,
                "",
            ),
        }
    }

    /// Creates a client for the pool at `base_uri` that sends
    /// `secret_phrase` and, from `headers`, what goes with every request.
    pub fn with_headers(
        base_uri: &str,
        secret_phrase: &str,
        headers: Vec<(String, String)>,
    ) -> (client: Client)
        ensures
            client.base_uri@ == base_uri@,
            client.secret_phrase@ == urlencoded(encode_utf8(secret_phrase@)),
            client.headers == headers,
    {
        Client {
            base_uri: String::from_str(base_uri),
            secret_phrase: form_urlencode(secret_phrase.as_bytes()),
            headers,
        }
    }

    /// Creates a new client for communicating with pool, proxy or wallet.
    pub fn new(
        base_uri: &str,
        secret_phrase: &str,
        proxy_details: ProxyDetails,
        additional_headers: &Vec<(String, String)>,
    ) -> (client: Client)
        ensures
            client.base_uri@ == base_uri@,
            client.secret_phrase@ == urlencoded(encode_utf8(secret_phrase@)),
            exists|hostname: Seq<char>|
                header_views(client.headers@) == common_headers(
                    proxy_details,
                    header_views(additional_headers@),
                    hostname,
                ),
            proxy_details == ProxyDetails::Disabled ==> header_views(client.headers@)
                == common_headers(
                proxy_details,
                header_views(additional_headers@),
                Seq::empty(),
            ),
    {
        Client::with_headers(
            base_uri,
            secret_phrase,
            Client::submit_nonce_headers(proxy_details, additional_headers),
        )
    }

    /// The address of `path` under the base address of the client: the
    /// base address with `path` as the last segment of its path. There is
    /// none where the base address is no address, or one that cannot have
    /// segments.
    pub fn uri_for(&self, path: &str) -> (uri: Option<String>)
        ensures
            match uri {
                Some(u) => uri_with_segment(self.base_uri@, path@) == Some(u@),
                None => uri_with_segment(self.base_uri@, path@) is None,
            },
    {
        push_segment(self.base_uri.as_str(), path)
    }

    /// `request` is the request with which this client asks for the
    /// current mining info: a GET to `burst` with the headers of the
    /// client, the capacity that was measured last, the processors at work,
    /// and then the given headers.
    pub open spec fn mining_info_request(
        &self,
        request: Request,
        capacity: u64,
        additional_headers: Seq<(String, String)>,
        xpu_string: Seq<char>,
    ) -> bool {
        &&& request.method == Method::Get
        &&& request.path@ == "burst"@
        &&& request.query@ == "requestType=getMiningInfo"@
        &&& header_views(request.headers@) == header_views(self.headers@) + seq![
            ("X-Capacity"@, decimal(capacity as nat)),
            ("X-Xpu"@, xpu_string),
        ] + header_views(additional_headers)
    }

    /// The request for the current mining info.
    pub fn get_mining_info(
        &self,
        capacity: u64,
        additional_headers: &Vec<(String, String)>,
        xpu_string: &str,
    ) -> (request: Request)
        ensures
            self.mining_info_request(request, capacity, additional_headers@, xpu_string@),
    {
        let mut headers = copy_headers(&self.headers);
        let ghost own = headers@;
        headers.push(header("X-Capacity", u64_to_string(capacity)));
        headers.push(header("X-Xpu", String::from_str(xpu_string)));
        assert(header_views(headers@) =~= header_views(own) + seq![
            ("X-Capacity"@, decimal(capacity as nat)),
            ("X-Xpu"@, xpu_string@),
        ]);
        append_headers(&mut headers, additional_headers);
        Request {
            method: Method::Get,
            path: String::from_str("burst"),
            query: String::from_str("requestType=getMiningInfo"),
            headers,
        }
    }

    /// `request` is the request with which this client submits
    /// `submission_data`: a POST to `burst` with the query of the
    /// submission, the headers of the client, and the adjusted deadline in
    /// the header `X-Deadline`.
    pub open spec fn submission_of(
        &self,
        request: Request,
        submission_data: SubmissionParameters,
    ) -> bool {
        &&& request.method == Method::Post
        &&& request.path@ == "burst"@
        &&& request.query@ == submit_query(
            submission_data.account_id,
            submission_data.nonce,
            self.secret_phrase@,
            submission_data.height,
            submission_data.deadline_unadjusted,
        )
        &&& header_views(request.headers@) == header_views(self.headers@).push(
            ("X-Deadline"@, decimal(submission_data.deadline as nat)),
        )
    }

    /// The request that submits a nonce to the pool. The adjusted deadline
    /// goes into a header for the proxies that look for it there.
    pub fn submit_nonce(&self, submission_data: &SubmissionParameters) -> (request: Request)
        ensures
            self.submission_of(request, *submission_data),
    {
        let mut query = String::from_str("requestType=submitNonce&accountId=");
        query.append(u64_to_string(submission_data.account_id).as_str());
        query.append("&nonce=");
        query.append(u64_to_string(submission_data.nonce).as_str());
        query.append("&secretPhrase=");
        query.append(self.secret_phrase.as_str());
        query.append("&blockheight=");
        query.append(u64_to_string(submission_data.height).as_str());
        // Without a secret phrase the other side is most likely a pool or a
        // proxy. Both can make use of the deadline, and legacy proxies rank
        // by the unadjusted one.
        if self.secret_phrase.as_str().is_empty() {
            query.append("&deadline=");
            query.append(u64_to_string(submission_data.deadline_unadjusted).as_str());
        }
        assert(query@ =~= submit_query(
            submission_data.account_id,
            submission_data.nonce,
            self.secret_phrase@,
            submission_data.height,
            submission_data.deadline_unadjusted,
        ));
        let mut headers = copy_headers(&self.headers);
        let ghost own = headers@;
        headers.push(header("X-Deadline", u64_to_string(submission_data.deadline)));
        assert(header_views(headers@) =~= header_views(own).push(
            ("X-Deadline"@, decimal(submission_data.deadline as nat)),
        ));
        Request { method: Method::Post, path: String::from_str("burst"), query, headers }
    }
}

} // verus!
