//! The decision taken for one inbound request, and the response that
//! carries it.

use crate::authority::{is_host_port, is_socket_address};
use crate::config::{
    first_match, is_first_match, lemma_first_match, lemma_some_match, resolved, MyConfig,
};
use crate::pac::{create_pac_file, pac_script};
use crate::provider::MappingView;
use crate::text::starts_with;
use vstd::prelude::*;

verus! {

/// Requests whose path begins with this get the auto-configuration script.
pub const PAC_PATH: &'static str = "/proxy.pac";

/// The content type of the auto-configuration script.
pub const PAC_CONTENT_TYPE: &'static str = "application/x-javascript-config";

/// The body of the answer to a `CONNECT` whose target is no `host:port`.
pub const BAD_REQUEST_BODY: &'static str = "CONNECT must be to a socket address";

/// What the body of the answer to a `CONNECT` for an unrouted authority
/// begins with; the authority follows.
pub const NO_ROUTE_BODY: &'static str = "Could not find target for URI: ";

/// The status of an answer that grants what was asked.
pub const STATUS_OK: u16 = 200;

/// The status of the answer to a request that cannot be understood.
pub const STATUS_BAD_REQUEST: u16 = 400;

/// The status of the answer to a request for something that is not there.
pub const STATUS_NOT_FOUND: u16 = 404;

/// What the dispatcher reads of an inbound request.
#[derive(Clone, Debug, PartialEq, Eq)]
pub enum Request {
    /// A `CONNECT` request, with the authority of its target if it has one.
    Connect { authority: Option<String> },
    /// A request with any other method, with the path of its target.
    Plain { path: String },
}

/// What a [`Request`] stands for in contracts.
pub enum RequestView {
    Connect { authority: Option<Seq<char>> },
    Plain { path: Seq<char> },
}

impl View for Request {
    type V = RequestView;

    open spec fn view(&self) -> RequestView {
        match *self {
            Request::Connect { authority: Some(authority) } => RequestView::Connect {
                authority: Some(authority@),
            },
            Request::Connect { authority: None } => RequestView::Connect { authority: None },
            Request::Plain { path } => RequestView::Plain { path: path@ },
        }
    }
}

/// What the dispatcher decides for a request.
#[derive(Clone, Debug, PartialEq, Eq)]
pub enum Decision {
    /// Answer `200` with an empty body, then relay bytes between the client
    /// and `target`.
    Tunnel { target: String },
    /// The target of a `CONNECT` is no `host:port`: answer `400`.
    BadRequest,
    /// No entry routes the authority of a `CONNECT`: answer `404` and name
    /// the authority.
    NoRoute { authority: String },
    /// Answer `200` with the auto-configuration script.
    Pac { script: String },
    /// Nothing handles the request: answer `404` with an empty body.
    NotFound,
}

/// What a [`Decision`] stands for in contracts.
pub enum DecisionView {
    Tunnel { target: Seq<char> },
    BadRequest,
    NoRoute { authority: Seq<char> },
    Pac { script: Seq<char> },
    NotFound,
}

impl View for Decision {
    type V = DecisionView;

    open spec fn view(&self) -> DecisionView {
        match *self {
            Decision::Tunnel { target } => DecisionView::Tunnel { target: target@ },
            Decision::BadRequest => DecisionView::BadRequest,
            Decision::NoRoute { authority } => DecisionView::NoRoute { authority: authority@ },
            Decision::Pac { script } => DecisionView::Pac { script: script@ },
            Decision::NotFound => DecisionView::NotFound,
        }
    }
}

/// The status, content type and body of an answer.
#[derive(Clone, Debug, PartialEq, Eq)]
pub struct Response {
    pub status: u16,
    pub content_type: Option<String>,
    pub body: String,
}

/// What a [`Response`] stands for in contracts.
pub struct ResponseView {
    pub status: u16,
    pub content_type: Option<Seq<char>>,
    pub body: Seq<char>,
}

impl View for Response {
    type V = ResponseView;

    open spec fn view(&self) -> ResponseView {
        ResponseView {
            status: self.status,
            content_type: match self.content_type {
                Some(content_type) => Some(content_type@),
                None => None,
            },
            body: self.body@,
        }
    }
}

/// The decision for a request, given the routing table.
///
/// A `CONNECT` is answered by its authority alone: it must be a `host:port`,
/// and the first entry whose host is that very authority gives the target.
/// Any other request gets the script if its path begins with
/// [`PAC_PATH`], and is not handled otherwise.
pub open spec fn decision(request: RequestView, table: Seq<MappingView>) -> DecisionView {
    match request {
        RequestView::Connect { authority: None } => DecisionView::BadRequest,
        RequestView::Connect { authority: Some(authority) } => {
            if !is_host_port(authority) {
                DecisionView::BadRequest
            } else {
                match resolved(table, authority) {
                    Some(mapping) => DecisionView::Tunnel { target: mapping.target },
                    None => DecisionView::NoRoute { authority },
                }
            }
        },
        RequestView::Plain { path } => {
            if PAC_PATH@.is_prefix_of(path) {
                DecisionView::Pac { script: pac_script(table) }
            } else {
                DecisionView::NotFound
            }
        },
    }
}

/// The answer that carries a decision.
pub open spec fn response_of(decision: DecisionView) -> ResponseView {
    match decision {
        DecisionView::Tunnel { target } => ResponseView {
            status: STATUS_OK,
            content_type: None,
            body: Seq::empty(),
        },
        DecisionView::BadRequest => ResponseView {
            status: STATUS_BAD_REQUEST,
            content_type: None,
            body: BAD_REQUEST_BODY@,
        },
        DecisionView::NoRoute { authority } => ResponseView {
            status: STATUS_NOT_FOUND,
            content_type: None,
            body: NO_ROUTE_BODY@ + authority,
        },
        DecisionView::Pac { script } => ResponseView {
            status: STATUS_OK,
            content_type: Some(PAC_CONTENT_TYPE@),
            body: script,
        },
        DecisionView::NotFound => ResponseView {
            status: STATUS_NOT_FOUND,
            content_type: None,
            body: Seq::empty(),
        },
    }
}

/// A `CONNECT` to the host of an entry, where that host is a `host:port`,
/// opens a tunnel: to the target of the first entry for that host.
pub proof fn lemma_connect_to_routed_host(table: Seq<MappingView>, i: int)
    requires
        0 <= i < table.len(),
        is_host_port(table[i].host),
    ensures
        resolved(table, table[i].host) is Some,
        decision(RequestView::Connect { authority: Some(table[i].host) }, table)
            == (DecisionView::Tunnel { target: resolved(table, table[i].host)->0.target }),
{
    lemma_some_match(table, table[i].host, i);
}

/// A `CONNECT` to the host of an entry that no earlier entry shares, where
/// that host is a `host:port`, opens a tunnel to the target of that entry.
pub proof fn lemma_connect_to_first_entry(table: Seq<MappingView>, i: int)
    requires
        0 <= i < table.len(),
        is_host_port(table[i].host),
        forall|j: int| 0 <= j < i ==> table[j].host != table[i].host,
    ensures
        decision(RequestView::Connect { authority: Some(table[i].host) }, table)
            == (DecisionView::Tunnel { target: table[i].target }),
{
    lemma_first_match(table, table[i].host, i);
}

/// A `CONNECT` to a `host:port` that no entry names is answered `404`, and
/// the body names the authority.
pub proof fn lemma_connect_to_unrouted_host(table: Seq<MappingView>, authority: Seq<char>)
    requires
        is_host_port(authority),
        forall|j: int| 0 <= j < table.len() ==> table[j].host != authority,
    ensures
        decision(RequestView::Connect { authority: Some(authority) }, table)
            == (DecisionView::NoRoute { authority }),
        response_of(DecisionView::NoRoute { authority }) == (ResponseView {
            status: STATUS_NOT_FOUND,
            content_type: None,
            body: NO_ROUTE_BODY@ + authority,
        }),
{
}

/// A `CONNECT` without an authority, or with one that is no `host:port`, is
/// answered `400` whatever the table holds, and opens no tunnel.
pub proof fn lemma_malformed_connect(table: Seq<MappingView>, authority: Option<Seq<char>>)
    requires
        authority matches Some(text) ==> !is_host_port(text),
    ensures
        decision(RequestView::Connect { authority }, table) == DecisionView::BadRequest,
        response_of(DecisionView::BadRequest).status == STATUS_BAD_REQUEST,
{
}

/// A tunnel is only ever opened for a `CONNECT` to a `host:port`, and only
/// to the target of an entry for that very authority.
pub proof fn lemma_tunnel_follows_table(
    request: RequestView,
    table: Seq<MappingView>,
    target: Seq<char>,
)
    requires
        decision(request, table) == (DecisionView::Tunnel { target }),
    ensures
        request matches RequestView::Connect { authority: Some(authority) }
            && is_host_port(authority)
            && exists|i: int|
                0 <= i < table.len() && table[i].host == authority && table[i].target == target,
{
    if let RequestView::Connect { authority: Some(authority) } = request {
        assert(is_first_match(table, authority, first_match(table, authority)->0));
    }
}

/// A request for the script is answered `200` with the script's content
/// type and the script for the table, whatever the table holds.
pub proof fn lemma_pac_request(table: Seq<MappingView>, path: Seq<char>)
    requires
        PAC_PATH@.is_prefix_of(path),
    ensures
        response_of(decision(RequestView::Plain { path }, table)) == (ResponseView {
            status: STATUS_OK,
            content_type: Some(PAC_CONTENT_TYPE@),
            body: pac_script(table),
        }),
{
}

/// Any other request that is no `CONNECT` is answered `404` with an empty
/// body, whatever the table holds.
pub proof fn lemma_unhandled_request(table: Seq<MappingView>, path: Seq<char>)
    requires
        !PAC_PATH@.is_prefix_of(path),
    ensures
        response_of(decision(RequestView::Plain { path }, table)) == (ResponseView {
            status: STATUS_NOT_FOUND,
            content_type: None,
            body: Seq::empty(),
        }),
{
}

/// Decides what to do with a request.
pub fn dispatch(request: &Request, config: &MyConfig) -> (outcome: Decision)
    ensures
        outcome@ == decision(request@, config@),
{
    match request {
        Request::Connect { authority: None } => Decision::BadRequest,
        Request::Connect { authority: Some(authority) } => {
            if !is_socket_address(authority.as_str()) {
                Decision::BadRequest
            } else {
                match config.resolve(authority.as_str()) {
                    Some(mapping) => Decision::Tunnel { target: mapping.target.clone() },
                    None => Decision::NoRoute { authority: authority.clone() },
                }
            }
        },
        Request::Plain { path } => {
            if starts_with(path.as_str(), PAC_PATH) {
                Decision::Pac { script: create_pac_file(&config.mappings) }
            } else {
                Decision::NotFound
            }
        },
    }
}

impl Decision {
    /// The answer to send.
    pub fn response(&self) -> (response: Response)
        ensures
            response@ == response_of(self@),
    {
        match self {
            Decision::Tunnel { target } => Response {
                status: STATUS_OK,
                content_type: None,
                body: String::new(),
            },
            Decision::BadRequest => Response {
                status: STATUS_BAD_REQUEST,
                content_type: None,
                body: String::from_str(BAD_REQUEST_BODY),
            },
            Decision::NoRoute { authority } => Response {
                status: STATUS_NOT_FOUND,
                content_type: None,
                body: String::from_str(NO_ROUTE_BODY).concat(authority.as_str()),
            },
            Decision::Pac { script } => Response {
                status: STATUS_OK,
                content_type: Some(String::from_str(PAC_CONTENT_TYPE)),
                body: script.clone(),
            },
            Decision::NotFound => Response {
                status: STATUS_NOT_FOUND,
                content_type: None,
                body: String::new(),
            },
        }
    }
}

} // verus!
