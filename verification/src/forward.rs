//! The forwarder: one operation, "send this sale downstream and report the
//! acknowledgement", over two interchangeable transports.
//!
//! The transport is chosen once, when the [`Backend`] is made. For each sale
//! the backend plans a [`Dispatch`]; the caller performs it and hands back a
//! [`Reply`]; [`acknowledge`] reads the reply against the dispatch. A sale is sent once: nothing
//! here retries.

use crate::json::{find_text_member, text_member};
use crate::sale::{remote_form, wire_form, RemoteData, RemoteSale, SaleData, SaleEvent, WireData, WireSale};
use crate::text::{strip_trailing, without_trailing};
use vstd::prelude::*;

verus! {

/// Seconds after which an HTTP dispatch is given up.
pub const HTTP_TIMEOUT_SECS: u64 = 2;

/// The transport to the downstream processor.
#[derive(Debug, PartialEq, Eq)]
pub enum Backend {
    /// JSON over HTTP, posted below this base URL.
    Http { base_url: String },
    /// One remote procedure over a long-lived connection, which the caller
    /// holds and lets one call use at a time.
    Rpc,
}

/// Mathematical content of a [`Backend`].
pub enum BackendData {
    Http { base_url: Seq<char> },
    Rpc,
}

impl View for Backend {
    type V = BackendData;

    open spec fn view(&self) -> BackendData {
        match self {
            Backend::Http { base_url } => BackendData::Http { base_url: base_url@ },
            Backend::Rpc => BackendData::Rpc,
        }
    }
}

/// What the caller is to send downstream.
#[derive(Debug, PartialEq, Eq)]
pub enum Dispatch {
    /// Post `sale` as a JSON body to `url` and wait at most `timeout_secs`
    /// seconds for the response.
    HttpPost { url: String, timeout_secs: u64, sale: WireSale },
    /// Invoke the remote procedure with `request`.
    RpcCall { request: RemoteSale },
}

/// Mathematical content of a [`Dispatch`].
pub enum DispatchData {
    HttpPost { url: Seq<char>, timeout_secs: u64, sale: WireData },
    RpcCall { request: RemoteData },
}

impl View for Dispatch {
    type V = DispatchData;

    open spec fn view(&self) -> DispatchData {
        match self {
            Dispatch::HttpPost { url, timeout_secs, sale } => DispatchData::HttpPost {
                url: url@,
                timeout_secs: *timeout_secs,
                sale: sale@,
            },
            Dispatch::RpcCall { request } => DispatchData::RpcCall { request: request@ },
        }
    }
}

/// What came back from downstream.
#[derive(Debug, PartialEq, Eq)]
pub enum Reply {
    /// An HTTP response arrived, with this status code and body.
    Http { status: u16, body: Vec<u8> },
    /// The remote procedure returned this status.
    Rpc { estado: String },
    /// Nothing usable came back: the connection was refused or lost, the
    /// name did not resolve, the deadline passed, or the remote call failed.
    Failed,
}

/// Mathematical content of a [`Reply`].
pub enum ReplyData {
    Http { status: u16, body: Seq<u8> },
    Rpc { estado: Seq<char> },
    Failed,
}

impl View for Reply {
    type V = ReplyData;

    open spec fn view(&self) -> ReplyData {
        match self {
            Reply::Http { status, body } => ReplyData::Http { status: *status, body: body@ },
            Reply::Rpc { estado } => ReplyData::Rpc { estado: estado@ },
            Reply::Failed => ReplyData::Failed,
        }
    }
}

/// Why a sale did not reach the downstream processor, or was not taken.
#[derive(Clone, Copy, Debug, PartialEq, Eq, Structural)]
pub enum ForwardError {
    /// Nothing usable came back, or what came back does not answer the
    /// dispatch.
    NoReply,
    /// An HTTP response arrived with a status outside 200 to 299.
    ErrorStatus { status: u16 },
}

/// Where an HTTP dispatch is posted: the base URL without trailing slashes,
/// then `/ventas`.
pub open spec fn forward_url(base_url: Seq<char>) -> Seq<char> {
    without_trailing(base_url, '/') + "/ventas"@
}

/// The dispatch that a backend plans for a sale.
pub open spec fn planned(backend: BackendData, sale: SaleData) -> DispatchData {
    match backend {
        BackendData::Http { base_url } => DispatchData::HttpPost {
            url: forward_url(base_url),
            timeout_secs: HTTP_TIMEOUT_SECS,
            sale: wire_form(sale),
        },
        BackendData::Rpc => DispatchData::RpcCall { request: remote_form(sale) },
    }
}

/// An HTTP status that counts as success.
pub open spec fn is_success(status: u16) -> bool {
    200 <= status < 300
}

/// The acknowledged status of an HTTP response: the text found under
/// `estado`, or `OK` where none was found.
pub open spec fn status_or_default(found: Option<Seq<char>>) -> Seq<char> {
    match found {
        Some(text) => text,
        None => "OK"@,
    }
}

/// What a reply to a dispatch amounts to: the downstream's status, or the
/// reason why the sale counts as not forwarded. A reply of the other
/// transport's kind is no answer to the dispatch and counts as no reply.
pub open spec fn acknowledgement(dispatch: DispatchData, reply: ReplyData) -> Result<
    Seq<char>,
    ForwardError,
> {
    match (dispatch, reply) {
        (DispatchData::HttpPost { url, timeout_secs, sale }, ReplyData::Http { status, body }) => {
            if is_success(status) {
                Ok(status_or_default(text_member(body, "estado"@)))
            } else {
                Err(ForwardError::ErrorStatus { status })
            }
        },
        (DispatchData::RpcCall { request }, ReplyData::Rpc { estado }) => Ok(estado),
        _ => Err(ForwardError::NoReply),
    }
}

impl Backend {
    /// Plans the dispatch of one validated sale over this backend.
    pub fn plan(&self, event: &SaleEvent) -> (dispatch: Dispatch)
        ensures
            dispatch@ == planned(self@, event@),
    {
        match self {
            Backend::Http { base_url } => {
                let stem: &str = strip_trailing(base_url.as_str(), '/');
                Dispatch::HttpPost {
                    url: String::from_str(stem).concat("/ventas"),
                    timeout_secs: HTTP_TIMEOUT_SECS,
                    sale: event.to_wire(),
                }
            },
            Backend::Rpc => Dispatch::RpcCall { request: event.to_remote() },
        }
    }
}

/// The acknowledged status, given what was found under `estado` in the body
/// of a successful HTTP response.
pub fn acknowledged_status(found: Option<String>) -> (status: String)
    ensures
        status@ == status_or_default(
            match found {
                Some(text) => Some(text@),
                None => None,
            },
        ),
{
    match found {
        Some(text) => text,
        None => String::from_str("OK"),
    }
}

/// Reads the reply to a dispatch. An HTTP response succeeds on a status from
/// 200 to 299 and then acknowledges with the text under `estado` in its JSON
/// body, or with `OK` where the body has no such text. A remote procedure's
/// status is taken as it is. Anything else fails.
pub fn acknowledge(dispatch: &Dispatch, reply: Reply) -> (r: Result<String, ForwardError>)
    ensures
        match r {
            Ok(status) => acknowledgement(dispatch@, reply@) == Ok::<Seq<char>, ForwardError>(
                status@,
            ),
            Err(error) => acknowledgement(dispatch@, reply@) == Err::<Seq<char>, ForwardError>(
                error,
            ),
        },
{
    match dispatch {
        Dispatch::HttpPost { .. } => match reply {
            Reply::Http { status, body } => {
                if 200 <= status && status < 300 {
                    Ok(acknowledged_status(find_text_member(body.as_slice(), "estado")))
                } else {
                    Err(ForwardError::ErrorStatus { status })
                }
            },
            _ => Err(ForwardError::NoReply),
        },
        Dispatch::RpcCall { .. } => match reply {
            Reply::Rpc { estado } => Ok(estado),
            _ => Err(ForwardError::NoReply),
        },
    }
}

} // verus!
