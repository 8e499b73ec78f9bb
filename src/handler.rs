use vstd::prelude::*;
use x509_parser::prelude::FromDer;
use crate::connection::{PeerIdentity, identity_view};
use crate::service::{self, Operation, PluginCall, PluginCallView};

verus! {

/// Whether `x509_parser` reads the bytes as a DER-encoded X.509 certificate
/// (bytes after the certificate are allowed).
pub uninterp spec fn parses_as_certificate(der: Seq<u8>) -> bool;

/// Relies on `x509_parser`'s `X509Certificate::from_der`: whether it parses
/// a certificate from the start of the bytes.
#[verifier::external_body]
fn certificate_parses(der: &[u8]) -> (r: bool)
    ensures
        r == parses_as_certificate(der@),
{
    x509_parser::certificate::X509Certificate::from_der(der).is_ok()
}

/// A request body read as one JSON value and written back as compact JSON
/// text; `None` where the body is no JSON value.
pub uninterp spec fn compact_json(body: Seq<u8>) -> Option<Seq<char>>;

/// Relies on `serde_json::from_slice` to read the body as a
/// `serde_json::Value`, and on `serde_json::to_string` to write that value
/// back as compact text.
#[verifier::external_body]
fn json_text(body: &[u8]) -> (r: Option<String>)
    ensures
        match r {
            Some(t) => compact_json(body@) == Some(t@),
            None => compact_json(body@) is None,
        },
{
    match serde_json::from_slice::<serde_json::Value>(body) {
        Ok(v) => serde_json::to_string(&v).ok(),
        Err(_) => None,
    }
}

/// Why a request is refused without reaching the plugin.
#[derive(PartialEq, Eq, Structural, Clone, Copy, Debug)]
pub enum Rejection {
    /// No route has this path.
    NotFound,
    /// The route exists under another method.
    MethodNotAllowed,
    /// The route needs a client certificate and the connection has none.
    Unauthorized,
    /// The client's certificate cannot be read as an X.509 certificate.
    InvalidCertificate,
    /// The body is no JSON value.
    InvalidBody,
}

pub open spec fn rejection_status(r: Rejection) -> u16 {
    match r {
        Rejection::NotFound => 404,
        Rejection::MethodNotAllowed => 405,
        Rejection::Unauthorized => 401,
        Rejection::InvalidCertificate => 401,
        Rejection::InvalidBody => 400,
    }
}

impl Rejection {
    /// The HTTP status the rejection is answered with.
    pub fn status(&self) -> (s: u16)
        ensures
            s == rejection_status(*self),
    {
        match self {
            Rejection::NotFound => 404,
            Rejection::MethodNotAllowed => 405,
            Rejection::Unauthorized => 401,
            Rejection::InvalidCertificate => 401,
            Rejection::InvalidBody => 400,
        }
    }
}

/// The check of a route that needs the client's identity.
pub open spec fn identity_check(peer: Option<Seq<u8>>) -> Result<(), Rejection> {
    match peer {
        None => Err(Rejection::Unauthorized),
        Some(der) => if parses_as_certificate(der) {
            Ok(())
        } else {
            Err(Rejection::InvalidCertificate)
        },
    }
}

/// What a route that forwards its body to the plugin makes of a request:
/// the identity is checked first where the route needs it, then the body.
pub open spec fn forwarded(
    op: Operation,
    needs_identity: bool,
    peer: Option<Seq<u8>>,
    remote: Seq<char>,
    body: Seq<u8>,
) -> Result<PluginCallView, Rejection> {
    if needs_identity && identity_check(peer) is Err {
        Err(identity_check(peer)->Err_0)
    } else {
        match compact_json(body) {
            Some(payload) => Ok(PluginCallView { operation: op, payload, remote }),
            None => Err(Rejection::InvalidBody),
        }
    }
}

/// What `/shutdown` makes of a request: the identity, then the body.
pub open spec fn shutdown_outcome(peer: Option<Seq<u8>>, body: Seq<u8>) -> Result<(), Rejection> {
    if identity_check(peer) is Err {
        identity_check(peer)
    } else if compact_json(body) is None {
        Err(Rejection::InvalidBody)
    } else {
        Ok(())
    }
}

pub open spec fn call_view(r: Result<PluginCall, Rejection>) -> Result<PluginCallView, Rejection> {
    match r {
        Ok(c) => Ok(c@),
        Err(e) => Err(e),
    }
}

fn check_identity(peer: &Option<PeerIdentity>) -> (r: Result<(), Rejection>)
    ensures
        r == identity_check(identity_view(*peer)),
{
    match peer {
        None => Err(Rejection::Unauthorized),
        Some(id) => {
            if certificate_parses(id.der.as_slice()) {
                Ok(())
            } else {
                Err(Rejection::InvalidCertificate)
            }
        },
    }
}

fn read_payload(body: &[u8]) -> (r: Result<String, Rejection>)
    ensures
        match r {
            Ok(t) => compact_json(body@) == Some(t@),
            Err(e) => compact_json(body@) is None && e == Rejection::InvalidBody,
        },
{
    match json_text(body) {
        Some(t) => Ok(t),
        None => Err(Rejection::InvalidBody),
    }
}

/// `/execute`: needs the client's identity; forwards the body to the
/// plugin's `performAction` with the client's address.
pub fn execute(peer: &Option<PeerIdentity>, addr: &String, body: &[u8]) -> (r: Result<PluginCall, Rejection>)
    ensures
        call_view(r) == forwarded(Operation::PerformAction, true, identity_view(*peer), addr@, body@),
{
    check_identity(peer)?;
    let json_value = read_payload(body)?;
    Ok(service::execute(json_value, addr.clone()))
}

/// `/execute-one-way-tls`: needs no identity; forwards the body to the
/// plugin's `performActionOneWayTLS` with the client's address.
pub fn execute_one_way_tls(addr: &String, body: &[u8]) -> (r: Result<PluginCall, Rejection>)
    ensures
        call_view(r) == forwarded(Operation::PerformActionOneWayTls, false, None, addr@, body@),
{
    let json_value = read_payload(body)?;
    Ok(service::execute_one_way_tls(json_value, addr.clone()))
}

/// `/queue`: needs the client's identity; forwards the body to the plugin's
/// `queueAction` with the client's address.
pub fn queue(peer: &Option<PeerIdentity>, addr: &String, body: &[u8]) -> (r: Result<PluginCall, Rejection>)
    ensures
        call_view(r) == forwarded(Operation::QueueAction, true, identity_view(*peer), addr@, body@),
{
    check_identity(peer)?;
    let json_value = read_payload(body)?;
    Ok(service::queue(json_value, addr.clone()))
}

/// `/shutdown`: needs the client's identity and a JSON body; `Ok` means the
/// process is to end with code 0 at once.
pub fn shutdown(peer: &Option<PeerIdentity>, body: &[u8]) -> (r: Result<(), Rejection>)
    ensures
        r == shutdown_outcome(identity_view(*peer), body@),
{
    check_identity(peer)?;
    read_payload(body)?;
    Ok(())
}

} // verus!
