//! The protocols a tunnel can speak.

use vstd::prelude::*;

verus! {

/// The protocol that a tunnel speaks over its QUIC connection.
#[derive(Clone, Copy, Debug, PartialEq, Eq, Structural)]
pub enum TunnelTransportProtocol {
    RawQuic,
    Http3,
    WebTransport,
}

impl TunnelTransportProtocol {
    /// The name of the protocol.
    pub open spec fn label(self) -> Seq<char> {
        match self {
            TunnelTransportProtocol::RawQuic => "raw-quic"@,
            TunnelTransportProtocol::Http3 => "http3"@,
            TunnelTransportProtocol::WebTransport => "webtransport"@,
        }
    }

    /// The name of the protocol.
    pub fn as_str(self) -> (label: &'static str)
        ensures
            label@ == self.label(),
    {
        match self {
            TunnelTransportProtocol::RawQuic => "raw-quic",
            TunnelTransportProtocol::Http3 => "http3",
            TunnelTransportProtocol::WebTransport => "webtransport",
        }
    }
}

#[verifier::external_type_specification]
#[verifier::external_body]
pub struct ExHeaderValue(http::HeaderValue);

/// The text that a header value holds.
pub uninterp spec fn header_value_text(value: http::HeaderValue) -> Seq<char>;

/// Whether a text can be a header value: it has no control characters but tabs.
pub open spec fn is_header_value(text: Seq<char>) -> bool {
    forall|i: int|
        0 <= i < text.len() ==> #[trigger] text[i] == '\t' || (32 <= text[i] as u32
            && text[i] as u32 != 127)
}

/// Makes a header value with `http::HeaderValue::from_str`, which refuses texts whose UTF-8 has a
/// byte below 32 other than a tab, or the byte 127. Bytes of characters beyond ASCII are neither.
#[verifier::external_body]
pub(crate) fn header_value(text: &str) -> (value: Option<http::HeaderValue>)
    ensures
        value is Some <==> is_header_value(text@),
        value is Some ==> header_value_text(value->0) == text@,
{
    http::HeaderValue::from_str(text).ok()
}

/// Whether an HTTP status says that a request succeeded.
pub open spec fn success_status(status: u16) -> bool {
    200 <= status < 300
}

/// Whether an HTTP status says that a request succeeded.
pub fn is_success_status(status: u16) -> (success: bool)
    ensures
        success == success_status(status),
{
    200 <= status && status < 300
}

} // verus!
