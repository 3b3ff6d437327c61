use vstd::prelude::*;

verus! {

/// Protocol failures that end a connection's read loop.
#[derive(Debug, Clone, PartialEq, Eq)]
pub enum GatewayError {
    InvalidOpCode,
    UnknownEvent(String),
    InvalidSession,
}

/// The human-readable description of a gateway error.
pub open spec fn gateway_error_message(e: GatewayError) -> Seq<char> {
    match e {
        GatewayError::InvalidOpCode => "Invalid OP code"@,
        GatewayError::UnknownEvent(name) => "Unknown event: "@ + name@,
        GatewayError::InvalidSession => "Invalid session"@,
    }
}

impl GatewayError {
    /// Describes the error in words.
    pub fn message(&self) -> (r: String)
        ensures
            r@ == gateway_error_message(*self),
    {
        match self {
            GatewayError::InvalidOpCode => String::from_str("Invalid OP code"),
            GatewayError::UnknownEvent(name) => {
                let mut s = String::from_str("Unknown event: ");
                s.append(name.as_str());
                s
            },
            GatewayError::InvalidSession => String::from_str("Invalid session"),
        }
    }
}

/// Everything that can end a connection from the library's side: a protocol
/// failure, or an inbound frame that is not a well-formed payload.
#[derive(Debug, Clone, PartialEq, Eq)]
pub enum ConnectionError {
    Gateway(GatewayError),
    MalformedFrame,
}

} // verus!
