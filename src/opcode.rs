use vstd::prelude::*;

verus! {

/// The operations of the gateway protocol, each with a fixed wire code.
#[derive(Debug, Clone, Copy, PartialEq, Eq, Structural)]
pub enum GatewayOp {
    Dispatch,
    Heartbeat,
    Identify,
    Hello,
}

/// The wire code of an operation.
pub open spec fn op_code(op: GatewayOp) -> int {
    match op {
        GatewayOp::Dispatch => 0,
        GatewayOp::Heartbeat => 1,
        GatewayOp::Identify => 2,
        GatewayOp::Hello => 10,
    }
}

/// The operation that a wire code stands for, if any.
pub open spec fn op_of_code(c: int) -> Option<GatewayOp> {
    if c == 0 {
        Some(GatewayOp::Dispatch)
    } else if c == 1 {
        Some(GatewayOp::Heartbeat)
    } else if c == 2 {
        Some(GatewayOp::Identify)
    } else if c == 10 {
        Some(GatewayOp::Hello)
    } else {
        None
    }
}

/// Whether a wire code belongs to the table.
pub open spec fn is_known_code(c: int) -> bool {
    c == 0 || c == 1 || c == 2 || c == 10
}

impl GatewayOp {
    /// Looks up the operation of a wire code; unknown codes give `None`.
    pub fn from_code(code: i64) -> (r: Option<GatewayOp>)
        ensures
            r == op_of_code(code as int),
            r.is_some() <==> is_known_code(code as int),
    {
        match code {
            0 => Some(GatewayOp::Dispatch),
            1 => Some(GatewayOp::Heartbeat),
            2 => Some(GatewayOp::Identify),
            10 => Some(GatewayOp::Hello),
            _ => None,
        }
    }

    /// The wire code of this operation.
    pub fn code(&self) -> (r: i64)
        ensures
            r as int == op_code(*self),
    {
        match self {
            GatewayOp::Dispatch => 0,
            GatewayOp::Heartbeat => 1,
            GatewayOp::Identify => 2,
            GatewayOp::Hello => 10,
        }
    }
}

/// Every code of the table maps to an operation whose code is that same code.
pub proof fn lemma_code_round_trip(c: int)
    requires
        is_known_code(c),
    ensures
        op_of_code(c).is_some(),
        op_code(op_of_code(c).unwrap()) == c,
{
}

/// Every operation's code maps back to that operation.
pub proof fn lemma_op_round_trip(op: GatewayOp)
    ensures
        is_known_code(op_code(op)),
        op_of_code(op_code(op)) == Some(op),
{
}

/// A code outside the table maps to no operation.
pub proof fn lemma_unknown_code(c: int)
    requires
        !is_known_code(c),
    ensures
        op_of_code(c).is_none(),
{
}

} // verus!
