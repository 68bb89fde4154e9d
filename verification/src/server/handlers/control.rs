//! `POST /v1/control/*`.
use vstd::prelude::*;
use crate::server::handlers::Reply;

verus! {

/// The reply to a control request whose JSON body (`{"on": bool}` or
/// `{"enabled": bool}`) could not be read: `400`.
pub fn invalid_body_reply() -> (r: Reply)
    ensures
        r is InvalidBody,
{
    Reply::InvalidBody
}

} // verus!
