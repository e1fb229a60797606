//! The gateway's error response.

use vstd::prelude::*;

verus! {

/// Mathematical value of a gateway error.
pub ghost struct GatewayErrorV {
    pub status_code: u16,
    pub message: Seq<char>,
}

/// An error answer of the gateway: a status code and a message.
#[derive(Debug)]
pub struct GatewayError {
    pub status_code: u16,
    pub message: String,
}

impl View for GatewayError {
    type V = GatewayErrorV;

    open spec fn view(&self) -> GatewayErrorV {
        GatewayErrorV { status_code: self.status_code, message: self.message@ }
    }
}

} // verus!
