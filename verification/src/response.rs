//! The gateway's successful response.

use crate::headers::Headers;
use vstd::prelude::*;

verus! {

/// The representation a client asked the gateway for.
#[derive(Clone, Copy, PartialEq, Eq, Structural, Debug)]
pub enum ResponseFormat {
    HTML,
    Raw,
    Car,
    FS,
}

/// Mathematical value of a gateway response.
#[verifier::ext_equal]
pub ghost struct GatewayResponseV {
    pub status_code: u16,
    pub body: Seq<char>,
    pub headers: Map<Seq<char>, Seq<char>>,
}

/// A gateway response: status, body and headers.
#[derive(Debug)]
pub struct GatewayResponse {
    pub status_code: u16,
    pub body: String,
    pub headers: Headers,
}

impl View for GatewayResponse {
    type V = GatewayResponseV;

    open spec fn view(&self) -> GatewayResponseV {
        GatewayResponseV {
            status_code: self.status_code,
            body: self.body@,
            headers: self.headers@,
        }
    }
}

impl GatewayResponse {
    /// The header table is well-formed.
    pub open spec fn wf(&self) -> bool {
        self.headers.wf()
    }

    /// A response without headers.
    pub fn new(status_code: u16, body: String) -> (r: GatewayResponse)
        ensures
            r.wf(),
            r@ == (GatewayResponseV {
                status_code,
                body: body@,
                headers: Map::<Seq<char>, Seq<char>>::empty(),
            }),
    {
        GatewayResponse { status_code, body, headers: Headers::new() }
    }

    /// A response with the given headers.
    pub fn new_with_headers(status_code: u16, body: String, headers: Headers) -> (r:
        GatewayResponse)
        requires
            headers.wf(),
        ensures
            r.wf(),
            r@ == (GatewayResponseV { status_code, body: body@, headers: headers@ }),
    {
        GatewayResponse { status_code, body, headers }
    }

    /// Adds one header, replacing any previous value under the name.
    pub fn add_header(&mut self, name: &str, value: &str)
        requires
            old(self).wf(),
        ensures
            final(self).wf(),
            final(self)@ == (GatewayResponseV {
                headers: old(self)@.headers.insert(name@, value@),
                ..old(self)@
            }),
    {
        self.headers.insert(name.to_owned(), value.to_owned());
    }
}

} // verus!
