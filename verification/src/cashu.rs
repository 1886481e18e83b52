//! The note-token quote face.
//!
//! Quote issuance and lookup on this face are deliberate capability
//! gaps; the request and response shapes are fixed here and every call
//! answers with the stable not-implemented error until the
//! federation-specific quote logic exists.

use vstd::prelude::*;

use crate::error::ErrorKind;
use crate::error::GatewayError;
use crate::ids::FederationIdentity;

verus! {

#[derive(Debug)]
pub struct PostMintQuoteMethodRequest {
    pub amount: u64,
    pub unit: String,
    pub federation_id: Option<FederationIdentity>,
}

#[derive(Debug)]
pub struct PostMintQuoteMethodResponse {
    pub quote_id: String,
    pub paid: bool,
    pub expiry: u64,
}

/// Issuing a mint quote is a stable capability gap.
pub fn mint_quote(_req: &PostMintQuoteMethodRequest) -> (r: Result<
    PostMintQuoteMethodResponse,
    GatewayError,
>)
    ensures
        r matches Err(e) && e.kind == ErrorKind::NotImplemented && e.message@
            == "Not implemented"@,
{
    Err(GatewayError::not_implemented())
}

/// Looking a mint quote up is a stable capability gap.
pub fn mint_quote_by_id(_quote_id: &str) -> (r: Result<PostMintQuoteMethodResponse, GatewayError>)
    ensures
        r matches Err(e) && e.kind == ErrorKind::NotImplemented && e.message@
            == "Not implemented"@,
{
    Err(GatewayError::not_implemented())
}

/// Issuing a melt quote is a stable capability gap.
pub fn melt_quote(_request: &str, _unit: &str) -> (r: Result<
    PostMintQuoteMethodResponse,
    GatewayError,
>)
    ensures
        r matches Err(e) && e.kind == ErrorKind::NotImplemented && e.message@
            == "Not implemented"@,
{
    Err(GatewayError::not_implemented())
}

} // verus!
