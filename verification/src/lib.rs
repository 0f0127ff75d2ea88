//! Proof-generation service core: parameter-file resolution, prover
//! acquisition, proof-request routing and the transaction-build state
//! machine, with the transport kept outside.

pub mod params;
pub mod prover;
pub mod router;
pub mod text;
pub mod txbuild;

use vstd::prelude::*;

verus! {

/// Body of the health endpoint: the service answers whatever the state
/// of parameter availability is.
pub fn health_body() -> (r: String)
    ensures
        r@ == "OK"@,
{
    String::from_str("OK")
}

} // verus!
