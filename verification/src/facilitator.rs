//! The seam between protocol handling and chain execution.

use vstd::prelude::*;
use crate::chain::{FacilitatorLocalError, FacilitatorLocalErrorView};
use crate::types::{
    SettleRequest, SettleResponse, SettleResponseView, SupportedPaymentKindView,
    SupportedPaymentKindsResponse, VerifyRequest, VerifyRequestView, VerifyResponse,
    VerifyResponseView,
};

verus! {

/// Model of the outcome of a verification.
pub open spec fn verify_outcome_view(
    outcome: Result<VerifyResponse, FacilitatorLocalError>,
) -> Result<VerifyResponseView, FacilitatorLocalErrorView> {
    match outcome {
        Ok(response) => Ok(response@),
        Err(error) => Err(error@),
    }
}

/// Model of the outcome of a settlement.
pub open spec fn settle_outcome_view(
    outcome: Result<SettleResponse, FacilitatorLocalError>,
) -> Result<SettleResponseView, FacilitatorLocalErrorView> {
    match outcome {
        Ok(response) => Ok(response@),
        Err(error) => Err(error@),
    }
}

/// Model of the outcome of a question for the capabilities.
pub open spec fn supported_outcome_view(
    outcome: Result<SupportedPaymentKindsResponse, FacilitatorLocalError>,
) -> Result<Seq<SupportedPaymentKindView>, FacilitatorLocalErrorView> {
    match outcome {
        Ok(supported) => Ok(supported@),
        Err(error) => Err(error@),
    }
}

/// A service that judges and executes payments on some chain backend.
///
/// The protocol layer depends on nothing but this contract. What an
/// implementation answers depends on the chain and on the time of the call,
/// so each operation comes with a relation that says which outcomes are
/// possible. An implementation that does not state its relation admits every
/// outcome.
pub trait Facilitator {
    /// The outcomes that `verify` may give for `request`.
    open spec fn verify_outcomes(
        &self,
        request: VerifyRequestView,
        outcome: Result<VerifyResponseView, FacilitatorLocalErrorView>,
    ) -> bool {
        true
    }

    /// The outcomes that `settle` may give for `request`.
    open spec fn settle_outcomes(
        &self,
        request: VerifyRequestView,
        outcome: Result<SettleResponseView, FacilitatorLocalErrorView>,
    ) -> bool {
        true
    }

    /// The outcomes that `supported` may give.
    open spec fn supported_outcomes(
        &self,
        outcome: Result<Seq<SupportedPaymentKindView>, FacilitatorLocalErrorView>,
    ) -> bool {
        true
    }

    /// Checks whether the payload of `request` meets its requirements, without
    /// changing anything on chain. A payment that is well formed and rejected
    /// may come back as an invalid response or as an error.
    fn verify(&self, request: &VerifyRequest) -> (outcome: Result<
        VerifyResponse,
        FacilitatorLocalError,
    >)
        ensures
            self.verify_outcomes(request@, verify_outcome_view(outcome)),
    ;

    /// Executes the payment of `request` on chain, after checking it again.
    /// A caller must not take a second call for harmless.
    fn settle(&self, request: &SettleRequest) -> (outcome: Result<
        SettleResponse,
        FacilitatorLocalError,
    >)
        ensures
            self.settle_outcomes(request@, settle_outcome_view(outcome)),
    ;

    /// The pairs of scheme and network that this deployment accepts.
    fn supported(&self) -> (outcome: Result<SupportedPaymentKindsResponse, FacilitatorLocalError>)
        ensures
            self.supported_outcomes(supported_outcome_view(outcome)),
    ;
}

} // verus!
