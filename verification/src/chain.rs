//! The closed taxonomy of failures that evaluating a payment can end in.

use vstd::prelude::*;
use crate::types::{clone_payer, payer_view, MixedAddress, MixedAddressView, Network, Scheme};

verus! {

/// Every way in which verification or settlement can fail inside the facilitator.
///
/// Each variant carries the context from which a reason for the client is
/// built: the payer where it is known, and diagnostic text.
#[derive(Debug, PartialEq, Eq)]
pub enum FacilitatorLocalError {
    /// The network is not one that this deployment serves.
    UnsupportedNetwork(Option<MixedAddress>),
    /// Payload and requirements name different networks: expected, then actual.
    NetworkMismatch(Option<MixedAddress>, Network, Network),
    /// Payload and requirements name different schemes: expected, then actual.
    SchemeMismatch(Option<MixedAddress>, Scheme, Scheme),
    /// An address could not be read in the encoding of its family.
    InvalidAddress(String),
    /// The payload pays someone other than the required recipient: expected, then actual.
    ReceiverMismatch(MixedAddress, String, String),
    /// The time source failed.
    ClockError(String),
    /// The authorization is not yet, or no longer, valid.
    InvalidTiming(MixedAddress, String),
    /// A call to the chain backend failed.
    ContractCall(String),
    /// The signature does not authorize the payment.
    InvalidSignature(MixedAddress, String),
    /// The balance of the payer does not cover the payment.
    InsufficientFunds(MixedAddress),
    /// The authorized value is below the required amount.
    InsufficientValue(MixedAddress),
    /// The payload could not be decoded.
    DecodingError(String),
}

/// The groups into which the failures fall.
#[derive(Clone, Copy, Debug, PartialEq, Eq, Structural)]
pub enum FailureCategory {
    /// The request is well formed and the payment is rejected on its merits.
    SemanticRejection,
    /// Payload and requirements do not agree on a network that is served.
    NetworkIncompatibility,
    /// The payload could not be decoded at all.
    Undecodable,
    /// The payer cannot afford the payment.
    FundsInsufficiency,
    /// The facilitator could not evaluate the request.
    InfrastructureFault,
}

/// Mathematical model of a [`FacilitatorLocalError`].
pub enum FacilitatorLocalErrorView {
    UnsupportedNetwork(Option<MixedAddressView>),
    NetworkMismatch(Option<MixedAddressView>, Seq<char>, Seq<char>),
    SchemeMismatch(Option<MixedAddressView>, Seq<char>, Seq<char>),
    InvalidAddress(Seq<char>),
    ReceiverMismatch(MixedAddressView, Seq<char>, Seq<char>),
    ClockError(Seq<char>),
    InvalidTiming(MixedAddressView, Seq<char>),
    ContractCall(Seq<char>),
    InvalidSignature(MixedAddressView, Seq<char>),
    InsufficientFunds(MixedAddressView),
    InsufficientValue(MixedAddressView),
    DecodingError(Seq<char>),
}

impl FacilitatorLocalErrorView {
    /// The group that the failure belongs to.
    pub open spec fn category(self) -> FailureCategory {
        if self is SchemeMismatch || self is ReceiverMismatch || self is InvalidSignature
            || self is InvalidTiming || self is InsufficientValue {
            FailureCategory::SemanticRejection
        } else if self is NetworkMismatch || self is UnsupportedNetwork {
            FailureCategory::NetworkIncompatibility
        } else if self is DecodingError {
            FailureCategory::Undecodable
        } else if self is InsufficientFunds {
            FailureCategory::FundsInsufficiency
        } else {
            FailureCategory::InfrastructureFault
        }
    }

    /// The payer that the failure names, if it names one.
    pub open spec fn payer(self) -> Option<MixedAddressView> {
        match self {
            FacilitatorLocalErrorView::UnsupportedNetwork(payer) => payer,
            FacilitatorLocalErrorView::NetworkMismatch(payer, _, _) => payer,
            FacilitatorLocalErrorView::SchemeMismatch(payer, _, _) => payer,
            FacilitatorLocalErrorView::ReceiverMismatch(payer, _, _) => Some(payer),
            FacilitatorLocalErrorView::InvalidTiming(payer, _) => Some(payer),
            FacilitatorLocalErrorView::InvalidSignature(payer, _) => Some(payer),
            FacilitatorLocalErrorView::InsufficientFunds(payer) => Some(payer),
            FacilitatorLocalErrorView::InsufficientValue(payer) => Some(payer),
            FacilitatorLocalErrorView::InvalidAddress(_) => None,
            FacilitatorLocalErrorView::ClockError(_) => None,
            FacilitatorLocalErrorView::ContractCall(_) => None,
            FacilitatorLocalErrorView::DecodingError(_) => None,
        }
    }
}

impl View for FacilitatorLocalError {
    type V = FacilitatorLocalErrorView;

    open spec fn view(&self) -> FacilitatorLocalErrorView {
        match self {
            FacilitatorLocalError::UnsupportedNetwork(payer) => {
                FacilitatorLocalErrorView::UnsupportedNetwork(payer_view(*payer))
            },
            FacilitatorLocalError::NetworkMismatch(payer, expected, actual) => {
                FacilitatorLocalErrorView::NetworkMismatch(payer_view(*payer), expected@, actual@)
            },
            FacilitatorLocalError::SchemeMismatch(payer, expected, actual) => {
                FacilitatorLocalErrorView::SchemeMismatch(payer_view(*payer), expected@, actual@)
            },
            FacilitatorLocalError::InvalidAddress(detail) => {
                FacilitatorLocalErrorView::InvalidAddress(detail@)
            },
            FacilitatorLocalError::ReceiverMismatch(payer, expected, actual) => {
                FacilitatorLocalErrorView::ReceiverMismatch(payer@, expected@, actual@)
            },
            FacilitatorLocalError::ClockError(detail) => {
                FacilitatorLocalErrorView::ClockError(detail@)
            },
            FacilitatorLocalError::InvalidTiming(payer, detail) => {
                FacilitatorLocalErrorView::InvalidTiming(payer@, detail@)
            },
            FacilitatorLocalError::ContractCall(detail) => {
                FacilitatorLocalErrorView::ContractCall(detail@)
            },
            FacilitatorLocalError::InvalidSignature(payer, detail) => {
                FacilitatorLocalErrorView::InvalidSignature(payer@, detail@)
            },
            FacilitatorLocalError::InsufficientFunds(payer) => {
                FacilitatorLocalErrorView::InsufficientFunds(payer@)
            },
            FacilitatorLocalError::InsufficientValue(payer) => {
                FacilitatorLocalErrorView::InsufficientValue(payer@)
            },
            FacilitatorLocalError::DecodingError(detail) => {
                FacilitatorLocalErrorView::DecodingError(detail@)
            },
        }
    }
}

impl Clone for FacilitatorLocalError {
    fn clone(&self) -> (copy: Self)
        ensures
            copy == *self,
    {
        match self {
            FacilitatorLocalError::UnsupportedNetwork(payer) => {
                FacilitatorLocalError::UnsupportedNetwork(clone_payer(payer))
            },
            FacilitatorLocalError::NetworkMismatch(payer, expected, actual) => {
                FacilitatorLocalError::NetworkMismatch(
                    clone_payer(payer),
                    expected.clone(),
                    actual.clone(),
                )
            },
            FacilitatorLocalError::SchemeMismatch(payer, expected, actual) => {
                FacilitatorLocalError::SchemeMismatch(
                    clone_payer(payer),
                    expected.clone(),
                    actual.clone(),
                )
            },
            FacilitatorLocalError::InvalidAddress(detail) => {
                FacilitatorLocalError::InvalidAddress(detail.clone())
            },
            FacilitatorLocalError::ReceiverMismatch(payer, expected, actual) => {
                FacilitatorLocalError::ReceiverMismatch(
                    payer.clone(),
                    expected.clone(),
                    actual.clone(),
                )
            },
            FacilitatorLocalError::ClockError(detail) => {
                FacilitatorLocalError::ClockError(detail.clone())
            },
            FacilitatorLocalError::InvalidTiming(payer, detail) => {
                FacilitatorLocalError::InvalidTiming(payer.clone(), detail.clone())
            },
            FacilitatorLocalError::ContractCall(detail) => {
                FacilitatorLocalError::ContractCall(detail.clone())
            },
            FacilitatorLocalError::InvalidSignature(payer, detail) => {
                FacilitatorLocalError::InvalidSignature(payer.clone(), detail.clone())
            },
            FacilitatorLocalError::InsufficientFunds(payer) => {
                FacilitatorLocalError::InsufficientFunds(payer.clone())
            },
            FacilitatorLocalError::InsufficientValue(payer) => {
                FacilitatorLocalError::InsufficientValue(payer.clone())
            },
            FacilitatorLocalError::DecodingError(detail) => {
                FacilitatorLocalError::DecodingError(detail.clone())
            },
        }
    }
}

impl FacilitatorLocalError {
    /// The group that the failure belongs to.
    pub fn category(&self) -> (category: FailureCategory)
        ensures
            category == self@.category(),
    {
        match self {
            FacilitatorLocalError::SchemeMismatch(..)
            | FacilitatorLocalError::ReceiverMismatch(..)
            | FacilitatorLocalError::InvalidSignature(..)
            | FacilitatorLocalError::InvalidTiming(..)
            | FacilitatorLocalError::InsufficientValue(..) => FailureCategory::SemanticRejection,
            FacilitatorLocalError::NetworkMismatch(..)
            | FacilitatorLocalError::UnsupportedNetwork(..) => {
                FailureCategory::NetworkIncompatibility
            },
            FacilitatorLocalError::DecodingError(..) => FailureCategory::Undecodable,
            FacilitatorLocalError::InsufficientFunds(..) => FailureCategory::FundsInsufficiency,
            FacilitatorLocalError::ContractCall(..)
            | FacilitatorLocalError::InvalidAddress(..)
            | FacilitatorLocalError::ClockError(..) => FailureCategory::InfrastructureFault,
        }
    }
}

} // verus!
