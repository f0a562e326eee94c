use std::cell::{Cell, RefCell};

use x402_facilitator::chain::FacilitatorLocalError;
use x402_facilitator::facilitator::Facilitator;
use x402_facilitator::handlers::{
    get_health, get_supported, post_settle, post_verify, respond_to_settle, respond_to_supported,
    respond_to_verify,
};
use x402_facilitator::response::{Diagnostic, Handled, Response, ResponseBody, Status};
use x402_facilitator::types::{
    AddressFamily, ErrorResponse, FacilitatorErrorReason, MixedAddress, Network, PaymentPayload,
    PaymentRequirements, Scheme, SettleRequest, SettleResponse, SupportedPaymentKind,
    SupportedPaymentKindsResponse, VerifyRequest, VerifyResponse,
};

/// A chain that lives in memory: balances, a clock, and the authorizations already spent.
struct MockChain {
    networks: Vec<String>,
    balance: u128,
    now: u64,
    reads_time_out: bool,
    spent: RefCell<Vec<Vec<u8>>>,
    verify_calls: Cell<u32>,
    settle_calls: Cell<u32>,
}

impl MockChain {
    fn new() -> Self {
        MockChain {
            networks: vec!["base".to_string(), "polygon".to_string()],
            balance: 1_000_000,
            now: 1_700_000_000,
            reads_time_out: false,
            spent: RefCell::new(Vec::new()),
            verify_calls: Cell::new(0),
            settle_calls: Cell::new(0),
        }
    }

    fn check(&self, request: &VerifyRequest) -> Result<MixedAddress, FacilitatorLocalError> {
        let payload = &request.payment_payload;
        let requirements = &request.payment_requirements;
        let payer = payload.payer.clone();
        if payload.scheme != requirements.scheme {
            return Err(FacilitatorLocalError::SchemeMismatch(
                Some(payer),
                requirements.scheme.clone(),
                payload.scheme.clone(),
            ));
        }
        if payload.network != requirements.network {
            return Err(FacilitatorLocalError::NetworkMismatch(
                Some(payer),
                requirements.network.clone(),
                payload.network.clone(),
            ));
        }
        if !self.networks.contains(&requirements.network.name) {
            return Err(FacilitatorLocalError::UnsupportedNetwork(Some(payer)));
        }
        if self.now < payload.valid_after || self.now >= payload.valid_before {
            return Err(FacilitatorLocalError::InvalidTiming(payer, "outside the window".to_string()));
        }
        if payload.amount < requirements.amount {
            return Err(FacilitatorLocalError::InsufficientValue(payer));
        }
        if self.reads_time_out {
            return Err(FacilitatorLocalError::ContractCall(
                "balanceOf: the read timed out after 30 s".to_string(),
            ));
        }
        if self.balance < requirements.amount {
            return Err(FacilitatorLocalError::InsufficientFunds(payer));
        }
        Ok(payer)
    }
}

impl Facilitator for MockChain {
    fn verify(&self, request: &VerifyRequest) -> Result<VerifyResponse, FacilitatorLocalError> {
        self.verify_calls.set(self.verify_calls.get() + 1);
        let payer = self.check(request)?;
        Ok(VerifyResponse::valid(payer))
    }

    fn settle(&self, request: &SettleRequest) -> Result<SettleResponse, FacilitatorLocalError> {
        self.settle_calls.set(self.settle_calls.get() + 1);
        let payer = self.check(request)?;
        let signature = request.payment_payload.signature.clone();
        if self.spent.borrow().contains(&signature) {
            return Err(FacilitatorLocalError::InvalidSignature(
                payer,
                "the authorization was used before".to_string(),
            ));
        }
        self.spent.borrow_mut().push(signature);
        Ok(SettleResponse::settled(
            payer,
            format!("0x{:064x}", self.spent.borrow().len()),
            request.payment_requirements.network.clone(),
        ))
    }

    fn supported(&self) -> Result<SupportedPaymentKindsResponse, FacilitatorLocalError> {
        if self.reads_time_out {
            return Err(FacilitatorLocalError::ContractCall("eth_chainId: timed out".to_string()));
        }
        Ok(SupportedPaymentKindsResponse {
            kinds: self
                .networks
                .iter()
                .map(|network| SupportedPaymentKind {
                    scheme: Scheme::new("exact".to_string()),
                    network: Network::new(network.clone()),
                })
                .collect(),
        })
    }
}

fn alice() -> MixedAddress {
    MixedAddress::new(
        AddressFamily::Evm,
        "0x857b06519e91e3a54538791bdbb0e22373e36b66".to_string(),
    )
}

fn merchant() -> MixedAddress {
    MixedAddress::new(
        AddressFamily::Evm,
        "0x209693bc6afc0c5328ba36faf03c514ef312287c".to_string(),
    )
}

fn usdc() -> MixedAddress {
    MixedAddress::new(
        AddressFamily::Evm,
        "0x833589fcd6edb6e08f4c7c32d4f71b54bda02913".to_string(),
    )
}

fn request(scheme: &str, network: &str, required_scheme: &str, required_network: &str) -> VerifyRequest {
    VerifyRequest {
        payment_payload: PaymentPayload {
            scheme: Scheme::new(scheme.to_string()),
            network: Network::new(network.to_string()),
            payer: alice(),
            amount: 10_000,
            valid_after: 1_699_999_000,
            valid_before: 1_700_000_600,
            signature: vec![0x1b, 0x2c, 0x3d, 0x4e],
        },
        payment_requirements: PaymentRequirements {
            scheme: Scheme::new(required_scheme.to_string()),
            network: Network::new(required_network.to_string()),
            pay_to: merchant(),
            amount: 10_000,
            asset: usdc(),
        },
    }
}

fn matching_request() -> VerifyRequest {
    request("exact", "base", "exact", "base")
}

fn rejection(payer: Option<MixedAddress>, reason: FacilitatorErrorReason) -> Response {
    Response {
        status: Status::Success,
        body: ResponseBody::Verify(VerifyResponse::Invalid { reason, payer }),
    }
}

fn generic_fault() -> Response {
    Response {
        status: Status::BadRequest,
        body: ResponseBody::Error(ErrorResponse { error: "Invalid request".to_string() }),
    }
}

#[test]
fn verify_rejects_a_payload_signed_for_another_scheme() {
    let chain = MockChain::new();
    let handled = post_verify(&chain, &request("exact", "base", "permit", "base"));
    assert_eq!(handled.response.status.code(), 200);
    assert_eq!(
        handled.response,
        rejection(Some(alice()), FacilitatorErrorReason::InvalidScheme)
    );
    match &handled.response.body {
        ResponseBody::Verify(response) => {
            assert!(!response.is_valid());
            assert_eq!(response.reason().map(|reason| reason.code()), Some("invalid_scheme".to_string()));
        }
        other => panic!("not a verification body: {:?}", other),
    }
}

#[test]
fn verify_rejects_a_payload_for_another_network() {
    let chain = MockChain::new();
    let handled = post_verify(&chain, &request("exact", "polygon", "exact", "base"));
    assert_eq!(handled.response.status.code(), 200);
    assert_eq!(
        handled.response,
        rejection(Some(alice()), FacilitatorErrorReason::InvalidNetwork)
    );
    match &handled.response.body {
        ResponseBody::Verify(response) => {
            assert!(!response.is_valid());
            assert_eq!(response.reason().map(|reason| reason.code()), Some("invalid_network".to_string()));
        }
        other => panic!("not a verification body: {:?}", other),
    }
}

#[test]
fn verify_rejects_a_network_that_is_not_served() {
    let chain = MockChain::new();
    let handled = post_verify(&chain, &request("exact", "sei", "exact", "sei"));
    assert_eq!(
        handled.response,
        rejection(Some(alice()), FacilitatorErrorReason::InvalidNetwork)
    );
}

#[test]
fn verify_rejects_a_payer_without_funds() {
    let mut chain = MockChain::new();
    chain.balance = 9_999;
    let handled = post_verify(&chain, &matching_request());
    assert_eq!(handled.response.status.code(), 200);
    assert_eq!(
        handled.response,
        rejection(Some(alice()), FacilitatorErrorReason::InsufficientFunds)
    );
    match &handled.response.body {
        ResponseBody::Verify(response) => {
            assert!(!response.is_valid());
            assert_eq!(response.reason().map(|reason| reason.code()), Some("insufficient_funds".to_string()));
        }
        other => panic!("not a verification body: {:?}", other),
    }
}

#[test]
fn verify_accepts_a_balance_that_just_covers_the_amount() {
    let mut chain = MockChain::new();
    chain.balance = 10_000;
    let handled = post_verify(&chain, &matching_request());
    assert_eq!(
        handled.response.body,
        ResponseBody::Verify(VerifyResponse::Valid { payer: alice() })
    );
}

#[test]
fn verify_reports_a_backend_timeout_without_detail() {
    let mut chain = MockChain::new();
    chain.reads_time_out = true;
    let handled = post_verify(&chain, &matching_request());
    assert_eq!(handled.response.status.code(), 400);
    assert_eq!(handled.response, generic_fault());
    assert_eq!(
        handled.diagnostic,
        Some(Diagnostic {
            message: "Verification failed".to_string(),
            error: FacilitatorLocalError::ContractCall(
                "balanceOf: the read timed out after 30 s".to_string()
            ),
        })
    );
    assert!(!format!("{:?}", handled.response).contains("timed out"));
}

#[test]
fn verify_accepts_a_matching_payload() {
    let chain = MockChain::new();
    let handled = post_verify(&chain, &matching_request());
    assert_eq!(handled.response.status.code(), 200);
    assert_eq!(
        handled,
        Handled {
            response: Response {
                status: Status::Success,
                body: ResponseBody::Verify(VerifyResponse::Valid { payer: alice() }),
            },
            diagnostic: None,
        }
    );
    match &handled.response.body {
        ResponseBody::Verify(response) => {
            assert!(response.is_valid());
            assert_eq!(response.reason(), None);
            assert_eq!(response.payer(), Some(&alice()));
        }
        other => panic!("not a verification body: {:?}", other),
    }
}

#[test]
fn verify_records_every_failure_of_the_backend() {
    let chain = MockChain::new();
    let handled = post_verify(&chain, &request("exact", "base", "permit", "base"));
    assert_eq!(
        handled.diagnostic,
        Some(Diagnostic {
            message: "Verification failed".to_string(),
            error: FacilitatorLocalError::SchemeMismatch(
                Some(alice()),
                Scheme::new("permit".to_string()),
                Scheme::new("exact".to_string()),
            ),
        })
    );
}

#[test]
fn verify_twice_gives_the_same_answer() {
    let chain = MockChain::new();
    let body = matching_request();
    let first = post_verify(&chain, &body);
    let second = post_verify(&chain, &body);
    assert_eq!(first, second);
    assert_eq!(chain.verify_calls.get(), 2);
    assert!(chain.spent.borrow().is_empty());
}

#[test]
fn verify_twice_gives_the_same_rejection() {
    let mut chain = MockChain::new();
    chain.balance = 0;
    let body = matching_request();
    let first = post_verify(&chain, &body);
    let second = post_verify(&chain, &body.clone());
    assert_eq!(first, second);
    assert_eq!(
        first.response,
        rejection(Some(alice()), FacilitatorErrorReason::InsufficientFunds)
    );
}

#[test]
fn verify_rejects_an_expired_authorization() {
    let mut chain = MockChain::new();
    chain.now = 1_700_000_600;
    let handled = post_verify(&chain, &matching_request());
    assert_eq!(
        handled.response,
        rejection(Some(alice()), FacilitatorErrorReason::InvalidScheme)
    );
}

#[test]
fn settle_executes_a_matching_payment() {
    let chain = MockChain::new();
    let handled = post_settle(&chain, &matching_request());
    assert_eq!(handled.diagnostic, None);
    assert_eq!(handled.response.status.code(), 200);
    match &handled.response.body {
        ResponseBody::Settle(response) => {
            assert!(response.success());
            assert_eq!(response.payer(), &alice());
            assert_eq!(response.network(), &Network::new("base".to_string()));
            assert_eq!(
                response.transaction(),
                Some(&"0x0000000000000000000000000000000000000000000000000000000000000001".to_string())
            );
            assert_eq!(response.error_reason(), None);
        }
        other => panic!("not a settlement body: {:?}", other),
    }
}

#[test]
fn settle_twice_is_rejected_by_the_backend() {
    let chain = MockChain::new();
    let body = matching_request();
    let first = post_settle(&chain, &body);
    let second = post_settle(&chain, &body);
    assert!(matches!(first.response.body, ResponseBody::Settle(_)));
    assert_eq!(
        second.response,
        rejection(Some(alice()), FacilitatorErrorReason::InvalidScheme)
    );
    assert_eq!(
        second.diagnostic,
        Some(Diagnostic {
            message: "Settlement failed".to_string(),
            error: FacilitatorLocalError::InvalidSignature(
                alice(),
                "the authorization was used before".to_string()
            ),
        })
    );
    assert_eq!(chain.settle_calls.get(), 2);
    assert_eq!(chain.spent.borrow().len(), 1);
}

#[test]
fn settle_without_verify_gives_the_rejection_of_verify() {
    let mut chain = MockChain::new();
    chain.balance = 1;
    let body = matching_request();
    let settled = post_settle(&chain, &body);
    let verified = post_verify(&chain, &body);
    assert_eq!(settled.response, verified.response);
    assert_eq!(
        settled.response,
        rejection(Some(alice()), FacilitatorErrorReason::InsufficientFunds)
    );
    assert!(chain.spent.borrow().is_empty());
}

#[test]
fn settle_reports_a_backend_fault_without_detail() {
    let mut chain = MockChain::new();
    chain.reads_time_out = true;
    let handled = post_settle(&chain, &matching_request());
    assert_eq!(handled.response.status.code(), 400);
    assert_eq!(handled.response, generic_fault());
    assert_eq!(
        handled.diagnostic.map(|diagnostic| diagnostic.message),
        Some("Settlement failed".to_string())
    );
}

#[test]
fn settle_asks_the_backend_once() {
    let mut chain = MockChain::new();
    chain.reads_time_out = true;
    let _ = post_settle(&chain, &matching_request());
    assert_eq!(chain.settle_calls.get(), 1);
    assert_eq!(chain.verify_calls.get(), 0);
}

#[test]
fn supported_lists_the_kinds() {
    let chain = MockChain::new();
    assert_eq!(
        get_supported(&chain),
        Response {
            status: Status::Success,
            body: ResponseBody::Supported(SupportedPaymentKindsResponse {
                kinds: vec![
                    SupportedPaymentKind {
                        scheme: Scheme::new("exact".to_string()),
                        network: Network::new("base".to_string()),
                    },
                    SupportedPaymentKind {
                        scheme: Scheme::new("exact".to_string()),
                        network: Network::new("polygon".to_string()),
                    },
                ],
            }),
        }
    );
}

#[test]
fn health_equals_supported() {
    let chain = MockChain::new();
    assert_eq!(get_health(&chain), get_supported(&chain));
    assert_eq!(get_health(&chain).status.code(), 200);
}

#[test]
fn health_equals_supported_when_the_backend_fails() {
    let mut chain = MockChain::new();
    chain.reads_time_out = true;
    assert_eq!(get_health(&chain), get_supported(&chain));
    assert_eq!(get_health(&chain), generic_fault());
}

#[test]
fn health_of_a_facilitator_that_supports_nothing() {
    let mut chain = MockChain::new();
    chain.networks.clear();
    assert_eq!(
        get_health(&chain),
        Response {
            status: Status::Success,
            body: ResponseBody::Supported(SupportedPaymentKindsResponse { kinds: vec![] }),
        }
    );
}

#[test]
fn respond_to_verify_serves_an_invalid_judgment_as_it_is() {
    let judgment = VerifyResponse::invalid(
        None,
        FacilitatorErrorReason::FreeForm("nonce reused".to_string()),
    );
    assert_eq!(
        respond_to_verify(Ok(judgment)),
        Handled {
            response: rejection(None, FacilitatorErrorReason::FreeForm("nonce reused".to_string())),
            diagnostic: None,
        }
    );
}

#[test]
fn respond_to_verify_classifies_a_decoding_error() {
    let handled = respond_to_verify(Err(FacilitatorLocalError::DecodingError(
        "invalid base64".to_string(),
    )));
    assert_eq!(
        handled,
        Handled {
            response: rejection(None, FacilitatorErrorReason::FreeForm("invalid base64".to_string())),
            diagnostic: Some(Diagnostic {
                message: "Verification failed".to_string(),
                error: FacilitatorLocalError::DecodingError("invalid base64".to_string()),
            }),
        }
    );
}

#[test]
fn respond_to_settle_serves_a_failed_settlement() {
    let failed = SettleResponse::failed(
        Some(FacilitatorErrorReason::InsufficientFunds),
        alice(),
        Network::new("base".to_string()),
    );
    let handled = respond_to_settle(Ok(failed));
    assert_eq!(handled.diagnostic, None);
    assert_eq!(handled.response.status, Status::Success);
    match handled.response.body {
        ResponseBody::Settle(response) => {
            assert!(!response.success());
            assert_eq!(response.transaction(), None);
        }
        other => panic!("not a settlement body: {:?}", other),
    }
}

#[test]
fn respond_to_settle_classifies_a_clock_error() {
    let handled = respond_to_settle(Err(FacilitatorLocalError::ClockError(
        "second time provided was later than self".to_string(),
    )));
    assert_eq!(handled.response, generic_fault());
    assert_eq!(
        handled.diagnostic,
        Some(Diagnostic {
            message: "Settlement failed".to_string(),
            error: FacilitatorLocalError::ClockError(
                "second time provided was later than self".to_string()
            ),
        })
    );
}

#[test]
fn respond_to_supported_classifies_an_error() {
    assert_eq!(
        respond_to_supported(Err(FacilitatorLocalError::UnsupportedNetwork(None))),
        rejection(None, FacilitatorErrorReason::InvalidNetwork)
    );
    assert_eq!(
        respond_to_supported(Err(FacilitatorLocalError::InvalidAddress("0xzz".to_string()))),
        generic_fault()
    );
}
