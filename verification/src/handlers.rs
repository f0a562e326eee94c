//! Endpoints of the facilitator, as functions from plain values to responses.
//!
//! Each endpoint takes what a server has decoded from a request and gives back
//! the status and body to encode. The endpoints that consult the backend are
//! generic over the [`Facilitator`]; beside each stands the function that
//! shapes the response from the outcome of the backend.

use vstd::prelude::*;
use crate::chain::{FacilitatorLocalError, FacilitatorLocalErrorView, FailureCategory};
use crate::facilitator::{
    settle_outcome_view, supported_outcome_view, verify_outcome_view, Facilitator,
};
use crate::response::{
    Diagnostic, DiagnosticView, EndpointInfo, EndpointInfoView, Handled, HandledView,
    RequestSchema, Response, ResponseBody, ResponseBodyView, ResponseView, Status,
};
use crate::types::{
    ErrorResponse, FacilitatorErrorReason, MixedAddress, MixedAddressView, ReasonView,
    SettleRequest, SettleResponse, SettleResponseView, SupportedPaymentKindView,
    SupportedPaymentKindsResponse, VerifyRequest, VerifyRequestView, VerifyResponse,
    VerifyResponseView,
};

verus! {

/// The response to a payment that was evaluated and judged invalid.
pub open spec fn rejection(payer: Option<MixedAddressView>, reason: ReasonView) -> ResponseView {
    ResponseView {
        status: Status::Success,
        body: ResponseBodyView::Verify(VerifyResponseView::Invalid { reason, payer }),
    }
}

/// The response to a request that could not be evaluated. It says nothing of the cause.
pub open spec fn generic_fault() -> ResponseView {
    ResponseView { status: Status::BadRequest, body: ResponseBodyView::Error("Invalid request"@) }
}

/// The one externally visible outcome of each failure.
///
/// A payment that was rejected on its merits is reported as invalid under the
/// scheme, a disagreement on the network under the network, an unreadable
/// payload under its own diagnostic, and a payer without funds as such. A
/// fault of the infrastructure is no judgment on the payment and is reported
/// without detail.
pub open spec fn classify(error: FacilitatorLocalErrorView) -> ResponseView {
    match error.category() {
        FailureCategory::SemanticRejection => rejection(error.payer(), ReasonView::InvalidScheme),
        FailureCategory::NetworkIncompatibility => rejection(
            error.payer(),
            ReasonView::InvalidNetwork,
        ),
        FailureCategory::Undecodable => rejection(
            None,
            ReasonView::FreeForm(error->DecodingError_0),
        ),
        FailureCategory::FundsInsufficiency => rejection(
            error.payer(),
            ReasonView::InsufficientFunds,
        ),
        FailureCategory::InfrastructureFault => generic_fault(),
    }
}

/// The rejection given to a payment that does not follow the required scheme.
pub fn invalid_schema(payer: Option<MixedAddress>) -> (response: VerifyResponse)
    ensures
        response == (VerifyResponse::Invalid {
            reason: FacilitatorErrorReason::InvalidScheme,
            payer,
        }),
{
    VerifyResponse::invalid(payer, FacilitatorErrorReason::InvalidScheme)
}

fn rejected(response: VerifyResponse) -> (reply: Response)
    ensures
        reply == (Response { status: Status::Success, body: ResponseBody::Verify(response) }),
{
    Response { status: Status::Success, body: ResponseBody::Verify(response) }
}

fn bad_request() -> (reply: Response)
    ensures
        reply@ == generic_fault(),
{
    Response {
        status: Status::BadRequest,
        body: ResponseBody::Error(ErrorResponse { error: "Invalid request".to_owned() }),
    }
}

impl FacilitatorLocalError {
    /// Turns the failure into the response that the client sees.
    pub fn into_response(self) -> (response: Response)
        ensures
            response@ == classify(self@),
            response@.is_rejection() != response@.is_generic_fault(),
            response@.is_generic_fault() <==> self@.category() == FailureCategory::InfrastructureFault,
    {
        match self {
            FacilitatorLocalError::SchemeMismatch(payer, ..) => rejected(invalid_schema(payer)),
            FacilitatorLocalError::ReceiverMismatch(payer, ..)
            | FacilitatorLocalError::InvalidSignature(payer, ..)
            | FacilitatorLocalError::InvalidTiming(payer, ..)
            | FacilitatorLocalError::InsufficientValue(payer) => rejected(
                invalid_schema(Some(payer)),
            ),
            FacilitatorLocalError::NetworkMismatch(payer, ..)
            | FacilitatorLocalError::UnsupportedNetwork(payer) => rejected(
                VerifyResponse::invalid(payer, FacilitatorErrorReason::InvalidNetwork),
            ),
            FacilitatorLocalError::ContractCall(..)
            | FacilitatorLocalError::InvalidAddress(..)
            | FacilitatorLocalError::ClockError(..) => bad_request(),
            FacilitatorLocalError::DecodingError(reason) => rejected(
                VerifyResponse::invalid(None, FacilitatorErrorReason::FreeForm(reason)),
            ),
            FacilitatorLocalError::InsufficientFunds(payer) => rejected(
                VerifyResponse::invalid(Some(payer), FacilitatorErrorReason::InsufficientFunds),
            ),
        }
    }
}

/// Every failure is reported in exactly one of two ways: as a payment judged
/// invalid, with status 200 and a reason, or as a request that could not be
/// evaluated, with status 400 and no detail. The second is the report of the
/// infrastructure faults and of nothing else.
pub proof fn lemma_classification_is_total_and_exclusive(error: FacilitatorLocalErrorView)
    ensures
        classify(error).is_rejection() || classify(error).is_generic_fault(),
        !(classify(error).is_rejection() && classify(error).is_generic_fault()),
        classify(error).is_generic_fault() <==> error.category()
            == FailureCategory::InfrastructureFault,
        classify(error).is_generic_fault() <==> (error is ContractCall || error is InvalidAddress
            || error is ClockError),
{
}

/// The report of an infrastructure fault withholds the cause: any two faults
/// get the same response.
pub proof fn lemma_fault_detail_is_withheld(
    first: FacilitatorLocalErrorView,
    second: FacilitatorLocalErrorView,
)
    requires
        first.category() == FailureCategory::InfrastructureFault,
        second.category() == FailureCategory::InfrastructureFault,
    ensures
        classify(first) == classify(second),
{
}

/// The classification, failure by failure.
pub proof fn lemma_classification_by_variant(error: FacilitatorLocalErrorView)
    ensures
        classify(error) == match error {
            FacilitatorLocalErrorView::SchemeMismatch(payer, _, _) => rejection(
                payer,
                ReasonView::InvalidScheme,
            ),
            FacilitatorLocalErrorView::ReceiverMismatch(payer, _, _) => rejection(
                Some(payer),
                ReasonView::InvalidScheme,
            ),
            FacilitatorLocalErrorView::InvalidSignature(payer, _) => rejection(
                Some(payer),
                ReasonView::InvalidScheme,
            ),
            FacilitatorLocalErrorView::InvalidTiming(payer, _) => rejection(
                Some(payer),
                ReasonView::InvalidScheme,
            ),
            FacilitatorLocalErrorView::InsufficientValue(payer) => rejection(
                Some(payer),
                ReasonView::InvalidScheme,
            ),
            FacilitatorLocalErrorView::NetworkMismatch(payer, _, _) => rejection(
                payer,
                ReasonView::InvalidNetwork,
            ),
            FacilitatorLocalErrorView::UnsupportedNetwork(payer) => rejection(
                payer,
                ReasonView::InvalidNetwork,
            ),
            FacilitatorLocalErrorView::DecodingError(diagnostic) => rejection(
                None,
                ReasonView::FreeForm(diagnostic),
            ),
            FacilitatorLocalErrorView::InsufficientFunds(payer) => rejection(
                Some(payer),
                ReasonView::InsufficientFunds,
            ),
            FacilitatorLocalErrorView::ContractCall(_) => generic_fault(),
            FacilitatorLocalErrorView::InvalidAddress(_) => generic_fault(),
            FacilitatorLocalErrorView::ClockError(_) => generic_fault(),
        },
{
}

/// How the outcome of the backend is handled. A result is served as it is
/// under status 200. A failure is classified for the client and recorded for
/// the server under `message`.
pub open spec fn handling(
    outcome: Result<ResponseBodyView, FacilitatorLocalErrorView>,
    message: Seq<char>,
) -> HandledView {
    match outcome {
        Ok(body) => HandledView {
            response: ResponseView { status: Status::Success, body },
            diagnostic: None,
        },
        Err(error) => HandledView {
            response: classify(error),
            diagnostic: Some(DiagnosticView { message, error }),
        },
    }
}

/// How the outcome of a verification is handled.
pub open spec fn verification_handling(
    outcome: Result<VerifyResponseView, FacilitatorLocalErrorView>,
) -> HandledView {
    handling(
        match outcome {
            Ok(response) => Ok(ResponseBodyView::Verify(response)),
            Err(error) => Err(error),
        },
        "Verification failed"@,
    )
}

/// How the outcome of a settlement is handled.
pub open spec fn settlement_handling(
    outcome: Result<SettleResponseView, FacilitatorLocalErrorView>,
) -> HandledView {
    handling(
        match outcome {
            Ok(response) => Ok(ResponseBodyView::Settle(response)),
            Err(error) => Err(error),
        },
        "Settlement failed"@,
    )
}

/// The response to a question for the capabilities, from the outcome of the
/// backend. A failure is classified like any other, and not recorded.
pub open spec fn capability_response(
    outcome: Result<Seq<SupportedPaymentKindView>, FacilitatorLocalErrorView>,
) -> ResponseView {
    match outcome {
        Ok(supported) => ResponseView {
            status: Status::Success,
            body: ResponseBodyView::Supported(supported),
        },
        Err(error) => classify(error),
    }
}

/// Shapes the answer to a verification request from the outcome of the backend.
pub fn respond_to_verify(outcome: Result<VerifyResponse, FacilitatorLocalError>) -> (handled:
    Handled)
    ensures
        handled@ == verification_handling(verify_outcome_view(outcome)),
{
    match outcome {
        Ok(valid_response) => Handled {
            response: Response {
                status: Status::Success,
                body: ResponseBody::Verify(valid_response),
            },
            diagnostic: None,
        },
        Err(error) => {
            let diagnostic = Diagnostic {
                message: "Verification failed".to_owned(),
                error: error.clone(),
            };
            Handled { response: error.into_response(), diagnostic: Some(diagnostic) }
        },
    }
}

/// Shapes the answer to a settlement request from the outcome of the backend.
/// A settlement that is served is well formed: where it failed, it claims no
/// transaction.
pub fn respond_to_settle(outcome: Result<SettleResponse, FacilitatorLocalError>) -> (handled:
    Handled)
    ensures
        handled@ == settlement_handling(settle_outcome_view(outcome)),
        handled@.response.body matches ResponseBodyView::Settle(response) ==> response.wf(),
{
    match outcome {
        Ok(valid_response) => {
            proof {
                use_type_invariant(&valid_response);
            }
            Handled {
                response: Response {
                    status: Status::Success,
                    body: ResponseBody::Settle(valid_response),
                },
                diagnostic: None,
            }
        },
        Err(error) => {
            let diagnostic = Diagnostic {
                message: "Settlement failed".to_owned(),
                error: error.clone(),
            };
            Handled { response: error.into_response(), diagnostic: Some(diagnostic) }
        },
    }
}

/// Shapes the answer to a question for the capabilities from the outcome of the backend.
pub fn respond_to_supported(
    outcome: Result<SupportedPaymentKindsResponse, FacilitatorLocalError>,
) -> (response: Response)
    ensures
        response@ == capability_response(supported_outcome_view(outcome)),
{
    match outcome {
        Ok(supported) => Response {
            status: Status::Success,
            body: ResponseBody::Supported(supported),
        },
        Err(error) => error.into_response(),
    }
}

/// `handled` answers a verification of `request` by `facilitator`: it is how
/// one of the outcomes that the backend may give for the request is handled.
pub open spec fn answers_verify<A: Facilitator>(
    facilitator: A,
    request: VerifyRequestView,
    handled: HandledView,
) -> bool {
    exists|outcome: Result<VerifyResponseView, FacilitatorLocalErrorView>|
        #[trigger] facilitator.verify_outcomes(request, outcome) && handled
            == verification_handling(outcome)
}

/// `handled` answers a settlement of `request` by `facilitator`.
pub open spec fn answers_settle<A: Facilitator>(
    facilitator: A,
    request: VerifyRequestView,
    handled: HandledView,
) -> bool {
    exists|outcome: Result<SettleResponseView, FacilitatorLocalErrorView>|
        #[trigger] facilitator.settle_outcomes(request, outcome) && handled == settlement_handling(
            outcome,
        )
}

/// `response` tells the capabilities of `facilitator`.
pub open spec fn answers_supported<A: Facilitator>(facilitator: A, response: ResponseView) -> bool {
    exists|outcome: Result<Seq<SupportedPaymentKindView>, FacilitatorLocalErrorView>|
        #[trigger] facilitator.supported_outcomes(outcome) && response == capability_response(
            outcome,
        )
}

/// `POST /verify`: checks whether the payment of `body` meets its requirements.
///
/// The backend is asked once, with `body` itself. Its judgment is served under
/// status 200, valid or not; its failure is classified and recorded.
pub fn post_verify<A: Facilitator>(facilitator: &A, body: &VerifyRequest) -> (handled: Handled)
    ensures
        answers_verify(*facilitator, body@, handled@),
{
    let outcome = facilitator.verify(body);
    respond_to_verify(outcome)
}

/// `POST /settle`: executes the payment of `body` on chain.
///
/// The backend is asked once, with `body` itself, and never a second time:
/// a settlement is not safe to repeat, and this layer does not retry.
pub fn post_settle<A: Facilitator>(facilitator: &A, body: &SettleRequest) -> (handled: Handled)
    ensures
        answers_settle(*facilitator, body@, handled@),
        handled@.response.body matches ResponseBodyView::Settle(response) ==> response.wf(),
{
    let outcome = facilitator.settle(body);
    respond_to_settle(outcome)
}

/// `GET /supported`: lists the pairs of scheme and network that the facilitator accepts.
pub fn get_supported<A: Facilitator>(facilitator: &A) -> (response: Response)
    ensures
        answers_supported(*facilitator, response@),
{
    let outcome = facilitator.supported();
    respond_to_supported(outcome)
}

/// `GET /health`: the facilitator is alive if it can tell what it supports, so
/// this is `GET /supported` under another path.
pub fn get_health<A: Facilitator>(facilitator: &A) -> (response: Response)
    ensures
        answers_supported(*facilitator, response@),
{
    get_supported(facilitator)
}

/// Health and capability discovery are one read. Where the backend tells its
/// capabilities in one way only, `GET /health` and `GET /supported` answer alike.
pub proof fn lemma_health_equals_supported<A: Facilitator>(
    facilitator: A,
    health: ResponseView,
    supported: ResponseView,
)
    requires
        forall|first, second|
            #[trigger] facilitator.supported_outcomes(first)
                && #[trigger] facilitator.supported_outcomes(second) ==> first == second,
        answers_supported(facilitator, health),
        answers_supported(facilitator, supported),
    ensures
        health == supported,
{
}

/// Verification can be repeated. Where the backend judges a request in one way
/// only, as it does while the authorization has not expired and the chain has
/// not moved, two verifications of the request are answered alike.
pub proof fn lemma_verify_is_repeatable<A: Facilitator>(
    facilitator: A,
    request: VerifyRequestView,
    first: HandledView,
    second: HandledView,
)
    requires
        forall|one, other|
            #[trigger] facilitator.verify_outcomes(request, one)
                && #[trigger] facilitator.verify_outcomes(request, other) ==> one == other,
        answers_verify(facilitator, request, first),
        answers_verify(facilitator, request, second),
    ensures
        first == second,
{
}

/// A verification ends in exactly one of three ways: the payment is reported
/// valid, it is reported invalid with a reason, or the request is reported as
/// one that could not be evaluated. The server records a diagnostic exactly
/// when the backend failed.
pub proof fn lemma_verification_ends_in_one_state(
    outcome: Result<VerifyResponseView, FacilitatorLocalErrorView>,
)
    ensures
        ({
            let response = verification_handling(outcome).response;
            &&& response.is_acceptance() || response.is_rejection() || response.is_generic_fault()
            &&& !(response.is_acceptance() && response.is_rejection())
            &&& !(response.is_acceptance() && response.is_generic_fault())
            &&& !(response.is_rejection() && response.is_generic_fault())
            &&& response.is_acceptance() <==> (outcome matches Ok(judgment) && judgment.is_valid())
            &&& response.is_generic_fault() <==> (outcome matches Err(error) && error.category()
                == FailureCategory::InfrastructureFault)
        }),
        verification_handling(outcome).diagnostic is Some <==> outcome is Err,
{
}

/// Settlement checks a payment again and rejects it as verification does: one
/// failure gets one response, whichever of the two operations ran into it.
pub proof fn lemma_settle_rejects_as_verify_does(error: FacilitatorLocalErrorView)
    ensures
        settlement_handling(Err(error)).response == verification_handling(Err(error)).response,
        settlement_handling(Err(error)).response == classify(error),
{
}

/// Nothing of a judgment is lost on the way to the client: verifications that
/// are answered alike had the same outcome.
pub proof fn lemma_verification_handling_is_injective(
    first: Result<VerifyResponseView, FacilitatorLocalErrorView>,
    second: Result<VerifyResponseView, FacilitatorLocalErrorView>,
)
    requires
        verification_handling(first) == verification_handling(second),
    ensures
        first == second,
{
}

/// The description of an endpoint that takes a payload and its requirements.
pub open spec fn endpoint_description(endpoint: Seq<char>, description: Seq<char>) -> ResponseView {
    ResponseView {
        status: Status::Success,
        body: ResponseBodyView::Info(
            EndpointInfoView {
                endpoint,
                description,
                payment_payload: "PaymentPayload"@,
                payment_requirements: "PaymentRequirements"@,
            },
        ),
    }
}

fn describe(endpoint: &str, description: &str) -> (response: Response)
    ensures
        response@ == endpoint_description(endpoint@, description@),
{
    Response {
        status: Status::Success,
        body: ResponseBody::Info(
            EndpointInfo {
                endpoint: endpoint.to_owned(),
                description: description.to_owned(),
                body: RequestSchema {
                    payment_payload: "PaymentPayload".to_owned(),
                    payment_requirements: "PaymentRequirements".to_owned(),
                },
            },
        ),
    }
}

/// `GET /verify`: describes the endpoint that verifies payments.
pub fn get_verify_info() -> (response: Response)
    ensures
        response@ == endpoint_description("/verify"@, "POST to verify x402 payments"@),
{
    describe("/verify", "POST to verify x402 payments")
}

/// `GET /settle`: describes the endpoint that settles payments.
pub fn get_settle_info() -> (response: Response)
    ensures
        response@ == endpoint_description("/settle"@, "POST to settle x402 payments"@),
{
    describe("/settle", "POST to settle x402 payments")
}

/// The text under which the body of a failed request is recorded: its
/// serialized form, or a placeholder where it could not be serialized.
pub fn recorded_body(serialized: Option<String>) -> (text: String)
    ensures
        text@ == match serialized {
            Some(body) => body@,
            None => "<can-not-serialize>"@,
        },
{
    match serialized {
        Some(body) => body,
        None => "<can-not-serialize>".to_owned(),
    }
}

/// Method of a request.
#[derive(Clone, Copy, Debug, PartialEq, Eq, Structural)]
pub enum Method {
    Get,
    Post,
}

/// The endpoints that the facilitator serves.
#[derive(Clone, Copy, Debug, PartialEq, Eq, Structural)]
pub enum Endpoint {
    Root,
    VerifyInfo,
    Verify,
    SettleInfo,
    Settle,
    Health,
    Supported,
}

/// One entry of the routing table: the endpoint that serves a method and a path.
#[derive(Debug, PartialEq, Eq)]
pub struct Route {
    pub method: Method,
    pub path: String,
    pub endpoint: Endpoint,
}

/// Mathematical model of a [`Route`].
pub struct RouteView {
    pub method: Method,
    pub path: Seq<char>,
    pub endpoint: Endpoint,
}

impl View for Route {
    type V = RouteView;

    open spec fn view(&self) -> RouteView {
        RouteView { method: self.method, path: self.path@, endpoint: self.endpoint }
    }
}

/// The routing table of the facilitator.
pub open spec fn route_table() -> Seq<RouteView> {
    seq![
        RouteView { method: Method::Get, path: "/"@, endpoint: Endpoint::Root },
        RouteView { method: Method::Get, path: "/verify"@, endpoint: Endpoint::VerifyInfo },
        RouteView { method: Method::Post, path: "/verify"@, endpoint: Endpoint::Verify },
        RouteView { method: Method::Get, path: "/settle"@, endpoint: Endpoint::SettleInfo },
        RouteView { method: Method::Post, path: "/settle"@, endpoint: Endpoint::Settle },
        RouteView { method: Method::Get, path: "/health"@, endpoint: Endpoint::Health },
        RouteView { method: Method::Get, path: "/supported"@, endpoint: Endpoint::Supported },
    ]
}

fn route(method: Method, path: &str, endpoint: Endpoint) -> (route: Route)
    ensures
        route@ == (RouteView { method, path: path@, endpoint }),
{
    Route { method, path: path.to_owned(), endpoint }
}

/// The routes of the facilitator, in the order in which a server registers them.
pub fn routes() -> (table: Vec<Route>)
    ensures
        table@.len() == route_table().len(),
        forall|i: int| 0 <= i < table@.len() ==> (#[trigger] table@[i])@ == route_table()[i],
{
    let mut table: Vec<Route> = Vec::new();
    table.push(route(Method::Get, "/", Endpoint::Root));
    table.push(route(Method::Get, "/verify", Endpoint::VerifyInfo));
    table.push(route(Method::Post, "/verify", Endpoint::Verify));
    table.push(route(Method::Get, "/settle", Endpoint::SettleInfo));
    table.push(route(Method::Post, "/settle", Endpoint::Settle));
    table.push(route(Method::Get, "/health", Endpoint::Health));
    table.push(route(Method::Get, "/supported", Endpoint::Supported));
    table
}

/// No two routes serve the same method and path, and none shares its endpoint
/// with another: a request is served by one endpoint at most.
pub proof fn lemma_routes_are_distinct()
    ensures
        forall|i: int, j: int|
            0 <= i < j < route_table().len() ==> {
                let first = #[trigger] route_table()[i];
                let second = #[trigger] route_table()[j];
                &&& !(first.method == second.method && first.path == second.path)
                &&& first.endpoint != second.endpoint
            },
{
    reveal_strlit("/");
    reveal_strlit("/verify");
    reveal_strlit("/settle");
    reveal_strlit("/health");
    reveal_strlit("/supported");
    let table = route_table();
    assert(table[0].path.len() == 1 && table[6].path.len() == 10);
    assert(table[1].path[1] == 'v' && table[2].path[1] == 'v');
    assert(table[3].path[1] == 's' && table[4].path[1] == 's');
    assert(table[5].path[1] == 'h');
}

} // verus!
