//! What an endpoint answers: a status and a body, before any encoding.

use vstd::prelude::*;
use crate::chain::{FacilitatorLocalError, FacilitatorLocalErrorView};
use crate::types::{
    ErrorResponse, SettleResponse, SettleResponseView, SupportedPaymentKindView,
    SupportedPaymentKindsResponse, VerifyResponse, VerifyResponseView,
};

verus! {

/// The status codes that the endpoints answer with.
#[derive(Clone, Copy, Debug, PartialEq, Eq, Structural)]
pub enum Status {
    /// 200: the request was evaluated, whatever the judgment on the payment.
    Success,
    /// 400: the request could not be evaluated.
    BadRequest,
}

impl Status {
    /// The number of the status.
    pub open spec fn spec_code(self) -> u16 {
        match self {
            Status::Success => 200,
            Status::BadRequest => 400,
        }
    }

    /// The number of the status.
    #[verifier::when_used_as_spec(spec_code)]
    pub fn code(self) -> (code: u16)
        ensures
            code == self.spec_code(),
    {
        match self {
            Status::Success => 200,
            Status::BadRequest => 400,
        }
    }
}

/// The two parts that the body of a verification or settlement request is made of,
/// each under the name of its type.
#[derive(Debug, PartialEq, Eq)]
pub struct RequestSchema {
    pub payment_payload: String,
    pub payment_requirements: String,
}

/// Description of an endpoint that a client posts payments to.
#[derive(Debug, PartialEq, Eq)]
pub struct EndpointInfo {
    pub endpoint: String,
    pub description: String,
    pub body: RequestSchema,
}

/// Mathematical model of an [`EndpointInfo`].
pub struct EndpointInfoView {
    pub endpoint: Seq<char>,
    pub description: Seq<char>,
    pub payment_payload: Seq<char>,
    pub payment_requirements: Seq<char>,
}

impl View for EndpointInfo {
    type V = EndpointInfoView;

    open spec fn view(&self) -> EndpointInfoView {
        EndpointInfoView {
            endpoint: self.endpoint@,
            description: self.description@,
            payment_payload: self.body.payment_payload@,
            payment_requirements: self.body.payment_requirements@,
        }
    }
}

/// Body of a response.
#[derive(Debug, PartialEq, Eq)]
pub enum ResponseBody {
    Verify(VerifyResponse),
    Settle(SettleResponse),
    Supported(SupportedPaymentKindsResponse),
    Info(EndpointInfo),
    Error(ErrorResponse),
}

/// Mathematical model of a [`ResponseBody`].
pub enum ResponseBodyView {
    Verify(VerifyResponseView),
    Settle(SettleResponseView),
    Supported(Seq<SupportedPaymentKindView>),
    Info(EndpointInfoView),
    Error(Seq<char>),
}

impl View for ResponseBody {
    type V = ResponseBodyView;

    open spec fn view(&self) -> ResponseBodyView {
        match self {
            ResponseBody::Verify(response) => ResponseBodyView::Verify(response@),
            ResponseBody::Settle(response) => ResponseBodyView::Settle(response@),
            ResponseBody::Supported(response) => ResponseBodyView::Supported(response@),
            ResponseBody::Info(info) => ResponseBodyView::Info(info@),
            ResponseBody::Error(error) => ResponseBodyView::Error(error@),
        }
    }
}

/// Answer of an endpoint.
#[derive(Debug, PartialEq, Eq)]
pub struct Response {
    pub status: Status,
    pub body: ResponseBody,
}

/// Mathematical model of a [`Response`].
pub struct ResponseView {
    pub status: Status,
    pub body: ResponseBodyView,
}

impl ResponseView {
    /// The response reports a payment that was judged valid.
    pub open spec fn is_acceptance(self) -> bool {
        &&& self.status == Status::Success
        &&& self.body matches ResponseBodyView::Verify(response)
        &&& response.is_valid()
    }

    /// The response reports a payment that was judged invalid, with its reason.
    pub open spec fn is_rejection(self) -> bool {
        &&& self.status == Status::Success
        &&& self.body matches ResponseBodyView::Verify(response)
        &&& !response.is_valid()
    }

    /// The response reports, without detail, a request that could not be evaluated.
    pub open spec fn is_generic_fault(self) -> bool {
        self.status == Status::BadRequest && self.body == ResponseBodyView::Error(
            "Invalid request"@,
        )
    }
}

impl View for Response {
    type V = ResponseView;

    open spec fn view(&self) -> ResponseView {
        ResponseView { status: self.status, body: self.body@ }
    }
}

/// What the server records when the backend fails a request.
#[derive(Debug, PartialEq, Eq)]
pub struct Diagnostic {
    pub message: String,
    pub error: FacilitatorLocalError,
}

/// Mathematical model of a [`Diagnostic`].
pub struct DiagnosticView {
    pub message: Seq<char>,
    pub error: FacilitatorLocalErrorView,
}

impl View for Diagnostic {
    type V = DiagnosticView;

    open spec fn view(&self) -> DiagnosticView {
        DiagnosticView { message: self.message@, error: self.error@ }
    }
}

/// Outcome of handling a request: the response for the client and, where the
/// backend failed, the diagnostic for the server's log.
#[derive(Debug, PartialEq, Eq)]
pub struct Handled {
    pub response: Response,
    pub diagnostic: Option<Diagnostic>,
}

/// Mathematical model of a [`Handled`].
pub struct HandledView {
    pub response: ResponseView,
    pub diagnostic: Option<DiagnosticView>,
}

impl View for Handled {
    type V = HandledView;

    open spec fn view(&self) -> HandledView {
        HandledView {
            response: self.response@,
            diagnostic: match self.diagnostic {
                Some(diagnostic) => Some(diagnostic@),
                None => None,
            },
        }
    }
}

} // verus!
