//! Values exchanged between clients, the facilitator and its chain backend.
//!
//! Every type that holds text has a mathematical model, reached with `@`, in
//! which text is a sequence of characters. Contracts speak of the models.

use vstd::prelude::*;
use vstd::std_specs::iter::IteratorSpec;

verus! {

/// Family of networks whose native encoding an address follows.
#[derive(Clone, Copy, Debug, PartialEq, Eq, Structural)]
pub enum AddressFamily {
    Evm,
    Solana,
    Offchain,
}

/// Identity of a payer or payee on some network, independent of the chain.
///
/// An address is kept as it was written. Two addresses are equal when they
/// are of one family and name the same account: an address of the EVM family
/// is hexadecimal and compares without regard to case, the others compare
/// letter for letter.
#[derive(Debug)]
pub struct MixedAddress {
    pub family: AddressFamily,
    pub raw: String,
}

/// Mathematical model of a [`MixedAddress`].
pub struct MixedAddressView {
    pub family: AddressFamily,
    pub raw: Seq<char>,
}

impl View for MixedAddress {
    type V = MixedAddressView;

    open spec fn view(&self) -> MixedAddressView {
        MixedAddressView { family: self.family, raw: self.raw@ }
    }
}

/// The code point of `c`, with the upper-case ASCII letters folded to lower case.
pub open spec fn fold_case(c: char) -> u32 {
    let code = c as u32;
    if 65 <= code <= 90 {
        (code + 32) as u32
    } else {
        code
    }
}

/// The two texts are the same but for the case of their ASCII letters.
pub open spec fn same_ignoring_case(first: Seq<char>, second: Seq<char>) -> bool {
    &&& first.len() == second.len()
    &&& forall|i: int|
        0 <= i < first.len() ==> fold_case(#[trigger] first[i]) == fold_case(second[i])
}

impl MixedAddressView {
    /// The two addresses name the same account.
    pub open spec fn same_as(self, other: MixedAddressView) -> bool {
        &&& self.family == other.family
        &&& if self.family == AddressFamily::Evm {
            same_ignoring_case(self.raw, other.raw)
        } else {
            self.raw == other.raw
        }
    }
}

fn folded(c: char) -> (code: u32)
    ensures
        code == fold_case(c),
{
    let code: u32 = c as u32;
    if 65 <= code && code <= 90 {
        code + 32
    } else {
        code
    }
}

fn equal_ignoring_case(first: &str, second: &str) -> (equal: bool)
    ensures
        equal == same_ignoring_case(first@, second@),
{
    broadcast use vstd::string::group_string_axioms;

    let mut left = first.chars();
    let mut right = second.chars();
    let ghost mut done: int = 0;
    loop
        invariant
            left.obeys_prophetic_iter_laws(),
            right.obeys_prophetic_iter_laws(),
            0 <= done <= first@.len(),
            done <= second@.len(),
            left.remaining() == first@.skip(done),
            right.remaining() == second@.skip(done),
            forall|i: int|
                0 <= i < done ==> fold_case(#[trigger] first@[i]) == fold_case(second@[i]),
        decreases first@.len() - done,
    {
        match (left.next(), right.next()) {
            (None, None) => {
                return true;
            },
            (Some(one), Some(other)) => {
                if folded(one) != folded(other) {
                    return false;
                }
                proof {
                    assert(first@.skip(done).drop_first() == first@.skip(done + 1));
                    assert(second@.skip(done).drop_first() == second@.skip(done + 1));
                    done = done + 1;
                }
            },
            _ => {
                return false;
            },
        }
    }
}

impl PartialEq for MixedAddress {
    fn eq(&self, other: &Self) -> (equal: bool) {
        match (self.family, other.family) {
            (AddressFamily::Evm, AddressFamily::Evm) => equal_ignoring_case(
                self.raw.as_str(),
                other.raw.as_str(),
            ),
            (AddressFamily::Solana, AddressFamily::Solana)
            | (AddressFamily::Offchain, AddressFamily::Offchain) => self.raw == other.raw,
            _ => false,
        }
    }
}

impl vstd::std_specs::cmp::PartialEqSpecImpl for MixedAddress {
    open spec fn obeys_eq_spec() -> bool {
        true
    }

    open spec fn eq_spec(&self, other: &Self) -> bool {
        self@.same_as(other@)
    }
}

impl Eq for MixedAddress {}

/// Equality of addresses is an equivalence: every address equals itself,
/// equality does not depend on the side, and it carries over a common third.
pub proof fn lemma_same_address_is_an_equivalence(
    first: MixedAddressView,
    second: MixedAddressView,
    third: MixedAddressView,
)
    ensures
        first.same_as(first),
        first.same_as(second) ==> second.same_as(first),
        first.same_as(second) && second.same_as(third) ==> first.same_as(third),
{
}

impl Clone for MixedAddress {
    fn clone(&self) -> (copy: Self)
        ensures
            copy == *self,
    {
        MixedAddress { family: self.family, raw: self.raw.clone() }
    }
}

impl MixedAddress {
    /// An address of the given family in its raw string form.
    pub fn new(family: AddressFamily, raw: String) -> (address: Self)
        ensures
            address == (MixedAddress { family, raw }),
    {
        MixedAddress { family, raw }
    }
}

/// Model of an optional address.
pub open spec fn payer_view(payer: Option<MixedAddress>) -> Option<MixedAddressView> {
    match payer {
        Some(address) => Some(address@),
        None => None,
    }
}

/// Copies an optional address.
pub fn clone_payer(payer: &Option<MixedAddress>) -> (copy: Option<MixedAddress>)
    ensures
        copy == *payer,
{
    match payer {
        Some(address) => Some(address.clone()),
        None => None,
    }
}

/// Identifier of a payment authorization mechanism, such as `exact`.
#[derive(Debug, PartialEq, Eq)]
pub struct Scheme {
    pub name: String,
}

impl View for Scheme {
    type V = Seq<char>;

    open spec fn view(&self) -> Seq<char> {
        self.name@
    }
}

impl Clone for Scheme {
    fn clone(&self) -> (copy: Self)
        ensures
            copy == *self,
    {
        Scheme { name: self.name.clone() }
    }
}

impl Scheme {
    /// The scheme with the given identifier.
    pub fn new(name: String) -> (scheme: Self)
        ensures
            scheme == (Scheme { name }),
    {
        Scheme { name }
    }
}

/// Identifier of the chain that a payment targets, such as `base`.
#[derive(Debug, PartialEq, Eq)]
pub struct Network {
    pub name: String,
}

impl View for Network {
    type V = Seq<char>;

    open spec fn view(&self) -> Seq<char> {
        self.name@
    }
}

impl Clone for Network {
    fn clone(&self) -> (copy: Self)
        ensures
            copy == *self,
    {
        Network { name: self.name.clone() }
    }
}

impl Network {
    /// The network with the given identifier.
    pub fn new(name: String) -> (network: Self)
        ensures
            network == (Network { name }),
    {
        Network { name }
    }
}

/// A signed payment authorization submitted by a client.
///
/// The signature is carried as opaque bytes; this layer never reads it.
#[derive(Debug, PartialEq, Eq)]
pub struct PaymentPayload {
    pub scheme: Scheme,
    pub network: Network,
    pub payer: MixedAddress,
    pub amount: u128,
    pub valid_after: u64,
    pub valid_before: u64,
    pub signature: Vec<u8>,
}

/// Mathematical model of a [`PaymentPayload`].
pub struct PaymentPayloadView {
    pub scheme: Seq<char>,
    pub network: Seq<char>,
    pub payer: MixedAddressView,
    pub amount: nat,
    pub valid_after: nat,
    pub valid_before: nat,
    pub signature: Seq<u8>,
}

impl View for PaymentPayload {
    type V = PaymentPayloadView;

    open spec fn view(&self) -> PaymentPayloadView {
        PaymentPayloadView {
            scheme: self.scheme@,
            network: self.network@,
            payer: self.payer@,
            amount: self.amount as nat,
            valid_after: self.valid_after as nat,
            valid_before: self.valid_before as nat,
            signature: self.signature@,
        }
    }
}

impl Clone for PaymentPayload {
    fn clone(&self) -> (copy: Self)
        ensures
            copy@ == self@,
    {
        PaymentPayload {
            scheme: self.scheme.clone(),
            network: self.network.clone(),
            payer: self.payer.clone(),
            amount: self.amount,
            valid_after: self.valid_after,
            valid_before: self.valid_before,
            signature: self.signature.clone(),
        }
    }
}

/// Acceptance criteria declared by the merchant.
#[derive(Debug, PartialEq, Eq)]
pub struct PaymentRequirements {
    pub scheme: Scheme,
    pub network: Network,
    pub pay_to: MixedAddress,
    pub amount: u128,
    pub asset: MixedAddress,
}

/// Mathematical model of a [`PaymentRequirements`].
pub struct PaymentRequirementsView {
    pub scheme: Seq<char>,
    pub network: Seq<char>,
    pub pay_to: MixedAddressView,
    pub amount: nat,
    pub asset: MixedAddressView,
}

impl View for PaymentRequirements {
    type V = PaymentRequirementsView;

    open spec fn view(&self) -> PaymentRequirementsView {
        PaymentRequirementsView {
            scheme: self.scheme@,
            network: self.network@,
            pay_to: self.pay_to@,
            amount: self.amount as nat,
            asset: self.asset@,
        }
    }
}

impl Clone for PaymentRequirements {
    fn clone(&self) -> (copy: Self)
        ensures
            copy@ == self@,
    {
        PaymentRequirements {
            scheme: self.scheme.clone(),
            network: self.network.clone(),
            pay_to: self.pay_to.clone(),
            amount: self.amount,
            asset: self.asset.clone(),
        }
    }
}

/// Body of a verification request: a payload and the requirements it claims to meet.
#[derive(Debug, PartialEq, Eq)]
pub struct VerifyRequest {
    pub payment_payload: PaymentPayload,
    pub payment_requirements: PaymentRequirements,
}

/// Mathematical model of a [`VerifyRequest`].
pub struct VerifyRequestView {
    pub payment_payload: PaymentPayloadView,
    pub payment_requirements: PaymentRequirementsView,
}

impl View for VerifyRequest {
    type V = VerifyRequestView;

    open spec fn view(&self) -> VerifyRequestView {
        VerifyRequestView {
            payment_payload: self.payment_payload@,
            payment_requirements: self.payment_requirements@,
        }
    }
}

impl Clone for VerifyRequest {
    fn clone(&self) -> (copy: Self)
        ensures
            copy@ == self@,
    {
        VerifyRequest {
            payment_payload: self.payment_payload.clone(),
            payment_requirements: self.payment_requirements.clone(),
        }
    }
}

/// Body of a settlement request. It has the shape of a verification request.
pub type SettleRequest = VerifyRequest;

/// Machine-readable reason for which a payment is judged invalid.
#[derive(Debug, PartialEq, Eq)]
pub enum FacilitatorErrorReason {
    InsufficientFunds,
    InvalidScheme,
    InvalidNetwork,
    FreeForm(String),
}

/// Mathematical model of a [`FacilitatorErrorReason`].
pub enum ReasonView {
    InsufficientFunds,
    InvalidScheme,
    InvalidNetwork,
    FreeForm(Seq<char>),
}

impl ReasonView {
    /// The code under which the reason goes over the wire.
    pub open spec fn code(self) -> Seq<char> {
        match self {
            ReasonView::InsufficientFunds => "insufficient_funds"@,
            ReasonView::InvalidScheme => "invalid_scheme"@,
            ReasonView::InvalidNetwork => "invalid_network"@,
            ReasonView::FreeForm(text) => text,
        }
    }
}

impl View for FacilitatorErrorReason {
    type V = ReasonView;

    open spec fn view(&self) -> ReasonView {
        match self {
            FacilitatorErrorReason::InsufficientFunds => ReasonView::InsufficientFunds,
            FacilitatorErrorReason::InvalidScheme => ReasonView::InvalidScheme,
            FacilitatorErrorReason::InvalidNetwork => ReasonView::InvalidNetwork,
            FacilitatorErrorReason::FreeForm(text) => ReasonView::FreeForm(text@),
        }
    }
}

impl Clone for FacilitatorErrorReason {
    fn clone(&self) -> (copy: Self)
        ensures
            copy == *self,
    {
        match self {
            FacilitatorErrorReason::InsufficientFunds => FacilitatorErrorReason::InsufficientFunds,
            FacilitatorErrorReason::InvalidScheme => FacilitatorErrorReason::InvalidScheme,
            FacilitatorErrorReason::InvalidNetwork => FacilitatorErrorReason::InvalidNetwork,
            FacilitatorErrorReason::FreeForm(text) => FacilitatorErrorReason::FreeForm(
                text.clone(),
            ),
        }
    }
}

impl FacilitatorErrorReason {
    /// The code under which the reason goes over the wire. A free-form reason
    /// is its own code.
    pub fn code(&self) -> (code: String)
        ensures
            code@ == self@.code(),
    {
        match self {
            FacilitatorErrorReason::InsufficientFunds => "insufficient_funds".to_owned(),
            FacilitatorErrorReason::InvalidScheme => "invalid_scheme".to_owned(),
            FacilitatorErrorReason::InvalidNetwork => "invalid_network".to_owned(),
            FacilitatorErrorReason::FreeForm(text) => text.clone(),
        }
    }
}

/// Model of an optional reason.
pub open spec fn reason_view(reason: Option<FacilitatorErrorReason>) -> Option<ReasonView> {
    match reason {
        Some(reason) => Some(reason@),
        None => None,
    }
}

/// Result of checking whether a payment can be accepted.
///
/// A valid response carries no reason; an invalid one always carries one.
#[derive(Debug, PartialEq, Eq)]
#[allow(inconsistent_fields)]
pub enum VerifyResponse {
    Valid { payer: MixedAddress },
    Invalid { reason: FacilitatorErrorReason, payer: Option<MixedAddress> },
}

/// Mathematical model of a [`VerifyResponse`].
#[allow(inconsistent_fields)]
pub enum VerifyResponseView {
    Valid { payer: MixedAddressView },
    Invalid { reason: ReasonView, payer: Option<MixedAddressView> },
}

impl VerifyResponseView {
    /// Whether the payment was accepted.
    pub open spec fn is_valid(self) -> bool {
        self is Valid
    }

    /// The payer, where it is known.
    pub open spec fn payer(self) -> Option<MixedAddressView> {
        match self {
            VerifyResponseView::Valid { payer } => Some(payer),
            VerifyResponseView::Invalid { payer, .. } => payer,
        }
    }

    /// The reason of a rejection.
    pub open spec fn reason(self) -> Option<ReasonView> {
        match self {
            VerifyResponseView::Valid { .. } => None,
            VerifyResponseView::Invalid { reason, .. } => Some(reason),
        }
    }
}

impl View for VerifyResponse {
    type V = VerifyResponseView;

    open spec fn view(&self) -> VerifyResponseView {
        match self {
            VerifyResponse::Valid { payer } => VerifyResponseView::Valid { payer: payer@ },
            VerifyResponse::Invalid { reason, payer } => VerifyResponseView::Invalid {
                reason: reason@,
                payer: payer_view(*payer),
            },
        }
    }
}

impl VerifyResponse {
    /// The response that accepts a payment made by `payer`.
    pub fn valid(payer: MixedAddress) -> (response: Self)
        ensures
            response == (VerifyResponse::Valid { payer }),
    {
        VerifyResponse::Valid { payer }
    }

    /// The response that rejects a payment for `reason`.
    pub fn invalid(payer: Option<MixedAddress>, reason: FacilitatorErrorReason) -> (response: Self)
        ensures
            response == (VerifyResponse::Invalid { reason, payer }),
    {
        VerifyResponse::Invalid { reason, payer }
    }

    /// Whether the payment was accepted.
    pub fn is_valid(&self) -> (valid: bool)
        ensures
            valid == self@.is_valid(),
            valid <==> self@.reason() is None,
    {
        match self {
            VerifyResponse::Valid { .. } => true,
            VerifyResponse::Invalid { .. } => false,
        }
    }

    /// The payer, where it is known.
    pub fn payer(&self) -> (payer: Option<&MixedAddress>)
        ensures
            match payer {
                Some(address) => self@.payer() == Some(address@),
                None => self@.payer() is None,
            },
    {
        match self {
            VerifyResponse::Valid { payer } => Some(payer),
            VerifyResponse::Invalid { payer, .. } => payer.as_ref(),
        }
    }

    /// The reason of a rejection; none for an accepted payment.
    pub fn reason(&self) -> (reason: Option<&FacilitatorErrorReason>)
        ensures
            match reason {
                Some(reason) => self@.reason() == Some(reason@),
                None => self@.reason() is None,
            },
            reason is None <==> self@.is_valid(),
    {
        match self {
            VerifyResponse::Valid { .. } => None,
            VerifyResponse::Invalid { reason, .. } => Some(reason),
        }
    }
}

/// Result of an attempted on-chain transfer.
///
/// A failed settlement never claims a transaction reference. The fields are
/// private so that every value meets this.
#[derive(Debug, PartialEq, Eq)]
pub struct SettleResponse {
    success: bool,
    error_reason: Option<FacilitatorErrorReason>,
    payer: MixedAddress,
    transaction: Option<String>,
    network: Network,
}

/// Mathematical model of a [`SettleResponse`].
pub struct SettleResponseView {
    pub success: bool,
    pub error_reason: Option<ReasonView>,
    pub payer: MixedAddressView,
    pub transaction: Option<Seq<char>>,
    pub network: Seq<char>,
}

impl SettleResponseView {
    /// A failed settlement claims no transaction reference.
    pub open spec fn wf(self) -> bool {
        !self.success ==> self.transaction is None
    }
}

impl View for SettleResponse {
    type V = SettleResponseView;

    closed spec fn view(&self) -> SettleResponseView {
        SettleResponseView {
            success: self.success,
            error_reason: reason_view(self.error_reason),
            payer: self.payer@,
            transaction: match self.transaction {
                Some(reference) => Some(reference@),
                None => None,
            },
            network: self.network@,
        }
    }
}

impl SettleResponse {
    /// Every settlement response is well formed.
    #[verifier::type_invariant]
    pub open spec fn inv(self) -> bool {
        self@.wf()
    }

    /// The response to a transfer that was executed under the reference `transaction`.
    pub fn settled(payer: MixedAddress, transaction: String, network: Network) -> (response: Self)
        ensures
            response@ == (SettleResponseView {
                success: true,
                error_reason: None,
                payer: payer@,
                transaction: Some(transaction@),
                network: network@,
            }),
    {
        SettleResponse {
            success: true,
            error_reason: None,
            payer,
            transaction: Some(transaction),
            network,
        }
    }

    /// The response to a transfer that did not take place.
    pub fn failed(
        reason: Option<FacilitatorErrorReason>,
        payer: MixedAddress,
        network: Network,
    ) -> (response: Self)
        ensures
            response@ == (SettleResponseView {
                success: false,
                error_reason: reason_view(reason),
                payer: payer@,
                transaction: None,
                network: network@,
            }),
    {
        SettleResponse { success: false, error_reason: reason, payer, transaction: None, network }
    }

    /// Whether the transfer was executed.
    pub fn success(&self) -> (success: bool)
        ensures
            success == self@.success,
            self@.wf(),
    {
        proof {
            use_type_invariant(self);
        }
        self.success
    }

    /// Why the transfer did not take place, where a reason was given.
    pub fn error_reason(&self) -> (reason: Option<&FacilitatorErrorReason>)
        ensures
            match reason {
                Some(reason) => self@.error_reason == Some(reason@),
                None => self@.error_reason is None,
            },
    {
        self.error_reason.as_ref()
    }

    /// Who paid, or would have.
    pub fn payer(&self) -> (payer: &MixedAddress)
        ensures
            payer@ == self@.payer,
    {
        &self.payer
    }

    /// Reference of the executed transfer; none for a failed settlement.
    pub fn transaction(&self) -> (transaction: Option<&String>)
        ensures
            match transaction {
                Some(reference) => self@.transaction == Some(reference@),
                None => self@.transaction is None,
            },
            !self@.success ==> transaction is None,
    {
        proof {
            use_type_invariant(self);
        }
        self.transaction.as_ref()
    }

    /// The network on which the transfer was attempted.
    pub fn network(&self) -> (network: &Network)
        ensures
            network@ == self@.network,
    {
        &self.network
    }
}

/// Body of a response that reports a request which could not be processed.
#[derive(Debug, PartialEq, Eq)]
pub struct ErrorResponse {
    pub error: String,
}

impl View for ErrorResponse {
    type V = Seq<char>;

    open spec fn view(&self) -> Seq<char> {
        self.error@
    }
}

/// One pair of scheme and network that a deployment accepts.
#[derive(Debug, PartialEq, Eq)]
pub struct SupportedPaymentKind {
    pub scheme: Scheme,
    pub network: Network,
}

/// Mathematical model of a [`SupportedPaymentKind`].
pub struct SupportedPaymentKindView {
    pub scheme: Seq<char>,
    pub network: Seq<char>,
}

impl View for SupportedPaymentKind {
    type V = SupportedPaymentKindView;

    open spec fn view(&self) -> SupportedPaymentKindView {
        SupportedPaymentKindView { scheme: self.scheme@, network: self.network@ }
    }
}

/// The pairs of scheme and network that a deployment accepts.
#[derive(Debug, PartialEq, Eq)]
pub struct SupportedPaymentKindsResponse {
    pub kinds: Vec<SupportedPaymentKind>,
}

impl View for SupportedPaymentKindsResponse {
    type V = Seq<SupportedPaymentKindView>;

    open spec fn view(&self) -> Seq<SupportedPaymentKindView> {
        self.kinds@.map_values(|kind: SupportedPaymentKind| kind@)
    }
}

} // verus!
