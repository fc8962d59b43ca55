//! Creating a payment sheet: the bundle of secrets with which a client can
//! show and complete one payment.
//!
//! The operation is a fixed sequence. The request is validated first, and a
//! request that is not valid reaches no processor. Then an ephemeral key is
//! asked for, and only when its secret has arrived is the payment intent asked
//! for. Each stage is a type of its own: a value of a later stage exists only
//! if every earlier stage succeeded, and the request of a stage can be read
//! only from such a value.
//!
//! ```text
//! create_payment_sheet ──► AwaitingEphemeralKey ──► AwaitingPaymentIntent ──► PaymentIntentDto
//!                           (ask for the key)        (ask for the intent)
//! ```
//!
//! Every arrow may instead end the operation with a [`StripePaymentError`].
//! Nothing is tried twice and nothing is undone.

use crate::customer_id::{
    customer_id_complaint, is_customer_id, parsed_customer_id, read_customer_id,
};
use crate::error::{outcome_view, StripePaymentError};
use crate::processor::{
    as_text, clone_shipping, lowercased, parse_currency, parsed_currency, to_lowercase,
};
use vstd::prelude::*;
use vstd::string::*;

verus! {

/// What a caller asks for: a payment of `amount`, in the minor unit of
/// `currency`, by the customer `stripe_customer_id`, delivered to
/// `delivery_address` if there is one.
#[derive(Clone, Debug)]
pub struct CreatePaymentIntentDto {
    pub amount: i64,
    pub stripe_customer_id: String,
    pub delivery_address: Option<stripe::CreatePaymentIntentShipping>,
    pub currency: String,
}

/// What a caller gets: the payment intent's id, the two secrets, and the
/// customer id that the caller supplied.
#[derive(Clone, Debug, PartialEq, Eq)]
pub struct PaymentIntentDto {
    pub id: String,
    pub ephemeral_secret: String,
    pub client_secret: String,
    pub stripe_customer_id: String,
}

/// Asks the processor for an ephemeral key that lets a client act as
/// `customer`.
#[derive(Clone, Debug, PartialEq, Eq)]
pub struct EphemeralKeyRequest {
    pub customer: String,
}

/// Asks the processor for a payment intent.
#[derive(Clone, Debug)]
pub struct PaymentIntentRequest {
    pub amount: i64,
    pub currency: String,
    pub customer: String,
    pub payment_method_types: Vec<String>,
    pub shipping: Option<stripe::CreatePaymentIntentShipping>,
}

/// What the library reads of an ephemeral key that the processor sent.
#[derive(Clone, Debug, PartialEq, Eq)]
pub struct EphemeralKeyReply {
    pub secret: Option<String>,
}

/// What the library reads of a payment intent that the processor sent.
#[derive(Clone, Debug, PartialEq, Eq)]
pub struct PaymentIntentReply {
    pub id: String,
    pub client_secret: Option<String>,
}

/// A [`CreatePaymentIntentDto`] as text and numbers.
pub struct CreatePaymentIntentView {
    pub amount: i64,
    pub stripe_customer_id: Seq<char>,
    pub delivery_address: Option<stripe::CreatePaymentIntentShipping>,
    pub currency: Seq<char>,
}

/// A [`PaymentIntentDto`] as text.
pub struct PaymentIntentView {
    pub id: Seq<char>,
    pub ephemeral_secret: Seq<char>,
    pub client_secret: Seq<char>,
    pub stripe_customer_id: Seq<char>,
}

/// A [`PaymentIntentRequest`] as text and numbers.
pub struct PaymentIntentRequestView {
    pub amount: i64,
    pub currency: Seq<char>,
    pub customer: Seq<char>,
    pub payment_method_types: Seq<Seq<char>>,
    pub shipping: Option<stripe::CreatePaymentIntentShipping>,
}

/// A [`PaymentIntentReply`] as text.
pub struct PaymentIntentReplyView {
    pub id: Seq<char>,
    pub client_secret: Option<Seq<char>>,
}

/// An [`AwaitingPaymentIntent`] as text and numbers.
pub struct AwaitingPaymentIntentView {
    pub intent: PaymentIntentRequestView,
    pub ephemeral_secret: Seq<char>,
}

impl View for CreatePaymentIntentDto {
    type V = CreatePaymentIntentView;

    open spec fn view(&self) -> CreatePaymentIntentView {
        CreatePaymentIntentView {
            amount: self.amount,
            stripe_customer_id: self.stripe_customer_id@,
            delivery_address: self.delivery_address,
            currency: self.currency@,
        }
    }
}

impl View for PaymentIntentDto {
    type V = PaymentIntentView;

    open spec fn view(&self) -> PaymentIntentView {
        PaymentIntentView {
            id: self.id@,
            ephemeral_secret: self.ephemeral_secret@,
            client_secret: self.client_secret@,
            stripe_customer_id: self.stripe_customer_id@,
        }
    }
}

impl View for EphemeralKeyRequest {
    type V = Seq<char>;

    /// The customer that the key is for.
    open spec fn view(&self) -> Seq<char> {
        self.customer@
    }
}

impl View for PaymentIntentRequest {
    type V = PaymentIntentRequestView;

    open spec fn view(&self) -> PaymentIntentRequestView {
        PaymentIntentRequestView {
            amount: self.amount,
            currency: self.currency@,
            customer: self.customer@,
            payment_method_types: Seq::new(
                self.payment_method_types@.len(),
                |i: int| self.payment_method_types@[i]@,
            ),
            shipping: self.shipping,
        }
    }
}

impl View for EphemeralKeyReply {
    type V = Option<Seq<char>>;

    /// The key's secret, if the processor sent one.
    open spec fn view(&self) -> Option<Seq<char>> {
        match self.secret {
            Some(secret) => Some(secret@),
            None => None,
        }
    }
}

impl View for PaymentIntentReply {
    type V = PaymentIntentReplyView;

    open spec fn view(&self) -> PaymentIntentReplyView {
        PaymentIntentReplyView {
            id: self.id@,
            client_secret: match self.client_secret {
                Some(secret) => Some(secret@),
                None => None,
            },
        }
    }
}

/// What the processor answered to one request, or its description of what
/// went wrong, as text.
pub open spec fn reply_view<T: View>(reply: Result<T, String>) -> Result<T::V, Seq<char>> {
    match reply {
        Ok(value) => Ok(value@),
        Err(description) => Err(description@),
    }
}

/// The payment methods that a payment intent may use: cards, and nothing
/// else.
pub open spec fn card_only() -> Seq<Seq<char>> {
    seq!["card"@]
}

/// The message of the error for an ephemeral key that came without a secret,
/// or with an empty one.
pub open spec fn missing_key_secret() -> Seq<char> {
    "no ephemeral_key_secret"@
}

/// The message of the error for a payment intent that came without a client
/// secret, or with an empty one.
pub open spec fn missing_client_secret() -> Seq<char> {
    "no payment_client_secret"@
}

/// The message of the error for a payment intent that came with an empty id.
pub open spec fn missing_intent_id() -> Seq<char> {
    "no payment_intent_id"@
}

/// The payment intent request for `dto`, once its customer id was accepted
/// as `customer` and its currency code was read with the outcome `currency`.
/// A currency that was refused ends the matter with the refusal's message.
/// Otherwise the request holds the amount and the delivery address as
/// supplied, the customer and the currency as they were read, and cards as
/// the only payment method.
pub open spec fn resolved(
    dto: CreatePaymentIntentView,
    customer: Seq<char>,
    currency: Result<Seq<char>, Seq<char>>,
) -> Result<PaymentIntentRequestView, Seq<char>> {
    match currency {
        Err(message) => Err(message),
        Ok(currency) => Ok(
            PaymentIntentRequestView {
                amount: dto.amount,
                currency,
                customer,
                payment_method_types: card_only(),
                shipping: dto.delivery_address,
            },
        ),
    }
}

/// What holds of every payment intent request that this library hands out to
/// be sent: its customer has the shape of a customer id, and it allows cards
/// and nothing else.
pub open spec fn fit_to_send(intent: PaymentIntentRequestView) -> bool {
    &&& is_customer_id(intent.customer)
    &&& intent.payment_method_types == card_only()
}

/// What is asked of a request before any processor is asked.
///
/// The customer id is looked at first: it must have the shape of one. Then
/// the currency code, in lowercase, must be a currency that the processor's
/// client knows. A request that passes becomes the payment intent request
/// that [`resolved`] describes.
pub open spec fn validated(dto: CreatePaymentIntentView) -> Result<
    PaymentIntentRequestView,
    Seq<char>,
> {
    match parsed_customer_id(dto.stripe_customer_id) {
        Err(message) => Err(message),
        Ok(customer) => resolved(dto, customer, parsed_currency(lowercased(dto.currency))),
    }
}

/// What follows from the processor's reply to the ephemeral key request: with
/// a secret the operation goes on; a failure ends it, and so does a key whose
/// secret is missing or empty.
pub open spec fn with_key(
    intent: PaymentIntentRequestView,
    reply: Result<Option<Seq<char>>, Seq<char>>,
) -> Result<AwaitingPaymentIntentView, Seq<char>> {
    match reply {
        Err(description) => Err(description),
        Ok(None) => Err(missing_key_secret()),
        Ok(Some(secret)) => if secret.len() == 0 {
            Err(missing_key_secret())
        } else {
            Ok(AwaitingPaymentIntentView { intent, ephemeral_secret: secret })
        },
    }
}

/// What follows from the processor's reply to the payment intent request: with
/// a client secret and an id the bundle is complete. A failure ends the
/// operation with no bundle at all, and so does an intent whose client secret
/// is missing or empty, or whose id is empty. The client secret is looked at
/// before the id.
pub open spec fn with_intent(
    awaiting: AwaitingPaymentIntentView,
    reply: Result<PaymentIntentReplyView, Seq<char>>,
) -> Result<PaymentIntentView, Seq<char>> {
    match reply {
        Err(description) => Err(description),
        Ok(intent) => match intent.client_secret {
            None => Err(missing_client_secret()),
            Some(client_secret) => if client_secret.len() == 0 {
                Err(missing_client_secret())
            } else if intent.id.len() == 0 {
                Err(missing_intent_id())
            } else {
                Ok(
                    PaymentIntentView {
                        id: intent.id,
                        ephemeral_secret: awaiting.ephemeral_secret,
                        client_secret,
                        stripe_customer_id: awaiting.intent.customer,
                    },
                )
            },
        },
    }
}

/// The error with which a request that is not valid ends, whatever a
/// processor would have answered.
pub open spec fn validation_failure(dto: CreatePaymentIntentView) -> Result<
    PaymentIntentView,
    Seq<char>,
> {
    Err(validated(dto)->Err_0)
}

/// The request `dto` with `code` as its currency code.
pub open spec fn with_currency(
    dto: CreatePaymentIntentView,
    code: Seq<char>,
) -> CreatePaymentIntentView {
    CreatePaymentIntentView { currency: code, ..dto }
}

/// A payment intent that the processor sent with a client secret.
pub open spec fn intent_with_secret(id: Seq<char>, client_secret: Seq<char>) -> Result<
    PaymentIntentReplyView,
    Seq<char>,
> {
    Ok(PaymentIntentReplyView { id, client_secret: Some(client_secret) })
}

/// A payment intent that the processor sent without a client secret.
pub open spec fn intent_without_secret(id: Seq<char>) -> Result<
    PaymentIntentReplyView,
    Seq<char>,
> {
    Ok(PaymentIntentReplyView { id, client_secret: None })
}

/// The whole operation: what a caller gets for `dto` when the processor
/// answers the ephemeral key request with `key_reply` and the payment intent
/// request with `intent_reply`. A reply to a request that is never made plays
/// no part.
pub open spec fn payment_sheet(
    dto: CreatePaymentIntentView,
    key_reply: Result<Option<Seq<char>>, Seq<char>>,
    intent_reply: Result<PaymentIntentReplyView, Seq<char>>,
) -> Result<PaymentIntentView, Seq<char>> {
    match validated(dto) {
        Err(message) => Err(message),
        Ok(intent) => match with_key(intent, key_reply) {
            Err(message) => Err(message),
            Ok(awaiting) => with_intent(awaiting, intent_reply),
        },
    }
}

/// The stage after validation: the ephemeral key is to be asked for.
#[derive(Debug)]
pub struct AwaitingEphemeralKey {
    intent: PaymentIntentRequest,
}

/// The stage after the ephemeral key: the payment intent is to be asked for.
#[derive(Debug)]
pub struct AwaitingPaymentIntent {
    intent: PaymentIntentRequest,
    ephemeral_secret: String,
}

impl AwaitingEphemeralKey {
    #[verifier::type_invariant]
    spec fn holds_a_valid_request(&self) -> bool {
        fit_to_send(self.intent@)
    }
}

impl AwaitingPaymentIntent {
    #[verifier::type_invariant]
    spec fn holds_a_valid_request_and_a_secret(&self) -> bool {
        fit_to_send(self.intent@) && self.ephemeral_secret@.len() > 0
    }
}

impl View for AwaitingEphemeralKey {
    type V = PaymentIntentRequestView;

    /// The payment intent request that was found valid.
    closed spec fn view(&self) -> PaymentIntentRequestView {
        self.intent@
    }
}

impl View for AwaitingPaymentIntent {
    type V = AwaitingPaymentIntentView;

    closed spec fn view(&self) -> AwaitingPaymentIntentView {
        AwaitingPaymentIntentView {
            intent: self.intent@,
            ephemeral_secret: self.ephemeral_secret@,
        }
    }
}

impl PaymentIntentRequest {
    /// Builds the payment intent request for `dto` from what its customer id
    /// and its currency code were read as, as [`resolved`] says.
    pub fn resolved(
        dto: &CreatePaymentIntentDto,
        customer: String,
        currency: Result<String, String>,
    ) -> (request: Result<PaymentIntentRequest, StripePaymentError>)
        ensures
            outcome_view(request) == resolved(dto@, customer@, as_text(currency)),
    {
        let currency = match currency {
            Ok(currency) => currency,
            Err(message) => {
                return Err(StripePaymentError::from_general(message));
            },
        };
        let shipping = match &dto.delivery_address {
            Some(address) => Some(clone_shipping(address)),
            None => None,
        };
        let mut payment_method_types: Vec<String> = Vec::new();
        payment_method_types.push(String::from_str("card"));
        let request = PaymentIntentRequest {
            amount: dto.amount,
            currency,
            customer,
            payment_method_types,
            shipping,
        };
        assert(request@.payment_method_types =~= card_only());
        Ok(request)
    }
}

/// Begins the creation of a payment sheet. The request is validated as
/// [`validated`] says; no processor has been asked when this returns.
pub fn create_payment_sheet(
    dto: &CreatePaymentIntentDto,
) -> (stage: Result<AwaitingEphemeralKey, StripePaymentError>)
    ensures
        outcome_view(stage) == validated(dto@),
{
    let customer = match read_customer_id(dto.stripe_customer_id.as_str()) {
        Ok(customer) => customer,
        Err(message) => {
            return Err(StripePaymentError::from_general(message));
        },
    };
    let code = to_lowercase(dto.currency.as_str());
    let currency = parse_currency(code.as_str());
    match PaymentIntentRequest::resolved(dto, customer, currency) {
        Ok(intent) => Ok(AwaitingEphemeralKey { intent }),
        Err(error) => Err(error),
    }
}

impl AwaitingEphemeralKey {
    /// The request to send now: an ephemeral key for the customer of the
    /// payment.
    pub fn request(&self) -> (request: EphemeralKeyRequest)
        ensures
            request@ == self@.customer,
            is_customer_id(request@),
    {
        proof {
            use_type_invariant(self);
        }
        EphemeralKeyRequest { customer: self.intent.customer.clone() }
    }

    /// Takes the processor's reply to the ephemeral key request, as
    /// [`with_key`] says. Only a reply with a secret leads to the stage at
    /// which a payment intent can be asked for.
    pub fn ephemeral_key_received(
        self,
        reply: Result<EphemeralKeyReply, String>,
    ) -> (stage: Result<AwaitingPaymentIntent, StripePaymentError>)
        ensures
            outcome_view(stage) == with_key(self@, reply_view(reply)),
    {
        proof {
            use_type_invariant(&self);
        }
        let key = match reply {
            Ok(key) => key,
            Err(description) => {
                return Err(StripePaymentError::from_general(description));
            },
        };
        match key.secret {
            Some(ephemeral_secret) => {
                if ephemeral_secret.as_str().is_empty() {
                    Err(
                        StripePaymentError::from_general(
                            String::from_str("no ephemeral_key_secret"),
                        ),
                    )
                } else {
                    Ok(AwaitingPaymentIntent { intent: self.intent, ephemeral_secret })
                }
            },
            None => Err(
                StripePaymentError::from_general(String::from_str("no ephemeral_key_secret")),
            ),
        }
    }
}

impl AwaitingPaymentIntent {
    /// The request to send now: the payment intent that was found valid.
    pub fn request(&self) -> (request: &PaymentIntentRequest)
        ensures
            request@ == self@.intent,
            fit_to_send(request@),
    {
        proof {
            use_type_invariant(self);
        }
        &self.intent
    }

    /// Takes the processor's reply to the payment intent request, as
    /// [`with_intent`] says, and with it ends the operation.
    pub fn payment_intent_received(
        self,
        reply: Result<PaymentIntentReply, String>,
    ) -> (bundle: Result<PaymentIntentDto, StripePaymentError>)
        ensures
            outcome_view(bundle) == with_intent(self@, reply_view(reply)),
            bundle matches Ok(sheet) ==> is_customer_id(sheet.stripe_customer_id@),
            bundle matches Ok(sheet) ==> bundle_without_empty_text(sheet@),
    {
        proof {
            use_type_invariant(&self);
        }
        let intent = match reply {
            Ok(intent) => intent,
            Err(description) => {
                return Err(StripePaymentError::from_general(description));
            },
        };
        match intent.client_secret {
            Some(client_secret) => {
                if client_secret.as_str().is_empty() {
                    Err(
                        StripePaymentError::from_general(
                            String::from_str("no payment_client_secret"),
                        ),
                    )
                } else if intent.id.as_str().is_empty() {
                    Err(StripePaymentError::from_general(String::from_str("no payment_intent_id")))
                } else {
                    Ok(
                        PaymentIntentDto {
                            id: intent.id,
                            ephemeral_secret: self.ephemeral_secret,
                            client_secret,
                            stripe_customer_id: self.intent.customer,
                        },
                    )
                }
            },
            None => Err(
                StripePaymentError::from_general(String::from_str("no payment_client_secret")),
            ),
        }
    }
}

/// Whether the processor's two replies hold what a bundle needs: a key with
/// a secret, and a payment intent with an id and a client secret, none of
/// them empty.
pub open spec fn replies_complete(
    key_reply: Result<Option<Seq<char>>, Seq<char>>,
    intent_reply: Result<PaymentIntentReplyView, Seq<char>>,
) -> bool {
    &&& key_reply matches Ok(Some(key_secret))
    &&& key_secret.len() > 0
    &&& intent_reply matches Ok(intent)
    &&& intent.id.len() > 0
    &&& intent.client_secret matches Some(client_secret)
    &&& client_secret.len() > 0
}

/// The bundle that is made of a request and two complete replies: the
/// intent's id and client secret from the payment intent, the ephemeral
/// secret from the key, and the customer id from the request.
pub open spec fn bundle_of(
    dto: CreatePaymentIntentView,
    key_reply: Result<Option<Seq<char>>, Seq<char>>,
    intent_reply: Result<PaymentIntentReplyView, Seq<char>>,
) -> PaymentIntentView {
    PaymentIntentView {
        id: intent_reply->Ok_0.id,
        ephemeral_secret: key_reply->Ok_0->Some_0,
        client_secret: intent_reply->Ok_0.client_secret->Some_0,
        stripe_customer_id: dto.stripe_customer_id,
    }
}

/// Whether no field of a bundle is empty.
pub open spec fn bundle_without_empty_text(bundle: PaymentIntentView) -> bool {
    &&& bundle.id.len() > 0
    &&& bundle.ephemeral_secret.len() > 0
    &&& bundle.client_secret.len() > 0
    &&& bundle.stripe_customer_id.len() > 0
}

/// A request that is valid is sent as it was supplied: the payment intent is
/// asked for the same amount, customer and delivery address, for cards only,
/// and the ephemeral key is asked for the same customer.
pub proof fn lemma_valid_request_is_sent_as_supplied(dto: CreatePaymentIntentView)
    requires
        validated(dto) is Ok,
    ensures
        validated(dto)->Ok_0.amount == dto.amount,
        validated(dto)->Ok_0.customer == dto.stripe_customer_id,
        validated(dto)->Ok_0.shipping == dto.delivery_address,
        validated(dto)->Ok_0.currency == parsed_currency(lowercased(dto.currency))->Ok_0,
        fit_to_send(validated(dto)->Ok_0),
{
}

/// A bundle is made exactly when every step succeeded, and then it is the
/// bundle of [`bundle_of`]. There is no bundle with a part missing.
pub proof fn lemma_bundle_needs_every_step(
    dto: CreatePaymentIntentView,
    key_reply: Result<Option<Seq<char>>, Seq<char>>,
    intent_reply: Result<PaymentIntentReplyView, Seq<char>>,
)
    ensures
        payment_sheet(dto, key_reply, intent_reply) is Ok <==> validated(dto) is Ok
            && replies_complete(key_reply, intent_reply),
        payment_sheet(dto, key_reply, intent_reply) matches Ok(bundle) ==> bundle == bundle_of(
            dto,
            key_reply,
            intent_reply,
        ),
{
}

/// The customer id of a bundle is the one that the request carried, character
/// for character, and it is not empty.
pub proof fn lemma_bundle_echoes_customer(
    dto: CreatePaymentIntentView,
    key_reply: Result<Option<Seq<char>>, Seq<char>>,
    intent_reply: Result<PaymentIntentReplyView, Seq<char>>,
)
    ensures
        payment_sheet(dto, key_reply, intent_reply) matches Ok(bundle) ==> bundle.stripe_customer_id
            == dto.stripe_customer_id && bundle.stripe_customer_id.len() > 0,
{
}

/// No field of a bundle is empty, whatever the request and whatever the
/// processor answered.
pub proof fn lemma_bundle_is_complete(
    dto: CreatePaymentIntentView,
    key_reply: Result<Option<Seq<char>>, Seq<char>>,
    intent_reply: Result<PaymentIntentReplyView, Seq<char>>,
)
    ensures
        payment_sheet(dto, key_reply, intent_reply) matches Ok(bundle)
            ==> bundle_without_empty_text(bundle),
{
}

/// A request whose customer id has not the shape of one is not valid, so
/// that no stage comes to be and no request can be read. Whatever a processor
/// would have answered, the operation ends with the complaint about the id.
pub proof fn lemma_malformed_customer_fails_validation(
    dto: CreatePaymentIntentView,
    key_reply: Result<Option<Seq<char>>, Seq<char>>,
    intent_reply: Result<PaymentIntentReplyView, Seq<char>>,
)
    requires
        !is_customer_id(dto.stripe_customer_id),
    ensures
        validated(dto) matches Err(message) && message == customer_id_complaint(),
        payment_sheet(dto, key_reply, intent_reply) matches Err(message) && message
            == customer_id_complaint(),
{
}

/// A request whose currency code, in lowercase, is no currency that the
/// processor's client knows is not valid, so that no stage comes to be and
/// no request can be read. Whatever a processor would have answered, the
/// operation ends with an error: the complaint about the customer id if that
/// is malformed too, else the message of the currency's refusal.
pub proof fn lemma_unknown_currency_fails_validation(
    dto: CreatePaymentIntentView,
    key_reply: Result<Option<Seq<char>>, Seq<char>>,
    intent_reply: Result<PaymentIntentReplyView, Seq<char>>,
)
    requires
        parsed_currency(lowercased(dto.currency)) is Err,
    ensures
        validated(dto) is Err,
        payment_sheet(dto, key_reply, intent_reply) == validation_failure(dto),
        is_customer_id(dto.stripe_customer_id) ==> validated(dto)->Err_0 == parsed_currency(
            lowercased(dto.currency),
        )->Err_0,
{
}

/// Validation reads a currency code in lowercase only: two requests that
/// differ in nothing but the case of their currency codes fare alike.
pub proof fn lemma_currency_case_is_ignored(dto: CreatePaymentIntentView, code: Seq<char>)
    requires
        lowercased(code) == lowercased(dto.currency),
    ensures
        validated(with_currency(dto, code)) == validated(dto),
{
}

/// When the ephemeral key request fails, the operation ends with the
/// processor's description of the failure. The stage at which a payment
/// intent is asked for is not reached, and a reply to that request plays no
/// part.
pub proof fn lemma_failed_key_ends_the_operation(
    dto: CreatePaymentIntentView,
    description: Seq<char>,
    intent_reply: Result<PaymentIntentReplyView, Seq<char>>,
)
    requires
        validated(dto) is Ok,
    ensures
        with_key(validated(dto)->Ok_0, Err(description)) matches Err(message) && message
            == description,
        payment_sheet(dto, Err(description), intent_reply) matches Err(message) && message
            == description,
{
}

/// When the ephemeral key comes without a secret, or with an empty one, the
/// operation ends with the error for a missing key secret. The stage at which
/// a payment intent is asked for is not reached, and a reply to that request
/// plays no part.
pub proof fn lemma_key_without_secret_ends_the_operation(
    dto: CreatePaymentIntentView,
    intent_reply: Result<PaymentIntentReplyView, Seq<char>>,
)
    requires
        validated(dto) is Ok,
    ensures
        with_key(validated(dto)->Ok_0, Ok(None)) matches Err(message) && message
            == missing_key_secret(),
        payment_sheet(dto, Ok(None), intent_reply) matches Err(message) && message
            == missing_key_secret(),
        payment_sheet(dto, Ok(Some(Seq::empty())), intent_reply) matches Err(message) && message
            == missing_key_secret(),
{
}

/// When the payment intent comes without a client secret, or with an empty
/// one, the operation ends with the error for a missing client secret,
/// although the request was valid and the ephemeral key brought its secret.
pub proof fn lemma_intent_without_secret_ends_the_operation(
    dto: CreatePaymentIntentView,
    key_secret: Seq<char>,
    intent_id: Seq<char>,
)
    requires
        validated(dto) is Ok,
        key_secret.len() > 0,
    ensures
        payment_sheet(dto, Ok(Some(key_secret)), intent_without_secret(intent_id)) matches Err(
            message,
        ) && message == missing_client_secret(),
        payment_sheet(dto, Ok(Some(key_secret)), intent_with_secret(intent_id, Seq::empty()))
            matches Err(message) && message == missing_client_secret(),
{
}

/// When the payment intent comes with a client secret but with an empty id,
/// the operation ends with the error for a missing intent id.
pub proof fn lemma_intent_without_id_ends_the_operation(
    dto: CreatePaymentIntentView,
    key_secret: Seq<char>,
    client_secret: Seq<char>,
)
    requires
        validated(dto) is Ok,
        key_secret.len() > 0,
        client_secret.len() > 0,
    ensures
        payment_sheet(dto, Ok(Some(key_secret)), intent_with_secret(Seq::empty(), client_secret))
            matches Err(message) && message == missing_intent_id(),
{
}

} // verus!
