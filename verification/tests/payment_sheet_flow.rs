use payment_sheet::{
    create_payment_sheet, AwaitingPaymentIntent, CreatePaymentIntentDto, EphemeralKeyReply,
    PaymentIntentDto, PaymentIntentReply, PaymentIntentRequest, StripePaymentError,
};
use stripe::{CreatePaymentIntentShipping, CreatePaymentIntentShippingAddress};

const BAD_CUSTOMER: &str = "invalid `CustomerId`, expected id to start with \"cus_\"";
const BAD_CURRENCY: &str = "unknown currency code";

fn request(amount: i64, currency: &str, customer: &str) -> CreatePaymentIntentDto {
    CreatePaymentIntentDto {
        amount,
        stripe_customer_id: customer.to_string(),
        delivery_address: None,
        currency: currency.to_string(),
    }
}

fn key(secret: &str) -> Result<EphemeralKeyReply, String> {
    Ok(EphemeralKeyReply { secret: Some(secret.to_string()) })
}

fn intent(id: &str, client_secret: Option<&str>) -> Result<PaymentIntentReply, String> {
    Ok(PaymentIntentReply {
        id: id.to_string(),
        client_secret: client_secret.map(|secret| secret.to_string()),
    })
}

fn awaiting_intent(dto: &CreatePaymentIntentDto) -> AwaitingPaymentIntent {
    create_payment_sheet(dto)
        .expect("the request is valid")
        .ephemeral_key_received(key("ek_secret"))
        .expect("the key has a secret")
}

fn message_of<T: std::fmt::Debug>(outcome: Result<T, StripePaymentError>) -> String {
    outcome.expect_err("the operation fails").message().to_string()
}

#[test]
fn sheet_for_two_thousand_usd_without_address() {
    let dto = request(2000, "usd", "cus_N3xT4bc");
    let stage = create_payment_sheet(&dto).expect("the request is valid");
    assert_eq!(stage.request().customer, "cus_N3xT4bc");

    let stage = stage.ephemeral_key_received(key("ek_test_secret")).expect("the key has a secret");
    let sent = stage.request().clone();
    assert_eq!(sent.amount, 2000);
    assert_eq!(sent.currency, "usd");
    assert_eq!(sent.customer, "cus_N3xT4bc");
    assert_eq!(sent.payment_method_types, vec!["card".to_string()]);
    assert!(sent.shipping.is_none());

    let bundle = stage
        .payment_intent_received(intent("pi_3Abc", Some("pi_3Abc_secret_xyz")))
        .expect("the intent has a client secret");
    assert_eq!(
        bundle,
        PaymentIntentDto {
            id: "pi_3Abc".to_string(),
            ephemeral_secret: "ek_test_secret".to_string(),
            client_secret: "pi_3Abc_secret_xyz".to_string(),
            stripe_customer_id: "cus_N3xT4bc".to_string(),
        }
    );
    assert!(!bundle.id.is_empty());
    assert!(!bundle.ephemeral_secret.is_empty());
    assert!(!bundle.client_secret.is_empty());
    assert_eq!(bundle.stripe_customer_id, dto.stripe_customer_id);
}

#[test]
fn unknown_currency_fails_before_any_stage() {
    let outcome = create_payment_sheet(&request(2000, "zzz", "cus_N3xT4bc"));
    assert_eq!(outcome.err(), Some(StripePaymentError::General(BAD_CURRENCY.to_string())));
}

#[test]
fn malformed_customer_id_fails_before_any_stage() {
    for customer in ["zzz_123", "", "cus", "CUS_123", " cus_123", "pi_123", "customer"] {
        let outcome = create_payment_sheet(&request(2000, "usd", customer));
        assert_eq!(message_of(outcome), BAD_CUSTOMER, "customer id {:?}", customer);
    }
}

#[test]
fn customer_id_needs_only_its_prefix() {
    for customer in ["cus_", "cus_1", "cus_N3xT4bc", "cus_ with spaces", "cus_\u{e9}"] {
        let stage = create_payment_sheet(&request(1, "usd", customer));
        assert_eq!(stage.expect("accepted").request().customer, customer);
    }
}

#[test]
fn customer_id_is_read_before_currency() {
    let outcome = create_payment_sheet(&request(2000, "zzz", "zzz_123"));
    assert_eq!(message_of(outcome), BAD_CUSTOMER);
}

#[test]
fn currency_is_read_in_any_case() {
    for code in ["usd", "USD", "Usd", "uSd"] {
        let stage = awaiting_intent(&request(2000, code, "cus_1"));
        assert_eq!(stage.request().currency, "usd", "code {:?}", code);
    }
    for code in ["eur", "EUR", "jpy", "Gbp", "AED"] {
        let stage = awaiting_intent(&request(2000, code, "cus_1"));
        assert_eq!(stage.request().currency, code.to_lowercase());
    }
}

#[test]
fn currency_is_lowercased_beyond_ascii() {
    // U+212A, the Kelvin sign, has the lowercase form `k`.
    let stage = awaiting_intent(&request(2000, "\u{212a}ES", "cus_1"));
    assert_eq!(stage.request().currency, "kes");
}

#[test]
fn unrecognized_currency_codes_fail() {
    for code in ["xyz", "XYZ", "zzz", "", "us", "usdd", " usd", "usd ", "dollar", "u$d"] {
        let outcome = create_payment_sheet(&request(2000, code, "cus_1"));
        assert_eq!(message_of(outcome), BAD_CURRENCY, "code {:?}", code);
    }
}

#[test]
fn amount_is_passed_on_as_supplied() {
    for amount in [2000, 1, 0, -5, i64::MAX, i64::MIN] {
        let stage = awaiting_intent(&request(amount, "usd", "cus_1"));
        assert_eq!(stage.request().amount, amount);
    }
}

#[test]
fn delivery_address_is_passed_on_untouched() {
    let address = CreatePaymentIntentShipping {
        address: CreatePaymentIntentShippingAddress {
            city: Some("Springfield".to_string()),
            country: Some("US".to_string()),
            line1: Some("742 Evergreen Terrace".to_string()),
            line2: None,
            postal_code: Some("49007".to_string()),
            state: Some("OR".to_string()),
        },
        carrier: Some("USPS".to_string()),
        name: "H. Simpson".to_string(),
        phone: None,
        tracking_number: Some("9400 1000".to_string()),
    };
    let mut dto = request(4999, "usd", "cus_1");
    dto.delivery_address = Some(address);

    let stage = awaiting_intent(&dto);
    let sent = stage.request().shipping.clone().expect("the address is sent");
    assert_eq!(sent.name, "H. Simpson");
    assert_eq!(sent.carrier.as_deref(), Some("USPS"));
    assert_eq!(sent.phone, None);
    assert_eq!(sent.tracking_number.as_deref(), Some("9400 1000"));
    assert_eq!(sent.address.city.as_deref(), Some("Springfield"));
    assert_eq!(sent.address.country.as_deref(), Some("US"));
    assert_eq!(sent.address.line1.as_deref(), Some("742 Evergreen Terrace"));
    assert_eq!(sent.address.line2, None);
    assert_eq!(sent.address.postal_code.as_deref(), Some("49007"));
    assert_eq!(sent.address.state.as_deref(), Some("OR"));
    // The request still holds its own address.
    assert_eq!(dto.delivery_address.expect("kept").name, "H. Simpson");
}

#[test]
fn failed_key_request_ends_the_operation() {
    let stage = create_payment_sheet(&request(2000, "usd", "cus_1")).expect("accepted");
    let outcome = stage.ephemeral_key_received(Err("timeout communicating with stripe".to_string()));
    assert_eq!(message_of(outcome), "timeout communicating with stripe");
}

#[test]
fn key_without_secret_ends_the_operation() {
    let stage = create_payment_sheet(&request(2000, "usd", "cus_1")).expect("accepted");
    let outcome = stage.ephemeral_key_received(Ok(EphemeralKeyReply { secret: None }));
    assert_eq!(message_of(outcome), "no ephemeral_key_secret");
}

#[test]
fn failed_intent_request_ends_the_operation() {
    let stage = awaiting_intent(&request(2000, "usd", "cus_1"));
    let outcome = stage.payment_intent_received(Err("error reported by stripe: card".to_string()));
    assert_eq!(message_of(outcome), "error reported by stripe: card");
}

#[test]
fn intent_without_client_secret_ends_the_operation() {
    let stage = awaiting_intent(&request(2000, "usd", "cus_1"));
    let outcome = stage.payment_intent_received(intent("pi_1", None));
    assert_eq!(message_of(outcome), "no payment_client_secret");
}

#[test]
fn key_with_empty_secret_ends_the_operation() {
    let stage = create_payment_sheet(&request(2000, "usd", "cus_1")).expect("accepted");
    let outcome = stage.ephemeral_key_received(key(""));
    assert_eq!(message_of(outcome), "no ephemeral_key_secret");
}

#[test]
fn intent_with_empty_client_secret_ends_the_operation() {
    let stage = awaiting_intent(&request(2000, "usd", "cus_1"));
    let outcome = stage.payment_intent_received(intent("pi_1", Some("")));
    assert_eq!(message_of(outcome), "no payment_client_secret");
}

#[test]
fn intent_with_empty_id_ends_the_operation() {
    let stage = awaiting_intent(&request(2000, "usd", "cus_1"));
    let outcome = stage.payment_intent_received(intent("", Some("pi_1_secret")));
    assert_eq!(message_of(outcome), "no payment_intent_id");
}

#[test]
fn client_secret_is_looked_at_before_the_intent_id() {
    let stage = awaiting_intent(&request(2000, "usd", "cus_1"));
    assert_eq!(
        message_of(stage.payment_intent_received(intent("", Some("")))),
        "no payment_client_secret"
    );
    let stage = awaiting_intent(&request(2000, "usd", "cus_1"));
    assert_eq!(
        message_of(stage.payment_intent_received(intent("", None))),
        "no payment_client_secret"
    );
}

#[test]
fn shortest_texts_make_a_bundle() {
    let bundle = create_payment_sheet(&request(1, "usd", "cus_"))
        .expect("accepted")
        .ephemeral_key_received(key("k"))
        .expect("a secret of one character")
        .payment_intent_received(intent("i", Some("c")))
        .expect("an id and a client secret of one character");
    assert_eq!(
        bundle,
        PaymentIntentDto {
            id: "i".to_string(),
            ephemeral_secret: "k".to_string(),
            client_secret: "c".to_string(),
            stripe_customer_id: "cus_".to_string(),
        }
    );
}

#[test]
fn bundle_customer_is_the_text_of_the_request() {
    for customer in ["cus_1", "cus_ABC", "cus_  padded  "] {
        let bundle = awaiting_intent(&request(2000, "USD", customer))
            .payment_intent_received(intent("pi_1", Some("cs")))
            .expect("complete");
        assert_eq!(bundle.stripe_customer_id, customer);
    }
}

#[test]
fn error_carries_its_message() {
    let error = StripePaymentError::from_general("no route to host".to_string());
    assert_eq!(error.message(), "no route to host");
    assert_eq!(error, StripePaymentError::General("no route to host".to_string()));
    assert_eq!(StripePaymentError::from_general(String::new()).message(), "");
}

#[test]
fn intent_request_is_built_from_what_was_read() {
    let dto = request(750, "ignored here", "ignored too");
    let built = PaymentIntentRequest::resolved(&dto, "cus_9".to_string(), Ok("eur".to_string()))
        .expect("the currency was read");
    assert_eq!(built.amount, 750);
    assert_eq!(built.currency, "eur");
    assert_eq!(built.customer, "cus_9");
    assert_eq!(built.payment_method_types, vec!["card".to_string()]);
    assert!(built.shipping.is_none());

    let refused =
        PaymentIntentRequest::resolved(&dto, "cus_9".to_string(), Err("no such code".to_string()));
    assert_eq!(message_of(refused), "no such code");
}
