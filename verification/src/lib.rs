//! Decisions of a payment adapter, separated from the transport that carries
//! them out.
//!
//! Every operation is a short conversation with a payment processor. The
//! functions here decide what is asked of the processor and what each of its
//! replies means; they perform no request themselves. A caller sends what a
//! function hands out and passes the processor's reply to the next function.

pub mod customer;
pub mod customer_id;
pub mod encoding;
pub mod error;
pub mod payment_sheet;
pub mod processor;

pub use crate::customer::{
    create_customer, customer_created, customer_found, get_customer, CreateCustomerDto,
    CreateCustomerRequest, CustomerDto, CustomerReply, MetadataEntry,
};
pub use crate::customer_id::{has_customer_id_shape, read_customer_id};
pub use crate::encoding::{escape, url_encode};
pub use crate::error::StripePaymentError;
pub use crate::payment_sheet::{
    create_payment_sheet, AwaitingEphemeralKey, AwaitingPaymentIntent, CreatePaymentIntentDto,
    EphemeralKeyReply, EphemeralKeyRequest, PaymentIntentDto, PaymentIntentReply,
    PaymentIntentRequest,
};
