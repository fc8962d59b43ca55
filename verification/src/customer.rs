//! Finding and creating the processor's record of a customer.
//!
//! A customer record is a bare anchor: the only thing written to it is the
//! application's account id, as one entry of the record's metadata. The same
//! entry is what a search looks for. An account id is any text at all: in a
//! search it is written so that the processor reads it back as that text and
//! as nothing more.

use crate::encoding::{
    escape, escaped, is_path_safe, lemma_escaped_reads_back, lemma_url_encoded_is_safe,
    lemma_url_encoded_reads_back, unescaped, url_decoded, url_encode, url_encoded,
};
use crate::error::{outcome_view, StripePaymentError};
use vstd::prelude::*;
use vstd::string::*;
use vstd::utf8::{decode_utf8, encode_utf8, encode_utf8_decode_utf8};

verus! {

/// What is needed to create a customer: the application's account id.
#[derive(Clone, Debug, PartialEq, Eq)]
pub struct CreateCustomerDto {
    pub id: String,
}

/// A customer of the processor, known by the id that the processor assigned.
#[derive(Clone, Debug, PartialEq, Eq)]
pub struct CustomerDto {
    pub id: String,
}

/// One entry of a customer record's metadata.
#[derive(Clone, Debug, PartialEq, Eq)]
pub struct MetadataEntry {
    pub key: String,
    pub value: String,
}

/// What the processor is asked to create: a customer with this metadata and
/// nothing else.
#[derive(Clone, Debug, PartialEq, Eq)]
pub struct CreateCustomerRequest {
    pub metadata: Vec<MetadataEntry>,
}

/// What the library reads of a customer record that the processor sent: its
/// id, which is never empty.
#[derive(Debug, PartialEq, Eq)]
pub struct CustomerReply {
    id: String,
}

impl CustomerReply {
    #[verifier::type_invariant]
    spec fn has_an_id(&self) -> bool {
        self.id@.len() > 0
    }

    /// The record with the id `id`, or nothing where `id` is empty.
    pub fn new(id: String) -> (reply: Option<CustomerReply>)
        ensures
            reply is Some <==> id@.len() > 0,
            reply matches Some(record) ==> record@ == id@,
    {
        if id.as_str().is_empty() {
            None
        } else {
            Some(CustomerReply { id })
        }
    }

    /// The id of the record.
    pub fn id(&self) -> (id: &str)
        ensures
            id@ == self@,
            id@.len() > 0,
    {
        proof {
            use_type_invariant(self);
        }
        self.id.as_str()
    }
}

impl View for CreateCustomerDto {
    type V = Seq<char>;

    /// The account id, as text.
    open spec fn view(&self) -> Seq<char> {
        self.id@
    }
}

impl View for CustomerDto {
    type V = Seq<char>;

    /// The customer's id, as text.
    open spec fn view(&self) -> Seq<char> {
        self.id@
    }
}

impl View for CustomerReply {
    type V = Seq<char>;

    /// The id of the record, as text.
    closed spec fn view(&self) -> Seq<char> {
        self.id@
    }
}

impl View for MetadataEntry {
    type V = (Seq<char>, Seq<char>);

    open spec fn view(&self) -> (Seq<char>, Seq<char>) {
        (self.key@, self.value@)
    }
}

impl View for CreateCustomerRequest {
    type V = Seq<(Seq<char>, Seq<char>)>;

    /// The metadata entries in order, each as a pair of key and value.
    open spec fn view(&self) -> Seq<(Seq<char>, Seq<char>)> {
        Seq::new(self.metadata@.len(), |i: int| self.metadata@[i]@)
    }
}

/// The metadata key under which a customer record holds the account id.
pub open spec fn account_key() -> Seq<char> {
    "id"@
}

/// The metadata of a new customer record for `account_id`: one entry.
pub open spec fn customer_metadata(account_id: Seq<char>) -> Seq<(Seq<char>, Seq<char>)> {
    seq![(account_key(), account_id)]
}

/// What a search query holds before the account id: the field to look in,
/// which is the metadata entry under [`account_key`], and the quote that
/// opens the value.
pub open spec fn search_opening() -> Seq<char> {
    "metadata['"@ + account_key() + "']:'"@
}

/// The search query for the customer whose metadata holds `account_id`:
/// `metadata['id']:'..'`, with the account id between the quotes, written so
/// that none of its bytes ends the value.
pub open spec fn search_query(account_id: Seq<char>) -> Seq<u8> {
    encode_utf8(search_opening()) + escaped(encode_utf8(account_id)) + encode_utf8("'"@)
}

/// Where a search for customers is sent, up to the query.
pub open spec fn search_path_start() -> Seq<char> {
    "/v1/customers/search?query="@
}

/// The path of the search for the customer whose metadata holds `account_id`:
/// the query of [`search_query`], written as a path holds it.
pub open spec fn customer_search_path(account_id: Seq<char>) -> Seq<char> {
    search_path_start() + url_encoded(search_query(account_id))
}

/// The outcome of a lookup, with the customer as text and the processor's
/// error as it is.
pub open spec fn lookup_view<T: View>(outcome: Result<T, stripe::StripeError>) -> Result<
    T::V,
    stripe::StripeError,
> {
    match outcome {
        Ok(value) => Ok(value@),
        Err(error) => Err(error),
    }
}

/// What a creation makes of the processor's reply: the id of the new record,
/// or the processor's description of what went wrong.
pub open spec fn customer_creation(reply: Result<CustomerReply, String>) -> Result<
    Seq<char>,
    Seq<char>,
> {
    match reply {
        Ok(record) => Ok(record@),
        Err(description) => Err(description@),
    }
}

/// The path to request in order to find the customer of `account_id`.
pub fn get_customer(account_id: String) -> (path: String)
    ensures
        path@ == customer_search_path(account_id@),
{
    let opening = String::from_str("metadata['").concat("id").concat("']:'");
    let mut query = opening.as_str().as_bytes_vec();
    let mut value = escape(&account_id.as_str().as_bytes_vec());
    let mut closing = "'".as_bytes_vec();
    query.append(&mut value);
    query.append(&mut closing);
    let written = url_encode(&query);
    String::from_str("/v1/customers/search?query=").concat(written.as_str())
}

/// Reads the processor's reply to a customer search. A customer that was
/// found keeps the id that the processor gave it; an error is returned
/// unchanged.
pub fn customer_found(
    reply: Result<CustomerReply, stripe::StripeError>,
) -> (found: Result<CustomerDto, stripe::StripeError>)
    ensures
        lookup_view(found) == lookup_view(reply),
        found matches Ok(customer) ==> customer@.len() > 0,
{
    match reply {
        Ok(record) => {
            proof {
                use_type_invariant(&record);
            }
            Ok(CustomerDto { id: record.id })
        },
        Err(error) => Err(error),
    }
}

/// The request that creates a customer for the account of `dto`. Its metadata
/// holds the account id under [`account_key`], and nothing else.
pub fn create_customer(dto: &CreateCustomerDto) -> (request: CreateCustomerRequest)
    ensures
        request@ == customer_metadata(dto@),
{
    let entry = MetadataEntry { key: String::from_str("id"), value: dto.id.clone() };
    let mut metadata: Vec<MetadataEntry> = Vec::new();
    metadata.push(entry);
    let request = CreateCustomerRequest { metadata };
    assert(request@ =~= customer_metadata(dto@));
    request
}

/// Reads the processor's reply to a customer creation. The new customer keeps
/// the id that the processor gave it; a failure becomes an error that carries
/// the processor's description.
pub fn customer_created(
    reply: Result<CustomerReply, String>,
) -> (created: Result<CustomerDto, StripePaymentError>)
    ensures
        outcome_view(created) == customer_creation(reply),
        created matches Ok(customer) ==> customer@.len() > 0,
{
    match reply {
        Ok(record) => {
            proof {
                use_type_invariant(&record);
            }
            Ok(CustomerDto { id: record.id })
        },
        Err(description) => Err(StripePaymentError::from_general(description)),
    }
}

/// The account id is read back from a search as it went in. The path is read
/// as the query; in the query, what stands between the quotes is read as the
/// bytes of the account id, so that no byte of the id ends the value or adds
/// to the query; and those bytes are read as the account id.
pub proof fn lemma_search_reads_back(account_id: Seq<char>)
    ensures
        url_decoded(url_encoded(search_query(account_id))) == Some(search_query(account_id)),
        unescaped(escaped(encode_utf8(account_id))) == Some(encode_utf8(account_id)),
        decode_utf8(encode_utf8(account_id)) == account_id,
{
    lemma_url_encoded_reads_back(search_query(account_id));
    lemma_escaped_reads_back(encode_utf8(account_id));
    encode_utf8_decode_utf8(account_id);
}

/// Past its start, a search path holds letters, digits, `-._~` and percent
/// signs only: whatever the account id, it adds no `&`, `=`, `#` or quote to
/// the path, and so no second parameter.
pub proof fn lemma_search_path_is_one_parameter(account_id: Seq<char>, i: int)
    requires
        search_path_start().len() <= i < customer_search_path(account_id).len(),
    ensures
        is_path_safe(customer_search_path(account_id)[i]),
{
    lemma_url_encoded_is_safe(search_query(account_id), i - search_path_start().len());
}

/// Two customer records that the processor told apart by their ids stay
/// apart: each created customer carries the id of its own record. Whether two
/// creations for one account get two ids is the processor's doing.
pub proof fn lemma_created_customers_keep_their_ids(first: CustomerReply, second: CustomerReply)
    requires
        first@ != second@,
    ensures
        customer_creation(Ok(first)) matches Ok(id) && id == first@,
        customer_creation(Ok(second)) matches Ok(id) && id == second@,
        customer_creation(Ok(first)) != customer_creation(Ok(second)),
{
}

} // verus!
