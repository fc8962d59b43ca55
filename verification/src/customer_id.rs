//! Reading a text as a customer id.
//!
//! The processor gives every customer an id that begins with `cus_`. A text of
//! that shape is handed to the processor's client, which makes its own id of
//! it; any other text is refused here, in the words the client would use.

use crate::processor::{as_text, parse_customer_id};
use vstd::prelude::*;
use vstd::string::*;

verus! {

/// The leading characters of every customer id that the processor assigns.
pub open spec fn customer_id_prefix() -> Seq<char> {
    seq!['c', 'u', 's', '_']
}

/// Whether `text` has the shape of a customer id: it begins with `cus_`.
pub open spec fn is_customer_id(text: Seq<char>) -> bool {
    customer_id_prefix().is_prefix_of(text)
}

/// What is said of a text that is no customer id.
pub open spec fn customer_id_complaint() -> Seq<char> {
    "invalid `CustomerId`, expected id to start with \"cus_\""@
}

/// What becomes of a text that is read as a customer id: the same text, or
/// the complaint.
pub open spec fn parsed_customer_id(text: Seq<char>) -> Result<Seq<char>, Seq<char>> {
    if is_customer_id(text) {
        Ok(text)
    } else {
        Err(customer_id_complaint())
    }
}

/// Tells whether `text` has the shape of a customer id.
pub fn has_customer_id_shape(text: &str) -> (shaped: bool)
    ensures
        shaped == is_customer_id(text@),
{
    if text.unicode_len() < 4 {
        return false;
    }
    let shaped = text.get_char(0) == 'c' && text.get_char(1) == 'u' && text.get_char(2) == 's'
        && text.get_char(3) == '_';
    proof {
        let start = text@.subrange(0, 4);
        if shaped {
            assert(customer_id_prefix() =~= start);
        } else {
            assert(customer_id_prefix()[0] == 'c');
            assert(customer_id_prefix()[1] == 'u');
            assert(customer_id_prefix()[2] == 's');
            assert(customer_id_prefix()[3] == '_');
            assert(start[0] == text@[0] && start[1] == text@[1] && start[2] == text@[2]
                && start[3] == text@[3]);
        }
    }
    shaped
}

/// Reads `text` as a customer id, as [`parsed_customer_id`] says. Only a text
/// of the right shape reaches the processor's client.
pub fn read_customer_id(text: &str) -> (read: Result<String, String>)
    ensures
        as_text(read) == parsed_customer_id(text@),
{
    if has_customer_id_shape(text) {
        parse_customer_id(text)
    } else {
        Err(String::from_str("invalid `CustomerId`, expected id to start with \"cus_\""))
    }
}

} // verus!
