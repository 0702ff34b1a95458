//! Email address validation, as the sender performs it before connecting.
//!
//! A malformed sender or recipient address is a configuration defect, not a
//! transient delivery problem: it is reported as a fatal error before any
//! connection is attempted.

use vstd::prelude::*;

verus! {

/// Which of the two addresses of a send is malformed. Fatal for the
/// configuration that produced it.
#[derive(Debug, Clone, Copy, PartialEq, Eq, Structural)]
pub enum AddressError {
    /// The sender address does not parse as a mailbox.
    Sender,
    /// The recipient address does not parse as a mailbox.
    Recipient,
}

/// Whether a string parses as an email mailbox (a plain address, or a
/// display name with an angle-bracketed address).
pub uninterp spec fn is_valid_mailbox(s: Seq<char>) -> bool;

/// Relies on lettre's `Mailbox` parsing (`str::parse::<Mailbox>`, a pure
/// grammar check): whether a string parses depends on its characters alone.
#[verifier::external_body]
fn mailbox_parses(s: &str) -> (r: bool)
    ensures
        r == is_valid_mailbox(s@),
{
    s.parse::<lettre::message::Mailbox>().is_ok()
}

/// Validates the sender and recipient addresses of one send, the sender
/// first, exactly as the sender component does before attempting a
/// connection.
pub fn validate_addresses(from: &str, recipient: &str) -> (r: Result<(), AddressError>)
    ensures
        r is Ok <==> is_valid_mailbox(from@) && is_valid_mailbox(recipient@),
        !is_valid_mailbox(from@) ==> r == Err::<(), AddressError>(AddressError::Sender),
        is_valid_mailbox(from@) && !is_valid_mailbox(recipient@) ==> r == Err::<
            (),
            AddressError,
        >(AddressError::Recipient),
{
    if !mailbox_parses(from) {
        Err(AddressError::Sender)
    } else if !mailbox_parses(recipient) {
        Err(AddressError::Recipient)
    } else {
        Ok(())
    }
}

} // verus!
