//! Finding the answer of a contract call among the messages that its
//! transaction sent out.

use vstd::prelude::*;
use vstd::string::StringExecFns;
use crate::wait::{Failure, ProbeError};

verus! {

/// The kinds of message that the ledger tells apart.
#[derive(Clone, Copy, Debug, PartialEq, Eq)]
pub enum MessageKind {
    Internal,
    ExternalInbound,
    ExternalOutbound,
    Unknown,
}

/// What the stream of outbound messages yields for one message.
#[derive(Clone, Copy, Debug, PartialEq, Eq)]
pub enum OutboundItem {
    /// A message of this kind was loaded.
    Message(MessageKind),
    /// The ledger answered without a message.
    Missing,
    /// Loading failed or took too long.
    Failure,
}

/// The answer of a call is an external outbound message that was loaded.
pub open spec fn is_response(item: OutboundItem) -> bool {
    item == OutboundItem::Message(MessageKind::ExternalOutbound)
}

/// The text that reports a transaction without an answer.
pub open spec fn no_response_text() -> Seq<char> {
    "erro unwrap out message 2"@
}

/// Finds the first answer among the outbound messages, in the order they
/// came. Items that are no answer are passed over, errors among them; where
/// there is none at all, that is an error of the call.
pub fn find_response(items: &Vec<OutboundItem>) -> (r: Result<usize, ProbeError>)
    ensures
        r is Ok <==> exists|j: int| 0 <= j < items@.len() && is_response(#[trigger] items@[j]),
        r matches Ok(i) ==> {
            &&& i < items@.len()
            &&& is_response(items@[i as int])
            &&& forall|j: int| 0 <= j < i ==> !is_response(#[trigger] items@[j])
        },
        r matches Err(e) ==> e@ == Failure::Transport(no_response_text()),
{
    let mut i: usize = 0;
    while i < items.len()
        invariant
            i <= items.len(),
            forall|j: int| 0 <= j < i ==> !is_response(#[trigger] items@[j]),
        decreases items.len() - i,
    {
        match items[i] {
            OutboundItem::Message(MessageKind::ExternalOutbound) => {
                return Ok(i);
            },
            _ => {},
        }
        i += 1;
    }
    Err(ProbeError::Transport(String::from_str("erro unwrap out message 2")))
}

} // verus!
