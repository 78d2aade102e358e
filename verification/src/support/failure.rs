//! Errors as a chain of messages.

use vstd::prelude::*;
use crate::support::text;

verus! {

/// An error with the messages that lead to it, the outermost first.
#[derive(Debug)]
pub struct Failure {
    pub messages: Vec<String>,
}

impl View for Failure {
    type V = Seq<Seq<char>>;

    open spec fn view(&self) -> Seq<Seq<char>> {
        text::texts(self.messages@)
    }
}

impl Failure {
    /// A failure with one message.
    pub fn msg(message: &str) -> (r: Failure)
        ensures
            r@ == seq![message@],
    {
        Failure::new(message.to_owned())
    }

    /// A failure with one message, taken over.
    pub fn new(message: String) -> (r: Failure)
        ensures
            r@ == seq![message@],
    {
        let mut messages: Vec<String> = Vec::new();
        messages.push(message);
        let r = Failure { messages };
        proof {
            assert(r@ =~= seq![message@]);
        }
        r
    }

    /// The failure with `message` put in front of its chain.
    pub fn context(self, message: &str) -> (r: Failure)
        ensures
            r@ == seq![message@] + self@,
    {
        let mut messages = self.messages;
        messages.insert(0, message.to_owned());
        let r = Failure { messages };
        proof {
            assert(r@ =~= seq![message@] + self@);
        }
        r
    }

    /// A copy of the failure.
    pub fn copy(&self) -> (r: Failure)
        ensures
            r@ == self@,
    {
        let messages = self.messages.clone();
        proof {
            assert(messages@ =~= self.messages@);
        }
        Failure { messages }
    }

    /// The outermost message.
    pub fn to_string(&self) -> (r: String)
        ensures
            r@ == (if self@.len() > 0 { self@[0] } else { Seq::empty() }),
    {
        if self.messages.len() > 0 {
            self.messages[0].clone()
        } else {
            String::new()
        }
    }
}

/// The chain of a failure is its messages, in their order.
pub proof fn chains_are_the_messages(failure: Failure, i: int)
    ensures
        failure@.len() == failure.messages@.len(),
        0 <= i < failure@.len() ==> failure@[i] == failure.messages@[i]@,
{
}

} // verus!
