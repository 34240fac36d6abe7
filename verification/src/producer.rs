//! What is handed to the broker: a message and the topic it goes to.

use crate::data::{wire_bytes, DynamicTaskMessage, EncodeError, TaskMessageView};
use vstd::prelude::*;

verus! {

/// A message on its way to the broker. The topic is always the type of the
/// message: a publication can only be made from a message, and neither part
/// can be changed afterwards.
#[derive(Debug, PartialEq)]
pub struct Publication {
    topic: String,
    message: DynamicTaskMessage,
}

/// The value of a [`Publication`].
pub struct PublicationView {
    pub topic: Seq<char>,
    pub message: TaskMessageView,
}

/// The publication of a message: it goes to the topic named like its type.
pub open spec fn publication_of(message: TaskMessageView) -> PublicationView {
    PublicationView { topic: message.task_type, message }
}

impl View for Publication {
    type V = PublicationView;

    closed spec fn view(&self) -> PublicationView {
        PublicationView { topic: self.topic@, message: self.message@ }
    }
}

impl Publication {
    #[verifier::type_invariant]
    spec fn inv(&self) -> bool {
        self.topic@ == self.message@.task_type
    }

    /// The publication of a message, unchanged, on the topic named like its
    /// type.
    pub fn of(message: DynamicTaskMessage) -> (r: Publication)
        ensures
            r@ == publication_of(message@),
    {
        let topic = message.task_type.clone();
        Publication { topic, message }
    }

    /// The topic, which is the type of the message.
    pub fn topic(&self) -> (r: &String)
        ensures
            r@ == self@.topic,
            r@ == self@.message.task_type,
    {
        proof {
            use_type_invariant(self);
        }
        &self.topic
    }

    /// The message.
    pub fn message(&self) -> (r: &DynamicTaskMessage)
        ensures
            r@ == self@.message,
    {
        &self.message
    }

    /// Gives the message back.
    pub fn into_message(self) -> (r: DynamicTaskMessage)
        ensures
            r@ == self@.message,
    {
        self.message
    }

    /// The bytes to hand to the broker: the message in its wire form. It
    /// fails exactly where the message has no wire form.
    pub fn payload(&self) -> (r: Result<Vec<u8>, EncodeError>)
        ensures
            match r {
                Ok(bytes) => wire_bytes(self@.message) == Some(bytes@),
                Err(_) => wire_bytes(self@.message) is None,
            },
    {
        self.message.serialize_message()
    }
}

} // verus!
