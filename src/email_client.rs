//! Delivery of messages to users, and a client that keeps what it is asked
//! to send instead of sending it.

use vstd::prelude::*;

verus! {

use crate::email::Email;

#[derive(Debug, Clone, Copy, PartialEq, Eq, Structural)]
pub enum EmailClientError {
    DeliveryFailed,
}

/// A message as (recipient, subject, content).
pub type Message = (Seq<char>, Seq<char>, Seq<char>);

/// A way to deliver a message to a user.
pub trait EmailClient {
    /// The messages delivered so far, oldest first.
    spec fn outbox(&self) -> Seq<Message>;

    /// Delivers a message; on success it is the newest in the outbox.
    fn send_email(&mut self, recipient: &Email, subject: &str, content: &str) -> (r: Result<
        (),
        EmailClientError,
    >)
        ensures
            r is Ok ==> final(self).outbox() == old(self).outbox().push(
                (recipient@, subject@, content@),
            ),
    ;
}

#[derive(Debug, Clone, PartialEq, Eq)]
pub struct SentEmail {
    pub recipient: String,
    pub subject: String,
    pub content: String,
}

/// Keeps every message, in the order it was handed over.
pub struct MockEmailClient {
    sent: Vec<SentEmail>,
}

impl View for MockEmailClient {
    type V = Seq<SentEmail>;

    closed spec fn view(&self) -> Seq<SentEmail> {
        self.sent@
    }
}

impl MockEmailClient {
    pub fn new() -> (r: MockEmailClient)
        ensures
            r@.len() == 0,
    {
        MockEmailClient { sent: Vec::new() }
    }

    pub fn sent(&self) -> (r: &Vec<SentEmail>)
        ensures
            r@ == self@,
    {
        &self.sent
    }
}

impl EmailClient for MockEmailClient {
    open spec fn outbox(&self) -> Seq<Message> {
        self@.map_values(|m: SentEmail| (m.recipient@, m.subject@, m.content@))
    }

    fn send_email(&mut self, recipient: &Email, subject: &str, content: &str) -> (r: Result<
        (),
        EmailClientError,
    >) {
        self.sent.push(
            SentEmail {
                recipient: recipient.as_str().to_string(),
                subject: subject.to_string(),
                content: content.to_string(),
            },
        );
        assert(self.outbox() =~= old(self).outbox().push((recipient@, subject@, content@)));
        Ok(())
    }
}

} // verus!
