use vstd::prelude::*;

use crate::email::Email;

verus! {

/// A side channel that delivers a message to a user: a log-only mock, or a
/// webhook in deployments.
///
/// As with the store traits, only a notifier with `!may_fail()` promises
/// anything about its model; one written outside this library keeps the
/// defaults (`may_fail() == true`) and is asked for nothing.
pub trait EmailClient {
    /// The messages handed over so far, as (recipient, subject, content).
    closed spec fn outbox(&self) -> Seq<(Seq<char>, Seq<char>, Seq<char>)> {
        Seq::empty()
    }

    /// Whether a delivery may fail.
    open spec fn may_fail(&self) -> bool {
        true
    }

    /// Delivers `content` under `subject` to `recipient`; the error carries
    /// the cause of a failed delivery.
    fn send_email(&mut self, recipient: &Email, subject: &str, content: &str) -> (r: Result<(), String>)
        ensures
            final(self).may_fail() == old(self).may_fail(),
            !old(self).may_fail() ==> r is Ok && final(self).outbox() == old(self).outbox().push(
                (recipient@, subject@, content@),
            ),
    ;
}

/// The text of a webhook message that relays an email.
pub fn relay_message_text(recipient: &Email, subject: &str, content: &str) -> (r: String)
    ensures
        r@ == "Email to: "@ + recipient@ + "\nSubject: "@ + subject@ + "\n\n"@ + content@,
{
    let mut text = "Email to: ".to_owned();
    text.append(recipient.as_ref());
    text.append("\nSubject: ");
    text.append(subject);
    text.append("\n\n");
    text.append(content);
    text
}

/// A notifier that delivers nothing: it accepts every message and only
/// records, as ghost state, what it was handed.
pub struct MockEmailClient {
    sent: Ghost<Seq<(Seq<char>, Seq<char>, Seq<char>)>>,
}

impl MockEmailClient {
    pub fn new() -> (r: MockEmailClient)
        ensures
            r.outbox() == Seq::<(Seq<char>, Seq<char>, Seq<char>)>::empty(),
    {
        MockEmailClient { sent: Ghost(Seq::empty()) }
    }
}

impl Default for MockEmailClient {
    fn default() -> (r: MockEmailClient)
        ensures
            r.outbox() == Seq::<(Seq<char>, Seq<char>, Seq<char>)>::empty(),
    {
        MockEmailClient::new()
    }
}

impl EmailClient for MockEmailClient {
    closed spec fn outbox(&self) -> Seq<(Seq<char>, Seq<char>, Seq<char>)> {
        self.sent@
    }

    open spec fn may_fail(&self) -> bool {
        false
    }

    fn send_email(&mut self, recipient: &Email, subject: &str, content: &str) -> (r: Result<(), String>) {
        self.sent = Ghost(self.sent@.push((recipient@, subject@, content@)));
        Ok(())
    }
}

} // verus!
