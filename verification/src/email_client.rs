use vstd::prelude::*;

use crate::email::Email;

verus! {

/// The outbound notification collaborator that delivers second-factor
/// codes. Delivery runs over the network and may fail for any reason, so
/// nothing is promised of the result; the orchestrator treats any failure
/// as unexpected.
pub trait EmailClient {
    fn send_email(&self, recipient: &Email, subject: &str, content: &str) -> (r: Result<
        (),
        String,
    >);
}

/// A no-op client for tests and local runs: it accepts every message and
/// delivers nothing.
#[derive(Debug, Default)]
pub struct MockEmailClient;

impl EmailClient for MockEmailClient {
    fn send_email(&self, recipient: &Email, subject: &str, content: &str) -> (r: Result<
        (),
        String,
    >)
        ensures
            r is Ok,
    {
        Ok(())
    }
}

} // verus!
