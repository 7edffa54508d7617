//! A letter to one address, and the account from which it is sent.

use crate::secrets::Secrets;
use vstd::prelude::*;

verus! {

/// The account at the mail relay.
#[derive(Debug, PartialEq, Eq)]
pub struct EmailClientCreds {
    pub username: String,
    pub password: String,
    pub smtp_relay: String,
}

#[derive(Debug, PartialEq, Eq)]
pub struct EmailClient {
    pub email: String,
    pub subject: String,
    pub creds: EmailClientCreds,
}

impl EmailClient {
    /// A client that writes to `email` under `subject` from the account
    /// that the settings name.
    pub fn new(email: &str, subject: &str, secrets: &Secrets) -> (r: Result<Self, String>)
        ensures
            r matches Ok(client) && client.email@ == email@ && client.subject@ == subject@
                && client.creds.username@ == secrets.smtp_username@ && client.creds.password@
                == secrets.smtp_password@ && client.creds.smtp_relay@ == secrets.smtp_relay@,
    {
        Ok(
            EmailClient {
                subject: String::from_str(subject),
                email: String::from_str(email),
                creds: EmailClientCreds {
                    username: secrets.smtp_username.clone(),
                    password: secrets.smtp_password.clone(),
                    smtp_relay: secrets.smtp_relay.clone(),
                },
            },
        )
    }
}

} // verus!
