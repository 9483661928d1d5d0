//! Mail envelope preparation.
//!
//! Composing the message — the sender line, recipient, subject and HTML
//! body — is pure and lives here; handing the finished envelope to an
//! SMTP transport is an outside concern.

use vstd::prelude::*;
use vstd::string::StringExecFns;

verus! {

/// What a notification mail is built from.
pub struct MailOptions {
    pub html_content: String,
    pub to: String,
    pub subject: String,
    pub user_name: String,
    pub user_email: String,
}

/// A composed message, ready for a transport: the sender line is the
/// display name followed by the address in angle brackets.
pub struct MailMessage {
    pub from: String,
    pub to: String,
    pub subject: String,
    pub html_body: String,
}

/// The sender line composed from a display name and an address.
pub open spec fn spec_from_line(name: Seq<char>, email: Seq<char>) -> Seq<char> {
    name + " <"@ + email + ">"@
}

impl MailOptions {
    /// Compose the envelope that the transport sends: the sender line is
    /// built from the sending user's name and address, the rest is
    /// carried over unchanged.
    pub fn send(self) -> (r: MailMessage)
        ensures
            r.from@ == spec_from_line(self.user_name@, self.user_email@),
            r.to@ == self.to@,
            r.subject@ == self.subject@,
            r.html_body@ == self.html_content@,
    {
        let from = self.user_name.concat(" <").concat(self.user_email.as_str()).concat(">");
        MailMessage { from, to: self.to, subject: self.subject, html_body: self.html_content }
    }
}

} // verus!
