//! The mail that carries a one-time code: whom it goes to, and what its dispatch comes to.

use crate::status::Status;
use vstd::prelude::*;

verus! {

/// The sender of every mail.
pub open spec fn sender() -> Seq<char> {
    "Clicon.io <no-reply@clicon.io>"@
}

/// The address for replies.
pub open spec fn reply_to() -> Seq<char> {
    "Support <support@clicon.io>"@
}

/// The subject of the mail with the code.
pub open spec fn subject() -> Seq<char> {
    "Your OTP Code - Clicon.io"@
}

/// The mailbox of a recipient: the name, then the address in angle brackets.
pub open spec fn mailbox(name: Seq<char>, email: Seq<char>) -> Seq<char> {
    name + " <"@ + email + ">"@
}

/// Writes the mailbox of a recipient.
pub fn recipient(name: &str, email: &str) -> (to: String)
    ensures
        to@ == mailbox(name@, email@),
{
    let mut to = String::from_str(name);
    to.append(" <");
    to.append(email);
    to.append(">");
    to
}

/// The head of a mail.
#[derive(Clone, Debug, PartialEq, Eq)]
pub struct Envelope {
    pub from: String,
    pub reply_to: String,
    pub to: String,
    pub subject: String,
}

/// Writes the head of the mail that carries a code to a new user.
pub fn envelope(name: &str, email: &str) -> (head: Envelope)
    ensures
        head.from@ == sender(),
        head.reply_to@ == reply_to(),
        head.to@ == mailbox(name@, email@),
        head.subject@ == subject(),
{
    Envelope {
        from: String::from_str("Clicon.io <no-reply@clicon.io>"),
        reply_to: String::from_str("Support <support@clicon.io>"),
        to: recipient(name, email),
        subject: String::from_str("Your OTP Code - Clicon.io"),
    }
}

/// What the dispatch of a mail comes to: `true` where the relay took it, a server error
/// where it did not.
pub fn send_mail_outcome(relayed: Result<(), String>) -> (r: Result<bool, Status>)
    ensures
        match r {
            Ok(sent) => relayed is Ok && sent,
            Err(status) => relayed is Err && status == Status::ServerError,
        },
{
    match relayed {
        Ok(_) => Ok(true),
        Err(_) => Err(Status::ServerError),
    }
}

} // verus!
