//! The mail that carries a verification code.

use vstd::prelude::*;
use vstd::string::StringExecFns;

verus! {

/// A mail to be handed to the mail sender.
#[derive(Debug, Clone, PartialEq, Eq)]
pub struct Mail {
    pub to: String,
    pub subject: String,
    pub body: String,
}

/// The mathematical value of a [`Mail`].
pub struct MailView {
    pub to: Seq<char>,
    pub subject: Seq<char>,
    pub body: Seq<char>,
}

impl View for Mail {
    type V = MailView;

    open spec fn view(&self) -> MailView {
        MailView { to: self.to@, subject: self.subject@, body: self.body@ }
    }
}

impl DeepView for Mail {
    type V = MailView;

    open spec fn deep_view(&self) -> MailView {
        self.view()
    }
}

/// The mail that tells `to` its verification code.
pub open spec fn verification_mail_spec(to: Seq<char>, code: Seq<char>) -> MailView {
    MailView {
        to,
        subject: "Your Verification Code"@,
        body: "Your verification code is: "@ + code,
    }
}

/// Composes the mail that tells `to_email` its verification code.
pub fn verification_mail(to_email: &str, code: &str) -> (mail: Mail)
    ensures
        mail@ == verification_mail_spec(to_email@, code@),
{
    Mail {
        to: String::from_str(to_email),
        subject: String::from_str("Your Verification Code"),
        body: String::from_str("Your verification code is: ").concat(code),
    }
}

} // verus!
