//! The e-mail that asks a new user to confirm the address: its link, subject and
//! HTML body. Sending it is left to the caller.
use vstd::prelude::*;

use crate::text::concat_str;

verus! {

/// The page of the web client that confirms an address.
pub open spec fn verify_base_url() -> Seq<char> {
    "http://localhost:5173/verify-email"@
}

/// The subject line of the confirmation e-mail.
pub open spec fn verification_subject() -> Seq<char> {
    "Email Verification"@
}

/// The HTML of the confirmation e-mail before the first copy of the link.
pub open spec fn html_head() -> Seq<char> {
    "\n        <div style=\"font-family: sans-serif; padding: 20px; max-width: 500px; margin: 0 auto; border: 1px solid #eee; border-radius: 8px;\">\n            <h2 style=\"color: #333;\">Verify your account</h2>\n            <p style=\"color: #555; line-height: 1.5;\">Thank you for registering! Please click the button below to verify your email address and activate your account:</p>\n            <p style=\"margin-top: 25px;\">\n                <a href=\""@
}

/// The HTML between the two copies of the link.
pub open spec fn html_middle() -> Seq<char> {
    "\" style=\"background: #000; color: #fff; padding: 12px 24px; text-decoration: none; border-radius: 5px; font-weight: bold; display: inline-block;\">\n                    Verify Email Address\n                </a>\n            </p>\n            <p style=\"margin-top: 25px; font-size: 12px; color: #999;\">If the button doesn't work, copy and paste this link into your browser:<br>"@
}

/// The HTML after the second copy of the link.
pub open spec fn html_tail() -> Seq<char> {
    "</p>\n        </div>\n        "@
}

/// The HTML body of the confirmation e-mail for a link: a button that points to
/// the link, and the link again as text.
pub open spec fn verification_html(url: Seq<char>) -> Seq<char> {
    html_head() + url + html_middle() + url + html_tail()
}

/// The confirmation link: the base URL with the token as its `token` query
/// parameter.
pub fn create_verification_link(base_url: &str, token: String) -> (res: String)
    ensures
        res@ == base_url@ + "?token="@ + token@,
{
    let mut s = concat_str(base_url, "?token=");
    s.append(token.as_str());
    s
}

/// The base URL of the confirmation page.
pub fn verification_base_url() -> (res: String)
    ensures
        res@ == verify_base_url(),
{
    String::from_str("http://localhost:5173/verify-email")
}

/// The subject line of the confirmation e-mail.
pub fn verification_email_subject() -> (res: String)
    ensures
        res@ == verification_subject(),
{
    String::from_str("Email Verification")
}

/// The HTML body of the confirmation e-mail for the given link.
pub fn verification_email_html(url: &str) -> (res: String)
    ensures
        res@ == verification_html(url@),
{
    let mut s = String::from_str("\n        <div style=\"font-family: sans-serif; padding: 20px; max-width: 500px; margin: 0 auto; border: 1px solid #eee; border-radius: 8px;\">\n            <h2 style=\"color: #333;\">Verify your account</h2>\n            <p style=\"color: #555; line-height: 1.5;\">Thank you for registering! Please click the button below to verify your email address and activate your account:</p>\n            <p style=\"margin-top: 25px;\">\n                <a href=\"");
    s.append(url);
    s.append("\" style=\"background: #000; color: #fff; padding: 12px 24px; text-decoration: none; border-radius: 5px; font-weight: bold; display: inline-block;\">\n                    Verify Email Address\n                </a>\n            </p>\n            <p style=\"margin-top: 25px; font-size: 12px; color: #999;\">If the button doesn't work, copy and paste this link into your browser:<br>");
    s.append(url);
    s.append("</p>\n        </div>\n        ");
    s
}

/// A confirmation e-mail, ready to be sent.
pub struct VerificationEmail {
    pub to: String,
    pub subject: String,
    pub html: String,
}

/// The confirmation e-mail for a new user's address and verification token:
/// subject "Email Verification", and an HTML body around the link to the
/// confirmation page with the token.
pub fn verification_email(to_email: String, token: String) -> (res: VerificationEmail)
    ensures
        res.to@ == to_email@,
        res.subject@ == verification_subject(),
        res.html@ == verification_html(verify_base_url() + "?token="@ + token@),
{
    let base = verification_base_url();
    let url = create_verification_link(base.as_str(), token);
    VerificationEmail {
        to: to_email,
        subject: verification_email_subject(),
        html: verification_email_html(url.as_str()),
    }
}

/// Whether `lettre` reads the text as a mailbox (`"Name <user@domain>"` or
/// `user@domain`).
pub uninterp spec fn lettre_mailbox_ok(s: Seq<char>) -> bool;

/// `s.parse::<lettre::message::Mailbox>().is_ok()`. Claimed: the verdict is the
/// named one of the text (the parser reads the text alone).
#[verifier::external_body]
fn mailbox_parses(s: &str) -> (res: bool)
    ensures
        res == lettre_mailbox_ok(s@),
{
    s.parse::<lettre::message::Mailbox>().is_ok()
}

/// The confirmation e-mail from the sender's address to a new user's address,
/// where both read as mailboxes; `None` where either does not, and the e-mail
/// cannot be addressed.
pub fn verification_email_checked(from: &str, to_email: String, token: String) -> (res: Option<
    VerificationEmail,
>)
    ensures
        res is Some <==> (lettre_mailbox_ok(from@) && lettre_mailbox_ok(to_email@)),
        res matches Some(m) ==> m.to@ == to_email@ && m.subject@ == verification_subject()
            && m.html@ == verification_html(verify_base_url() + "?token="@ + token@),
{
    if !mailbox_parses(from) {
        return None;
    }
    if !mailbox_parses(to_email.as_str()) {
        return None;
    }
    Some(verification_email(to_email, token))
}

} // verus!
