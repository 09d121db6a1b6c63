use crate::domain::SubscriberEmail;
use vstd::prelude::*;

verus! {

/// The body of one request to the e-mail delivery service.
pub struct SendEmailRequest {
    pub from: String,
    pub to: String,
    pub subject: String,
    pub html_body: String,
    pub text_body: String,
}

/// The endpoint of the delivery service that accepts one e-mail.
pub fn email_endpoint(base_url: &str) -> (r: String)
    ensures
        r@ == base_url@ + "/email"@,
{
    String::from_str(base_url).concat("/email")
}

/// The request that sends one e-mail from `sender` to `recipient`.
pub fn send_email_request(
    sender: &SubscriberEmail,
    recipient: &SubscriberEmail,
    subject: &str,
    html_content: &str,
    text_content: &str,
) -> (r: SendEmailRequest)
    ensures
        r.from@ == sender@,
        r.to@ == recipient@,
        r.subject@ == subject@,
        r.html_body@ == html_content@,
        r.text_body@ == text_content@,
{
    SendEmailRequest {
        from: sender.to_string(),
        to: recipient.to_string(),
        subject: String::from_str(subject),
        html_body: String::from_str(html_content),
        text_body: String::from_str(text_content),
    }
}

} // verus!
