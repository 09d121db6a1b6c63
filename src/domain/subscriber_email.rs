use vstd::prelude::*;

verus! {

/// Whether `s` is an e-mail address by the HTML5 syntax that validator checks.
pub uninterp spec fn is_valid_email(s: Seq<char>) -> bool;

/// Relies on validator::validate_email: the verdict depends on the characters
/// alone, and it refuses an empty string and one without `@`.
#[verifier::external_body]
fn email_syntax_ok(s: &str) -> (r: bool)
    ensures
        r == is_valid_email(s@),
        r ==> s@.len() > 0 && s@.contains('@'),
{
    validator::validate_email(s)
}

/// An e-mail address known to satisfy `is_valid_email`.
pub struct SubscriberEmail(String);

impl View for SubscriberEmail {
    type V = Seq<char>;

    closed spec fn view(&self) -> Seq<char> {
        self.0@
    }
}

impl SubscriberEmail {
    pub closed spec fn wf(&self) -> bool {
        is_valid_email(self.0@)
    }

    /// Accepts `s` exactly when it is a syntactically valid address.
    pub fn parse(s: String) -> (r: Result<SubscriberEmail, String>)
        ensures
            r is Ok <==> is_valid_email(s@),
            r matches Ok(e) ==> e@ == s@ && e.wf(),
            r matches Err(m) ==> m@ == s@ + " is not a valid email"@,
    {
        if email_syntax_ok(s.as_str()) {
            Ok(SubscriberEmail(s))
        } else {
            Err(s.concat(" is not a valid email"))
        }
    }

    pub fn as_str(&self) -> (r: &str)
        ensures
            r@ == self@,
    {
        self.0.as_str()
    }

    pub fn to_string(&self) -> (r: String)
        ensures
            r@ == self@,
    {
        self.0.clone()
    }
}

} // verus!
