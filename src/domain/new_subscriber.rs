use crate::domain::subscriber_email::{is_valid_email, SubscriberEmail};
use crate::domain::subscriber_name::{is_valid_name, SubscriberName};
use vstd::prelude::*;

verus! {

/// A subscription request whose name and address have both been checked.
pub struct NewSubscriber {
    pub email: SubscriberEmail,
    pub name: SubscriberName,
}

impl NewSubscriber {
    pub open spec fn wf(&self) -> bool {
        self.email.wf() && self.name.wf()
    }

    /// Checks the name first, then the address; the first failure is reported.
    pub fn parse(name: &str, email: String) -> (r: Result<NewSubscriber, String>)
        ensures
            r is Ok <==> is_valid_name(name@) && is_valid_email(email@),
            r matches Ok(s) ==> s.wf() && s.name@ == name@ && s.email@ == email@,
    {
        let name = SubscriberName::parse(name)?;
        let email = SubscriberEmail::parse(email)?;
        Ok(NewSubscriber { email, name })
    }
}

} // verus!
