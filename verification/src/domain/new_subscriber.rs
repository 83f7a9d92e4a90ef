//! The validated payload of a subscription request.

use crate::domain::subscriber_email::SubscriberEmail;
use crate::domain::subscriber_name::SubscriberName;
use vstd::prelude::*;

verus! {

/// A name and an email address that have both passed validation.
///
/// It lives for one request only: it is taken apart into the fields of a
/// subscriber record and never stored as it is.
#[derive(Debug)]
pub struct NewSubscriber {
    pub email: SubscriberEmail,
    pub name: SubscriberName,
}

/// The plain contents of a `NewSubscriber`.
pub struct NewSubscriberView {
    pub email: Seq<char>,
    pub name: Seq<char>,
}

impl View for NewSubscriber {
    type V = NewSubscriberView;

    open spec fn view(&self) -> NewSubscriberView {
        NewSubscriberView { email: self.email@, name: self.name@ }
    }
}

impl Clone for NewSubscriber {
    fn clone(&self) -> (copy: Self)
        ensures
            copy@ == self@,
    {
        NewSubscriber { email: self.email.clone(), name: self.name.clone() }
    }
}

} // verus!
