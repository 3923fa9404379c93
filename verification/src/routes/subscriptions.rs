//! Intake of a subscription: from the submitted form to the record that is stored
//! and the status that answers the request.

use crate::domain::{name_error, valid_name, NewSubscriber, SubscriberName};
use crate::email::{email_error, valid_email, SubscriberEmail};
use crate::ids::{fresh_id, is_random_uuid};
use chrono::Utc;
use vstd::prelude::*;

verus! {

/// The status that answers a subscription that was stored.
pub const STATUS_OK: u16 = 200;

/// The status that answers a form that could not be decoded or did not pass
/// validation.
pub const STATUS_BAD_REQUEST: u16 = 400;

/// The status that answers a subscription that could not be stored.
pub const STATUS_INTERNAL_SERVER_ERROR: u16 = 500;

/// The fields of a subscription form as they were submitted, unchecked.
pub struct FormData {
    pub email: String,
    pub name: String,
}

/// A row of the table of subscriptions.
pub struct SubscriptionRecord {
    /// The row's key, a UUID as a 128-bit number.
    pub id: u128,
    pub email: String,
    pub name: String,
    /// Microseconds since the start of 1970, UTC.
    pub subscribed_at: i64,
}

/// What is to be done for a request once its form has been looked at.
pub enum Intake {
    /// The form passed validation: store the subscriber, then answer.
    Persist(NewSubscriber),
    /// The request is answered with this status and nothing is stored.
    Respond(u16),
}

/// Validates the name, then the email address, and stops at the first that fails.
pub fn parse_subscriber(form: FormData) -> (r: Result<NewSubscriber, String>)
    ensures
        match r {
            Ok(subscriber) => {
                &&& valid_name(form.name@)
                &&& valid_email(form.email@)
                &&& subscriber.name@ == form.name@
                &&& subscriber.email@ == form.email@
            },
            Err(e) => if !valid_name(form.name@) {
                e@ == name_error(form.name@)
            } else {
                !valid_email(form.email@) && e@ == email_error(form.email@)
            },
        },
{
    let name = match SubscriberName::parse(form.name) {
        Ok(name) => name,
        Err(e) => {
            return Err(e);
        },
    };
    let email = match SubscriberEmail::parse(form.email) {
        Ok(email) => email,
        Err(e) => {
            return Err(e);
        },
    };
    Ok(NewSubscriber { email, name })
}

impl TryFrom<FormData> for NewSubscriber {
    type Error = String;

    /// The same as `parse_subscriber`.
    fn try_from(value: FormData) -> (r: Result<NewSubscriber, String>)
        ensures
            match r {
                Ok(subscriber) => {
                    &&& valid_name(value.name@)
                    &&& valid_email(value.email@)
                    &&& subscriber.name@ == value.name@
                    &&& subscriber.email@ == value.email@
                },
                Err(e) => if !valid_name(value.name@) {
                    e@ == name_error(value.name@)
                } else {
                    !valid_email(value.email@) && e@ == email_error(value.email@)
                },
            },
    {
        parse_subscriber(value)
    }
}

impl vstd::std_specs::convert::TryFromSpecImpl<FormData> for NewSubscriber {
    /// False: the conversion is specified by the contract of `try_from` itself,
    /// not by `try_from_spec`.
    open spec fn obeys_try_from_spec() -> bool {
        false
    }

    /// Not used, since `obeys_try_from_spec` is false.
    open spec fn try_from_spec(value: FormData) -> Result<NewSubscriber, String> {
        Err(value.name)
    }
}

/// Decides what follows the decoding of a request's body: a body that could not
/// be decoded, or a form that fails validation, is answered with 400 at once;
/// a valid form is handed on to be stored.
pub fn receive(decoded: Option<FormData>) -> (next: Intake)
    ensures
        match decoded {
            Some(form) if valid_name(form.name@) && valid_email(form.email@) => {
                &&& next matches Intake::Persist(subscriber)
                &&& subscriber.name@ == form.name@
                &&& subscriber.email@ == form.email@
            },
            _ => next == Intake::Respond(STATUS_BAD_REQUEST),
        },
{
    match decoded {
        Some(form) => match parse_subscriber(form) {
            Ok(subscriber) => Intake::Persist(subscriber),
            Err(_) => Intake::Respond(STATUS_BAD_REQUEST),
        },
        None => Intake::Respond(STATUS_BAD_REQUEST),
    }
}

/// The status that answers a request whose subscriber was handed to the store:
/// 200 if the row was stored, 500 if it was not.
pub fn conclude(stored: bool) -> (status: u16)
    ensures
        status == if stored {
            STATUS_OK
        } else {
            STATUS_INTERNAL_SERVER_ERROR
        },
{
    if stored {
        STATUS_OK
    } else {
        STATUS_INTERNAL_SERVER_ERROR
    }
}

/// Reads the clock with `Utc::now` and hands out the time in microseconds with
/// `DateTime::timestamp_micros`. Nothing is claimed of the value. The call panics
/// where the machine's clock stands before 1970.
#[verifier::external_body]
fn now_micros() -> i64 {
    Utc::now().timestamp_micros()
}

/// The row that stores `subscriber` under the key `id` with the time
/// `subscribed_at`.
pub fn subscription_record(subscriber: &NewSubscriber, id: u128, subscribed_at: i64) -> (record:
    SubscriptionRecord)
    ensures
        record.id == id,
        record.email@ == subscriber.email@,
        record.name@ == subscriber.name@,
        record.subscribed_at == subscribed_at,
        valid_email(record.email@),
        valid_name(record.name@),
{
    SubscriptionRecord {
        id,
        email: subscriber.email.as_str().to_owned(),
        name: subscriber.name.inner_ref().to_owned(),
        subscribed_at,
    }
}

/// The row to insert for `subscriber`: its email address and name as they are,
/// under a key drawn for this row alone, with the time of the call.
pub fn new_subscription_record(subscriber: &NewSubscriber) -> (record: SubscriptionRecord)
    ensures
        is_random_uuid(record.id),
        record.email@ == subscriber.email@,
        record.name@ == subscriber.name@,
        valid_email(record.email@),
        valid_name(record.name@),
{
    let id = fresh_id();
    let subscribed_at = now_micros();
    subscription_record(subscriber, id, subscribed_at)
}

} // verus!
