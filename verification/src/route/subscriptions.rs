//! What a subscription request is made into: a validated subscriber, a
//! confirmation token and the confirmation message.

use crate::domain::new_subscriber::NewSubscriber;
use crate::domain::subscriber_email::{email_rejection, is_valid_email, SubscriberEmail};
use crate::domain::subscriber_name::{is_valid_name, name_rejection, SubscriberName};
use crate::store::{has_email, pending_row, SubscriberRecord, SubscriptionStore};
use rand::rngs::ThreadRng;
use vstd::prelude::*;
use vstd::std_specs::convert::TryFromSpecImpl;
use vstd::string::StringExecFns;

verus! {

/// The two fields of the subscription form, as they were submitted.
pub struct FormData {
    pub email: String,
    pub name: String,
}

/// The reason for which a form with this name and this email is rejected:
/// the name is looked at first.
pub open spec fn form_rejection(name: Seq<char>, email: Seq<char>) -> Seq<char> {
    if !is_valid_name(name) {
        name_rejection(name)
    } else {
        email_rejection(email)
    }
}

/// The conversion hands out strings, which no specification can build: it
/// has no specification function to obey, and its contract stands on
/// `try_from` itself.
impl TryFromSpecImpl<FormData> for NewSubscriber {
    open spec fn obeys_try_from_spec() -> bool {
        false
    }

    open spec fn try_from_spec(value: FormData) -> Result<Self, String> {
        arbitrary()
    }
}

impl TryFrom<FormData> for NewSubscriber {
    type Error = String;

    /// Validates both fields of the form.
    fn try_from(value: FormData) -> (converted: Result<Self, String>)
        ensures
            converted is Ok <==> is_valid_name(value.name@) && is_valid_email(value.email@),
            converted matches Ok(subscriber) ==> subscriber.name@ == value.name@
                && subscriber.email@ == value.email@,
            converted matches Err(reason) ==> reason@ == form_rejection(
                value.name@,
                value.email@,
            ),
    {
        let FormData { email, name } = value;
        let name = match SubscriberName::parse(name) {
            Ok(name) => name,
            Err(reason) => {
                return Err(reason);
            },
        };
        let email = match SubscriberEmail::parse(email) {
            Ok(email) => email,
            Err(reason) => {
                return Err(reason);
            },
        };
        Ok(Self { email, name })
    }
}

/// The number of characters of a confirmation token.
pub const SUBSCRIPTION_TOKEN_LENGTH: usize = 25;

/// Whether `c` is an ASCII letter or digit.
pub open spec fn is_alphanumeric(c: char) -> bool {
    ||| 'a' <= c <= 'z'
    ||| 'A' <= c <= 'Z'
    ||| '0' <= c <= '9'
}

/// Whether `s` has the form of a confirmation token: 25 characters, each of
/// them an ASCII letter or digit.
pub open spec fn is_subscription_token(s: Seq<char>) -> bool {
    &&& s.len() == SUBSCRIPTION_TOKEN_LENGTH
    &&& forall|i: int| 0 <= i < s.len() ==> is_alphanumeric(#[trigger] s[i])
}

/// The text that the bytes `symbols` spell, one character for each byte.
pub open spec fn text_of_symbols(symbols: Seq<u8>) -> Seq<char> {
    Seq::new(symbols.len(), |i: int| symbols[i] as char)
}

/// The random number generator of a thread, `rand::rngs::ThreadRng`.
///
/// Trusted: the type is taken as it is, and nothing is known of its values.
#[verifier::external_type_specification]
#[verifier::external_body]
pub struct ExThreadRng(ThreadRng);

/// Hands out the random number generator of the current thread, as
/// `rand::thread_rng` does.
///
/// Trusted: nothing is claimed about the generator. The call stops the
/// program if the operating system cannot seed it.
#[verifier::external_body]
fn thread_rng() -> ThreadRng {
    rand::thread_rng()
}

/// Draws one symbol from `rand::distributions::Alphanumeric` with
/// `rand::Rng::sample`.
///
/// Trusted: the symbol is one of the 62 ASCII letters and digits. Which one
/// is not claimed: that is for the generator to decide.
#[verifier::external_body]
fn sample_alphanumeric(rng: &mut ThreadRng) -> (symbol: u8)
    ensures
        is_alphanumeric(symbol as char),
{
    rand::Rng::sample(rng, rand::distributions::Alphanumeric)
}

/// Appends the character `c` to `s`, as `String::push` does.
pub assume_specification[ String::push ](s: &mut String, c: char)
    ensures
        final(s)@ == old(s)@.push(c),
;

/// Spells `symbols` out as text, one character for each byte.
pub fn token_from_symbols(symbols: &Vec<u8>) -> (token: String)
    ensures
        token@ == text_of_symbols(symbols@),
{
    let mut token = String::new();
    let mut i: usize = 0;
    while i < symbols.len()
        invariant
            i <= symbols.len(),
            token@ == text_of_symbols(symbols@.take(i as int)),
        decreases symbols.len() - i,
    {
        token.push(symbols[i] as char);
        i += 1;
    }
    token
}

/// Makes a fresh confirmation token: 25 random ASCII letters and digits.
///
/// No store is consulted: that two tokens differ is a matter of chance, not
/// something this function sees to.
pub fn generate_subscription_token() -> (token: String)
    ensures
        is_subscription_token(token@),
{
    let mut rng = thread_rng();
    let mut symbols: Vec<u8> = Vec::new();
    while symbols.len() < SUBSCRIPTION_TOKEN_LENGTH
        invariant
            symbols.len() <= SUBSCRIPTION_TOKEN_LENGTH,
            forall|i: int| 0 <= i < symbols.len() ==> is_alphanumeric(#[trigger] symbols[i] as char),
        decreases SUBSCRIPTION_TOKEN_LENGTH - symbols.len(),
    {
        let symbol = sample_alphanumeric(&mut rng);
        symbols.push(symbol);
    }
    token_from_symbols(&symbols)
}

/// The link that confirms the subscription that `token` was issued for.
pub open spec fn confirmation_link_text(base_url: Seq<char>, token: Seq<char>) -> Seq<char> {
    base_url + "/subscriptions/confirm?subscription_token="@ + token
}

/// The plain-text body that invites to follow `link`.
pub open spec fn plain_body_text(link: Seq<char>) -> Seq<char> {
    "Welcome to our newsletter!\nVisit "@ + link + " to confirm your subscription."@
}

/// The HTML body that invites to follow `link`.
pub open spec fn html_body_text(link: Seq<char>) -> Seq<char> {
    "Welcome to our newsletter!<br />Click <a href=\""@ + link
        + "\">here</a> to confirm your subscription."@
}

/// The message that asks a new subscriber to confirm.
#[derive(Debug)]
pub struct ConfirmationEmail {
    pub recipient: SubscriberEmail,
    pub subject: String,
    pub html_body: String,
    pub plain_body: String,
}

/// The plain contents of a `ConfirmationEmail`.
pub struct ConfirmationEmailView {
    pub recipient: Seq<char>,
    pub subject: Seq<char>,
    pub html_body: Seq<char>,
    pub plain_body: Seq<char>,
}

impl View for ConfirmationEmail {
    type V = ConfirmationEmailView;

    open spec fn view(&self) -> ConfirmationEmailView {
        ConfirmationEmailView {
            recipient: self.recipient@,
            subject: self.subject@,
            html_body: self.html_body@,
            plain_body: self.plain_body@,
        }
    }
}

/// The confirmation message for the address `recipient`, with the link made
/// of `base_url` and `token` in both bodies.
pub open spec fn confirmation_for(
    recipient: Seq<char>,
    base_url: Seq<char>,
    token: Seq<char>,
) -> ConfirmationEmailView {
    ConfirmationEmailView {
        recipient,
        subject: "Welcome!"@,
        html_body: html_body_text(confirmation_link_text(base_url, token)),
        plain_body: plain_body_text(confirmation_link_text(base_url, token)),
    }
}

/// Builds the link that confirms a subscription.
pub fn confirmation_link(base_url: &str, subscription_token: &str) -> (link: String)
    ensures
        link@ == confirmation_link_text(base_url@, subscription_token@),
{
    let mut link = String::from_str(base_url);
    link.append("/subscriptions/confirm?subscription_token=");
    link.append(subscription_token);
    link
}

/// Builds the message that asks `new_subscriber` to confirm. Sending it is
/// left to the caller.
pub fn confirmation_email(
    new_subscriber: NewSubscriber,
    base_url: &str,
    subscription_token: &str,
) -> (email: ConfirmationEmail)
    ensures
        email@ == confirmation_for(new_subscriber@.email, base_url@, subscription_token@),
{
    let confirmation_link = confirmation_link(base_url, subscription_token);
    let mut plain_body = String::from_str("Welcome to our newsletter!\nVisit ");
    plain_body.append(confirmation_link.as_str());
    plain_body.append(" to confirm your subscription.");
    let mut html_body = String::from_str("Welcome to our newsletter!<br />Click <a href=\"");
    html_body.append(confirmation_link.as_str());
    html_body.append("\">here</a> to confirm your subscription.");
    ConfirmationEmail {
        recipient: new_subscriber.email,
        subject: String::from_str("Welcome!"),
        html_body,
        plain_body,
    }
}

/// Draws a fresh subscriber identifier with `uuid::Uuid::new_v4` and hands
/// it out as the 128-bit number made of its bytes, first byte first.
///
/// Trusted: nothing is claimed about the identifier. The call stops the
/// program if the operating system has no randomness to give.
#[verifier::external_body]
fn new_subscriber_id() -> u128 {
    uuid::Uuid::new_v4().as_u128()
}

/// Reads the clock with `chrono::Utc::now` and hands out the microseconds
/// since the Unix epoch.
///
/// Trusted: nothing is claimed about the time. The call stops the program
/// if the clock stands before the epoch, and the number is of no use if it
/// stands some three hundred thousand years after it.
#[verifier::external_body]
fn current_time() -> i64 {
    chrono::Utc::now().timestamp_micros()
}

/// Prepares the record under which `new_subscriber` is inserted: a fresh
/// identifier, the current time, and the status `PendingConfirmation`.
pub fn pending_subscriber(new_subscriber: &NewSubscriber) -> (record: SubscriberRecord)
    ensures
        record@ == pending_row(new_subscriber@, record.id, record.subscribed_at),
{
    let subscriber_id = new_subscriber_id();
    let subscribed_at = current_time();
    SubscriberRecord::pending(new_subscriber, subscriber_id, subscribed_at)
}

/// Whether a subscriber with the address `_email` is in `store` already.
pub fn _check_subscriber_exist(store: &SubscriptionStore, _email: &SubscriberEmail) -> (exists:
    bool)
    ensures
        exists == has_email(store@, _email@),
{
    store.contains_email(_email)
}

/// The token can be read off the end of the confirmation link, so links
/// for different tokens differ.
pub proof fn the_link_embeds_the_token(base_url: Seq<char>, token: Seq<char>, other: Seq<char>)
    ensures
        confirmation_link_text(base_url, token).len() >= token.len(),
        confirmation_link_text(base_url, token).skip(
            confirmation_link_text(base_url, token).len() - token.len(),
        ) == token,
        token != other ==> confirmation_link_text(base_url, token) != confirmation_link_text(
            base_url,
            other,
        ),
{
    let prefix = base_url + "/subscriptions/confirm?subscription_token="@;
    assert(confirmation_link_text(base_url, other).skip(prefix.len() as int) =~= other);
}

} // verus!
