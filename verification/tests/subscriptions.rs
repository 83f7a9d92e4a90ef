use zero2prod::domain::{NewSubscriber, SubscriberEmail, SubscriberName};
use zero2prod::route::subscriptions::{
    _check_subscriber_exist, confirmation_email, confirmation_link, generate_subscription_token,
    pending_subscriber, token_from_symbols, SUBSCRIPTION_TOKEN_LENGTH,
};
use zero2prod::startup::ApplicationBaseUrl;
use zero2prod::store::{SubscriberRecord, SubscriberStatus, SubscriptionStore};

fn ursula() -> NewSubscriber {
    NewSubscriber {
        email: SubscriberEmail::parse("ursula_le_guin@gmail.com".to_string()).unwrap(),
        name: SubscriberName::parse("Ursula Le Guin".to_string()).unwrap(),
    }
}

#[test]
fn every_token_is_25_alphanumeric_characters() {
    assert_eq!(SUBSCRIPTION_TOKEN_LENGTH, 25);
    for _ in 0..1000 {
        let token = generate_subscription_token();
        assert_eq!(token.chars().count(), 25);
        assert_eq!(token.len(), 25);
        assert!(token.chars().all(|c| c.is_ascii_alphanumeric()), "{token}");
    }
}

#[test]
fn tokens_are_drawn_afresh() {
    let first = generate_subscription_token();
    let second = generate_subscription_token();
    assert_ne!(first, second);
}

#[test]
fn symbols_are_spelled_out_in_their_order() {
    assert_eq!(token_from_symbols(&b"aZ09".to_vec()), "aZ09");
    assert_eq!(token_from_symbols(&Vec::new()), "");
    assert_eq!(token_from_symbols(&vec![0x41, 0xe9, 0x7a]), "A\u{e9}z");
}

#[test]
fn the_confirmation_link_ends_with_the_token() {
    assert_eq!(
        confirmation_link("https://newsletter.example.com", "Zq3vB7k1mN9xR2tY5wL8cD4fH"),
        "https://newsletter.example.com/subscriptions/confirm?subscription_token=Zq3vB7k1mN9xR2tY5wL8cD4fH"
    );
    assert_eq!(confirmation_link("", ""), "/subscriptions/confirm?subscription_token=");
}

#[test]
fn the_confirmation_email_carries_the_link_in_both_bodies() {
    let email = confirmation_email(ursula(), "http://127.0.0.1:8000", "abc123");
    assert_eq!(email.recipient.as_ref(), "ursula_le_guin@gmail.com");
    assert_eq!(email.subject, "Welcome!");
    assert_eq!(
        email.plain_body,
        "Welcome to our newsletter!\nVisit http://127.0.0.1:8000/subscriptions/confirm?subscription_token=abc123 to confirm your subscription."
    );
    assert_eq!(
        email.html_body,
        "Welcome to our newsletter!<br />Click <a href=\"http://127.0.0.1:8000/subscriptions/confirm?subscription_token=abc123\">here</a> to confirm your subscription."
    );
}

#[test]
fn a_new_record_waits_for_confirmation() {
    let record = pending_subscriber(&ursula());
    assert_eq!(record.name.as_ref(), "Ursula Le Guin");
    assert_eq!(record.email.as_ref(), "ursula_le_guin@gmail.com");
    assert_eq!(record.status, SubscriberStatus::PendingConfirmation);
    assert_eq!(record.identity(), ("Ursula Le Guin", "ursula_le_guin@gmail.com"));
    // 2020-01-01T00:00:00Z in microseconds: the clock is read, not made up.
    assert!(record.subscribed_at > 1_577_836_800_000_000);
    let other = pending_subscriber(&ursula());
    assert_ne!(record.id, other.id);
}

#[test]
fn a_record_is_made_of_what_it_is_given() {
    let record = SubscriberRecord::pending(&ursula(), 42, 1_700_000_000_000_000);
    assert_eq!(record.id, 42);
    assert_eq!(record.subscribed_at, 1_700_000_000_000_000);
    assert_eq!(record.status, SubscriberStatus::PendingConfirmation);
    assert_eq!(record.name.as_ref(), "Ursula Le Guin");
    assert_eq!(record.email.as_ref(), "ursula_le_guin@gmail.com");
    let copy = record.clone();
    assert_eq!(copy.id, 42);
    assert_eq!(copy.email.as_ref(), "ursula_le_guin@gmail.com");
}

#[test]
fn a_subscriber_exists_once_it_is_committed() {
    let mut store = SubscriptionStore::new();
    let subscriber = ursula();
    assert!(!_check_subscriber_exist(&store, &subscriber.email));
    let mut transaction = store.begin().unwrap();
    transaction
        .insert_subscriber(&store, SubscriberRecord::pending(&subscriber, 1, 0))
        .unwrap();
    assert!(!_check_subscriber_exist(&store, &subscriber.email));
    store.commit(transaction).unwrap();
    assert!(_check_subscriber_exist(&store, &subscriber.email));
    let other = SubscriberEmail::parse("someone@else.org".to_string()).unwrap();
    assert!(!_check_subscriber_exist(&store, &other));
}

#[test]
fn the_base_url_is_kept_as_given() {
    let base_url = ApplicationBaseUrl("http://localhost".to_string());
    assert_eq!(base_url.0, "http://localhost");
}
