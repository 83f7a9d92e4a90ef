use zero2prod::email_client::Outbox;
use zero2prod::route::admission::{receive, step, AdmissionAction, AdmissionState, Outcome};
use zero2prod::route::error::{CauseChain, SubscribeError};
use zero2prod::route::in_memory::{perform, subscribe};
use zero2prod::route::subscriptions::FormData;
use zero2prod::startup::ApplicationBaseUrl;
use zero2prod::store::{SubscriberStatus, SubscriptionStore, Transaction};

const BASE_URL: &str = "https://newsletter.example.com";

fn form(name: &str, email: &str) -> FormData {
    FormData { email: email.to_string(), name: name.to_string() }
}

fn ursula() -> FormData {
    form("Ursula Le Guin", "ursula_le_guin@gmail.com")
}

fn base_url() -> ApplicationBaseUrl {
    ApplicationBaseUrl(BASE_URL.to_string())
}

fn failed(cause: &str) -> Outcome {
    Outcome::Failed(CauseChain::new(cause))
}

/// Takes the workflow through `successes` successful actions.
fn advance(form: FormData, successes: usize) -> (AdmissionState, AdmissionAction) {
    let (mut state, mut action) = receive(form);
    for _ in 0..successes {
        let next = step(state, Outcome::Succeeded, BASE_URL);
        state = next.0;
        action = next.1;
    }
    (state, action)
}

fn unexpected(state: AdmissionState) -> (CauseChain, bool) {
    match state {
        AdmissionState::Failed { error: SubscribeError::UnexpectedError(chain), persisted } => {
            (chain, persisted)
        }
        _ => panic!("the workflow did not end in an unexpected error"),
    }
}

#[test]
fn a_valid_form_asks_for_a_transaction() {
    let (state, action) = receive(ursula());
    assert!(matches!(action, AdmissionAction::BeginTransaction));
    match state {
        AdmissionState::Validated { subscriber } => {
            assert_eq!(subscriber.name.as_ref(), "Ursula Le Guin");
            assert_eq!(subscriber.email.as_ref(), "ursula_le_guin@gmail.com");
        }
        _ => panic!("a valid form was not validated"),
    }
}

#[test]
fn an_invalid_form_is_answered_with_400_at_once() {
    for (rejected, reason) in [
        (form("", "ursula_le_guin@gmail.com"), " is not a valid subscriber name."),
        (form("Ursula", "definitely-not-an-email"), "definitely-not-an-email is not a valid subscriber email."),
        (form("<Ursula>", ""), "<Ursula> is not a valid subscriber name."),
    ] {
        let (state, action) = receive(rejected);
        assert!(state.is_over());
        assert!(matches!(action, AdmissionAction::Respond { status_code: 400 }));
        match state {
            AdmissionState::Failed { error: SubscribeError::ValidationError(text), persisted } => {
                assert_eq!(text, reason);
                assert!(!persisted);
            }
            _ => panic!("an invalid form was not rejected"),
        }
    }
}

#[test]
fn the_workflow_asks_for_one_action_after_the_other() {
    let (state, action) = receive(ursula());
    assert!(!state.is_over());
    assert!(matches!(action, AdmissionAction::BeginTransaction));

    let (state, action) = step(state, Outcome::Succeeded, BASE_URL);
    let subscriber_id = match (&state, &action) {
        (
            AdmissionState::InTransaction { subscriber, subscriber_id },
            AdmissionAction::InsertSubscriber(record),
        ) => {
            assert_eq!(subscriber.name.as_ref(), "Ursula Le Guin");
            assert_eq!(record.id, *subscriber_id);
            assert_eq!(record.name.as_ref(), "Ursula Le Guin");
            assert_eq!(record.email.as_ref(), "ursula_le_guin@gmail.com");
            assert_eq!(record.status, SubscriberStatus::PendingConfirmation);
            *subscriber_id
        }
        _ => panic!("no insert was asked for"),
    };

    let (state, action) = step(state, Outcome::Succeeded, BASE_URL);
    let token = match (&state, &action) {
        (
            AdmissionState::Persisted { subscription_token, .. },
            AdmissionAction::StoreToken { subscriber_id: owner, subscription_token: stored },
        ) => {
            assert_eq!(*owner, subscriber_id);
            assert_eq!(stored, subscription_token);
            assert_eq!(stored.len(), 25);
            assert!(stored.chars().all(|c| c.is_ascii_alphanumeric()));
            stored.clone()
        }
        _ => panic!("no token was to be stored"),
    };

    let (state, action) = step(state, Outcome::Succeeded, BASE_URL);
    assert!(matches!(action, AdmissionAction::CommitTransaction));
    match &state {
        AdmissionState::TokenStored { subscription_token, .. } => {
            assert_eq!(*subscription_token, token)
        }
        _ => panic!("the token was not stored"),
    }

    let (state, action) = step(state, Outcome::Succeeded, BASE_URL);
    assert!(matches!(state, AdmissionState::Committed));
    match action {
        AdmissionAction::SendConfirmation(email) => {
            let link = format!("{BASE_URL}/subscriptions/confirm?subscription_token={token}");
            assert_eq!(email.recipient.as_ref(), "ursula_le_guin@gmail.com");
            assert_eq!(email.subject, "Welcome!");
            assert_eq!(
                email.plain_body,
                format!("Welcome to our newsletter!\nVisit {link} to confirm your subscription.")
            );
            assert_eq!(
                email.html_body,
                format!(
                    "Welcome to our newsletter!<br />Click <a href=\"{link}\">here</a> to confirm your subscription."
                )
            );
        }
        _ => panic!("no confirmation was to be sent"),
    }

    let (state, action) = step(state, Outcome::Succeeded, BASE_URL);
    assert!(matches!(state, AdmissionState::Notified));
    assert!(state.is_over());
    assert!(matches!(action, AdmissionAction::Respond { status_code: 200 }));

    let (state, action) = step(state, failed("too late"), BASE_URL);
    assert!(matches!(state, AdmissionState::Notified));
    assert!(matches!(action, AdmissionAction::Respond { status_code: 200 }));
}

#[test]
fn every_step_that_fails_ends_the_workflow_with_500() {
    let contexts = [
        "failed to acquire a connection",
        "failed to insert subscriber",
        "failed to store confirmation token",
        "failed to commit transaction",
        "failed to send confirmation email",
    ];
    for (successes, context) in contexts.iter().enumerate() {
        let (state, _) = advance(ursula(), successes);
        let (state, action) = step(state, failed("connection reset"), BASE_URL);
        assert!(state.is_over());
        assert!(matches!(action, AdmissionAction::Respond { status_code: 500 }));
        let (chain, persisted) = unexpected(state);
        assert_eq!(chain.message, *context);
        assert_eq!(chain.causes.last().unwrap(), "connection reset");
        assert_eq!(persisted, successes == 4);
        if successes == 2 {
            assert_eq!(
                chain.causes,
                vec![
                    "A database error was encountered while trying to store a subscription token."
                        .to_string(),
                    "connection reset".to_string()
                ]
            );
        } else {
            assert_eq!(chain.causes, vec!["connection reset".to_string()]);
        }
    }
}

#[test]
fn a_failed_workflow_repeats_its_answer() {
    let (state, _) = advance(ursula(), 1);
    let (state, _) = step(state, failed("deadlock detected"), BASE_URL);
    let (state, action) = step(state, Outcome::Succeeded, BASE_URL);
    assert!(matches!(action, AdmissionAction::Respond { status_code: 500 }));
    let (chain, persisted) = unexpected(state);
    assert_eq!(chain.message, "failed to insert subscriber");
    assert!(!persisted);

    let (state, _) = receive(form("Ursula", "nothing"));
    let (state, action) = step(state, Outcome::Succeeded, BASE_URL);
    assert!(matches!(action, AdmissionAction::Respond { status_code: 400 }));
    assert!(matches!(
        state,
        AdmissionState::Failed { error: SubscribeError::ValidationError(_), persisted: false }
    ));
}

#[test]
fn a_valid_request_persists_one_subscriber_one_token_and_sends_one_notification() {
    let mut store = SubscriptionStore::new();
    let mut outbox = Outbox::new();
    let form = FormData {
        email: "ursula_le_guin@gmail.com".to_string(),
        name: "Ursula Le Guin".to_string(),
    };
    let result = subscribe(form, &mut store, &mut outbox, &base_url());
    assert!(matches!(result, Ok(200)));

    assert_eq!(store.subscribers().len(), 1);
    let subscriber = &store.subscribers()[0];
    assert_eq!(subscriber.name.as_ref(), "Ursula Le Guin");
    assert_eq!(subscriber.email.as_ref(), "ursula_le_guin@gmail.com");
    assert_eq!(subscriber.status, SubscriberStatus::PendingConfirmation);

    assert_eq!(store.tokens().len(), 1);
    let token = &store.tokens()[0];
    assert_eq!(token.subscriber_id, subscriber.id);
    assert_eq!(token.subscription_token.len(), 25);
    assert!(token.subscription_token.chars().all(|c| c.is_ascii_alphanumeric()));

    assert_eq!(outbox.delivered.len(), 1);
    let email = &outbox.delivered[0];
    let link = format!(
        "https://newsletter.example.com/subscriptions/confirm?subscription_token={}",
        token.subscription_token
    );
    assert_eq!(email.recipient.as_ref(), "ursula_le_guin@gmail.com");
    assert!(email.plain_body.contains(&link));
    assert!(email.html_body.contains(&link));
}

#[test]
fn an_invalid_request_touches_nothing() {
    let mut store = SubscriptionStore::new();
    let mut outbox = Outbox::new();
    let result = subscribe(form("Ursula", "ursula.example.com"), &mut store, &mut outbox, &base_url());
    match result {
        Err(error) => {
            assert_eq!(error.status_code(), 400);
            assert_eq!(error.to_string(), "ursula.example.com is not a valid subscriber email.");
            assert!(matches!(error, SubscribeError::ValidationError(_)));
        }
        Ok(_) => panic!("an invalid request was admitted"),
    }
    assert!(store.subscribers().is_empty());
    assert!(store.tokens().is_empty());
    assert!(outbox.delivered.is_empty());
}

#[test]
fn a_failed_insert_leaves_no_token_and_is_an_unexpected_error() {
    let mut store = SubscriptionStore::new();
    let mut outbox = Outbox::new();
    assert!(subscribe(ursula(), &mut store, &mut outbox, &base_url()).is_ok());
    let first_token = store.tokens()[0].subscription_token.clone();

    // The address is taken, so the insert of the second request fails.
    let result = subscribe(
        form("Ursula Kroeber", "ursula_le_guin@gmail.com"),
        &mut store,
        &mut outbox,
        &base_url(),
    );
    match result {
        Err(SubscribeError::UnexpectedError(chain)) => {
            assert_eq!(chain.message, "failed to insert subscriber");
            assert_eq!(
                chain.causes,
                vec!["duplicate key value violates unique constraint".to_string()]
            );
        }
        _ => panic!("the second request did not fail as it should"),
    }
    assert_eq!(store.subscribers().len(), 1);
    assert_eq!(store.subscribers()[0].name.as_ref(), "Ursula Le Guin");
    assert_eq!(store.tokens().len(), 1);
    assert_eq!(store.tokens()[0].subscription_token, first_token);
    assert_eq!(outbox.delivered.len(), 1);
}

#[test]
fn a_store_out_of_reach_fails_the_request_before_anything_is_written() {
    let mut store = SubscriptionStore::new();
    store.set_online(false);
    let mut outbox = Outbox::new();
    match subscribe(ursula(), &mut store, &mut outbox, &base_url()) {
        Err(error) => {
            assert_eq!(error.status_code(), 500);
            assert_eq!(error.to_string(), "failed to acquire a connection");
            assert_eq!(
                error.debug(),
                "failed to acquire a connection\n\nCaused by:\n\tthe store cannot be reached\n"
            );
        }
        Ok(_) => panic!("a request was admitted to a store out of reach"),
    }
    assert!(store.subscribers().is_empty());
    assert!(store.tokens().is_empty());
    assert!(outbox.delivered.is_empty());
}

#[test]
fn a_failed_dispatch_keeps_the_pending_subscriber() {
    let mut store = SubscriptionStore::new();
    let mut outbox = Outbox::new();
    outbox.accepting = false;
    match subscribe(ursula(), &mut store, &mut outbox, &base_url()) {
        Err(SubscribeError::UnexpectedError(chain)) => {
            assert_eq!(chain.message, "failed to send confirmation email");
            assert_eq!(chain.causes, vec!["the mail transport cannot be reached".to_string()]);
        }
        _ => panic!("the request did not fail as it should"),
    }
    assert_eq!(store.subscribers().len(), 1);
    assert_eq!(store.subscribers()[0].email.as_ref(), "ursula_le_guin@gmail.com");
    assert_eq!(store.subscribers()[0].status, SubscriberStatus::PendingConfirmation);
    assert_eq!(store.tokens().len(), 1);
    assert_eq!(store.tokens()[0].subscriber_id, store.subscribers()[0].id);
    assert!(outbox.delivered.is_empty());
}

/// One request under way: where it stands, what it asks for, and its
/// transaction.
struct Request {
    state: Option<AdmissionState>,
    action: Option<AdmissionAction>,
    transaction: Option<Transaction>,
}

impl Request {
    fn new(form: FormData) -> Request {
        let (state, action) = receive(form);
        Request { state: Some(state), action: Some(action), transaction: None }
    }

    /// Carries out the pending action and takes the next step. Says whether
    /// the request is over.
    fn advance(&mut self, store: &mut SubscriptionStore, outbox: &mut Outbox) -> bool {
        let state = self.state.take().unwrap();
        if state.is_over() {
            self.state = Some(state);
            return true;
        }
        let action = self.action.take().unwrap();
        let outcome = perform(action, store, &mut self.transaction, outbox);
        let (state, action) = step(state, outcome, BASE_URL);
        self.state = Some(state);
        self.action = Some(action);
        false
    }
}

#[test]
fn two_requests_at_once_get_different_identifiers_and_tokens() {
    // Every way of taking the five steps of two requests in turn: the bits
    // of `schedule` say whose turn it is.
    for schedule in 0u32..1024 {
        let mut store = SubscriptionStore::new();
        let mut outbox = Outbox::new();
        let mut requests = [
            Request::new(form("Ursula Le Guin", "ursula_le_guin@gmail.com")),
            Request::new(form("Octavia Butler", "octavia_butler@gmail.com")),
        ];
        for turn in 0..10 {
            let who = ((schedule >> turn) & 1) as usize;
            requests[who].advance(&mut store, &mut outbox);
            // Whatever is visible is visible together with its token.
            assert_eq!(store.subscribers().len(), store.tokens().len());
            for subscriber in store.subscribers() {
                assert!(store.contains_token_for(subscriber.id));
            }
        }
        for request in requests.iter_mut() {
            while !request.advance(&mut store, &mut outbox) {}
            assert!(matches!(request.state, Some(AdmissionState::Notified)));
        }
        assert_eq!(store.subscribers().len(), 2);
        assert_eq!(store.tokens().len(), 2);
        assert_ne!(store.subscribers()[0].id, store.subscribers()[1].id);
        assert_ne!(store.tokens()[0].subscription_token, store.tokens()[1].subscription_token);
        assert_ne!(store.tokens()[0].subscriber_id, store.tokens()[1].subscriber_id);
        for token in store.tokens() {
            assert!(store.contains_subscriber(token.subscriber_id));
        }
        assert_eq!(outbox.delivered.len(), 2);
        }
}

#[test]
fn two_requests_for_one_address_admit_one_subscriber() {
    let mut store = SubscriptionStore::new();
    let mut outbox = Outbox::new();
    let mut first = Request::new(form("Ursula Le Guin", "ursula_le_guin@gmail.com"));
    let mut second = Request::new(form("Ursula Kroeber", "ursula_le_guin@gmail.com"));
    // Both write before either commits.
    for _ in 0..3 {
        first.advance(&mut store, &mut outbox);
        second.advance(&mut store, &mut outbox);
    }
    while !second.advance(&mut store, &mut outbox) {}
    while !first.advance(&mut store, &mut outbox) {}
    assert!(matches!(second.state, Some(AdmissionState::Notified)));
    let (chain, persisted) = unexpected(first.state.take().unwrap());
    assert_eq!(chain.message, "failed to commit transaction");
    assert!(!persisted);
    assert_eq!(store.subscribers().len(), 1);
    assert_eq!(store.subscribers()[0].name.as_ref(), "Ursula Kroeber");
    assert_eq!(store.tokens().len(), 1);
    assert_eq!(store.tokens()[0].subscriber_id, store.subscribers()[0].id);
    assert_eq!(outbox.delivered.len(), 1);
}

#[test]
fn an_action_without_a_transaction_fails() {
    let mut store = SubscriptionStore::new();
    let mut outbox = Outbox::new();
    let mut transaction = None;
    let (_, insert) = advance(ursula(), 1);
    match perform(insert, &mut store, &mut transaction, &mut outbox) {
        Outcome::Failed(cause) => assert_eq!(cause.message, "no transaction is open"),
        Outcome::Succeeded => panic!("an insert went through without a transaction"),
    }
    match perform(AdmissionAction::CommitTransaction, &mut store, &mut transaction, &mut outbox) {
        Outcome::Failed(cause) => assert_eq!(cause.message, "no transaction is open"),
        Outcome::Succeeded => panic!("a commit went through without a transaction"),
    }
    assert!(matches!(
        perform(AdmissionAction::BeginTransaction, &mut store, &mut transaction, &mut outbox),
        Outcome::Succeeded
    ));
    assert!(transaction.is_some());
    assert!(matches!(
        perform(
            AdmissionAction::Respond { status_code: 500 },
            &mut store,
            &mut transaction,
            &mut outbox
        ),
        Outcome::Succeeded
    ));
    assert!(transaction.is_none());
}
