//! The admission workflow run against the in-memory store and outbox.
//!
//! `perform` carries out one action of the workflow, and `subscribe` admits
//! one request from beginning to end. What they do to the store and to the
//! outbox is what a driver with a database and a mail transport is meant to
//! do to those.

use crate::domain::new_subscriber::NewSubscriberView;
use crate::domain::subscriber_email::is_valid_email;
use crate::domain::subscriber_name::is_valid_name;
use crate::email_client::{dispatch_failure, Outbox, OutboxView};
use crate::route::admission::{
    admission_begins, admission_step, receive, step, AdmissionAction, AdmissionState, Outcome,
};
use crate::route::error::{store_token_message, CauseChain, SubscribeError};
use crate::route::subscriptions::{
    confirmation_for, confirmation_link_text, form_rejection, is_subscription_token,
    plain_body_text, FormData, SUBSCRIPTION_TOKEN_LENGTH,
};
use crate::startup::ApplicationBaseUrl;
use crate::store::{
    committed, has_email, has_subscriber, has_token, has_token_for, is_consistent,
    lemma_replay_keeps_consistency, lemma_replayed_push, lemma_write_keeps_consistency,
    pending_row, refusal, replayed, statement_refusal, store_error_message, with_write,
    StoreError, StoreView, SubscriberRow, SubscriberStatus, SubscriptionStore, TokenRow,
    Transaction, WriteRow,
};
use vstd::prelude::*;

verus! {

/// What one request has to do with: the store, the writes of its open
/// transaction if it has one, and the outbox.
pub struct World {
    pub store: StoreView,
    pub writes: Option<Seq<WriteRow>>,
    pub outbox: OutboxView,
}

/// The writes of `transaction`, if there is one.
pub open spec fn writes_of(transaction: Option<Transaction>) -> Option<Seq<WriteRow>> {
    match transaction {
        Some(transaction) => Some(transaction@),
        None => None,
    }
}

/// The chain that `outcome` failed with, if it failed.
pub open spec fn failure_of(outcome: Outcome) -> Option<Seq<Seq<char>>> {
    match outcome {
        Outcome::Succeeded => None,
        Outcome::Failed(cause) => Some(cause@),
    }
}

/// What a statement fails with where no transaction is open.
pub open spec fn no_transaction() -> Seq<char> {
    "no transaction is open"@
}

/// What making `write` in the open transaction does to `before`, and how it
/// goes.
pub open spec fn stated(before: World, write: WriteRow) -> (World, Option<Seq<Seq<char>>>) {
    match before.writes {
        None => (before, Some(seq![no_transaction()])),
        Some(writes) => match statement_refusal(before.store, writes, write) {
            Some(error) => (before, Some(seq![store_error_message(error)])),
            None => (World { writes: Some(writes.push(write)), ..before }, None),
        },
    }
}

/// What carrying out `action` does to `before`, and how it goes. Only a
/// commit changes the store, and it adds all the writes of the transaction or
/// none.
pub open spec fn performed(action: AdmissionAction, before: World) -> (
    World,
    Option<Seq<Seq<char>>>,
) {
    match action {
        AdmissionAction::BeginTransaction => if before.store.online {
            (World { writes: Some(Seq::empty()), ..before }, None)
        } else {
            (
                World { writes: None, ..before },
                Some(seq![store_error_message(StoreError::Unreachable)]),
            )
        },
        AdmissionAction::InsertSubscriber(record) => stated(
            before,
            WriteRow::Subscriber(record@),
        ),
        AdmissionAction::StoreToken { subscriber_id, subscription_token } => stated(
            before,
            WriteRow::Token(TokenRow { subscription_token: subscription_token@, subscriber_id }),
        ),
        AdmissionAction::CommitTransaction => match before.writes {
            None => (before, Some(seq![no_transaction()])),
            Some(writes) => match committed(before.store, writes) {
                Ok(store) => (World { store, writes: None, ..before }, None),
                Err(error) => (
                    World { writes: None, ..before },
                    Some(seq![store_error_message(error)]),
                ),
            },
        },
        AdmissionAction::SendConfirmation(email) => if before.outbox.accepting {
            (
                World {
                    outbox: OutboxView {
                        delivered: before.outbox.delivered.push(email@),
                        ..before.outbox
                    },
                    ..before
                },
                None,
            )
        } else {
            (before, Some(seq![dispatch_failure()]))
        },
        AdmissionAction::Respond { .. } => (World { writes: None, ..before }, None),
    }
}

/// Turns what the store said into the outcome of an action.
fn outcome_of(result: Result<(), StoreError>) -> (outcome: Outcome)
    ensures
        failure_of(outcome) == match result {
            Ok(_) => None,
            Err(error) => Some(seq![store_error_message(error)]),
        },
{
    match result {
        Ok(_) => Outcome::Succeeded,
        Err(error) => Outcome::Failed(error.into_chain()),
    }
}

/// Carries out `action` on the store, on the transaction of the request and
/// on the outbox, and reports how it went.
pub fn perform(
    action: AdmissionAction,
    store: &mut SubscriptionStore,
    transaction: &mut Option<Transaction>,
    outbox: &mut Outbox,
) -> (outcome: Outcome)
    ensures
        performed(
            action,
            World { store: old(store)@, writes: writes_of(*old(transaction)), outbox: old(outbox)@ },
        ) == (
            World {
                store: final(store)@,
                writes: writes_of(*final(transaction)),
                outbox: final(outbox)@,
            },
            failure_of(outcome),
        ),
{
    let open = transaction.take();
    match action {
        AdmissionAction::BeginTransaction => match store.begin() {
            Ok(opened) => {
                *transaction = Some(opened);
                Outcome::Succeeded
            },
            Err(error) => outcome_of(Err(error)),
        },
        AdmissionAction::InsertSubscriber(record) => match open {
            Some(mut writes) => {
                let inserted = writes.insert_subscriber(store, record);
                *transaction = Some(writes);
                outcome_of(inserted)
            },
            None => Outcome::Failed(CauseChain::new("no transaction is open")),
        },
        AdmissionAction::StoreToken { subscriber_id, subscription_token } => match open {
            Some(mut writes) => {
                let stored = writes.store_token(store, subscriber_id, subscription_token);
                *transaction = Some(writes);
                outcome_of(stored)
            },
            None => Outcome::Failed(CauseChain::new("no transaction is open")),
        },
        AdmissionAction::CommitTransaction => match open {
            Some(writes) => outcome_of(store.commit(writes)),
            None => Outcome::Failed(CauseChain::new("no transaction is open")),
        },
        AdmissionAction::SendConfirmation(email) => {
            *transaction = open;
            match outbox.send(email) {
                Ok(_) => Outcome::Succeeded,
                Err(cause) => Outcome::Failed(cause),
            }
        },
        AdmissionAction::Respond { .. } => Outcome::Succeeded,
    }
}

/// The values that are drawn afresh while one request is admitted.
pub struct Fresh {
    pub subscriber_id: u128,
    pub subscribed_at: i64,
    pub subscription_token: Seq<char>,
}

/// How a request was answered.
pub enum Response {
    /// The subscriber is admitted and the confirmation is on its way.
    Admitted,
    /// The form was rejected for this reason.
    Rejected(Seq<char>),
    /// A step failed; the chain says which and why.
    Failed(Seq<Seq<char>>),
}

/// One request, admitted or not: the answer, and the store and the outbox
/// as the request left them.
pub struct Admission {
    pub response: Response,
    pub store: StoreView,
    pub outbox: OutboxView,
}

/// The answer that `result` stands for.
pub open spec fn response_of(result: Result<u16, SubscribeError>) -> Response {
    match result {
        Ok(_) => Response::Admitted,
        Err(SubscribeError::ValidationError(reason)) => Response::Rejected(reason@),
        Err(SubscribeError::UnexpectedError(chain)) => Response::Failed(chain@),
    }
}

/// The row under which the subscriber of this form is inserted.
pub open spec fn subscriber_write(name: Seq<char>, email: Seq<char>, fresh: Fresh) -> WriteRow {
    WriteRow::Subscriber(
        pending_row(NewSubscriberView { email, name }, fresh.subscriber_id, fresh.subscribed_at),
    )
}

/// The row under which the token of this request is stored.
pub open spec fn token_write(fresh: Fresh) -> WriteRow {
    WriteRow::Token(
        TokenRow {
            subscription_token: fresh.subscription_token,
            subscriber_id: fresh.subscriber_id,
        },
    )
}

/// What comes of a request with this name and this email on `store` and
/// `outbox`, where `fresh` is drawn on the way.
///
/// A form that is rejected and a step that fails before the commit leave
/// store and outbox as they were. After the commit the store holds the
/// subscriber and its token, whether or not the confirmation could be
/// dispatched.
pub open spec fn admission(
    name: Seq<char>,
    email: Seq<char>,
    store: StoreView,
    outbox: OutboxView,
    base_url: Seq<char>,
    fresh: Fresh,
) -> Admission {
    let subscriber = subscriber_write(name, email, fresh);
    let token = token_write(fresh);
    if !(is_valid_name(name) && is_valid_email(email)) {
        Admission { response: Response::Rejected(form_rejection(name, email)), store, outbox }
    } else if !store.online {
        Admission {
            response: Response::Failed(
                seq!["failed to acquire a connection"@] + seq![
                    store_error_message(StoreError::Unreachable),
                ],
            ),
            store,
            outbox,
        }
    } else {
        match refusal(store, subscriber) {
            Some(error) => Admission {
                response: Response::Failed(
                    seq!["failed to insert subscriber"@] + seq![store_error_message(error)],
                ),
                store,
                outbox,
            },
            None => match refusal(with_write(store, subscriber), token) {
                Some(error) => Admission {
                    response: Response::Failed(
                        seq!["failed to store confirmation token"@, store_token_message()] + seq![
                            store_error_message(error),
                        ],
                    ),
                    store,
                    outbox,
                },
                None => {
                    let store = with_write(with_write(store, subscriber), token);
                    if outbox.accepting {
                        Admission {
                            response: Response::Admitted,
                            store,
                            outbox: OutboxView {
                                delivered: outbox.delivered.push(
                                    confirmation_for(email, base_url, fresh.subscription_token),
                                ),
                                ..outbox
                            },
                        }
                    } else {
                        Admission {
                            response: Response::Failed(
                                seq!["failed to send confirmation email"@] + seq![
                                    dispatch_failure(),
                                ],
                            ),
                            store,
                            outbox,
                        }
                    }
                },
            },
        }
    }
}

/// `fresh` with what `action` shows to have been drawn for it.
pub open spec fn drawn_with(fresh: Fresh, action: AdmissionAction) -> Fresh {
    match action {
        AdmissionAction::InsertSubscriber(record) => Fresh {
            subscriber_id: record.id,
            subscribed_at: record.subscribed_at,
            ..fresh
        },
        AdmissionAction::StoreToken { subscription_token, .. } => Fresh {
            subscription_token: subscription_token@,
            ..fresh
        },
        _ => fresh,
    }
}

/// The answer that the workflow gives once it is over in `state`.
pub open spec fn response_in(state: AdmissionState) -> Response {
    match state {
        AdmissionState::Failed { error: SubscribeError::ValidationError(reason), .. } => {
            Response::Rejected(reason@)
        },
        AdmissionState::Failed { error: SubscribeError::UnexpectedError(chain), .. } => {
            Response::Failed(chain@)
        },
        _ => Response::Admitted,
    }
}

/// The number of actions that are still to be carried out after the one
/// pending in `state`, if all goes well.
pub open spec fn steps_left(state: AdmissionState) -> nat {
    match state {
        AdmissionState::Validated { .. } => 5,
        AdmissionState::InTransaction { .. } => 4,
        AdmissionState::Persisted { .. } => 3,
        AdmissionState::TokenStored { .. } => 2,
        AdmissionState::Committed => 1,
        _ => 0,
    }
}

/// Whether `state`, `action` and `world` are what a request with this name
/// and this email has come to on its way from `store` and `outbox` to
/// `admission`.
pub open spec fn on_course(
    name: Seq<char>,
    email: Seq<char>,
    store: StoreView,
    outbox: OutboxView,
    base_url: Seq<char>,
    fresh: Fresh,
    state: AdmissionState,
    action: AdmissionAction,
    world: World,
) -> bool {
    let subscriber = subscriber_write(name, email, fresh);
    let token = token_write(fresh);
    let valid = is_valid_name(name) && is_valid_email(email);
    let none = Seq::<WriteRow>::empty();
    match state {
        AdmissionState::Validated { subscriber: kept } => {
            &&& valid
            &&& kept@ == (NewSubscriberView { email, name })
            &&& action is BeginTransaction
            &&& world == (World { store, writes: None, outbox })
        },
        AdmissionState::InTransaction { subscriber: kept, subscriber_id } => {
            &&& valid
            &&& kept@ == (NewSubscriberView { email, name })
            &&& store.online
            &&& subscriber_id == fresh.subscriber_id
            &&& action matches AdmissionAction::InsertSubscriber(record)
            &&& WriteRow::Subscriber(record@) == subscriber
            &&& world == (World { store, writes: Some(none), outbox })
        },
        AdmissionState::Persisted { subscriber: kept, subscription_token } => {
            &&& valid
            &&& kept@ == (NewSubscriberView { email, name })
            &&& store.online
            &&& refusal(store, subscriber) is None
            &&& subscription_token@ == fresh.subscription_token
            &&& action matches AdmissionAction::StoreToken { subscriber_id, subscription_token: stored }
            &&& subscriber_id == fresh.subscriber_id
            &&& stored@ == fresh.subscription_token
            &&& world == (World { store, writes: Some(none.push(subscriber)), outbox })
        },
        AdmissionState::TokenStored { subscriber: kept, subscription_token } => {
            &&& valid
            &&& kept@ == (NewSubscriberView { email, name })
            &&& store.online
            &&& refusal(store, subscriber) is None
            &&& refusal(with_write(store, subscriber), token) is None
            &&& subscription_token@ == fresh.subscription_token
            &&& action is CommitTransaction
            &&& world == (World { store, writes: Some(none.push(subscriber).push(token)), outbox })
        },
        AdmissionState::Committed => {
            &&& valid
            &&& store.online
            &&& refusal(store, subscriber) is None
            &&& refusal(with_write(store, subscriber), token) is None
            &&& action matches AdmissionAction::SendConfirmation(message)
            &&& message@ == confirmation_for(email, base_url, fresh.subscription_token)
            &&& world == (World {
                store: with_write(with_write(store, subscriber), token),
                writes: None,
                outbox,
            })
        },
        _ => {
            let end = admission(name, email, store, outbox, base_url, fresh);
            &&& action is Respond
            &&& response_in(state) == end.response
            &&& world.store == end.store
            &&& world.outbox == end.outbox
        },
    }
}

/// Admits one request to the in-memory store: validates the form, inserts
/// the subscriber and stores a fresh token for it in one transaction,
/// commits, and hands the confirmation message to the outbox.
pub fn subscribe(
    form: FormData,
    store: &mut SubscriptionStore,
    outbox: &mut Outbox,
    base_url: &ApplicationBaseUrl,
) -> (result: Result<u16, SubscribeError>)
    ensures
        result matches Ok(status) ==> status == 200,
        exists|fresh: Fresh|
            is_subscription_token(fresh.subscription_token) && #[trigger] admission(
                form.name@,
                form.email@,
                old(store)@,
                old(outbox)@,
                base_url.0@,
                fresh,
            ) == (Admission {
                response: response_of(result),
                store: final(store)@,
                outbox: final(outbox)@,
            }),
{
    let ghost name = form.name@;
    let ghost email = form.email@;
    let ghost store_before = store@;
    let ghost outbox_before = outbox@;
    let ghost mut fresh = Fresh {
        subscriber_id: 0,
        subscribed_at: 0,
        subscription_token: Seq::new(SUBSCRIPTION_TOKEN_LENGTH as nat, |i: int| 'a'),
    };
    let (mut state, mut action) = receive(form);
    let mut transaction: Option<Transaction> = None;
    while !state.is_over()
        invariant
            is_subscription_token(fresh.subscription_token),
            on_course(
                name,
                email,
                store_before,
                outbox_before,
                base_url.0@,
                fresh,
                state,
                action,
                World { store: store@, writes: writes_of(transaction), outbox: outbox@ },
            ),
        decreases steps_left(state),
    {
        proof {
            let subscriber = subscriber_write(name, email, fresh);
            let token = token_write(fresh);
            let none = Seq::<WriteRow>::empty();
            lemma_replayed_push(store_before, none, subscriber);
            lemma_replayed_push(store_before, none.push(subscriber), token);
        }
        let outcome = perform(action, store, &mut transaction, outbox);
        let (next_state, next_action) = step(state, outcome, base_url.0.as_str());
        proof {
            fresh = drawn_with(fresh, next_action);
        }
        state = next_state;
        action = next_action;
    }
    match state.into_response() {
        Some(response) => response,
        None => vstd::pervasive::unreached(),
    }
}

/// A valid request on a store that can be reached and knows neither the
/// address nor the fresh identifier nor the fresh token, with an outbox that
/// takes messages, is admitted. Exactly one subscriber is added, waiting for
/// confirmation; exactly one token is added, and it refers to that
/// subscriber; exactly one message is dispatched, to the subscriber's address
/// and with the link that embeds that token.
pub proof fn a_valid_request_is_admitted(
    name: Seq<char>,
    email: Seq<char>,
    store: StoreView,
    outbox: OutboxView,
    base_url: Seq<char>,
    fresh: Fresh,
)
    requires
        is_valid_name(name),
        is_valid_email(email),
        is_consistent(store),
        store.online,
        outbox.accepting,
        !has_email(store, email),
        !has_subscriber(store, fresh.subscriber_id),
        !has_token(store, fresh.subscription_token),
    ensures
        ({
            let end = admission(name, email, store, outbox, base_url, fresh);
            &&& end.response is Admitted
            &&& end.store.subscribers == store.subscribers.push(
                SubscriberRow {
                    id: fresh.subscriber_id,
                    email,
                    name,
                    subscribed_at: fresh.subscribed_at,
                    status: SubscriberStatus::PendingConfirmation,
                },
            )
            &&& end.store.tokens == store.tokens.push(
                TokenRow {
                    subscription_token: fresh.subscription_token,
                    subscriber_id: fresh.subscriber_id,
                },
            )
            &&& end.outbox.delivered == outbox.delivered.push(
                confirmation_for(email, base_url, fresh.subscription_token),
            )
            &&& end.outbox.delivered.last().recipient == email
            &&& end.outbox.delivered.last().plain_body == plain_body_text(
                confirmation_link_text(base_url, fresh.subscription_token),
            )
            &&& is_consistent(end.store)
        }),
{
    let subscriber = subscriber_write(name, email, fresh);
    let token = token_write(fresh);
    let inserted = with_write(store, subscriber);
    assert(inserted.subscribers[store.subscribers.len() as int].id == fresh.subscriber_id);
    lemma_write_keeps_consistency(store, subscriber);
    lemma_write_keeps_consistency(inserted, token);
}

/// Where the store is empty nothing that is drawn can be taken already: a
/// valid request is admitted whatever the draw, provided that store and
/// outbox do their part.
pub proof fn a_valid_request_to_an_empty_store_is_admitted(
    name: Seq<char>,
    email: Seq<char>,
    store: StoreView,
    outbox: OutboxView,
    base_url: Seq<char>,
    fresh: Fresh,
)
    requires
        is_valid_name(name),
        is_valid_email(email),
        store.online,
        outbox.accepting,
        store.subscribers.len() == 0,
        store.tokens.len() == 0,
    ensures
        admission(name, email, store, outbox, base_url, fresh).response is Admitted,
        admission(name, email, store, outbox, base_url, fresh).store.subscribers.len() == 1,
        admission(name, email, store, outbox, base_url, fresh).store.tokens.len() == 1,
{
    a_valid_request_is_admitted(name, email, store, outbox, base_url, fresh);
}

/// Where the insert of the subscriber is refused, the caller gets an
/// unexpected error, and no record of the request exists afterwards: the
/// store holds no token more than before, and no subscriber either, and no
/// message is dispatched.
pub proof fn a_refused_insert_leaves_no_token(
    name: Seq<char>,
    email: Seq<char>,
    store: StoreView,
    outbox: OutboxView,
    base_url: Seq<char>,
    fresh: Fresh,
)
    requires
        is_valid_name(name),
        is_valid_email(email),
        store.online,
        refusal(store, subscriber_write(name, email, fresh)) is Some,
    ensures
        ({
            let end = admission(name, email, store, outbox, base_url, fresh);
            &&& end.response matches Response::Failed(chain)
            &&& chain[0] == "failed to insert subscriber"@
            &&& end.store == store
            &&& end.outbox == outbox
        }),
{
}

/// An address that is in the store already is never admitted again.
pub proof fn a_known_address_is_not_admitted(
    name: Seq<char>,
    email: Seq<char>,
    store: StoreView,
    outbox: OutboxView,
    base_url: Seq<char>,
    fresh: Fresh,
)
    requires
        has_email(store, email),
    ensures
        !(admission(name, email, store, outbox, base_url, fresh).response is Admitted),
        admission(name, email, store, outbox, base_url, fresh).store == store,
{
}

/// Where the confirmation cannot be dispatched after the commit, the caller
/// gets an unexpected error, and the subscriber stays in the store, waiting
/// for confirmation, together with its token: nothing is rolled back.
pub proof fn a_failed_dispatch_keeps_the_subscriber(
    name: Seq<char>,
    email: Seq<char>,
    store: StoreView,
    outbox: OutboxView,
    base_url: Seq<char>,
    fresh: Fresh,
)
    requires
        is_valid_name(name),
        is_valid_email(email),
        store.online,
        refusal(store, subscriber_write(name, email, fresh)) is None,
        refusal(with_write(store, subscriber_write(name, email, fresh)), token_write(fresh))
            is None,
        !outbox.accepting,
    ensures
        ({
            let end = admission(name, email, store, outbox, base_url, fresh);
            &&& end.response matches Response::Failed(chain)
            &&& chain[0] == "failed to send confirmation email"@
            &&& end.store.subscribers.last() == pending_row(
                NewSubscriberView { email, name },
                fresh.subscriber_id,
                fresh.subscribed_at,
            )
            &&& end.store.subscribers.last().status == SubscriberStatus::PendingConfirmation
            &&& has_subscriber(end.store, fresh.subscriber_id)
            &&& has_token(end.store, fresh.subscription_token)
            &&& end.outbox == outbox
        }),
{
    let end = admission(name, email, store, outbox, base_url, fresh);
    assert(end.store.tokens[store.tokens.len() as int].subscription_token
        == fresh.subscription_token);
}

/// Whatever becomes of a request, the store gains the subscriber together
/// with its token or nothing at all, and a message is dispatched only for a
/// subscriber that is in the store.
pub proof fn an_admission_is_all_or_nothing(
    name: Seq<char>,
    email: Seq<char>,
    store: StoreView,
    outbox: OutboxView,
    base_url: Seq<char>,
    fresh: Fresh,
)
    ensures
        ({
            let end = admission(name, email, store, outbox, base_url, fresh);
            let both = with_write(
                with_write(store, subscriber_write(name, email, fresh)),
                token_write(fresh),
            );
            &&& end.store == store || end.store == both
            &&& end.outbox == outbox || end.store == both
            &&& end.response is Admitted ==> end.store == both && is_valid_name(name)
                && is_valid_email(email)
            &&& end.response is Rejected ==> end.store == store && end.outbox == outbox
        }),
{
}

/// Two requests that are admitted one after the other have different
/// identifiers, different addresses and different tokens: the store sees to
/// it, not the draw.
pub proof fn admitted_requests_differ(
    first: (Seq<char>, Seq<char>, Fresh),
    second: (Seq<char>, Seq<char>, Fresh),
    store: StoreView,
    outbox: OutboxView,
    base_url: Seq<char>,
)
    requires
        admission(first.0, first.1, store, outbox, base_url, first.2).response is Admitted,
        ({
            let between = admission(first.0, first.1, store, outbox, base_url, first.2);
            admission(
                second.0,
                second.1,
                between.store,
                between.outbox,
                base_url,
                second.2,
            ).response is Admitted
        }),
    ensures
        first.2.subscriber_id != second.2.subscriber_id,
        first.2.subscription_token != second.2.subscription_token,
        first.1 != second.1,
{
    let between = admission(first.0, first.1, store, outbox, base_url, first.2);
    let inserted = with_write(between.store, subscriber_write(second.0, second.1, second.2));
    assert(inserted.tokens[store.tokens.len() as int].subscription_token
        == first.2.subscription_token);
}

/// No action but a commit changes the store, and a commit adds all the
/// writes of its transaction or none of them. So however the steps of several
/// requests follow one another, no subscriber becomes visible without the
/// token that was written with it.
pub proof fn only_a_commit_changes_the_store(action: AdmissionAction, before: World)
    ensures
        !(action is CommitTransaction) ==> performed(action, before).0.store == before.store,
        action is CommitTransaction ==> match before.writes {
            Some(writes) => performed(action, before).0.store == before.store || Ok::<
                StoreView,
                StoreError,
            >(performed(action, before).0.store) == replayed(before.store, writes),
            None => performed(action, before).0.store == before.store,
        },
        action is CommitTransaction ==> performed(action, before).0.writes is None,
{
}

/// Whatever is done to a store that keeps to its rules, it keeps to them
/// afterwards. So no two subscribers that are visible together have the same
/// identifier or the same address, and no two tokens are the same or belong
/// to the same subscriber, however many requests are under way.
pub proof fn every_action_keeps_the_rules(action: AdmissionAction, before: World)
    requires
        is_consistent(before.store),
    ensures
        is_consistent(performed(action, before).0.store),
{
    if action is CommitTransaction && before.writes is Some {
        lemma_replay_keeps_consistency(before.store, before.writes->0);
    }
}

/// Whether `writes` and `action` are what a request in `state` has written
/// in its open transaction and does next, whatever has become of the store
/// in the meantime.
pub open spec fn keeps_step(
    state: AdmissionState,
    action: AdmissionAction,
    writes: Option<Seq<WriteRow>>,
) -> bool {
    match state {
        AdmissionState::Validated { .. } => action is BeginTransaction,
        AdmissionState::InTransaction { subscriber, subscriber_id } => {
            &&& writes == Some(Seq::<WriteRow>::empty())
            &&& action matches AdmissionAction::InsertSubscriber(record)
            &&& record@ == pending_row(subscriber@, subscriber_id, record.subscribed_at)
        },
        AdmissionState::Persisted { subscriber, subscription_token } => {
            &&& action matches AdmissionAction::StoreToken { subscriber_id, subscription_token: stored }
            &&& stored@ == subscription_token@
            &&& writes matches Some(made)
            &&& made.len() == 1
            &&& made[0] matches WriteRow::Subscriber(row)
            &&& row == pending_row(subscriber@, subscriber_id, row.subscribed_at)
        },
        AdmissionState::TokenStored { subscriber, subscription_token } => {
            &&& action is CommitTransaction
            &&& writes matches Some(made)
            &&& made.len() == 2
            &&& made[0] matches WriteRow::Subscriber(row)
            &&& row == pending_row(subscriber@, row.id, row.subscribed_at)
            &&& made[1] == WriteRow::Token(
                TokenRow { subscription_token: subscription_token@, subscriber_id: row.id },
            )
        },
        AdmissionState::Committed => action is SendConfirmation && writes is None,
        _ => action is Respond,
    }
}

/// A request that has just been received is in step.
pub proof fn a_request_begins_in_step(
    form: FormData,
    state: AdmissionState,
    action: AdmissionAction,
    writes: Option<Seq<WriteRow>>,
)
    requires
        admission_begins(form, state, action),
    ensures
        keeps_step(state, action, writes),
{
}

/// However the steps of several requests follow one another on one store,
/// each request stays in step, and none makes a subscriber visible without
/// its token: a step leaves the store as it found it, or it is the commit of
/// a request that has written its subscriber and the token of that
/// subscriber, and the store gains the two together.
pub proof fn a_step_keeps_subscriber_and_token_together(
    state: AdmissionState,
    action: AdmissionAction,
    before: World,
    outcome: Outcome,
    base_url: Seq<char>,
    next: AdmissionState,
    next_action: AdmissionAction,
)
    requires
        keeps_step(state, action, before.writes),
        failure_of(outcome) == performed(action, before).1,
        admission_step(state, outcome, base_url, next, next_action),
    ensures
        keeps_step(next, next_action, performed(action, before).0.writes),
        ({
            let after = performed(action, before).0;
            ||| after.store == before.store
            ||| {
                &&& state matches AdmissionState::TokenStored { subscriber, subscription_token }
                &&& next is Committed
                &&& exists|row: SubscriberRow|
                    row == pending_row(subscriber@, row.id, row.subscribed_at) && after.store
                        == #[trigger] with_write(
                        with_write(before.store, WriteRow::Subscriber(row)),
                        WriteRow::Token(
                            TokenRow {
                                subscription_token: subscription_token@,
                                subscriber_id: row.id,
                            },
                        ),
                    )
            }
        }),
{
    if state is TokenStored && outcome is Succeeded {
        let made = before.writes->0;
        let none = Seq::<WriteRow>::empty();
        assert(made =~= none.push(made[0]).push(made[1]));
        lemma_replayed_push(before.store, none, made[0]);
        lemma_replayed_push(before.store, none.push(made[0]), made[1]);
    }
}

} // verus!
