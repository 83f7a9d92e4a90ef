//! The admission workflow as a state machine.
//!
//! The workflow itself touches neither the store nor the mail transport. It
//! asks for one action at a time, and whoever drives it carries the action
//! out and reports how it went. A request that has been received is a
//! `FormData`; `receive` validates it, and `step` takes it from there:
//!
//! ```text
//! Validated -> InTransaction -> Persisted -> TokenStored -> Committed -> Notified
//! ```
//!
//! Every arrow has a failure exit into `Failed`.

use crate::domain::new_subscriber::NewSubscriber;
use crate::domain::subscriber_email::is_valid_email;
use crate::domain::subscriber_name::is_valid_name;
use crate::route::error::{status_of, store_token_message, CauseChain, StoreTokenError, SubscribeError};
use crate::route::subscriptions::{
    confirmation_email, confirmation_for, form_rejection, generate_subscription_token,
    is_subscription_token, pending_subscriber, ConfirmationEmail, FormData,
};
use crate::store::{pending_row, SubscriberRecord};
use vstd::prelude::*;

verus! {

/// How far the admission of one request has come.
pub enum AdmissionState {
    /// Name and email are valid. A transaction has been asked for.
    Validated { subscriber: NewSubscriber },
    /// The transaction is open. The insert of the subscriber has been asked
    /// for, under the identifier `subscriber_id`.
    InTransaction { subscriber: NewSubscriber, subscriber_id: u128 },
    /// The subscriber is inserted. Storing `subscription_token` for it in the
    /// same transaction has been asked for.
    Persisted { subscriber: NewSubscriber, subscription_token: String },
    /// Subscriber and token are both written. The commit has been asked for.
    TokenStored { subscriber: NewSubscriber, subscription_token: String },
    /// The transaction is committed. The confirmation message has been
    /// handed over for dispatch.
    Committed,
    /// The message is on its way: the request is admitted.
    Notified,
    /// The request is not admitted. `persisted` tells whether the subscriber
    /// and its token were committed before the failure.
    Failed { error: SubscribeError, persisted: bool },
}

/// How the action that was asked for last went.
pub enum Outcome {
    Succeeded,
    /// It failed; the chain says why.
    Failed(CauseChain),
}

/// What the workflow asks its driver to do next.
pub enum AdmissionAction {
    /// Open a transaction on the store.
    BeginTransaction,
    /// Insert this record in the open transaction.
    InsertSubscriber(SubscriberRecord),
    /// Store this token for this subscriber in the open transaction.
    StoreToken { subscriber_id: u128, subscription_token: String },
    /// Commit the open transaction.
    CommitTransaction,
    /// Dispatch this message.
    SendConfirmation(ConfirmationEmail),
    /// Answer the request with this status. The workflow is over; a
    /// transaction that is still open is abandoned, which rolls it back.
    Respond { status_code: u16 },
}

/// The message that says which step has failed when the action pending in
/// `state` fails. Where the workflow is over no action is pending, and there
/// is nothing to say.
pub open spec fn failure_context(state: AdmissionState) -> Seq<char> {
    match state {
        AdmissionState::Validated { .. } => "failed to acquire a connection"@,
        AdmissionState::InTransaction { .. } => "failed to insert subscriber"@,
        AdmissionState::Persisted { .. } => "failed to store confirmation token"@,
        AdmissionState::TokenStored { .. } => "failed to commit transaction"@,
        AdmissionState::Committed => "failed to send confirmation email"@,
        AdmissionState::Notified | AdmissionState::Failed { .. } => Seq::empty(),
    }
}

/// The chain of the error that ends the workflow when the action pending in
/// `state` fails because of `cause`. A token that cannot be stored is
/// reported as a `StoreTokenError` between the context and the cause.
pub open spec fn failure_chain(state: AdmissionState, cause: Seq<Seq<char>>) -> Seq<Seq<char>> {
    if state is Persisted {
        seq![failure_context(state), store_token_message()] + cause
    } else {
        seq![failure_context(state)] + cause
    }
}

/// Whether the workflow is over in `state`.
pub open spec fn is_terminal(state: AdmissionState) -> bool {
    state is Notified || state is Failed
}

/// The status that answers the request once the workflow is over in
/// `state`: 200 for a request that is admitted, the status of the error for
/// one that is not.
pub open spec fn response_status(state: AdmissionState) -> u16 {
    match state {
        AdmissionState::Failed { error, .. } => status_of(error),
        _ => 200,
    }
}

/// What `receive` makes of `form`: a validated subscriber and the request
/// for a transaction, or a rejection that names the offending value. The
/// store is not contacted for a form that is rejected.
pub open spec fn admission_begins(
    form: FormData,
    next: AdmissionState,
    action: AdmissionAction,
) -> bool {
    if is_valid_name(form.name@) && is_valid_email(form.email@) {
        &&& next matches AdmissionState::Validated { subscriber }
        &&& subscriber@.name == form.name@
        &&& subscriber@.email == form.email@
        &&& action is BeginTransaction
    } else {
        &&& next matches AdmissionState::Failed { error: SubscribeError::ValidationError(reason), persisted }
        &&& reason@ == form_rejection(form.name@, form.email@)
        &&& !persisted
        &&& action == (AdmissionAction::Respond { status_code: 400 })
    }
}

/// The state that follows when the action pending in `state` has failed
/// because of `cause`: the workflow is over, and the caller learns of an
/// unexpected error. Nothing is undone: what was committed stays.
pub open spec fn admission_fails(
    state: AdmissionState,
    cause: Seq<Seq<char>>,
    next: AdmissionState,
    action: AdmissionAction,
) -> bool {
    &&& next matches AdmissionState::Failed { error: SubscribeError::UnexpectedError(chain), persisted }
    &&& chain@ == failure_chain(state, cause)
    &&& persisted == (state is Committed)
    &&& action == (AdmissionAction::Respond { status_code: 500 })
}

/// The state and the action that follow when the action pending in `state`
/// has succeeded.
pub open spec fn admission_advances(
    state: AdmissionState,
    base_url: Seq<char>,
    next: AdmissionState,
    action: AdmissionAction,
) -> bool {
    match state {
        AdmissionState::Validated { subscriber } => {
            &&& next matches AdmissionState::InTransaction { subscriber: kept, subscriber_id }
            &&& kept@ == subscriber@
            &&& action matches AdmissionAction::InsertSubscriber(record)
            &&& record@ == pending_row(subscriber@, subscriber_id, record.subscribed_at)
        },
        AdmissionState::InTransaction { subscriber, subscriber_id } => {
            &&& next matches AdmissionState::Persisted { subscriber: kept, subscription_token }
            &&& kept@ == subscriber@
            &&& is_subscription_token(subscription_token@)
            &&& action matches AdmissionAction::StoreToken {
                subscriber_id: owner,
                subscription_token: stored,
            }
            &&& owner == subscriber_id
            &&& stored@ == subscription_token@
        },
        AdmissionState::Persisted { subscriber, subscription_token } => {
            &&& next matches AdmissionState::TokenStored { subscriber: kept, subscription_token: token }
            &&& kept@ == subscriber@
            &&& token@ == subscription_token@
            &&& action is CommitTransaction
        },
        AdmissionState::TokenStored { subscriber, subscription_token } => {
            &&& next is Committed
            &&& action matches AdmissionAction::SendConfirmation(email)
            &&& email@ == confirmation_for(subscriber@.email, base_url, subscription_token@)
        },
        AdmissionState::Committed => {
            &&& next is Notified
            &&& action == (AdmissionAction::Respond { status_code: 200 })
        },
        _ => false,
    }
}

/// One step of the workflow: from `state` and the outcome of the action that
/// was pending there to the next state and the next action. Where the
/// workflow is over, it stays where it is and repeats its answer.
pub open spec fn admission_step(
    state: AdmissionState,
    outcome: Outcome,
    base_url: Seq<char>,
    next: AdmissionState,
    action: AdmissionAction,
) -> bool {
    if is_terminal(state) {
        &&& next == state
        &&& action == (AdmissionAction::Respond { status_code: response_status(state) })
    } else {
        match outcome {
            Outcome::Succeeded => admission_advances(state, base_url, next, action),
            Outcome::Failed(cause) => admission_fails(state, cause@, next, action),
        }
    }
}

impl AdmissionState {
    /// Whether the workflow is over.
    pub fn is_over(&self) -> (over: bool)
        ensures
            over == is_terminal(*self),
    {
        match self {
            AdmissionState::Notified => true,
            AdmissionState::Failed { .. } => true,
            _ => false,
        }
    }

    /// The answer to the request, once the workflow is over: status 200 for
    /// a subscriber that is admitted, the error for one that is not.
    pub fn into_response(self) -> (response: Option<Result<u16, SubscribeError>>)
        ensures
            response == match self {
                AdmissionState::Notified => Some(Ok::<u16, SubscribeError>(200)),
                AdmissionState::Failed { error, .. } => Some(Err::<u16, SubscribeError>(error)),
                _ => None,
            },
    {
        match self {
            AdmissionState::Notified => Some(Ok(200)),
            AdmissionState::Failed { error, .. } => Some(Err(error)),
            _ => None,
        }
    }
}

/// Ends the workflow with the error for a failure of the action that was
/// pending in a state with the context `context`.
fn fail(context: &str, cause: CauseChain, persisted: bool) -> (result: (
    AdmissionState,
    AdmissionAction,
))
    ensures
        result.0 matches AdmissionState::Failed {
            error: SubscribeError::UnexpectedError(chain),
            persisted: kept,
        } && chain@ == seq![context@] + cause@ && kept == persisted,
        result.1 == (AdmissionAction::Respond { status_code: 500 }),
{
    let error = SubscribeError::UnexpectedError(cause.context(context));
    (AdmissionState::Failed { error, persisted }, AdmissionAction::Respond { status_code: 500 })
}

/// Takes a request in: validates the form and, if it is valid, asks for a
/// transaction.
pub fn receive(form: FormData) -> (result: (AdmissionState, AdmissionAction))
    ensures
        admission_begins(form, result.0, result.1),
{
    match NewSubscriber::try_from(form) {
        Ok(subscriber) => (
            AdmissionState::Validated { subscriber },
            AdmissionAction::BeginTransaction,
        ),
        Err(reason) => (
            AdmissionState::Failed {
                error: SubscribeError::ValidationError(reason),
                persisted: false,
            },
            AdmissionAction::Respond { status_code: 400 },
        ),
    }
}

/// Advances the workflow by one step, given how the pending action went.
///
/// The identifier, the time of subscription and the token are drawn here,
/// when the step that needs them is taken; the contract ties them to the
/// next state and says nothing else about them.
pub fn step(state: AdmissionState, outcome: Outcome, base_url: &str) -> (result: (
    AdmissionState,
    AdmissionAction,
))
    ensures
        admission_step(state, outcome, base_url@, result.0, result.1),
{
    match state {
        AdmissionState::Notified => (
            AdmissionState::Notified,
            AdmissionAction::Respond { status_code: 200 },
        ),
        AdmissionState::Failed { error, persisted } => {
            let status_code = error.status_code();
            (AdmissionState::Failed { error, persisted }, AdmissionAction::Respond { status_code })
        },
        AdmissionState::Validated { subscriber } => match outcome {
            Outcome::Succeeded => {
                let record = pending_subscriber(&subscriber);
                let subscriber_id = record.id;
                (
                    AdmissionState::InTransaction { subscriber, subscriber_id },
                    AdmissionAction::InsertSubscriber(record),
                )
            },
            Outcome::Failed(cause) => fail("failed to acquire a connection", cause, false),
        },
        AdmissionState::InTransaction { subscriber, subscriber_id } => match outcome {
            Outcome::Succeeded => {
                let subscription_token = generate_subscription_token();
                let stored = subscription_token.clone();
                (
                    AdmissionState::Persisted { subscriber, subscription_token },
                    AdmissionAction::StoreToken { subscriber_id, subscription_token: stored },
                )
            },
            Outcome::Failed(cause) => fail("failed to insert subscriber", cause, false),
        },
        AdmissionState::Persisted { subscriber, subscription_token } => match outcome {
            Outcome::Succeeded => (
                AdmissionState::TokenStored { subscriber, subscription_token },
                AdmissionAction::CommitTransaction,
            ),
            Outcome::Failed(cause) => {
                let ghost below = cause@;
                let cause = StoreTokenError(cause).into_chain();
                assert(seq!["failed to store confirmation token"@] + cause@ =~= seq![
                    "failed to store confirmation token"@,
                    store_token_message(),
                ] + below);
                fail("failed to store confirmation token", cause, false)
            },
        },
        AdmissionState::TokenStored { subscriber, subscription_token } => match outcome {
            Outcome::Succeeded => {
                let email = confirmation_email(subscriber, base_url, subscription_token.as_str());
                (AdmissionState::Committed, AdmissionAction::SendConfirmation(email))
            },
            Outcome::Failed(cause) => fail("failed to commit transaction", cause, false),
        },
        AdmissionState::Committed => match outcome {
            Outcome::Succeeded => (
                AdmissionState::Notified,
                AdmissionAction::Respond { status_code: 200 },
            ),
            Outcome::Failed(cause) => fail("failed to send confirmation email", cause, true),
        },
    }
}

/// A form that breaks a rule is answered with status 400 and the reason,
/// and the store is never asked for anything.
pub proof fn an_invalid_form_is_rejected_at_once(
    form: FormData,
    next: AdmissionState,
    action: AdmissionAction,
)
    requires
        !(is_valid_name(form.name@) && is_valid_email(form.email@)),
        admission_begins(form, next, action),
    ensures
        next matches AdmissionState::Failed { error: SubscribeError::ValidationError(_), .. },
        is_terminal(next),
        response_status(next) == 400,
        action == (AdmissionAction::Respond { status_code: 400 }),
{
}

/// Whichever action fails, the workflow is over at once: the caller gets an
/// unexpected error with status 500, whose chain begins with the step that
/// failed and goes on with the cause. Nothing is written or committed after
/// a failure, and nothing that was committed is undone.
pub proof fn a_failure_ends_the_workflow(
    state: AdmissionState,
    cause: CauseChain,
    base_url: Seq<char>,
    next: AdmissionState,
    action: AdmissionAction,
)
    requires
        !is_terminal(state),
        admission_step(state, Outcome::Failed(cause), base_url, next, action),
    ensures
        is_terminal(next),
        next matches AdmissionState::Failed {
            error: SubscribeError::UnexpectedError(chain),
            persisted,
        } && chain@[0] == failure_context(state) && chain@.len() > cause@.len() && persisted == (
        state is Committed),
        response_status(next) == 500,
        action == (AdmissionAction::Respond { status_code: 500 }),
{
}

/// Once the workflow is over it stays where it is and only repeats its
/// answer.
pub proof fn a_finished_workflow_only_answers(
    state: AdmissionState,
    outcome: Outcome,
    base_url: Seq<char>,
    next: AdmissionState,
    action: AdmissionAction,
)
    requires
        is_terminal(state),
        admission_step(state, outcome, base_url, next, action),
    ensures
        next == state,
        action is Respond,
{
}

/// The actions come in one order only. `step` never asks for a second
/// transaction. A token is stored only after the
/// insert of its subscriber went through, a commit is asked for only after
/// both writes went through, and a confirmation is dispatched only after the
/// commit went through, with the token that was stored.
pub proof fn actions_keep_their_order(
    state: AdmissionState,
    outcome: Outcome,
    base_url: Seq<char>,
    next: AdmissionState,
    action: AdmissionAction,
)
    requires
        admission_step(state, outcome, base_url, next, action),
    ensures
        !(action is BeginTransaction),
        action is InsertSubscriber ==> state is Validated && outcome is Succeeded,
        action is StoreToken ==> state is InTransaction && outcome is Succeeded,
        action is CommitTransaction ==> state is Persisted && outcome is Succeeded,
        action is SendConfirmation ==> state is TokenStored && outcome is Succeeded,
        action matches AdmissionAction::StoreToken { subscriber_id, .. } ==> state
            matches AdmissionState::InTransaction { subscriber_id: inserted, .. } && inserted
            == subscriber_id,
        action matches AdmissionAction::SendConfirmation(email) ==> state
            matches AdmissionState::TokenStored { subscriber, subscription_token } && email@
            == confirmation_for(subscriber@.email, base_url, subscription_token@),
{
}

} // verus!
