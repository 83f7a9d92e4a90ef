//! Errors of the subscription route and the rendering of their cause chains.

use vstd::prelude::*;
use vstd::string::StringExecFns;

verus! {

/// What `StoreTokenError` says of itself.
pub open spec fn store_token_message() -> Seq<char> {
    "A database error was encountered while trying to store a subscription token."@
}

/// The lines that report `causes`, outermost cause first.
pub open spec fn rendered_causes(causes: Seq<Seq<char>>) -> Seq<char>
    decreases causes.len(),
{
    if causes.len() == 0 {
        Seq::empty()
    } else {
        rendered_causes(causes.drop_last()) + "Caused by:\n\t"@ + causes.last() + "\n"@
    }
}

/// The report of an error that says `message` and was caused by `causes`.
pub open spec fn rendered_chain(message: Seq<char>, causes: Seq<Seq<char>>) -> Seq<char> {
    message + "\n\n"@ + rendered_causes(causes)
}

/// Writes the report of an error: its own message, an empty line, and then
/// for every cause a line `Caused by:` followed by the indented cause.
pub fn error_chain_fmt(message: &str, causes: &Vec<String>) -> (report: String)
    ensures
        report@ == rendered_chain(message@, causes.deep_view()),
{
    let mut report = String::from_str(message);
    report.append("\n\n");
    let ghost texts = causes.deep_view();
    let mut i: usize = 0;
    while i < causes.len()
        invariant
            i <= causes.len(),
            texts == causes.deep_view(),
            report@ == rendered_chain(message@, texts.take(i as int)),
        decreases causes.len() - i,
    {
        report.append("Caused by:\n\t");
        report.append(causes[i].as_str());
        report.append("\n");
        proof {
            let done = texts.take(i as int);
            let next = texts.take(i + 1);
            assert(next.drop_last() =~= done);
        }
        i += 1;
    }
    assert(texts.take(i as int) =~= texts);
    report
}

/// An error together with the errors that led to it, most recent first.
pub struct CauseChain {
    /// What the most recent error says.
    pub message: String,
    /// What the errors below it say, from the nearest cause to the root.
    pub causes: Vec<String>,
}

impl View for CauseChain {
    type V = Seq<Seq<char>>;

    open spec fn view(&self) -> Seq<Seq<char>> {
        seq![self.message@] + self.causes.deep_view()
    }
}

impl CauseChain {
    /// An error without a known cause.
    pub fn new(message: &str) -> (chain: CauseChain)
        ensures
            chain@ == seq![message@],
    {
        let chain = CauseChain { message: String::from_str(message), causes: Vec::new() };
        chain
    }

    /// Puts `context` on top of this chain: the new error says `context` and
    /// was caused by everything that was here before.
    pub fn context(self, context: &str) -> (chain: CauseChain)
        ensures
            chain@ == seq![context@] + self@,
    {
        let CauseChain { message, causes } = self;
        let mut causes = causes;
        causes.insert(0, message);
        let chain = CauseChain { message: String::from_str(context), causes };
        chain
    }

    /// What every error of the chain says, most recent first.
    pub fn messages(&self) -> (messages: Vec<String>)
        ensures
            messages.deep_view() == self@,
    {
        let mut messages: Vec<String> = Vec::new();
        messages.push(self.message.clone());
        let ghost below = self.causes.deep_view();
        let mut i: usize = 0;
        while i < self.causes.len()
            invariant
                i <= self.causes.len(),
                below == self.causes.deep_view(),
                messages.deep_view() == seq![self.message@] + below.take(i as int),
            decreases self.causes.len() - i,
        {
            let ghost before = messages.deep_view();
            messages.push(self.causes[i].clone());
            assert(messages.deep_view() =~= before.push(self.causes[i as int]@));
            i += 1;
        }
        messages
    }

    /// The report of the whole chain.
    pub fn report(&self) -> (report: String)
        ensures
            report@ == rendered_chain(self@[0], self@.skip(1)),
    {
        assert(self@.skip(1) =~= self.causes.deep_view());
        error_chain_fmt(self.message.as_str(), &self.causes)
    }
}

/// A token could not be stored.
pub struct StoreTokenError(pub CauseChain);

impl StoreTokenError {
    /// What this error says of itself.
    pub fn to_string(&self) -> (message: String)
        ensures
            message@ == store_token_message(),
    {
        String::from_str(
            "A database error was encountered while trying to store a subscription token.",
        )
    }

    /// The storage error that caused this one.
    pub fn source(&self) -> (cause: &CauseChain)
        ensures
            cause@ == self.0@,
    {
        &self.0
    }

    /// The chain that starts with this error.
    pub fn into_chain(self) -> (chain: CauseChain)
        ensures
            chain@ == seq![store_token_message()] + self.0@,
    {
        self.0.context(
            "A database error was encountered while trying to store a subscription token.",
        )
    }

    /// The report of this error and of what caused it.
    pub fn debug(&self) -> (report: String)
        ensures
            report@ == rendered_chain(store_token_message(), self.0@),
    {
        let causes = self.0.messages();
        error_chain_fmt(
            "A database error was encountered while trying to store a subscription token.",
            &causes,
        )
    }
}

/// Why a subscription request was not admitted.
pub enum SubscribeError {
    /// The submitted data breaks a rule; the text says which value.
    ValidationError(String),
    /// Storage or notification failed; the chain says where and why.
    UnexpectedError(CauseChain),
}

/// The status that answers a rejected request: 400 where the caller's data
/// was at fault, 500 for everything else.
pub open spec fn status_of(error: SubscribeError) -> u16 {
    match error {
        SubscribeError::ValidationError(_) => 400,
        SubscribeError::UnexpectedError(_) => 500,
    }
}

/// What `error` says of itself.
pub open spec fn message_of(error: SubscribeError) -> Seq<char> {
    match error {
        SubscribeError::ValidationError(reason) => reason@,
        SubscribeError::UnexpectedError(chain) => chain@[0],
    }
}

/// What led to `error`, nearest cause first.
pub open spec fn causes_of(error: SubscribeError) -> Seq<Seq<char>> {
    match error {
        SubscribeError::ValidationError(_) => Seq::empty(),
        SubscribeError::UnexpectedError(chain) => chain@.skip(1),
    }
}

impl SubscribeError {
    /// What this error says of itself.
    pub fn to_string(&self) -> (message: String)
        ensures
            message@ == message_of(*self),
    {
        match self {
            SubscribeError::ValidationError(reason) => reason.clone(),
            SubscribeError::UnexpectedError(chain) => chain.message.clone(),
        }
    }

    /// The report of this error and of what caused it.
    pub fn debug(&self) -> (report: String)
        ensures
            report@ == rendered_chain(message_of(*self), causes_of(*self)),
    {
        match self {
            SubscribeError::ValidationError(reason) => {
                let none: Vec<String> = Vec::new();
                error_chain_fmt(reason.as_str(), &none)
            },
            SubscribeError::UnexpectedError(chain) => chain.report(),
        }
    }

    /// The status that answers the request.
    pub fn status_code(&self) -> (status: u16)
        ensures
            status == status_of(*self),
    {
        match self {
            SubscribeError::ValidationError(_) => 400,
            SubscribeError::UnexpectedError(_) => 500,
        }
    }
}

} // verus!
