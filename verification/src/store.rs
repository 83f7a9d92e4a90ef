//! The durable records of the subscription store, and a store that keeps
//! them in memory under the rules of the durable one.

use crate::domain::new_subscriber::{NewSubscriber, NewSubscriberView};
use crate::domain::subscriber_email::{is_valid_email, SubscriberEmail};
use crate::domain::subscriber_name::{is_valid_name, SubscriberName};
use crate::route::error::CauseChain;
use vstd::prelude::*;

verus! {

/// Where a subscriber stands in the confirmation flow.
#[derive(Clone, Copy, Debug, PartialEq, Eq, Structural)]
pub enum SubscriberStatus {
    PendingConfirmation,
    Confirmed,
}

/// A subscriber as the store keeps it.
#[derive(Debug)]
pub struct SubscriberRecord {
    pub id: u128,
    pub email: SubscriberEmail,
    pub name: SubscriberName,
    /// Microseconds since the Unix epoch, in UTC.
    pub subscribed_at: i64,
    pub status: SubscriberStatus,
}

/// The plain contents of a `SubscriberRecord`.
pub struct SubscriberRow {
    pub id: u128,
    pub email: Seq<char>,
    pub name: Seq<char>,
    pub subscribed_at: i64,
    pub status: SubscriberStatus,
}

impl View for SubscriberRecord {
    type V = SubscriberRow;

    open spec fn view(&self) -> SubscriberRow {
        SubscriberRow {
            id: self.id,
            email: self.email@,
            name: self.name@,
            subscribed_at: self.subscribed_at,
            status: self.status,
        }
    }
}

/// The row of a subscriber who was admitted at `subscribed_at` under `id` and
/// has not confirmed yet.
pub open spec fn pending_row(
    subscriber: NewSubscriberView,
    id: u128,
    subscribed_at: i64,
) -> SubscriberRow {
    SubscriberRow {
        id,
        email: subscriber.email,
        name: subscriber.name,
        subscribed_at,
        status: SubscriberStatus::PendingConfirmation,
    }
}

impl SubscriberRecord {
    /// The record of `new_subscriber`, admitted at `subscribed_at` under `id`
    /// and waiting for confirmation.
    pub fn pending(new_subscriber: &NewSubscriber, id: u128, subscribed_at: i64) -> (record:
        SubscriberRecord)
        ensures
            record@ == pending_row(new_subscriber@, id, subscribed_at),
    {
        SubscriberRecord {
            id,
            email: new_subscriber.email.clone(),
            name: new_subscriber.name.clone(),
            subscribed_at,
            status: SubscriberStatus::PendingConfirmation,
        }
    }

    /// The name and the email address of the subscriber. Both have passed
    /// validation: no record is made of anything else.
    pub fn identity(&self) -> (parts: (&str, &str))
        ensures
            parts.0@ == self@.name,
            parts.1@ == self@.email,
            is_valid_name(self@.name),
            is_valid_email(self@.email),
    {
        (self.name.as_ref(), self.email.as_ref())
    }
}

impl Clone for SubscriberRecord {
    fn clone(&self) -> (copy: Self)
        ensures
            copy@ == self@,
    {
        SubscriberRecord {
            id: self.id,
            email: self.email.clone(),
            name: self.name.clone(),
            subscribed_at: self.subscribed_at,
            status: self.status,
        }
    }
}

/// A confirmation token as the store keeps it, with the subscriber it
/// belongs to.
#[derive(Debug)]
pub struct TokenRecord {
    pub subscription_token: String,
    pub subscriber_id: u128,
}

/// The plain contents of a `TokenRecord`.
pub struct TokenRow {
    pub subscription_token: Seq<char>,
    pub subscriber_id: u128,
}

impl View for TokenRecord {
    type V = TokenRow;

    open spec fn view(&self) -> TokenRow {
        TokenRow { subscription_token: self.subscription_token@, subscriber_id: self.subscriber_id }
    }
}

impl Clone for TokenRecord {
    fn clone(&self) -> (copy: Self)
        ensures
            copy@ == self@,
    {
        TokenRecord {
            subscription_token: self.subscription_token.clone(),
            subscriber_id: self.subscriber_id,
        }
    }
}

/// What a store holds: whether it can be reached, and its two tables.
pub struct StoreView {
    pub online: bool,
    pub subscribers: Seq<SubscriberRow>,
    pub tokens: Seq<TokenRow>,
}

/// The rows of `records`, in their order.
pub open spec fn subscriber_rows(records: Seq<SubscriberRecord>) -> Seq<SubscriberRow> {
    Seq::new(records.len(), |i: int| records[i]@)
}

/// The rows of `records`, in their order.
pub open spec fn token_rows(records: Seq<TokenRecord>) -> Seq<TokenRow> {
    Seq::new(records.len(), |i: int| records[i]@)
}

/// Whether a subscriber of `store` has the identifier `id`.
pub open spec fn has_subscriber(store: StoreView, id: u128) -> bool {
    exists|i: int| 0 <= i < store.subscribers.len() && (#[trigger] store.subscribers[i]).id == id
}

/// Whether a subscriber of `store` has the address `email`.
pub open spec fn has_email(store: StoreView, email: Seq<char>) -> bool {
    exists|i: int|
        0 <= i < store.subscribers.len() && (#[trigger] store.subscribers[i]).email == email
}

/// Whether `token` is stored in `store`.
pub open spec fn has_token(store: StoreView, token: Seq<char>) -> bool {
    exists|k: int|
        0 <= k < store.tokens.len() && (#[trigger] store.tokens[k]).subscription_token == token
}

/// Whether a token is stored in `store` for the subscriber `id`.
pub open spec fn has_token_for(store: StoreView, id: u128) -> bool {
    exists|k: int| 0 <= k < store.tokens.len() && (#[trigger] store.tokens[k]).subscriber_id == id
}

/// The rules of the store: no identifier, email address or token occurs
/// twice, no subscriber has two tokens, and every token belongs to a
/// subscriber that is there.
pub open spec fn is_consistent(store: StoreView) -> bool {
    &&& forall|i: int, j: int|
        #![trigger store.subscribers[i], store.subscribers[j]]
        0 <= i < j < store.subscribers.len() ==> {
            &&& store.subscribers[i].id != store.subscribers[j].id
            &&& store.subscribers[i].email != store.subscribers[j].email
        }
    &&& forall|k: int, l: int|
        #![trigger store.tokens[k], store.tokens[l]]
        0 <= k < l < store.tokens.len() ==> {
            &&& store.tokens[k].subscription_token != store.tokens[l].subscription_token
            &&& store.tokens[k].subscriber_id != store.tokens[l].subscriber_id
        }
    &&& forall|k: int|
        #![trigger store.tokens[k]]
        0 <= k < store.tokens.len() ==> has_subscriber(store, store.tokens[k].subscriber_id)
}

/// Why the store refuses to do what it was asked.
#[derive(Clone, Copy, Debug, PartialEq, Eq, Structural)]
pub enum StoreError {
    /// The store cannot be reached.
    Unreachable,
    /// The identifier, the email address or the token is taken already, or
    /// the subscriber has a token already.
    UniqueViolation,
    /// The token refers to a subscriber that is not there.
    ReferentialViolation,
}

/// What `error` says of itself.
pub open spec fn store_error_message(error: StoreError) -> Seq<char> {
    match error {
        StoreError::Unreachable => "the store cannot be reached"@,
        StoreError::UniqueViolation => "duplicate key value violates unique constraint"@,
        StoreError::ReferentialViolation => "insert violates foreign key constraint"@,
    }
}

impl StoreError {
    /// What this error says of itself.
    pub fn to_string(&self) -> (message: String)
        ensures
            message@ == store_error_message(*self),
    {
        let chain = self.into_chain();
        assert(chain@[0] == chain.message@);
        chain.message
    }

    /// This error as the root of a cause chain.
    pub fn into_chain(self) -> (chain: CauseChain)
        ensures
            chain@ == seq![store_error_message(self)],
    {
        match self {
            StoreError::Unreachable => CauseChain::new("the store cannot be reached"),
            StoreError::UniqueViolation => CauseChain::new(
                "duplicate key value violates unique constraint",
            ),
            StoreError::ReferentialViolation => CauseChain::new(
                "insert violates foreign key constraint",
            ),
        }
    }
}

/// One write to the store.
#[derive(Debug)]
pub enum Write {
    Subscriber(SubscriberRecord),
    Token(TokenRecord),
}

/// The plain contents of a `Write`.
pub enum WriteRow {
    Subscriber(SubscriberRow),
    Token(TokenRow),
}

impl View for Write {
    type V = WriteRow;

    open spec fn view(&self) -> WriteRow {
        match self {
            Write::Subscriber(record) => WriteRow::Subscriber(record@),
            Write::Token(record) => WriteRow::Token(record@),
        }
    }
}

impl Clone for Write {
    fn clone(&self) -> (copy: Self)
        ensures
            copy@ == self@,
    {
        match self {
            Write::Subscriber(record) => Write::Subscriber(record.clone()),
            Write::Token(record) => Write::Token(record.clone()),
        }
    }
}

/// The rows of `writes`, in their order.
pub open spec fn write_rows(writes: Seq<Write>) -> Seq<WriteRow> {
    Seq::new(writes.len(), |i: int| writes[i]@)
}

/// The error with which `store` refuses `write`, if it does.
pub open spec fn refusal(store: StoreView, write: WriteRow) -> Option<StoreError> {
    if !store.online {
        Some(StoreError::Unreachable)
    } else {
        match write {
            WriteRow::Subscriber(row) => {
                if has_subscriber(store, row.id) || has_email(store, row.email) {
                    Some(StoreError::UniqueViolation)
                } else {
                    None
                }
            },
            WriteRow::Token(row) => {
                if has_token(store, row.subscription_token)
                    || has_token_for(store, row.subscriber_id) {
                    Some(StoreError::UniqueViolation)
                } else if !has_subscriber(store, row.subscriber_id) {
                    Some(StoreError::ReferentialViolation)
                } else {
                    None
                }
            },
        }
    }
}

/// `store` with `write` added at the end of its table.
pub open spec fn with_write(store: StoreView, write: WriteRow) -> StoreView {
    match write {
        WriteRow::Subscriber(row) => StoreView {
            subscribers: store.subscribers.push(row),
            ..store
        },
        WriteRow::Token(row) => StoreView { tokens: store.tokens.push(row), ..store },
    }
}

/// What becomes of `store` when `writes` are made one after the other: the
/// store with all of them, or the first refusal.
pub open spec fn replayed(store: StoreView, writes: Seq<WriteRow>) -> Result<
    StoreView,
    StoreError,
>
    decreases writes.len(),
{
    if writes.len() == 0 {
        Ok(store)
    } else {
        match replayed(store, writes.drop_last()) {
            Ok(before) => match refusal(before, writes.last()) {
                Some(error) => Err(error),
                None => Ok(with_write(before, writes.last())),
            },
            Err(error) => Err(error),
        }
    }
}

/// The error with which `store` refuses `write` in a transaction that has
/// made `writes` before, if it does. A transaction sees its own writes.
pub open spec fn statement_refusal(
    store: StoreView,
    writes: Seq<WriteRow>,
    write: WriteRow,
) -> Option<StoreError> {
    match replayed(store, writes) {
        Ok(seen) => refusal(seen, write),
        Err(error) => Some(error),
    }
}

/// What becomes of `store` when a transaction that has made `writes` is
/// committed: the store with all of them, or the error that leaves it as it
/// is. The writes are held against the store as it is now, whatever it was
/// when they were made.
pub open spec fn committed(store: StoreView, writes: Seq<WriteRow>) -> Result<
    StoreView,
    StoreError,
> {
    if !store.online {
        Err(StoreError::Unreachable)
    } else {
        replayed(store, writes)
    }
}

/// Making `write` after `writes` is replaying `writes` with `write` at the
/// end.
pub proof fn lemma_replayed_push(store: StoreView, writes: Seq<WriteRow>, write: WriteRow)
    ensures
        replayed(store, writes.push(write)) == match replayed(store, writes) {
            Ok(before) => match refusal(before, write) {
                Some(error) => Err(error),
                None => Ok(with_write(before, write)),
            },
            Err(error) => Err(error),
        },
{
    assert(writes.push(write).drop_last() =~= writes);
}

/// Where replaying `writes` goes through, replaying any beginning of them
/// does; where a beginning is refused, so is the whole.
pub proof fn lemma_replayed_prefix(store: StoreView, writes: Seq<WriteRow>, n: int)
    requires
        0 <= n <= writes.len(),
    ensures
        replayed(store, writes) is Ok ==> replayed(store, writes.take(n)) is Ok,
        replayed(store, writes.take(n)) matches Err(error) ==> replayed(store, writes) == Err::<
            StoreView,
            StoreError,
        >(error),
    decreases writes.len(),
{
    if n == writes.len() {
        assert(writes.take(n) =~= writes);
    } else {
        assert(writes.drop_last().take(n) =~= writes.take(n));
        lemma_replayed_prefix(store, writes.drop_last(), n);
    }
}

/// A write that the store does not refuse leaves it consistent.
pub proof fn lemma_write_keeps_consistency(store: StoreView, write: WriteRow)
    requires
        is_consistent(store),
        refusal(store, write) is None,
    ensures
        is_consistent(with_write(store, write)),
{
    let after = with_write(store, write);
    match write {
        WriteRow::Subscriber(row) => {
            assert forall|k: int| 0 <= k < after.tokens.len() implies has_subscriber(
                after,
                (#[trigger] after.tokens[k]).subscriber_id,
            ) by {
                let id = store.tokens[k].subscriber_id;
                let i = choose|i: int|
                    0 <= i < store.subscribers.len() && (#[trigger] store.subscribers[i]).id == id;
                assert(after.subscribers[i].id == id);
            }
        },
        WriteRow::Token(row) => {
            assert forall|k: int| 0 <= k < after.tokens.len() implies has_subscriber(
                after,
                (#[trigger] after.tokens[k]).subscriber_id,
            ) by {}
        },
    }
}

/// Writes that the store does not refuse, made one after the other, leave it
/// consistent.
pub proof fn lemma_replay_keeps_consistency(store: StoreView, writes: Seq<WriteRow>)
    requires
        is_consistent(store),
    ensures
        replayed(store, writes) matches Ok(after) ==> is_consistent(after),
    decreases writes.len(),
{
    if writes.len() > 0 {
        lemma_replay_keeps_consistency(store, writes.drop_last());
        if let Ok(before) = replayed(store, writes.drop_last()) {
            if refusal(before, writes.last()) is None {
                lemma_write_keeps_consistency(before, writes.last());
            }
        }
    }
}

/// A store that keeps its records in memory.
///
/// It stands in for the durable store wherever no database is at hand, and
/// holds to the same rules: see `is_consistent`.
pub struct SubscriptionStore {
    online: bool,
    subscribers: Vec<SubscriberRecord>,
    tokens: Vec<TokenRecord>,
}

impl View for SubscriptionStore {
    type V = StoreView;

    closed spec fn view(&self) -> StoreView {
        StoreView {
            online: self.online,
            subscribers: subscriber_rows(self.subscribers@),
            tokens: token_rows(self.tokens@),
        }
    }
}

impl SubscriptionStore {
    #[verifier::type_invariant]
    spec fn well_formed(self) -> bool {
        is_consistent(self@)
    }

    /// An empty store that can be reached.
    pub fn new() -> (store: SubscriptionStore)
        ensures
            store@.online,
            store@.subscribers.len() == 0,
            store@.tokens.len() == 0,
    {
        SubscriptionStore { online: true, subscribers: Vec::new(), tokens: Vec::new() }
    }

    /// Whether a subscriber has the identifier `id`.
    pub fn contains_subscriber(&self, id: u128) -> (found: bool)
        ensures
            found == has_subscriber(self@, id),
    {
        let mut i: usize = 0;
        while i < self.subscribers.len()
            invariant
                i <= self.subscribers.len(),
                forall|j: int| 0 <= j < i ==> (#[trigger] self@.subscribers[j]).id != id,
            decreases self.subscribers.len() - i,
        {
            if self.subscribers[i].id == id {
                assert(self@.subscribers[i as int].id == id);
                return true;
            }
            i += 1;
        }
        false
    }

    /// Whether a subscriber has the address `email`.
    pub fn contains_email(&self, email: &SubscriberEmail) -> (found: bool)
        ensures
            found == has_email(self@, email@),
    {
        let mut i: usize = 0;
        while i < self.subscribers.len()
            invariant
                i <= self.subscribers.len(),
                forall|j: int| 0 <= j < i ==> (#[trigger] self@.subscribers[j]).email != email@,
            decreases self.subscribers.len() - i,
        {
            if self.subscribers[i].email.same_address(email) {
                assert(self@.subscribers[i as int].email == email@);
                return true;
            }
            i += 1;
        }
        false
    }

    /// Whether `token` is stored.
    pub fn contains_token(&self, token: &String) -> (found: bool)
        ensures
            found == has_token(self@, token@),
    {
        let mut k: usize = 0;
        while k < self.tokens.len()
            invariant
                k <= self.tokens.len(),
                forall|l: int|
                    0 <= l < k ==> (#[trigger] self@.tokens[l]).subscription_token != token@,
            decreases self.tokens.len() - k,
        {
            if self.tokens[k].subscription_token == *token {
                assert(self@.tokens[k as int].subscription_token == token@);
                return true;
            }
            k += 1;
        }
        false
    }

    /// Whether a token is stored for the subscriber `id`.
    pub fn contains_token_for(&self, id: u128) -> (found: bool)
        ensures
            found == has_token_for(self@, id),
    {
        let mut k: usize = 0;
        while k < self.tokens.len()
            invariant
                k <= self.tokens.len(),
                forall|l: int| 0 <= l < k ==> (#[trigger] self@.tokens[l]).subscriber_id != id,
            decreases self.tokens.len() - k,
        {
            if self.tokens[k].subscriber_id == id {
                assert(self@.tokens[k as int].subscriber_id == id);
                return true;
            }
            k += 1;
        }
        false
    }

    /// A copy of this store.
    pub fn duplicate(&self) -> (copy: SubscriptionStore)
        ensures
            copy@ == self@,
    {
        proof {
            use_type_invariant(self);
        }
        let subscribers = self.subscribers.clone();
        let tokens = self.tokens.clone();
        assert(subscriber_rows(subscribers@) =~= self@.subscribers);
        assert(token_rows(tokens@) =~= self@.tokens);
        SubscriptionStore { online: self.online, subscribers, tokens }
    }

    /// This store after `write`, unless the rules forbid the write or the
    /// store is out of reach.
    fn written(self, write: Write) -> (written: Result<SubscriptionStore, StoreError>)
        ensures
            match refusal(self@, write@) {
                Some(error) => written == Err::<SubscriptionStore, StoreError>(error),
                None => written matches Ok(store) && store@ == with_write(self@, write@),
            },
    {
        proof {
            use_type_invariant(&self);
        }
        if !self.online {
            return Err(StoreError::Unreachable);
        }
        match write {
            Write::Subscriber(record) => {
                if self.contains_subscriber(record.id) || self.contains_email(&record.email) {
                    return Err(StoreError::UniqueViolation);
                }
                proof {
                    lemma_write_keeps_consistency(self@, WriteRow::Subscriber(record@));
                }
                let ghost after = with_write(self@, WriteRow::Subscriber(record@));
                let SubscriptionStore { online, subscribers, tokens } = self;
                let mut subscribers = subscribers;
                subscribers.push(record);
                assert(subscriber_rows(subscribers@) =~= after.subscribers);
                Ok(SubscriptionStore { online, subscribers, tokens })
            },
            Write::Token(record) => {
                if self.contains_token(&record.subscription_token) || self.contains_token_for(
                    record.subscriber_id,
                ) {
                    return Err(StoreError::UniqueViolation);
                }
                if !self.contains_subscriber(record.subscriber_id) {
                    return Err(StoreError::ReferentialViolation);
                }
                proof {
                    lemma_write_keeps_consistency(self@, WriteRow::Token(record@));
                }
                let ghost after = with_write(self@, WriteRow::Token(record@));
                let SubscriptionStore { online, subscribers, tokens } = self;
                let mut tokens = tokens;
                tokens.push(record);
                assert(token_rows(tokens@) =~= after.tokens);
                Ok(SubscriptionStore { online, subscribers, tokens })
            },
        }
    }

    /// This store as a transaction sees it after `writes`.
    fn replay(&self, writes: &Vec<Write>) -> (seen: Result<SubscriptionStore, StoreError>)
        ensures
            match replayed(self@, write_rows(writes@)) {
                Ok(store) => seen matches Ok(copy) && copy@ == store,
                Err(error) => seen == Err::<SubscriptionStore, StoreError>(error),
            },
    {
        let mut seen = self.duplicate();
        let ghost rows = write_rows(writes@);
        let mut i: usize = 0;
        while i < writes.len()
            invariant
                i <= writes.len(),
                rows == write_rows(writes@),
                replayed(self@, rows.take(i as int)) == Ok::<StoreView, StoreError>(seen@),
            decreases writes.len() - i,
        {
            proof {
                lemma_replayed_push(self@, rows.take(i as int), rows[i as int]);
                assert(rows.take(i as int).push(rows[i as int]) =~= rows.take(i + 1));
                lemma_replayed_prefix(self@, rows, i + 1);
            }
            match seen.written(writes[i].clone()) {
                Ok(next) => {
                    seen = next;
                },
                Err(error) => {
                    return Err(error);
                },
            }
            i += 1;
        }
        assert(rows.take(i as int) =~= rows);
        Ok(seen)
    }

    /// Opens a transaction, if the store can be reached.
    pub fn begin(&self) -> (opened: Result<Transaction, StoreError>)
        ensures
            match opened {
                Ok(transaction) => self@.online && transaction@ == Seq::<WriteRow>::empty(),
                Err(error) => !self@.online && error == StoreError::Unreachable,
            },
    {
        if self.online {
            let transaction = Transaction { writes: Vec::new() };
            Ok(transaction)
        } else {
            Err(StoreError::Unreachable)
        }
    }

    /// Commits `transaction`: all of its writes become visible together, or
    /// none does and the store stays as it is.
    pub fn commit(&mut self, transaction: Transaction) -> (result: Result<(), StoreError>)
        ensures
            match committed(old(self)@, transaction@) {
                Ok(store) => result is Ok && final(self)@ == store,
                Err(error) => result == Err::<(), StoreError>(error) && final(self)@ == old(
                    self,
                )@,
            },
    {
        if !self.online {
            return Err(StoreError::Unreachable);
        }
        match self.replay(&transaction.writes) {
            Ok(store) => {
                *self = store;
                Ok(())
            },
            Err(error) => Err(error),
        }
    }

    /// Takes the store out of reach, or brings it back.
    pub fn set_online(&mut self, online: bool)
        ensures
            final(self)@ == (StoreView { online, ..old(self)@ }),
    {
        proof {
            use_type_invariant(&*self);
        }
        let mut store = SubscriptionStore::new();
        core::mem::swap(self, &mut store);
        let SubscriptionStore { online: _, subscribers, tokens } = store;
        *self = SubscriptionStore { online, subscribers, tokens };
    }

    /// The subscribers that are committed, oldest first. They keep to the
    /// rules of the store, as the tokens do.
    pub fn subscribers(&self) -> (records: &Vec<SubscriberRecord>)
        ensures
            subscriber_rows(records@) == self@.subscribers,
            is_consistent(self@),
    {
        proof {
            use_type_invariant(self);
        }
        &self.subscribers
    }

    /// The tokens that are committed, oldest first. They keep to the rules
    /// of the store, as the subscribers do.
    pub fn tokens(&self) -> (records: &Vec<TokenRecord>)
        ensures
            token_rows(records@) == self@.tokens,
            is_consistent(self@),
    {
        proof {
            use_type_invariant(self);
        }
        &self.tokens
    }
}

/// The writes that one request has made and not committed yet. Dropping a
/// transaction abandons them.
pub struct Transaction {
    writes: Vec<Write>,
}

impl View for Transaction {
    type V = Seq<WriteRow>;

    closed spec fn view(&self) -> Seq<WriteRow> {
        write_rows(self.writes@)
    }
}

impl Transaction {
    /// Makes `write` in this transaction, unless `store` refuses it after
    /// the writes made so far.
    fn make(&mut self, store: &SubscriptionStore, write: Write) -> (made: Result<(), StoreError>)
        ensures
            match statement_refusal(store@, old(self)@, write@) {
                Some(error) => made == Err::<(), StoreError>(error) && final(self)@ == old(self)@,
                None => made is Ok && final(self)@ == old(self)@.push(write@),
            },
    {
        let seen = match store.replay(&self.writes) {
            Ok(seen) => seen,
            Err(error) => {
                return Err(error);
            },
        };
        match seen.written(write.clone()) {
            Ok(_) => {
                self.writes.push(write);
                Ok(())
            },
            Err(error) => Err(error),
        }
    }

    /// Inserts `record` in this transaction.
    pub fn insert_subscriber(
        &mut self,
        store: &SubscriptionStore,
        record: SubscriberRecord,
    ) -> (inserted: Result<(), StoreError>)
        ensures
            match statement_refusal(store@, old(self)@, WriteRow::Subscriber(record@)) {
                Some(error) => inserted == Err::<(), StoreError>(error) && final(self)@ == old(
                    self,
                )@,
                None => inserted is Ok && final(self)@ == old(self)@.push(
                    WriteRow::Subscriber(record@),
                ),
            },
    {
        self.make(store, Write::Subscriber(record))
    }

    /// Stores `subscription_token` for the subscriber `subscriber_id` in
    /// this transaction.
    pub fn store_token(
        &mut self,
        store: &SubscriptionStore,
        subscriber_id: u128,
        subscription_token: String,
    ) -> (stored: Result<(), StoreError>)
        ensures
            match statement_refusal(
                store@,
                old(self)@,
                WriteRow::Token(
                    TokenRow { subscription_token: subscription_token@, subscriber_id },
                ),
            ) {
                Some(error) => stored == Err::<(), StoreError>(error) && final(self)@ == old(
                    self,
                )@,
                None => stored is Ok && final(self)@ == old(self)@.push(
                    WriteRow::Token(
                        TokenRow { subscription_token: subscription_token@, subscriber_id },
                    ),
                ),
            },
    {
        self.make(store, Write::Token(TokenRecord { subscription_token, subscriber_id }))
    }
}

} // verus!
