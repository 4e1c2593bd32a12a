//! Subscription store: owns the subscriber rows and the token mapping,
//! enforces one row per email address, and keeps the token table and the
//! subscriber table consistent with each other.

use vstd::prelude::*;

use crate::domain::{is_valid_email, is_valid_name, NewSubscriber};
use crate::strings::str_eq;

verus! {

/// Lifecycle status of a subscriber row. `PendingConfirmation` is the
/// initial state; `Confirmed` is terminal.
#[derive(Clone, Copy, Debug, PartialEq, Eq, Structural)]
pub enum SubscriptionStatus {
    PendingConfirmation,
    Confirmed,
}

/// A persisted subscriber row.
pub struct SubscriptionRecord {
    pub id: u128,
    pub email: String,
    pub name: String,
    pub subscribed_at: i64,
    pub status: SubscriptionStatus,
}

/// Mathematical image of a subscriber row.
#[verifier::ext_equal]
pub ghost struct RecordModel {
    pub id: u128,
    pub email: Seq<char>,
    pub name: Seq<char>,
    pub subscribed_at: i64,
    pub status: SubscriptionStatus,
}

impl View for SubscriptionRecord {
    type V = RecordModel;

    open spec fn view(&self) -> RecordModel {
        RecordModel {
            id: self.id,
            email: self.email@,
            name: self.name@,
            subscribed_at: self.subscribed_at,
            status: self.status,
        }
    }
}

/// One confirmation token and the subscriber it belongs to.
pub struct ConfirmationToken {
    pub token: String,
    pub subscriber_id: u128,
}

/// Mathematical image of a token row.
#[verifier::ext_equal]
pub ghost struct TokenModel {
    pub token: Seq<char>,
    pub subscriber_id: u128,
}

impl View for ConfirmationToken {
    type V = TokenModel;

    open spec fn view(&self) -> TokenModel {
        TokenModel { token: self.token@, subscriber_id: self.subscriber_id }
    }
}

/// Mathematical image of the whole store.
#[verifier::ext_equal]
pub ghost struct StoreModel {
    pub subs: Seq<RecordModel>,
    pub tokens: Seq<TokenModel>,
}

/// Some row carries this email address.
pub open spec fn has_email(m: StoreModel, email: Seq<char>) -> bool {
    exists|i: int| 0 <= i < m.subs.len() && m.subs[i].email == email
}

/// Some row carries this subscriber id.
pub open spec fn has_id(m: StoreModel, id: u128) -> bool {
    exists|i: int| 0 <= i < m.subs.len() && m.subs[i].id == id
}

/// Some token row carries this token text.
pub open spec fn has_token(m: StoreModel, token: Seq<char>) -> bool {
    exists|i: int| 0 <= i < m.tokens.len() && m.tokens[i].token == token
}

/// Some token row points at this subscriber id.
pub open spec fn has_token_for(m: StoreModel, id: u128) -> bool {
    exists|t: int| 0 <= t < m.tokens.len() && m.tokens[t].subscriber_id == id
}

/// Index of the row with this id (unique in a well-formed store).
pub open spec fn sub_index(m: StoreModel, id: u128) -> int {
    choose|i: int| 0 <= i < m.subs.len() && m.subs[i].id == id
}

/// Index of the token row with this text (unique in a well-formed store).
pub open spec fn token_index(m: StoreModel, token: Seq<char>) -> int {
    choose|i: int| 0 <= i < m.tokens.len() && m.tokens[i].token == token
}

/// What a token lookup yields: the owning subscriber id, if the token is
/// present at all.
pub open spec fn resolve_model(m: StoreModel, token: Seq<char>) -> Option<u128> {
    if has_token(m, token) {
        Some(m.tokens[token_index(m, token)].subscriber_id)
    } else {
        None
    }
}

/// Status of the row with this id.
pub open spec fn status_of(m: StoreModel, id: u128) -> SubscriptionStatus {
    m.subs[sub_index(m, id)].status
}

/// Store invariant: emails, ids and token texts are unique; every token
/// points at an existing row; every row has a deliverable confirmation
/// token; and every row holds validated data.
pub open spec fn wf_model(m: StoreModel) -> bool {
    &&& forall|i: int, j: int|
        0 <= i < m.subs.len() && 0 <= j < m.subs.len() && i != j ==> m.subs[i].email
            != m.subs[j].email
    &&& forall|i: int, j: int|
        0 <= i < m.subs.len() && 0 <= j < m.subs.len() && i != j ==> m.subs[i].id != m.subs[j].id
    &&& forall|i: int, j: int|
        0 <= i < m.tokens.len() && 0 <= j < m.tokens.len() && i != j ==> m.tokens[i].token
            != m.tokens[j].token
    &&& forall|t: int| 0 <= t < m.tokens.len() ==> has_id(m, m.tokens[t].subscriber_id)
    &&& forall|i: int| 0 <= i < m.subs.len() ==> has_token_for(m, #[trigger] m.subs[i].id)
    &&& forall|i: int| 0 <= i < m.subs.len() ==> is_valid_email(#[trigger] m.subs[i].email)
    &&& forall|i: int| 0 <= i < m.subs.len() ==> is_valid_name(#[trigger] m.subs[i].name)
}

/// The store after atomically inserting a pending row and its token.
pub open spec fn insert_model(
    m: StoreModel,
    id: u128,
    token: Seq<char>,
    now: i64,
    name: Seq<char>,
    email: Seq<char>,
) -> StoreModel {
    StoreModel {
        subs: m.subs.push(
            RecordModel {
                id,
                email,
                name,
                subscribed_at: now,
                status: SubscriptionStatus::PendingConfirmation,
            },
        ),
        tokens: m.tokens.push(TokenModel { token, subscriber_id: id }),
    }
}

/// The store after confirming the row with this id; every other row and
/// every token is untouched, and confirming again changes nothing.
pub open spec fn mark_model(m: StoreModel, id: u128) -> StoreModel {
    StoreModel {
        subs: m.subs.map(
            |i: int, r: RecordModel|
                if r.id == id {
                    RecordModel { status: SubscriptionStatus::Confirmed, ..r }
                } else {
                    r
                },
        ),
        tokens: m.tokens,
    }
}

/// Why an insert was refused. `DuplicateEmail` is a client-visible
/// conflict; the two clash variants are internal collisions surfaced as a
/// storage failure.
#[derive(Clone, Copy, Debug, PartialEq, Eq, Structural)]
pub enum InsertError {
    DuplicateEmail,
    IdTaken,
    TokenTaken,
}

/// Why a status update was refused.
#[derive(Clone, Copy, Debug, PartialEq, Eq, Structural)]
pub enum StoreError {
    UnknownSubscriber,
}

/// In-memory subscription store.
pub struct Store {
    subs: Vec<SubscriptionRecord>,
    tokens: Vec<ConfirmationToken>,
}

impl View for Store {
    type V = StoreModel;

    closed spec fn view(&self) -> StoreModel {
        StoreModel {
            subs: self.subs@.map_values(|r: SubscriptionRecord| r@),
            tokens: self.tokens@.map_values(|t: ConfirmationToken| t@),
        }
    }
}

impl Store {
    /// The invariant, stated over the mathematical image.
    pub open spec fn wf(&self) -> bool {
        wf_model(self@)
    }

    /// An empty store.
    pub fn new() -> (r: Store)
        ensures
            r.wf(),
            r@.subs.len() == 0,
            r@.tokens.len() == 0,
    {
        Store { subs: Vec::new(), tokens: Vec::new() }
    }

    /// Whether some row already carries this email address.
    pub fn email_taken(&self, email: &str) -> (b: bool)
        ensures
            b == has_email(self@, email@),
    {
        let n = self.subs.len();
        let mut i: usize = 0;
        while i < n
            invariant
                i <= n,
                n == self@.subs.len(),
                self@.subs == self.subs@.map_values(|r: SubscriptionRecord| r@),
                forall|j: int| 0 <= j < i ==> self@.subs[j].email != email@,
            decreases n - i,
        {
            if str_eq(self.subs[i].email.as_str(), email) {
                proof {
                    assert(self@.subs[i as int].email == email@);
                }
                return true;
            }
            i += 1;
        }
        false
    }

    /// Whether some row already carries this id.
    pub fn id_taken(&self, id: u128) -> (b: bool)
        ensures
            b == has_id(self@, id),
    {
        let n = self.subs.len();
        let mut i: usize = 0;
        while i < n
            invariant
                i <= n,
                n == self@.subs.len(),
                self@.subs == self.subs@.map_values(|r: SubscriptionRecord| r@),
                forall|j: int| 0 <= j < i ==> self@.subs[j].id != id,
            decreases n - i,
        {
            if self.subs[i].id == id {
                proof {
                    assert(self@.subs[i as int].id == id);
                }
                return true;
            }
            i += 1;
        }
        false
    }

    /// Whether some token row already carries this token text.
    pub fn token_taken(&self, token: &str) -> (b: bool)
        ensures
            b == has_token(self@, token@),
    {
        let n = self.tokens.len();
        let mut i: usize = 0;
        while i < n
            invariant
                i <= n,
                n == self@.tokens.len(),
                self@.tokens == self.tokens@.map_values(|t: ConfirmationToken| t@),
                forall|j: int| 0 <= j < i ==> self@.tokens[j].token != token@,
            decreases n - i,
        {
            if str_eq(self.tokens[i].token.as_str(), token) {
                proof {
                    assert(self@.tokens[i as int].token == token@);
                }
                return true;
            }
            i += 1;
        }
        false
    }

    /// Atomically insert a pending subscriber row together with its
    /// confirmation token: either both appear or the store is unchanged.
    /// A duplicate email is a defined conflict, not a crash; an id or
    /// token collision likewise leaves no partial state behind.
    pub fn insert_pending(&mut self, id: u128, token: String, now: i64, ns: &NewSubscriber) -> (r:
        Result<(), InsertError>)
        requires
            old(self).wf(),
            ns.wf(),
        ensures
            final(self).wf(),
            match r {
                Ok(()) => {
                    &&& !has_email(old(self)@, ns.email@)
                    &&& !has_id(old(self)@, id)
                    &&& !has_token(old(self)@, token@)
                    &&& final(self)@ == insert_model(
                        old(self)@,
                        id,
                        token@,
                        now,
                        ns.name@,
                        ns.email@,
                    )
                },
                Err(InsertError::DuplicateEmail) => has_email(old(self)@, ns.email@) && final(self)@
                    == old(self)@,
                Err(InsertError::IdTaken) => !has_email(old(self)@, ns.email@) && has_id(
                    old(self)@,
                    id,
                ) && final(self)@ == old(self)@,
                Err(InsertError::TokenTaken) => !has_email(old(self)@, ns.email@) && !has_id(
                    old(self)@,
                    id,
                ) && has_token(old(self)@, token@) && final(self)@ == old(self)@,
            },
    {
        if self.email_taken(ns.email.as_str()) {
            return Err(InsertError::DuplicateEmail);
        }
        if self.id_taken(id) {
            return Err(InsertError::IdTaken);
        }
        if self.token_taken(token.as_str()) {
            return Err(InsertError::TokenTaken);
        }
        let ghost o = self@;
        let ghost re = RecordModel {
            id,
            email: ns.email@,
            name: ns.name@,
            subscribed_at: now,
            status: SubscriptionStatus::PendingConfirmation,
        };
        let ghost te = TokenModel { token: token@, subscriber_id: id };
        let rec = SubscriptionRecord {
            id,
            email: ns.email.to_text(),
            name: ns.name.to_text(),
            subscribed_at: now,
            status: SubscriptionStatus::PendingConfirmation,
        };
        self.subs.push(rec);
        self.tokens.push(ConfirmationToken { token, subscriber_id: id });
        proof {
            let n = self@;
            assert(n.subs =~= o.subs.push(re));
            assert(n.tokens =~= o.tokens.push(te));
            assert(n =~= insert_model(o, id, te.token, now, re.name, re.email));
            lemma_insert_preserves_wf(o, id, te.token, now, re.name, re.email);
        }
        Ok(())
    }

    /// Set the row with this id to `Confirmed`. Idempotent: confirming an
    /// already-confirmed row succeeds and changes nothing; every other row
    /// and every token is never touched.
    pub fn mark_confirmed(&mut self, id: u128) -> (r: Result<(), StoreError>)
        requires
            old(self).wf(),
        ensures
            final(self).wf(),
            match r {
                Ok(()) => has_id(old(self)@, id) && final(self)@ == mark_model(old(self)@, id),
                Err(StoreError::UnknownSubscriber) => !has_id(old(self)@, id) && final(self)@
                    == old(self)@,
            },
    {
        let n = self.subs.len();
        let mut i: usize = 0;
        while i < n
            invariant
                i <= n,
                n == self@.subs.len(),
                self@ == old(self)@,
                old(self).wf(),
                forall|j: int| 0 <= j < i ==> self@.subs[j].id != id,
            decreases n - i,
        {
            if self.subs[i].id == id {
                let ghost o = self@;
                let email = self.subs[i].email.clone();
                let name = self.subs[i].name.clone();
                let at = self.subs[i].subscribed_at;
                let rec = SubscriptionRecord {
                    id,
                    email,
                    name,
                    subscribed_at: at,
                    status: SubscriptionStatus::Confirmed,
                };
                self.subs.set(i, rec);
                proof {
                    assert(o.subs[i as int].id == id);
                    assert(has_id(o, id));
                    let m = mark_model(o, id);
                    assert forall|j: int| 0 <= j < o.subs.len() implies self@.subs[j] == m.subs[j] by {
                        if j == i as int {
                            assert(self@.subs[j] =~= m.subs[j]);
                        } else {
                            assert(o.subs[j].id != id);
                        }
                    }
                    assert(self@.subs =~= m.subs);
                    assert(self@ =~= m);
                    lemma_mark_preserves_wf(o, id);
                }
                return Ok(());
            }
            i += 1;
        }
        Err(StoreError::UnknownSubscriber)
    }

    /// Look a token up; `Some` exactly when the token text is stored, and
    /// the store is read-only here.
    pub fn resolve(&self, token: &str) -> (r: Option<u128>)
        requires
            self.wf(),
        ensures
            r == resolve_model(self@, token@),
    {
        let n = self.tokens.len();
        let mut i: usize = 0;
        while i < n
            invariant
                i <= n,
                n == self@.tokens.len(),
                self.wf(),
                self@.tokens == self.tokens@.map_values(|t: ConfirmationToken| t@),
                forall|j: int| 0 <= j < i ==> self@.tokens[j].token != token@,
            decreases n - i,
        {
            if str_eq(self.tokens[i].token.as_str(), token) {
                proof {
                    assert(self@.tokens[i as int].token == token@);
                    let w = token_index(self@, token@);
                    assert(self@.tokens[w].token == token@);
                    assert(w == i as int);
                }
                return Some(self.tokens[i].subscriber_id);
            }
            i += 1;
        }
        None
    }

    /// Copies of all currently confirmed rows, in store order; the state
    /// at call time, not a held snapshot.
    pub fn list_confirmed(&self) -> (r: Vec<SubscriptionRecord>)
        ensures
            r@.map_values(|rec: SubscriptionRecord| rec@) == confirmed_of(self@.subs),
    {
        let mut out: Vec<SubscriptionRecord> = Vec::new();
        let n = self.subs.len();
        let mut i: usize = 0;
        while i < n
            invariant
                i <= n,
                n == self@.subs.len(),
                self@.subs == self.subs@.map_values(|rec: SubscriptionRecord| rec@),
                out@.map_values(|rec: SubscriptionRecord| rec@) == confirmed_of(
                    self@.subs.take(i as int),
                ),
            decreases n - i,
        {
            let ghost prefix = self@.subs.take(i as int);
            let ghost prefix1 = self@.subs.take(i as int + 1);
            proof {
                assert(prefix1.drop_last() =~= prefix);
                assert(prefix1.last() == self@.subs[i as int]);
            }
            if self.subs[i].status == SubscriptionStatus::Confirmed {
                let ghost before = out@.map_values(|rec: SubscriptionRecord| rec@);
                let copy = SubscriptionRecord {
                    id: self.subs[i].id,
                    email: self.subs[i].email.clone(),
                    name: self.subs[i].name.clone(),
                    subscribed_at: self.subs[i].subscribed_at,
                    status: SubscriptionStatus::Confirmed,
                };
                proof {
                    assert(copy@ =~= self@.subs[i as int]);
                }
                out.push(copy);
                proof {
                    assert(out@.map_values(|rec: SubscriptionRecord| rec@) =~= before.push(
                        self@.subs[i as int],
                    ));
                }
            }
            i += 1;
        }
        proof {
            assert(self@.subs.take(n as int) =~= self@.subs);
        }
        out
    }

    /// The row carrying this email address, if any.
    pub fn find_by_email(&self, email: &str) -> (r: Option<&SubscriptionRecord>)
        ensures
            match r {
                Some(rec) => {
                    &&& has_email(self@, email@)
                    &&& rec@.email == email@
                    &&& exists|i: int| 0 <= i < self@.subs.len() && self@.subs[i] == rec@
                },
                None => !has_email(self@, email@),
            },
    {
        let n = self.subs.len();
        let mut i: usize = 0;
        while i < n
            invariant
                i <= n,
                n == self@.subs.len(),
                self@.subs == self.subs@.map_values(|rec: SubscriptionRecord| rec@),
                forall|j: int| 0 <= j < i ==> self@.subs[j].email != email@,
            decreases n - i,
        {
            if str_eq(self.subs[i].email.as_str(), email) {
                proof {
                    assert(self@.subs[i as int].email == email@);
                }
                return Some(&self.subs[i]);
            }
            i += 1;
        }
        None
    }

    /// How many subscriber rows the store holds.
    pub fn subscriber_count(&self) -> (n: usize)
        ensures
            n == self@.subs.len(),
    {
        self.subs.len()
    }

    /// How many token rows the store holds.
    pub fn token_count(&self) -> (n: usize)
        ensures
            n == self@.tokens.len(),
    {
        self.tokens.len()
    }
}

/// The confirmed rows of a row sequence, in order.
pub open spec fn confirmed_of(s: Seq<RecordModel>) -> Seq<RecordModel>
    decreases s.len(),
{
    if s.len() == 0 {
        Seq::empty()
    } else if s.last().status == SubscriptionStatus::Confirmed {
        confirmed_of(s.drop_last()).push(s.last())
    } else {
        confirmed_of(s.drop_last())
    }
}

/// The email addresses owed a newsletter: those of the confirmed rows.
pub open spec fn confirmed_emails(m: StoreModel) -> Seq<Seq<char>> {
    confirmed_of(m.subs).map(|i: int, r: RecordModel| r.email)
}

/// Inserting a fresh row and its fresh token preserves the store
/// invariant.
pub proof fn lemma_insert_preserves_wf(
    m: StoreModel,
    id: u128,
    token: Seq<char>,
    now: i64,
    name: Seq<char>,
    email: Seq<char>,
)
    requires
        wf_model(m),
        !has_email(m, email),
        !has_id(m, id),
        !has_token(m, token),
        is_valid_name(name),
        is_valid_email(email),
    ensures
        wf_model(insert_model(m, id, token, now, name, email)),
{
    let n = insert_model(m, id, token, now, name, email);
    assert forall|t: int|
        0 <= t < n.tokens.len() implies has_id(n, #[trigger] n.tokens[t].subscriber_id) by {
        if t < m.tokens.len() {
            assert(has_id(m, m.tokens[t].subscriber_id));
            let wi = choose|i: int|
                0 <= i < m.subs.len() && m.subs[i].id == m.tokens[t].subscriber_id;
            assert(n.subs[wi].id == n.tokens[t].subscriber_id);
        } else {
            assert(n.subs[m.subs.len() as int].id == id);
        }
    }
    assert forall|i: int| 0 <= i < n.subs.len() implies has_token_for(n, #[trigger] n.subs[i].id) by {
        if i < m.subs.len() {
            assert(has_token_for(m, m.subs[i].id));
            let wt = choose|t: int|
                0 <= t < m.tokens.len() && m.tokens[t].subscriber_id == m.subs[i].id;
            assert(n.tokens[wt].subscriber_id == n.subs[i].id);
        } else {
            assert(n.tokens[m.tokens.len() as int].subscriber_id == n.subs[i].id);
        }
    }
}

/// A freshly stored token resolves to the subscriber it was issued for.
pub proof fn lemma_insert_resolves(
    m: StoreModel,
    id: u128,
    token: Seq<char>,
    now: i64,
    name: Seq<char>,
    email: Seq<char>,
)
    requires
        !has_token(m, token),
    ensures
        resolve_model(insert_model(m, id, token, now, name, email), token) == Some(id),
{
    let n = insert_model(m, id, token, now, name, email);
    assert(n.tokens[m.tokens.len() as int].token == token);
    let w = token_index(n, token);
    assert(n.tokens[w].token == token);
    if w < m.tokens.len() {
        assert(m.tokens[w].token != token);
    }
}

/// Confirming a present subscriber makes its status `Confirmed`.
pub proof fn lemma_mark_confirms(m: StoreModel, id: u128)
    requires
        has_id(m, id),
    ensures
        has_id(mark_model(m, id), id),
        status_of(mark_model(m, id), id) == SubscriptionStatus::Confirmed,
{
    let n = mark_model(m, id);
    let wi = choose|i: int| 0 <= i < m.subs.len() && m.subs[i].id == id;
    assert(n.subs[wi].id == id);
    let w = sub_index(n, id);
    assert(n.subs[w].id == id);
    assert(m.subs[w].id == id);
}

/// Confirming twice is the same as confirming once: the second call finds
/// the subscriber, succeeds, and changes nothing.
pub proof fn lemma_mark_idempotent(m: StoreModel, id: u128)
    ensures
        mark_model(mark_model(m, id), id) == mark_model(m, id),
{
    let n = mark_model(m, id);
    let n2 = mark_model(n, id);
    assert forall|j: int| 0 <= j < n.subs.len() implies n2.subs[j] == n.subs[j] by {
        if m.subs[j].id == id {
            assert(n2.subs[j] =~= n.subs[j]);
        }
    }
    assert(n2.subs =~= n.subs);
    assert(n2 =~= n);
}

/// Confirmation is terminal: a row that is already `Confirmed` stays
/// `Confirmed` under any further confirmation, whoever it names.
pub proof fn lemma_confirmation_is_terminal(m: StoreModel, id: u128, j: int)
    requires
        0 <= j < m.subs.len(),
        m.subs[j].status == SubscriptionStatus::Confirmed,
    ensures
        mark_model(m, id).subs[j].status == SubscriptionStatus::Confirmed,
{
}

/// Confirming never touches any other subscriber: rows whose id differs
/// are identical before and after, and the token table is unchanged.
pub proof fn lemma_mark_keeps_others(m: StoreModel, id: u128)
    ensures
        mark_model(m, id).subs.len() == m.subs.len(),
        forall|j: int|
            0 <= j < m.subs.len() && m.subs[j].id != id ==> mark_model(m, id).subs[j] == m.subs[j],
        mark_model(m, id).tokens == m.tokens,
{
}

/// Confirming preserves the store invariant.
pub proof fn lemma_mark_preserves_wf(m: StoreModel, id: u128)
    requires
        wf_model(m),
    ensures
        wf_model(mark_model(m, id)),
{
    let n = mark_model(m, id);
    assert(n.subs.len() == m.subs.len());
    assert forall|i: int| 0 <= i < n.subs.len() implies #[trigger] n.subs[i].email == m.subs[i].email
        && n.subs[i].id == m.subs[i].id && n.subs[i].name == m.subs[i].name by {}
    assert forall|t: int|
        0 <= t < n.tokens.len() implies has_id(n, #[trigger] n.tokens[t].subscriber_id) by {
        assert(has_id(m, m.tokens[t].subscriber_id));
        let wi = choose|i: int| 0 <= i < m.subs.len() && m.subs[i].id == m.tokens[t].subscriber_id;
        assert(n.subs[wi].id == n.tokens[t].subscriber_id);
    }
    assert forall|i: int| 0 <= i < n.subs.len() implies has_token_for(n, #[trigger] n.subs[i].id) by {
        assert(has_token_for(m, m.subs[i].id));
        let wt = choose|t: int| 0 <= t < m.tokens.len() && m.tokens[t].subscriber_id == m.subs[i].id;
        assert(n.tokens[wt].subscriber_id == n.subs[i].id);
    }
}

} // verus!
