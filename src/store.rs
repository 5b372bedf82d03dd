use vstd::prelude::*;
use crate::error::AppError;
use crate::records::{Auth, AuthView, User, UserView};
use crate::text::chars_of;

verus! {

/// One account: its credential and its profile, created and deleted together.
#[derive(Debug)]
pub struct Account {
    pub auth: Auth,
    pub user: User,
}

pub ghost struct AccountView {
    pub auth: AuthView,
    pub user: UserView,
}

impl View for Account {
    type V = AccountView;

    open spec fn view(&self) -> AccountView {
        AccountView { auth: self.auth@, user: self.user@ }
    }
}

/// The credential and profile agree on id and email.
pub open spec fn account_paired(a: AccountView) -> bool {
    a.auth.id == a.user.id && a.auth.email == a.user.email
}

/// Whether some account in `s` signs in with `email`.
pub open spec fn email_taken(s: Seq<AccountView>, email: Seq<char>) -> bool {
    exists|i: int| 0 <= i < s.len() && #[trigger] s[i].auth.email == email
}

/// Whether some account in `s` has the id `id`.
pub open spec fn id_taken(s: Seq<AccountView>, id: Seq<char>) -> bool {
    exists|i: int| 0 <= i < s.len() && #[trigger] s[i].auth.id == id
}

/// Every account is paired, and no two share an email or an id.
pub open spec fn accounts_wf(s: Seq<AccountView>) -> bool {
    &&& forall|i: int| 0 <= i < s.len() ==> account_paired(#[trigger] s[i])
    &&& forall|i: int, j: int| 0 <= i < j < s.len() ==> #[trigger] s[i].auth.email != #[trigger] s[j].auth.email
    &&& forall|i: int, j: int| 0 <= i < j < s.len() ==> #[trigger] s[i].auth.id != #[trigger] s[j].auth.id
}

/// Whether `a` comes before `b` in character order, compared from position `i`.
pub open spec fn chars_before_from(a: Seq<char>, b: Seq<char>, i: int) -> bool
    decreases a.len() - i,
{
    if i < 0 || i >= a.len() {
        i >= 0 && i < b.len()
    } else if i >= b.len() {
        false
    } else if a[i] != b[i] {
        a[i] < b[i]
    } else {
        chars_before_from(a, b, i + 1)
    }
}

/// The order of a listing: newer timestamps first, equal timestamps by id.
pub open spec fn listed_before(u: UserView, v: UserView) -> bool {
    u.timestamp > v.timestamp || (u.timestamp == v.timestamp && chars_before_from(u.id, v.id, 0))
}

proof fn lemma_chars_before_asym(a: Seq<char>, b: Seq<char>, i: int)
    requires
        0 <= i,
        chars_before_from(a, b, i),
    ensures
        !chars_before_from(b, a, i),
    decreases a.len() - i,
{
    if i < a.len() && i < b.len() && a[i] == b[i] {
        lemma_chars_before_asym(a, b, i + 1);
    }
}

proof fn lemma_listed_before_asym(u: UserView, v: UserView)
    requires
        listed_before(u, v),
    ensures
        !listed_before(v, u),
{
    if u.timestamp == v.timestamp {
        lemma_chars_before_asym(u.id, v.id, 0);
    }
}

/// The profile `uv` is one of the first `n` accounts' profiles.
pub open spec fn listed_from(s: Seq<AccountView>, n: int, uv: UserView) -> bool {
    exists|j: int| 0 <= j < n && (#[trigger] s[j]).user == uv
}

/// Some entry of the listing is the profile `uv`.
pub open spec fn in_listing(out: Seq<User>, uv: UserView) -> bool {
    exists|k: int| 0 <= k < out.len() && (#[trigger] out[k])@ == uv
}

/// No entry of the listing should come before the one ahead of it.
pub open spec fn sorted_listing(out: Seq<User>) -> bool {
    forall|k: int| 0 <= k < out.len() - 1 ==> !listed_before((#[trigger] out[k + 1])@, out[k]@)
}

#[verifier::spinoff_prover]
proof fn lemma_listing_step(s: Seq<AccountView>, i: int, before: Seq<User>, after: Seq<User>, p: int, u: User)
    requires
        0 <= i < s.len(),
        0 <= p <= before.len(),
        before.len() == i,
        after == before.insert(p, u),
        u@ == s[i].user,
        forall|k: int| 0 <= k < before.len() ==> listed_from(s, i, (#[trigger] before[k])@),
        forall|j: int| 0 <= j < i ==> in_listing(before, (#[trigger] s[j]).user),
        sorted_listing(before),
        forall|k: int| 0 <= k < p ==> !listed_before(u@, (#[trigger] before[k])@),
        p < before.len() ==> listed_before(u@, before[p]@),
    ensures
        forall|k: int| 0 <= k < after.len() ==> listed_from(s, i + 1, (#[trigger] after[k])@),
        forall|j: int| 0 <= j < i + 1 ==> in_listing(after, (#[trigger] s[j]).user),
        sorted_listing(after),
{
    assert forall|k: int| 0 <= k < after.len() implies listed_from(s, i + 1, (#[trigger] after[k])@) by {
        if k == p {
            assert(s[i].user == after[k]@);
        } else {
            let k0 = if k < p { k } else { k - 1 };
            assert(after[k] == before[k0]);
            assert(listed_from(s, i, before[k0]@));
            let j = choose|j: int| 0 <= j < i && (#[trigger] s[j]).user == before[k0]@;
            assert(s[j].user == after[k]@);
        }
    }
    assert forall|j: int| 0 <= j < i + 1 implies in_listing(after, (#[trigger] s[j]).user) by {
        if j == i {
            assert(after[p]@ == s[j].user);
        } else {
            assert(in_listing(before, s[j].user));
            let k0 = choose|k0: int| 0 <= k0 < before.len() && (#[trigger] before[k0])@ == s[j].user;
            if k0 < p {
                assert(after[k0] == before[k0]);
            } else {
                assert(after[k0 + 1] == before[k0]);
            }
        }
    }
    assert forall|k: int| 0 <= k < after.len() - 1 implies !listed_before((#[trigger] after[k + 1])@, after[k]@) by {
        if k + 1 < p {
            assert(after[k + 1] == before[k + 1] && after[k] == before[k]);
            assert(!listed_before(before[k + 1]@, before[k]@));
        } else if k + 1 == p {
            assert(after[k] == before[k] && after[k + 1] == u);
            assert(!listed_before(u@, before[k]@));
        } else if k == p {
            assert(after[k + 1] == before[k] && after[k] == u);
            lemma_listed_before_asym(u@, before[k]@);
        } else {
            assert(after[k + 1] == before[k] && after[k] == before[k - 1]);
            assert(!listed_before(before[(k - 1) + 1]@, before[k - 1]@));
        }
    }
}

/// Decides `chars_before_from(a, b, 0)`.
fn chars_before(a: &String, b: &String) -> (r: bool)
    ensures
        r == chars_before_from(a@, b@, 0),
{
    let x = chars_of(a.as_str());
    let y = chars_of(b.as_str());
    let mut i: usize = 0;
    while i < x.len() && i < y.len() && x[i] == y[i]
        invariant
            i <= x.len(),
            i <= y.len(),
            chars_before_from(x@, y@, i as int) == chars_before_from(x@, y@, 0),
        decreases x.len() - i,
    {
        i = i + 1;
    }
    if i >= x.len() {
        i < y.len()
    } else if i >= y.len() {
        false
    } else {
        x[i] < y[i]
    }
}

fn user_listed_before(u: &User, v: &User) -> (r: bool)
    ensures
        r == listed_before(u@, v@),
{
    u.timestamp > v.timestamp || (u.timestamp == v.timestamp && chars_before(&u.id, &v.id))
}

/// The persistence gateway's model of the credential and user tables: a
/// sequence of accounts in creation order.
pub struct AccountStore {
    accounts: Vec<Account>,
}

impl View for AccountStore {
    type V = Seq<AccountView>;

    closed spec fn view(&self) -> Seq<AccountView> {
        self.accounts@.map_values(|a: Account| a@)
    }
}

impl AccountStore {
    pub open spec fn wf(&self) -> bool {
        accounts_wf(self@)
    }

    /// An empty store.
    pub fn new() -> (r: AccountStore)
        ensures
            r.wf(),
            r@ == Seq::<AccountView>::empty(),
    {
        let r = AccountStore { accounts: Vec::new() };
        proof {
            assert(r@ =~= Seq::<AccountView>::empty());
        }
        r
    }

    /// The number of accounts.
    pub fn count_users(&self) -> (r: usize)
        ensures
            r == self@.len(),
    {
        assert(self@.len() == self.accounts@.len());
        self.accounts.len()
    }

    /// The position of the account that signs in with `email`.
    pub fn position_of_email(&self, email: &str) -> (r: Option<usize>)
        ensures
            match r {
                Some(i) => i < self@.len() && self@[i as int].auth.email == email@,
                None => !email_taken(self@, email@),
            },
    {
        let wanted = String::from_str(email);
        let mut i: usize = 0;
        while i < self.accounts.len()
            invariant
                0 <= i <= self.accounts.len(),
                self@.len() == self.accounts@.len(),
                wanted@ == email@,
                forall|k: int| 0 <= k < i ==> #[trigger] self@[k].auth.email != email@,
            decreases self.accounts.len() - i,
        {
            assert(self@[i as int] == self.accounts@[i as int]@);
            if self.accounts[i].auth.email == wanted {
                return Some(i);
            }
            i = i + 1;
        }
        None
    }

    /// The position of the account with id `id`.
    pub fn position_of_id(&self, id: &str) -> (r: Option<usize>)
        ensures
            match r {
                Some(i) => i < self@.len() && self@[i as int].auth.id == id@,
                None => !id_taken(self@, id@),
            },
    {
        let wanted = String::from_str(id);
        let mut i: usize = 0;
        while i < self.accounts.len()
            invariant
                0 <= i <= self.accounts.len(),
                self@.len() == self.accounts@.len(),
                wanted@ == id@,
                forall|k: int| 0 <= k < i ==> #[trigger] self@[k].auth.id != id@,
            decreases self.accounts.len() - i,
        {
            assert(self@[i as int] == self.accounts@[i as int]@);
            if self.accounts[i].auth.id == wanted {
                return Some(i);
            }
            i = i + 1;
        }
        None
    }

    /// The credential that signs in with `email`.
    pub fn get_credential_by_email(&self, email: &str) -> (r: Option<Auth>)
        ensures
            r is Some <==> email_taken(self@, email@),
            r matches Some(a) ==> exists|i: int| 0 <= i < self@.len() && (#[trigger] self@[i]).auth == a@
                && a@.email == email@,
    {
        match self.position_of_email(email) {
            Some(i) => {
                assert(self@[i as int] == self.accounts@[i as int]@);
                let a = self.accounts[i].auth.duplicate();
                assert(self@[i as int].auth == a@);
                Some(a)
            },
            None => None,
        }
    }

    /// The profile with id `id`.
    pub fn get_user_by_id(&self, id: &str) -> (r: Option<User>)
        ensures
            r is Some <==> id_taken(self@, id@),
            r matches Some(u) ==> exists|i: int| 0 <= i < self@.len() && (#[trigger] self@[i]).user == u@
                && self@[i].auth.id == id@,
    {
        match self.position_of_id(id) {
            Some(i) => {
                assert(self@[i as int] == self.accounts@[i as int]@);
                let u = self.accounts[i].user.duplicate();
                assert(self@[i as int].user == u@);
                Some(u)
            },
            None => None,
        }
    }

    /// The profile of the account that signs in with `email`.
    pub fn get_user_by_email(&self, email: &str) -> (r: Option<User>)
        ensures
            r is Some <==> email_taken(self@, email@),
            r matches Some(u) ==> exists|i: int| 0 <= i < self@.len() && (#[trigger] self@[i]).user == u@
                && self@[i].auth.email == email@,
    {
        match self.position_of_email(email) {
            Some(i) => {
                assert(self@[i as int] == self.accounts@[i as int]@);
                let u = self.accounts[i].user.duplicate();
                assert(self@[i as int].user == u@);
                Some(u)
            },
            None => None,
        }
    }

    /// All profiles, newest timestamp first and equal timestamps by id: each
    /// profile exactly once, in `listed_before` order.
    pub fn list_users(&self) -> (r: Vec<User>)
        ensures
            r@.len() == self@.len(),
            forall|k: int| 0 <= k < r@.len() ==> listed_from(self@, self@.len() as int, (#[trigger] r@[k])@),
            forall|j: int| 0 <= j < self@.len() ==> in_listing(r@, (#[trigger] self@[j]).user),
            sorted_listing(r@),
    {
        let mut out: Vec<User> = Vec::new();
        let mut i: usize = 0;
        while i < self.accounts.len()
            invariant
                i <= self.accounts.len(),
                self@.len() == self.accounts@.len(),
                out@.len() == i,
                forall|k: int| 0 <= k < out@.len() ==> listed_from(self@, i as int, (#[trigger] out@[k])@),
                forall|j: int| 0 <= j < i ==> in_listing(out@, (#[trigger] self@[j]).user),
                sorted_listing(out@),
            decreases self.accounts.len() - i,
        {
            assert(self@[i as int] == self.accounts@[i as int]@);
            let u = self.accounts[i].user.duplicate();
            let mut p: usize = 0;
            while p < out.len() && !user_listed_before(&u, &out[p])
                invariant
                    p <= out.len(),
                    forall|k: int| 0 <= k < p ==> !listed_before(u@, (#[trigger] out@[k])@),
                decreases out.len() - p,
            {
                p = p + 1;
            }
            let ghost before = out@;
            let ghost uv = u;
            out.insert(p, u);
            proof {
                lemma_listing_step(self@, i as int, before, out@, p as int, uv);
            }
            i = i + 1;
        }
        out
    }

    /// Stores a credential and its profile as one unit. Refused with a storage
    /// failure, leaving the store as it was, when the email or the id is
    /// already in use.
    pub fn create_account(&mut self, auth: Auth, user: User) -> (r: Result<(), AppError>)
        requires
            old(self).wf(),
            account_paired(AccountView { auth: auth@, user: user@ }),
        ensures
            final(self).wf(),
            r is Ok <==> !email_taken(old(self)@, auth@.email) && !id_taken(old(self)@, auth@.id),
            r is Ok ==> final(self)@ == old(self)@.push(AccountView { auth: auth@, user: user@ }),
            r is Err ==> final(self)@ == old(self)@,
            r matches Err(e) ==> e is DatabaseError,
    {
        if self.position_of_email(auth.email.as_str()).is_some() {
            return Err(AppError::DatabaseError(String::from_str("credential email already stored")));
        }
        if self.position_of_id(auth.id.as_str()).is_some() {
            return Err(AppError::DatabaseError(String::from_str("account id already stored")));
        }
        let ghost before = self@;
        let ghost added = AccountView { auth: auth@, user: user@ };
        self.accounts.push(Account { auth, user });
        proof {
            assert(self@ =~= before.push(added));
        }
        Ok(())
    }

    /// Replaces the password hash of the credential with id `id`. Answers
    /// whether such a credential exists; the store is otherwise unchanged.
    pub fn update_credential_password(&mut self, id: &str, new_hash: String) -> (r: bool)
        requires
            old(self).wf(),
        ensures
            final(self).wf(),
            r == id_taken(old(self)@, id@),
            final(self)@.len() == old(self)@.len(),
            forall|k: int| 0 <= k < old(self)@.len() ==> (#[trigger] final(self)@[k]) == (
                if old(self)@[k].auth.id == id@ {
                    AccountView { auth: AuthView { password: new_hash@, ..old(self)@[k].auth }, ..old(self)@[k] }
                } else {
                    old(self)@[k]
                }),
    {
        match self.position_of_id(id) {
            Some(i) => {
                let ghost before = self@;
                assert(self@[i as int] == self.accounts@[i as int]@);
                let mut acct = self.accounts.remove(i);
                acct.auth.password = new_hash;
                self.accounts.insert(i, acct);
                proof {
                    assert forall|k: int| 0 <= k < before.len() implies (#[trigger] self@[k]) == (
                        if before[k].auth.id == id@ {
                            AccountView { auth: AuthView { password: new_hash@, ..before[k].auth }, ..before[k] }
                        } else {
                            before[k]
                        }) by {
                        assert(self@[k] == self.accounts@[k]@);
                        if k != i {
                            assert(before[k].auth.id != before[i as int].auth.id);
                        }
                    }
                    assert(self@.len() == before.len());
                }
                true
            },
            None => {
                proof {
                    assert forall|k: int| 0 <= k < self@.len() implies self@[k].auth.id != id@ by {
                        if self@[k].auth.id == id@ {
                            assert(id_taken(self@, id@));
                        }
                    }
                }
                false
            },
        }
    }

    /// Removes the account with id `id`, credential and profile together.
    /// Answers whether there was one.
    pub fn delete_user(&mut self, id: &str) -> (r: bool)
        requires
            old(self).wf(),
        ensures
            final(self).wf(),
            r == id_taken(old(self)@, id@),
            !id_taken(final(self)@, id@),
            r ==> exists|i: int| 0 <= i < old(self)@.len() && (#[trigger] old(self)@[i]).auth.id == id@
                && final(self)@ == old(self)@.remove(i),
            !r ==> final(self)@ == old(self)@,
            forall|k: int| 0 <= k < old(self)@.len() && old(self)@[k].auth.id != id@
                ==> final(self)@.contains(#[trigger] old(self)@[k]),
            forall|k: int| 0 <= k < final(self)@.len() ==> old(self)@.contains(#[trigger] final(self)@[k]),
    {
        match self.position_of_id(id) {
            Some(i) => {
                let ghost before = self@;
                let _gone = self.accounts.remove(i);
                proof {
                    assert(self@ =~= before.remove(i as int));
                    assert forall|k: int| 0 <= k < before.len() && before[k].auth.id != id@
                        implies self@.contains(#[trigger] before[k]) by {
                        if k < i {
                            assert(self@[k] == before[k]);
                        } else {
                            assert(self@[k - 1] == before[k]);
                        }
                    }
                    assert forall|k: int| 0 <= k < self@.len() implies before.contains(#[trigger] self@[k]) by {
                        if k < i {
                            assert(before[k] == self@[k]);
                        } else {
                            assert(before[k + 1] == self@[k]);
                        }
                    }
                    assert forall|k: int| 0 <= k < self@.len() implies self@[k].auth.id != id@ by {
                        if k < i {
                            assert(before[k] == self@[k]);
                        } else {
                            assert(before[k + 1] == self@[k]);
                        }
                    }
                }
                true
            },
            None => {
                proof {
                    assert forall|k: int| 0 <= k < self@.len() implies self@.contains(#[trigger] self@[k]) by {
                        assert(self@[k] == self@[k]);
                    }
                }
                false
            },
        }
    }
}

} // verus!
