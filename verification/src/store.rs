//! The identity store: the persistence the session manager depends on.
//!
//! The store keeps the three record kinds — users, outstanding verification
//! codes, session-continuation records — and maintains the invariants the
//! manager relies on: ids equal positions (records are never removed), emails
//! are unique and validated, and every manually registered user carries a
//! password hash. Lookups return "not found" as an explicit empty result,
//! never as an error, and email uniqueness is enforced here, atomically with
//! creation.

use vstd::prelude::*;

use crate::errors::AuthError;
use crate::model::{LoginTypes, RefreshToken, User, UserVerificationCode};

verus! {

broadcast use vstd::seq_lib::group_filter_ensures;

/// First element of `s` satisfying `p`, scanning from the front.
pub open spec fn find_first<T>(s: Seq<T>, p: spec_fn(T) -> bool) -> Option<T>
    decreases s.len(),
{
    if s.len() == 0 {
        None
    } else if p(s[0]) {
        Some(s[0])
    } else {
        find_first(s.drop_first(), p)
    }
}

/// When nothing satisfies `p`, nothing is found.
pub proof fn lemma_find_first_none<T>(s: Seq<T>, p: spec_fn(T) -> bool)
    requires
        forall|i: int| 0 <= i < s.len() ==> !p(#[trigger] s[i]),
    ensures
        find_first(s, p) is None,
    decreases s.len(),
{
    if s.len() > 0 {
        assert forall|i: int| 0 <= i < s.drop_first().len() implies !p(
            #[trigger] s.drop_first()[i],
        ) by {
            assert(s.drop_first()[i] == s[i + 1]);
        }
        lemma_find_first_none(s.drop_first(), p);
    }
}

/// When nothing is found, nothing satisfies `p`.
pub proof fn lemma_find_first_none_inv<T>(s: Seq<T>, p: spec_fn(T) -> bool)
    requires
        find_first(s, p) is None,
    ensures
        forall|i: int| 0 <= i < s.len() ==> !p(#[trigger] s[i]),
    decreases s.len(),
{
    if s.len() > 0 {
        lemma_find_first_none_inv(s.drop_first(), p);
        assert forall|i: int| 0 <= i < s.len() implies !p(#[trigger] s[i]) by {
            if i > 0 {
                assert(s.drop_first()[i - 1] == s[i]);
            }
        }
    }
}

/// A match at `i` with none before it is what the scan finds.
pub proof fn lemma_find_first_some<T>(s: Seq<T>, p: spec_fn(T) -> bool, i: int)
    requires
        0 <= i < s.len(),
        p(s[i]),
        forall|k: int| 0 <= k < i ==> !p(#[trigger] s[k]),
    ensures
        find_first(s, p) == Some(s[i]),
    decreases s.len(),
{
    if i > 0 {
        assert(!p(s[0]));
        assert forall|k: int| 0 <= k < i - 1 implies !p(#[trigger] s.drop_first()[k]) by {
            assert(s.drop_first()[k] == s[k + 1]);
        }
        assert(s.drop_first()[i - 1] == s[i]);
        lemma_find_first_some(s.drop_first(), p, i - 1);
    }
}

/// When something satisfies `p`, something is found.
pub proof fn lemma_find_first_exists<T>(s: Seq<T>, p: spec_fn(T) -> bool)
    requires
        exists|i: int| 0 <= i < s.len() && p(#[trigger] s[i]),
    ensures
        find_first(s, p) is Some,
    decreases s.len(),
{
    if !p(s[0]) {
        let i = choose|i: int| 0 <= i < s.len() && p(#[trigger] s[i]);
        assert(s.drop_first()[i - 1] == s[i]);
        lemma_find_first_exists(s.drop_first(), p);
    }
}

/// What the scan finds sits in the sequence and satisfies `p`.
pub proof fn lemma_find_first_is_mem<T>(s: Seq<T>, p: spec_fn(T) -> bool)
    requires
        find_first(s, p) is Some,
    ensures
        exists|i: int| 0 <= i < s.len() && s[i] == find_first(s, p)->0,
        p(find_first(s, p)->0),
    decreases s.len(),
{
    if s.len() > 0 && !p(s[0]) {
        lemma_find_first_is_mem(s.drop_first(), p);
        let j = choose|j: int|
            0 <= j < s.drop_first().len() && s.drop_first()[j] == find_first(s.drop_first(), p)->0;
        assert(s[j + 1] == find_first(s, p)->0);
    }
}

/// The user carries this email.
pub open spec fn user_has_email(email: Seq<char>) -> spec_fn(User) -> bool {
    |u: User| u.email@ == email
}

/// The code record matches this email and code exactly.
pub open spec fn code_matches(email: Seq<char>, code: Seq<char>) -> spec_fn(
    UserVerificationCode,
) -> bool {
    |c: UserVerificationCode| c.email@ == email && c.code@ == code
}

/// The code record belongs to a different email (kept on deletion).
pub open spec fn code_not_for(email: Seq<char>) -> spec_fn(UserVerificationCode) -> bool {
    |c: UserVerificationCode| c.email@ != email
}

/// The record carries this refresh-token value.
pub open spec fn refresh_has_value(value: Seq<char>) -> spec_fn(RefreshToken) -> bool {
    |t: RefreshToken| t.refresh_token@ == value
}

/// The record carries a different refresh-token value (kept on deletion).
pub open spec fn refresh_not_value(value: Seq<char>) -> spec_fn(RefreshToken) -> bool {
    |t: RefreshToken| t.refresh_token@ != value
}

/// The first user holding `email`, if any.
pub open spec fn spec_find_user(users: Seq<User>, email: Seq<char>) -> Option<User> {
    find_first(users, user_has_email(email))
}

/// The first code record matching `(email, code)`, if any.
pub open spec fn spec_find_code(
    codes: Seq<UserVerificationCode>,
    email: Seq<char>,
    code: Seq<char>,
) -> Option<UserVerificationCode> {
    find_first(codes, code_matches(email, code))
}

/// The first record holding the refresh-token value, if any.
pub open spec fn spec_find_refresh(tokens: Seq<RefreshToken>, value: Seq<char>) -> Option<
    RefreshToken,
> {
    find_first(tokens, refresh_has_value(value))
}

/// Payload shape for an explicit token-invalidation request.
#[derive(Debug, Clone)]
pub struct InvalidateTokenPayload {
    pub access_token: String,
}

/// In-memory identity store over the three record kinds.
#[derive(Debug)]
pub struct IdentityStore {
    users: Vec<User>,
    codes: Vec<UserVerificationCode>,
    refresh_tokens: Vec<RefreshToken>,
}

impl IdentityStore {
    /// The stored users, in creation order.
    pub closed spec fn users(&self) -> Seq<User> {
        self.users@
    }

    /// The outstanding verification-code records, in issue order.
    pub closed spec fn codes(&self) -> Seq<UserVerificationCode> {
        self.codes@
    }

    /// The stored session-continuation records, in issue order.
    pub closed spec fn refresh_tokens(&self) -> Seq<RefreshToken> {
        self.refresh_tokens@
    }

    /// Store invariant: a user's id is its position (users are never
    /// removed), emails are unique and well formed, and manual users carry a
    /// password.
    pub open spec fn inv(&self) -> bool {
        &&& forall|i: int|
            0 <= i < self.users().len() ==> (#[trigger] self.users()[i]).id == Some(i as u64)
        &&& forall|i: int, j: int|
            #![trigger self.users()[i], self.users()[j]]
            0 <= i < j < self.users().len() ==> self.users()[i].email@ != self.users()[j].email@
        &&& forall|i: int| 0 <= i < self.users().len() ==> (#[trigger] self.users()[i]).email.wf()
        &&& forall|i: int|
            0 <= i < self.users().len() ==> ((#[trigger] self.users()[i]).login_type
                == LoginTypes::MANUAL ==> self.users()[i].password is Some)
    }

    /// An empty store.
    pub fn new() -> (s: Self)
        ensures
            s.inv(),
            s.users() == Seq::<User>::empty(),
            s.codes() == Seq::<UserVerificationCode>::empty(),
            s.refresh_tokens() == Seq::<RefreshToken>::empty(),
    {
        IdentityStore { users: Vec::new(), codes: Vec::new(), refresh_tokens: Vec::new() }
    }

    /// How many users are stored; the next store-assigned id.
    pub fn user_count(&self) -> (n: usize)
        ensures
            n == self.users().len(),
    {
        self.users.len()
    }

    /// Index of the first user holding `email`, scanning forward.
    fn find_user_index(&self, email: &String) -> (r: Option<usize>)
        ensures
            match r {
                Some(i) => i < self.users().len() && self.users()[i as int].email@ == email@ && (
                forall|k: int| 0 <= k < i ==> (#[trigger] self.users()[k]).email@ != email@),
                None => forall|k: int|
                    0 <= k < self.users().len() ==> (#[trigger] self.users()[k]).email@ != email@,
            },
    {
        let n = self.users.len();
        let mut i: usize = 0;
        while i < n
            invariant
                i <= n == self.users@.len(),
                forall|k: int| 0 <= k < i ==> (#[trigger] self.users@[k]).email@ != email@,
            decreases n - i,
        {
            if self.users[i].email.as_str().eq(email) {
                return Some(i);
            }
            i += 1;
        }
        None
    }

    /// Looks a user up by email; `None` is "not found", never an error.
    pub fn get_user_by_email(&self, email: &String) -> (r: Option<User>)
        ensures
            r == spec_find_user(self.users(), email@),
    {
        match self.find_user_index(email) {
            Some(i) => {
                proof {
                    lemma_find_first_some(self.users(), user_has_email(email@), i as int);
                }
                Some(self.users[i].clone())
            },
            None => {
                proof {
                    lemma_find_first_none(self.users(), user_has_email(email@));
                }
                None
            },
        }
    }

    /// Looks a user up by store-assigned id; `None` is "not found".
    pub fn get_user_by_id(&self, user_id: u64) -> (r: Option<User>)
        requires
            self.inv(),
        ensures
            match r {
                Some(u) => user_id < self.users().len() && u == self.users()[user_id as int],
                None => user_id >= self.users().len(),
            },
    {
        let n = self.users.len();
        if user_id < n as u64 {
            let i = user_id as usize;
            Some(self.users[i].clone())
        } else {
            None
        }
    }

    /// Creates a user with the next id. Fails atomically with `Conflict` when
    /// a user with the same email exists; nothing else changes in that case.
    pub fn create_user(&mut self, new_user: &User) -> (r: Result<User, AuthError>)
        requires
            old(self).inv(),
            new_user.email.wf(),
            new_user.login_type == LoginTypes::MANUAL ==> new_user.password is Some,
        ensures
            final(self).inv(),
            final(self).codes() == old(self).codes(),
            final(self).refresh_tokens() == old(self).refresh_tokens(),
            match spec_find_user(old(self).users(), new_user.email@) {
                Some(_) => r == Err::<User, AuthError>(AuthError::Conflict) && final(self).users()
                    == old(self).users(),
                None => match r {
                    Ok(u) => u == (User {
                        id: Some(old(self).users().len() as u64),
                        name: new_user.name,
                        email: new_user.email,
                        password: new_user.password,
                        is_verified: new_user.is_verified,
                        login_type: new_user.login_type,
                    }) && final(self).users() == old(self).users().push(u),
                    Err(_) => false,
                },
            },
    {
        match self.find_user_index(new_user.email.as_str()) {
            Some(i) => {
                proof {
                    lemma_find_first_some(self.users(), user_has_email(new_user.email@), i as int);
                }
                Err(AuthError::Conflict)
            },
            None => {
                proof {
                    lemma_find_first_none(self.users(), user_has_email(new_user.email@));
                }
                let mut stored = new_user.clone();
                stored.id = Some(self.users.len() as u64);
                let result = stored.clone();
                self.users.push(stored);
                Ok(result)
            },
        }
    }

    /// Records an outstanding verification code for its email.
    pub fn store_verification_code(&mut self, data: UserVerificationCode)
        requires
            old(self).inv(),
        ensures
            final(self).inv(),
            final(self).users() == old(self).users(),
            final(self).refresh_tokens() == old(self).refresh_tokens(),
            final(self).codes() == old(self).codes().push(data),
    {
        self.codes.push(data);
    }

    /// Looks up a code record matching `(email, code)` exactly.
    pub fn get_verification_code(&self, data: &UserVerificationCode) -> (r: Option<
        UserVerificationCode,
    >)
        ensures
            r == spec_find_code(self.codes(), data.email@, data.code@),
    {
        let n = self.codes.len();
        let mut i: usize = 0;
        while i < n
            invariant
                i <= n == self.codes@.len(),
                forall|k: int|
                    0 <= k < i ==> !((#[trigger] self.codes@[k]).email@ == data.email@
                        && self.codes@[k].code@ == data.code@),
            decreases n - i,
        {
            if self.codes[i].email.as_str().eq(data.email.as_str()) && self.codes[i].code.eq(
                &data.code,
            ) {
                proof {
                    lemma_find_first_some(
                        self.codes(),
                        code_matches(data.email@, data.code@),
                        i as int,
                    );
                }
                return Some(self.codes[i].clone());
            }
            i += 1;
        }
        proof {
            lemma_find_first_none(self.codes(), code_matches(data.email@, data.code@));
        }
        None
    }

    /// Deletes every outstanding code for `email`.
    pub fn delete_verification_codes(&mut self, email: &String)
        requires
            old(self).inv(),
        ensures
            final(self).inv(),
            final(self).users() == old(self).users(),
            final(self).refresh_tokens() == old(self).refresh_tokens(),
            final(self).codes() == old(self).codes().filter(code_not_for(email@)),
    {
        let ghost all = self.codes@;
        let n = self.codes.len();
        let mut kept: Vec<UserVerificationCode> = Vec::new();
        let mut i: usize = 0;
        proof {
            reveal(Seq::filter);
            assert(all.subrange(0, 0).filter(code_not_for(email@)) =~= kept@);
        }
        while i < n
            invariant
                i <= n == all.len(),
                all == self.codes@,
                kept@ == all.subrange(0, i as int).filter(code_not_for(email@)),
            decreases n - i,
        {
            if !self.codes[i].email.as_str().eq(email) {
                kept.push(self.codes[i].clone());
            }
            proof {
                reveal(Seq::filter);
                assert(all.subrange(0, i + 1).drop_last() =~= all.subrange(0, i as int));
                assert(all.subrange(0, i + 1).last() == all[i as int]);
            }
            i += 1;
        }
        proof {
            assert(all.subrange(0, n as int) =~= all);
        }
        self.codes = kept;
    }

    /// Records a session-continuation record.
    pub fn store_refresh_token(&mut self, data: RefreshToken)
        requires
            old(self).inv(),
        ensures
            final(self).inv(),
            final(self).users() == old(self).users(),
            final(self).codes() == old(self).codes(),
            final(self).refresh_tokens() == old(self).refresh_tokens().push(data),
    {
        self.refresh_tokens.push(data);
    }

    /// Looks up the record holding a refresh-token value.
    pub fn find_refresh_token(&self, value: &String) -> (r: Option<RefreshToken>)
        ensures
            r == spec_find_refresh(self.refresh_tokens(), value@),
    {
        let n = self.refresh_tokens.len();
        let mut i: usize = 0;
        while i < n
            invariant
                i <= n == self.refresh_tokens@.len(),
                forall|k: int|
                    0 <= k < i ==> (#[trigger] self.refresh_tokens@[k]).refresh_token@ != value@,
            decreases n - i,
        {
            if self.refresh_tokens[i].refresh_token.eq(value) {
                proof {
                    lemma_find_first_some(self.refresh_tokens(), refresh_has_value(value@), i as int);
                }
                return Some(self.refresh_tokens[i].clone());
            }
            i += 1;
        }
        proof {
            lemma_find_first_none(self.refresh_tokens(), refresh_has_value(value@));
        }
        None
    }

    /// Deletes every record holding this refresh-token value and says how
    /// many were removed. After the call no stored record holds the value.
    pub fn delete_refresh_token(&mut self, refresh_token: &String) -> (removed: usize)
        requires
            old(self).inv(),
        ensures
            final(self).inv(),
            final(self).users() == old(self).users(),
            final(self).codes() == old(self).codes(),
            final(self).refresh_tokens() == old(self).refresh_tokens().filter(
                refresh_not_value(refresh_token@),
            ),
            removed == old(self).refresh_tokens().len() - final(self).refresh_tokens().len(),
    {
        let ghost all = self.refresh_tokens@;
        let n = self.refresh_tokens.len();
        let mut kept: Vec<RefreshToken> = Vec::new();
        let mut i: usize = 0;
        proof {
            reveal(Seq::filter);
            assert(all.subrange(0, 0).filter(refresh_not_value(refresh_token@)) =~= kept@);
        }
        while i < n
            invariant
                i <= n == all.len(),
                all == self.refresh_tokens@,
                kept@ == all.subrange(0, i as int).filter(refresh_not_value(refresh_token@)),
                kept@.len() <= i,
            decreases n - i,
        {
            if !self.refresh_tokens[i].refresh_token.eq(refresh_token) {
                kept.push(self.refresh_tokens[i].clone());
            }
            proof {
                reveal(Seq::filter);
                assert(all.subrange(0, i + 1).drop_last() =~= all.subrange(0, i as int));
                assert(all.subrange(0, i + 1).last() == all[i as int]);
            }
            i += 1;
        }
        proof {
            assert(all.subrange(0, n as int) =~= all);
        }
        let remaining = kept.len();
        self.refresh_tokens = kept;
        n - remaining
    }

    /// Flips the verification flag of the user holding `email`, leaving every
    /// other user untouched; reports whether a user matched.
    pub fn update_user_verification(&mut self, email: &String) -> (updated: bool)
        requires
            old(self).inv(),
        ensures
            final(self).inv(),
            final(self).codes() == old(self).codes(),
            final(self).refresh_tokens() == old(self).refresh_tokens(),
            final(self).users().len() == old(self).users().len(),
            forall|i: int|
                0 <= i < old(self).users().len() ==> #[trigger] final(self).users()[i] == (if old(self).users()[i].email@ == email@ {
                    User { is_verified: Some(true), ..old(self).users()[i] }
                } else {
                    old(self).users()[i]
                }),
            updated == (spec_find_user(old(self).users(), email@) is Some),
    {
        match self.find_user_index(email) {
            None => {
                proof {
                    lemma_find_first_none(self.users(), user_has_email(email@));
                }
                false
            },
            Some(i) => {
                proof {
                    lemma_find_first_some(self.users(), user_has_email(email@), i as int);
                }
                self.users[i].is_verified = Some(true);
                proof {
                    assert forall|k: int| 0 <= k < old(self).users().len() implies #[trigger] self.users()[k]
                        == (if old(self).users()[k].email@ == email@ {
                        User { is_verified: Some(true), ..old(self).users()[k] }
                    } else {
                        old(self).users()[k]
                    }) by {
                        if k != i && old(self).users()[k].email@ == email@ {
                            assert(old(self).users()[i as int].email@ == old(self).users()[k].email@);
                        }
                    }
                }
                true
            },
        }
    }
}

/// Any user the finder yields sits in the store, so under the invariant it
/// carries an id and, when manually registered, a password hash.
pub proof fn lemma_found_user_form(s: &IdentityStore, email: Seq<char>)
    requires
        s.inv(),
        spec_find_user(s.users(), email) is Some,
    ensures
        ({
            let u = spec_find_user(s.users(), email)->0;
            &&& u.id is Some
            &&& u.id->0 < s.users().len()
            &&& u.email@ == email
            &&& u.email.wf()
            &&& (u.login_type == LoginTypes::MANUAL ==> u.password is Some)
        }),
{
    lemma_find_first_is_mem(s.users(), user_has_email(email));
}

} // verus!
