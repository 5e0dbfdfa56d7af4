//! The data model: validated credentials and the records the store keeps.

use vstd::prelude::*;

use crate::errors::AuthError;
use crate::hashing::{bcrypt_hash, bcrypt_verify_of};
use crate::validate::{
    email_fault, password_fault, spec_email_error, spec_password_error, valid_email,
    valid_password,
};

verus! {

/// Cost factor handed to the hash primitive.
pub const HASH_COST: u32 = 12;

/// Login provider of an account: a closed variant set.
#[derive(Clone, Copy, Debug, PartialEq, Eq, Structural)]
#[allow(non_camel_case_types)]
pub enum LoginTypes {
    GOOGLE,
    FACEBOOK,
    MANUAL,
}

/// A validated email address. Values exist only through [`Email::parse`], so
/// every one satisfies the email grammar.
#[derive(Debug)]
pub struct Email(String);

impl View for Email {
    type V = Seq<char>;

    closed spec fn view(&self) -> Seq<char> {
        self.0@
    }
}

impl Email {
    /// The held string satisfies the email grammar.
    pub closed spec fn wf(&self) -> bool {
        valid_email(self.0@)
    }

    /// Validates a raw string against the email grammar: empty input and
    /// shape faults are rejected with the matching input fault.
    pub fn parse(email: String) -> (r: Result<Email, AuthError>)
        ensures
            match spec_email_error(email@) {
                Some(f) => r == Err::<Email, AuthError>(AuthError::InvalidInput(f)),
                None => r matches Ok(e) && e@ == email@ && e.wf(),
            },
    {
        match email_fault(email.as_str()) {
            Some(f) => Err(AuthError::InvalidInput(f)),
            None => Ok(Email(email)),
        }
    }

    /// Whether the address is the empty string (never, for parsed values).
    pub fn is_empty(&self) -> (b: bool)
        ensures
            b == (self@.len() == 0),
    {
        self.0.as_str().is_empty()
    }

    /// The address as a string.
    pub fn as_str(&self) -> (s: &String)
        ensures
            s@ == self@,
    {
        &self.0
    }
}

impl Clone for Email {
    /// An equal copy.
    fn clone(&self) -> (r: Self)
        ensures
            r == *self,
            r@ == self@,
    {
        Email(self.0.clone())
    }
}

/// A raw password the policy accepted, or a stored password hash: the same
/// wrapper carries both. Only values returned by [`Password::parse`] are
/// known to satisfy the policy.
#[derive(Debug)]
pub struct Password(String);

impl View for Password {
    type V = Seq<char>;

    closed spec fn view(&self) -> Seq<char> {
        self.0@
    }
}

impl Password {
    /// The held string satisfies the password policy.
    pub closed spec fn wf(&self) -> bool {
        valid_password(self.0@)
    }

    /// Validates a raw string against the password policy: empty, short,
    /// digit-less and punctuation-less inputs are rejected, in that order.
    pub fn parse(password: String) -> (r: Result<Password, AuthError>)
        ensures
            match spec_password_error(password@) {
                Some(f) => r == Err::<Password, AuthError>(AuthError::InvalidInput(f)),
                None => r matches Ok(p) && p@ == password@ && p.wf(),
            },
    {
        match password_fault(password.as_str()) {
            Some(f) => Err(AuthError::InvalidInput(f)),
            None => Ok(Password(password)),
        }
    }

    /// Hashes this password with the salted, cost-factored primitive. The
    /// result, when the primitive succeeds, is a 60-character `$2b$12$...`
    /// hash string — never the plaintext — that the verifier accepts for this
    /// password; the primitive's own failure is an internal error.
    pub fn hash(&self) -> (r: Result<Password, AuthError>)
        ensures
            r matches Ok(h) ==> ({
                &&& bcrypt_verify_of(self@, h@) == Some(true)
                &&& h@.len() == 60
                &&& h@[0] == '$' && h@[1] == '2' && h@[2] == 'b' && h@[3] == '$'
                &&& h@[4] == '1' && h@[5] == '2' && h@[6] == '$'
            }),
            r matches Err(e) ==> e == AuthError::InternalError,
    {
        match bcrypt_hash(self.0.as_str(), HASH_COST) {
            Some(h) => Ok(Password(h)),
            None => Err(AuthError::InternalError),
        }
    }

    /// Whether the value is the empty string (never, for parsed values).
    pub fn is_empty(&self) -> (b: bool)
        ensures
            b == (self@.len() == 0),
    {
        self.0.as_str().is_empty()
    }

    /// The value as a string.
    pub fn as_str(&self) -> (s: &String)
        ensures
            s@ == self@,
    {
        &self.0
    }
}

impl Clone for Password {
    /// An equal copy.
    fn clone(&self) -> (r: Self)
        ensures
            r == *self,
            r@ == self@,
    {
        Password(self.0.clone())
    }
}

/// An identity record. `id` is assigned by the store on creation and absent
/// before persistence; `password` is present only for manually registered
/// users and always holds a hash, never plaintext.
#[derive(Debug)]
pub struct User {
    pub id: Option<u64>,
    pub name: String,
    pub email: Email,
    pub password: Option<Password>,
    pub is_verified: Option<bool>,
    pub login_type: LoginTypes,
}

impl Clone for User {
    /// An equal copy.
    fn clone(&self) -> (r: Self)
        ensures
            r == *self,
    {
        User {
            id: self.id,
            name: self.name.clone(),
            email: self.email.clone(),
            password: match &self.password {
                Some(p) => Some(p.clone()),
                None => None,
            },
            is_verified: self.is_verified,
            login_type: self.login_type,
        }
    }
}

/// Step-by-step construction of a [`User`].
#[derive(Debug)]
pub struct UserBuilder {
    id: Option<u64>,
    name: String,
    email: Email,
    password: Option<Password>,
    is_verified: Option<bool>,
    login_type: LoginTypes,
}

impl UserBuilder {
    /// The user this builder would build.
    pub closed spec fn as_user(self) -> User {
        User {
            id: self.id,
            name: self.name,
            email: self.email,
            password: self.password,
            is_verified: self.is_verified,
            login_type: self.login_type,
        }
    }

    /// A builder for a fresh user: no id, no password, verification unset.
    pub fn new(name: String, email: Email, login_type: LoginTypes) -> (b: Self)
        ensures
            b.as_user() == (User {
                id: None,
                name,
                email,
                password: None,
                is_verified: None,
                login_type,
            }),
    {
        Self { id: None, name, email, password: None, is_verified: None, login_type }
    }

    /// Sets the store-assigned id.
    pub fn id(self, id: u64) -> (b: Self)
        ensures
            b.as_user() == (User { id: Some(id), ..self.as_user() }),
    {
        Self { id: Some(id), ..self }
    }

    /// Sets the stored password (a hash).
    pub fn password(self, password: Password) -> (b: Self)
        ensures
            b.as_user() == (User { password: Some(password), ..self.as_user() }),
    {
        Self { password: Some(password), ..self }
    }

    /// Sets the verification flag.
    pub fn is_verified(self, is_verified: bool) -> (b: Self)
        ensures
            b.as_user() == (User { is_verified: Some(is_verified), ..self.as_user() }),
    {
        Self { is_verified: Some(is_verified), ..self }
    }

    /// The finished user.
    pub fn build(self) -> (u: User)
        ensures
            u == self.as_user(),
    {
        User {
            id: self.id,
            name: self.name,
            email: self.email,
            password: self.password,
            is_verified: self.is_verified,
            login_type: self.login_type,
        }
    }
}

/// An outstanding one-time verification code, keyed by the owner's email.
#[derive(Debug)]
pub struct UserVerificationCode {
    pub email: Email,
    pub code: String,
}

impl Clone for UserVerificationCode {
    /// An equal copy.
    fn clone(&self) -> (r: Self)
        ensures
            r == *self,
    {
        UserVerificationCode { email: self.email.clone(), code: self.code.clone() }
    }
}

/// A session-continuation record: the signed refresh token string is the
/// lookup and delete key.
#[derive(Debug)]
pub struct RefreshToken {
    pub id: Option<u64>,
    pub user_id: Option<u64>,
    pub email: Email,
    pub refresh_token: String,
}

impl Clone for RefreshToken {
    /// An equal copy.
    fn clone(&self) -> (r: Self)
        ensures
            r == *self,
    {
        RefreshToken {
            id: self.id,
            user_id: self.user_id,
            email: self.email.clone(),
            refresh_token: self.refresh_token.clone(),
        }
    }
}

} // verus!
