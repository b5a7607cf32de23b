//! User data model. Identifiers and timestamps are carried as plain values
//! (a 128-bit id, unix-second timestamps); the hosting process converts them
//! to and from its storage and token representations.

use vstd::prelude::*;
use vstd::string::StrSliceExecFns;

use crate::errors::ServiceError;

verus! {

broadcast use vstd::string::group_string_axioms;

/// A user's identity, as the 128 bits of its unique id.
#[derive(Clone, Copy, Debug, PartialEq, Eq, Structural)]
pub struct UserId {
    pub value: u128,
}

#[derive(Clone, Copy, Debug, PartialEq, Eq, Structural)]
pub enum UserType {
    Admin,
    Regular,
}

/// The claims carried by a session: who the user is, plus the token's
/// expiry as a unix timestamp in seconds.
#[derive(Clone, Debug)]
pub struct UserSummary {
    pub id: UserId,
    pub user_type: UserType,
    pub alias: String,
    pub username: String,
    pub exp: u64,
}

#[derive(Clone, Copy, Debug, PartialEq, Eq, Structural)]
pub struct UserMinInfo {
    pub id: UserId,
    pub user_type: UserType,
}

/// A stored user record; `created_at` and `updated_at` are unix timestamps
/// in seconds.
#[derive(Clone, Debug)]
pub struct UserDetail {
    pub id: UserId,
    pub user_type: UserType,
    pub alias: String,
    pub username: String,
    pub password: String,
    pub email: String,
    pub created_at: i64,
    pub updated_at: i64,
}

/// The fields a caller supplies to create or update a user.
#[derive(Clone, Debug)]
pub struct UserDetailToAddOrUpdate {
    pub alias: String,
    pub username: String,
    pub password: String,
    pub email: String,
}

impl UserSummary {
    pub fn is_admin(&self) -> (r: bool)
        ensures
            r == (self.user_type is Admin),
    {
        matches!(self.user_type, UserType::Admin)
    }

    pub fn is_not_admin(&self) -> (r: bool)
        ensures
            r == !(self.user_type is Admin),
    {
        !self.is_admin()
    }

    pub fn is_regular(&self) -> (r: bool)
        ensures
            r == (self.user_type is Regular),
    {
        matches!(self.user_type, UserType::Regular)
    }

    pub fn min_info(&self) -> (r: UserMinInfo)
        ensures
            r.id == self.id,
            r.user_type == self.user_type,
    {
        UserMinInfo { id: self.id, user_type: self.user_type }
    }
}

impl UserDetail {
    pub fn min_info(&self) -> (r: UserMinInfo)
        ensures
            r.id == self.id,
            r.user_type == self.user_type,
    {
        UserMinInfo { id: self.id, user_type: self.user_type }
    }
}

impl UserMinInfo {
    pub fn is_admin(&self) -> (r: bool)
        ensures
            r == (self.user_type is Admin),
    {
        matches!(self.user_type, UserType::Admin)
    }

    pub fn is_not_admin(&self) -> (r: bool)
        ensures
            r == !(self.user_type is Admin),
    {
        !self.is_admin()
    }

    pub fn is_regular(&self) -> (r: bool)
        ensures
            r == (self.user_type is Regular),
    {
        matches!(self.user_type, UserType::Regular)
    }

    pub fn user_id(&self) -> (r: UserId)
        ensures
            r == self.id,
    {
        self.id
    }
}

/// The whitespace-trimmed form of a character sequence, as `str::trim`
/// produces it.
pub uninterp spec fn trim_of(s: Seq<char>) -> Seq<char>;

/// Relies on str::trim: removes leading and trailing whitespace, a function
/// of the characters alone.
#[verifier::external_body]
fn trim_string(s: &String) -> (r: String)
    ensures
        r@ == trim_of(s@),
        r@.len() <= s@.len(),
{
    s.trim().to_string()
}

/// A detail whose alias field passes validation after trimming.
pub open spec fn alias_ok(detail: UserDetailToAddOrUpdate) -> bool {
    3 <= trim_of(detail.alias@).len() <= 64
}

/// A detail whose username field passes validation after trimming.
pub open spec fn username_ok(detail: UserDetailToAddOrUpdate) -> bool {
    3 <= trim_of(detail.username@).len() <= 64
}

/// A detail whose password field passes validation after trimming.
pub open spec fn password_ok(detail: UserDetailToAddOrUpdate) -> bool {
    8 <= trim_of(detail.password@).len() <= 128
}

/// A value to be stored is first normalized in place and then checked.
pub trait Preprocess {
    fn process(&mut self) -> Result<(), ServiceError>;
}

impl Preprocess for UserDetailToAddOrUpdate {
    /// Trim every text field, then validate lengths in order: alias, then
    /// username, then password. The first violation stops processing — a
    /// later field keeps its submitted value — and the email is trimmed only
    /// once the three checks have passed.
    fn process(&mut self) -> (r: Result<(), ServiceError>)
        ensures
            r is Ok <==> alias_ok(*old(self)) && username_ok(*old(self)) && password_ok(
                *old(self),
            ),
            r is Ok ==> final(self).alias@ == trim_of(old(self).alias@) && final(self).username@
                == trim_of(old(self).username@) && final(self).password@ == trim_of(
                old(self).password@,
            ) && final(self).email@ == trim_of(old(self).email@),
            r matches Err(e) ==> e is Format,
            !alias_ok(*old(self)) ==> r == Err::<(), ServiceError>(
                ServiceError::Format { message: "Username length only 3 - 64!" },
            ),
            alias_ok(*old(self)) && !username_ok(*old(self)) ==> r == Err::<(), ServiceError>(
                ServiceError::Format { message: "Username length only 3 - 64!" },
            ),
            alias_ok(*old(self)) && username_ok(*old(self)) && !password_ok(*old(self)) ==> r
                == Err::<(), ServiceError>(
                ServiceError::Format { message: "Password length only 8 - 128!" },
            ),
    {
        self.alias = trim_string(&self.alias);
        self.username = trim_string(&self.username);
        self.password = trim_string(&self.password);

        if self.alias.unicode_len() < 3 || self.alias.unicode_len() > 64 {
            return Err(ServiceError::Format { message: "Username length only 3 - 64!" });
        }

        if self.username.unicode_len() < 3 || self.username.unicode_len() > 64 {
            return Err(ServiceError::Format { message: "Username length only 3 - 64!" });
        }

        if self.password.unicode_len() < 8 || self.password.unicode_len() > 128 {
            return Err(ServiceError::Format { message: "Password length only 8 - 128!" });
        }
        self.email = trim_string(&self.email);

        Ok(())
    }
}

} // verus!
