use vstd::prelude::*;

verus! {

/// Fewest bytes that a user name may hold.
pub const MIN_NAME_LEN: usize = 3;

/// Fewest bytes that a password may hold.
pub const MIN_PASSWORD_LEN: usize = 6;

/// A registered user as it is kept in the store. The password is kept
/// verbatim: nothing in this crate hashes it.
#[derive(Debug, Clone, PartialEq)]
pub struct User {
    pub name: String,
    pub password: String,
}

/// Why a registration is refused.
#[derive(Debug, Clone, PartialEq)]
pub enum UserError {
    UsernameShort,
    PasswordShort,
    PasswordsDoNotMatch,
    UserAlreadyExists(String),
}

/// A registration request as submitted by a client.
#[derive(Debug, Clone)]
pub struct UserReq {
    name: String,
    password: String,
    confirm_password: String,
}

/// Length in bytes of the UTF-8 encoding of `s`, as `str::len` gives it.
pub open spec fn utf8_len(s: Seq<char>) -> usize {
    vstd::utf8::encode_utf8(s).len() as usize
}

/// What validation of a request made of these three strings gives: the first
/// rule broken, in the order name, password, confirmation; otherwise the user.
pub open spec fn confirm_spec(name: Seq<char>, password: Seq<char>, confirm: Seq<char>) -> Result<
    (Seq<char>, Seq<char>),
    UserError,
> {
    if utf8_len(name) < MIN_NAME_LEN {
        Err(UserError::UsernameShort)
    } else if utf8_len(password) < MIN_PASSWORD_LEN {
        Err(UserError::PasswordShort)
    } else if password != confirm {
        Err(UserError::PasswordsDoNotMatch)
    } else {
        Ok((name, password))
    }
}

impl UserError {
    /// The HTTP status a refused registration is answered with: 409, for
    /// every reason.
    pub fn status(&self) -> (r: u16)
        ensures
            r == 409,
    {
        409
    }

    /// The message shown to a client for this error.
    pub fn message(&self) -> (r: String)
        ensures
            self is UsernameShort ==> r@ == "Username should be at least 3 characters long"@,
            self is PasswordShort ==> r@ == "Password should be at least 6 characters long"@,
            self is PasswordsDoNotMatch ==> r@ == "Passwords do not match"@,
            self matches UserError::UserAlreadyExists(n) ==> r@ == "Username `"@ + n@
                + "` already exists"@,
    {
        match self {
            UserError::UsernameShort => String::from_str("Username should be at least 3 characters long"),
            UserError::PasswordShort => String::from_str("Password should be at least 6 characters long"),
            UserError::PasswordsDoNotMatch => String::from_str("Passwords do not match"),
            UserError::UserAlreadyExists(n) => {
                let r = String::from_str("Username `");
                let r = r.concat(n.as_str());
                r.concat("` already exists")
            },
        }
    }
}

impl UserReq {
    pub fn new(name: String, password: String, confirm_password: String) -> (r: UserReq)
        ensures
            r.name_view() == name@,
            r.password_view() == password@,
            r.confirmation_view() == confirm_password@,
    {
        UserReq { name, password, confirm_password }
    }

    pub closed spec fn name_view(&self) -> Seq<char> {
        self.name@
    }

    pub closed spec fn password_view(&self) -> Seq<char> {
        self.password@
    }

    pub closed spec fn confirmation_view(&self) -> Seq<char> {
        self.confirm_password@
    }

    /// Validates the request: the name holds at least three bytes, the
    /// password at least six, and the confirmation repeats the password.
    pub fn confirm(self) -> (r: Result<User, UserError>)
        ensures
            match confirm_spec(self.name_view(), self.password_view(), self.confirmation_view()) {
                Ok((n, p)) => r matches Ok(u) && u.name@ == n && u.password@ == p,
                Err(e) => r == Err::<User, UserError>(e),
            },
    {
        if self.name.as_str().len() < MIN_NAME_LEN {
            Err(UserError::UsernameShort)
        } else if self.password.as_str().len() < MIN_PASSWORD_LEN {
            Err(UserError::PasswordShort)
        } else if !(self.password == self.confirm_password) {
            Err(UserError::PasswordsDoNotMatch)
        } else {
            Ok(User { name: self.name, password: self.password })
        }
    }
}

} // verus!
