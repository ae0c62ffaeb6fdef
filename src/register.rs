use vstd::prelude::*;

use crate::store::Db;
use crate::user::{confirm_spec, User, UserError, UserReq};

verus! {

/// What a registration answers once the store has said whether `user`'s name
/// was free: the user where it was, a conflict naming the user otherwise.
pub fn conclude(user: User, created: bool) -> (r: Result<User, UserError>)
    ensures
        created ==> r == Ok::<User, UserError>(user),
        !created ==> r == Err::<User, UserError>(UserError::UserAlreadyExists(user.name)),
{
    if created {
        Ok(user)
    } else {
        Err(UserError::UserAlreadyExists(user.name))
    }
}

/// Validates `req` and, if it is valid, stores the user under its name. A
/// refused request leaves the store untouched. A valid one succeeds exactly
/// when the name was free, and the user is then stored under it; where the
/// name was taken the answer is a conflict naming it and the stored user is
/// left alone.
pub fn create_user(db: &mut Db<String, User>, req: UserReq) -> (r: Result<User, UserError>)
    ensures
        match confirm_spec(req.name_view(), req.password_view(), req.confirmation_view()) {
            Err(e) => r == Err::<User, UserError>(e) && final(db)@ == old(db)@,
            Ok((n, p)) => {
                &&& (r is Ok) == !old(db)@.contains_key(n)
                &&& r matches Ok(u) ==> u.name@ == n && u.password@ == p && final(db)@
                    == old(db)@.insert(n, u)
                &&& r matches Err(UserError::UserAlreadyExists(taken)) ==> taken@ == n
                &&& r is Err ==> (r matches Err(UserError::UserAlreadyExists(_))) && final(db)@
                    == old(db)@
            },
        },
{
    let user = match req.confirm() {
        Ok(u) => u,
        Err(e) => return Err(e),
    };
    let stored = User { name: user.name.clone(), password: user.password.clone() };
    let created = db.create(user.name.clone(), stored);
    conclude(user, created)
}

} // verus!
