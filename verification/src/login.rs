//! The login details used to sign in.
use vstd::prelude::*;

verus! {

/// An e-mail address and a password.
pub struct Login {
    pub email: String,
    pub password: String,
}

/// The built-in login details: both empty.
pub fn login() -> (l: Login)
    ensures
        l.email@ == Seq::<char>::empty(),
        l.password@ == Seq::<char>::empty(),
{
    Login { email: String::new(), password: String::new() }
}

} // verus!
