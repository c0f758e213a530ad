//! Who a request is made for.

use vstd::prelude::*;

verus! {

/// The application and the user on whose behalf the agent acts.
#[derive(Debug, PartialEq, Eq)]
pub struct AuthContext {
    pub app_name: String,
    pub user_name: String,
}

impl AuthContext {
    /// The context of `user_name` in the application `app_name`.
    pub fn new(app_name: &str, user_name: &str) -> (context: AuthContext)
        ensures
            context.app_name@ == app_name@,
            context.user_name@ == user_name@,
    {
        AuthContext { app_name: app_name.to_owned(), user_name: user_name.to_owned() }
    }
}

impl Clone for AuthContext {
    fn clone(&self) -> (copy: Self)
        ensures
            copy == *self,
    {
        AuthContext { app_name: self.app_name.clone(), user_name: self.user_name.clone() }
    }
}

} // verus!
