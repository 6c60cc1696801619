use vstd::prelude::*;

verus! {

/// A bare sign-in page against a local user table.
pub struct TemplateApp {
    pub username: String,
    pub password: String,
    /// The outcome of the last sign-in attempt, if any.
    pub login_status: Option<bool>,
}

impl Default for TemplateApp {
    fn default() -> (r: Self)
        ensures
            r.username@ == Seq::<char>::empty(),
            r.password@ == Seq::<char>::empty(),
            r.login_status is None,
    {
        TemplateApp { username: String::new(), password: String::new(), login_status: None }
    }
}

impl TemplateApp {
    /// Records the answer of the user table: a failed lookup counts as a
    /// failed sign-in.
    pub fn record_sign_in<E>(&mut self, verified: Result<bool, E>)
        ensures
            final(self).username == old(self).username,
            final(self).password == old(self).password,
            final(self).login_status == Some(
                match verified {
                    Ok(valid) => valid,
                    Err(_) => false,
                },
            ),
    {
        match verified {
            Ok(is_valid) => self.login_status = Some(is_valid),
            Err(_) => self.login_status = Some(false),
        }
    }

    /// The message shown under the form.
    pub fn status_message(&self) -> (r: Option<String>)
        ensures
            self.login_status is None <==> r is None,
            self.login_status == Some(true) ==> r.unwrap()@ == "Login successful!"@,
            self.login_status == Some(false) ==> r.unwrap()@ == "Login failed!"@,
    {
        match self.login_status {
            None => None,
            Some(true) => Some(String::from_str("Login successful!")),
            Some(false) => Some(String::from_str("Login failed!")),
        }
    }
}

} // verus!
