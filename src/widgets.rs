use vstd::prelude::*;
use crate::app_states::AppState;

verus! {

/// The first-use screen: offers to sign up or sign in.
pub struct FirstUseWidget<'a> {
    pub app_state: &'a mut AppState,
}

impl<'a> FirstUseWidget<'a> {
    pub fn new(app_state: &'a mut AppState) -> (r: Self)
        ensures
            *r.app_state == *old(app_state),
            *final(app_state) == *final(r.app_state),
    {
        Self { app_state }
    }

    /// Applies one frame's button clicks: sign up, then sign in.
    pub fn apply_clicks(self, sign_up: bool, sign_in: bool)
        ensures
            *final(self.app_state) == (if sign_in {
                AppState::SignIn
            } else if sign_up {
                AppState::SignUp
            } else {
                *old(self.app_state)
            }),
    {
        if sign_up {
            *self.app_state = AppState::SignUp;
        }
        if sign_in {
            *self.app_state = AppState::SignIn;
        }
    }
}

/// The welcome screen: offers to sign in or sign up.
pub struct WelcomeWidget<'a> {
    pub app_state: &'a mut AppState,
}

impl<'a> WelcomeWidget<'a> {
    pub fn new(app_state: &'a mut AppState) -> (r: Self)
        ensures
            *r.app_state == *old(app_state),
            *final(app_state) == *final(r.app_state),
    {
        Self { app_state }
    }

    /// Applies one frame's button clicks: sign in, then sign up.
    pub fn apply_clicks(self, sign_in: bool, sign_up: bool)
        ensures
            *final(self.app_state) == (if sign_up {
                AppState::SignUp
            } else if sign_in {
                AppState::SignIn
            } else {
                *old(self.app_state)
            }),
    {
        if sign_in {
            *self.app_state = AppState::SignIn;
        }
        if sign_up {
            *self.app_state = AppState::SignUp;
        }
    }
}

} // verus!
