use vstd::prelude::*;
use crate::app_states::{
    AppState, HolderTypeSelection, OpenWindows, ToolTypeSelection, WidgetState,
};
use crate::holders::Holder;
use crate::machine::Machine;
use crate::settings::SettingsSignUp;
use crate::singletons::Singletons;
use crate::tools::Tool;
use crate::user::{User, UserData};

verus! {

/// The choices of the user menu.
#[derive(Clone, Copy, Debug, PartialEq, Eq, Structural)]
pub enum AuthAction {
    SignIn,
    SignUp,
    WelcomePage,
    SignOut,
}

/// Whether the user menu offers `action` on the screen `state`.
pub open spec fn offers(state: AppState, action: AuthAction) -> bool {
    match state {
        AppState::WelcomePage => action == AuthAction::SignIn || action == AuthAction::SignUp,
        AppState::SignIn => action == AuthAction::SignUp || action == AuthAction::WelcomePage,
        AppState::SignUp => action == AuthAction::SignIn || action == AuthAction::WelcomePage,
        AppState::Application => action == AuthAction::SignOut,
    }
}

/// The choices of the user menu on the screen `state`, in menu order.
pub fn auth_actions(state: AppState) -> (r: Vec<AuthAction>)
    ensures
        forall|a: AuthAction| offers(state, a) <==> r@.contains(a),
        r@ == match state {
            AppState::WelcomePage => seq![AuthAction::SignIn, AuthAction::SignUp],
            AppState::SignIn => seq![AuthAction::SignUp, AuthAction::WelcomePage],
            AppState::SignUp => seq![AuthAction::SignIn, AuthAction::WelcomePage],
            AppState::Application => seq![AuthAction::SignOut],
        },
{
    let r = match state {
        AppState::WelcomePage => vec![AuthAction::SignIn, AuthAction::SignUp],
        AppState::SignIn => vec![AuthAction::SignUp, AuthAction::WelcomePage],
        AppState::SignUp => vec![AuthAction::SignIn, AuthAction::WelcomePage],
        AppState::Application => vec![AuthAction::SignOut],
    };
    assert forall|a: AuthAction| offers(state, a) <==> r@.contains(a) by {
        if offers(state, a) {
            if r@[0] == a {
                assert(r@.contains(a));
            } else {
                assert(r@[1] == a);
                assert(r@.contains(a));
            }
        }
    }
    r
}

/// The whole state of the application but its network client.
pub struct Application {
    pub user: User,
    pub login_status: bool,
    pub registration_status: bool,
    pub app_state: AppState,
    pub widget_state: WidgetState,
    pub open_windows: OpenWindows,
    pub settings_sign_up: SettingsSignUp,
    pub singletons: Singletons,
}

impl Default for Application {
    /// Nobody signed in, on the welcome page, with every window closed.
    fn default() -> (r: Self)
        ensures
            r.user.is_fresh(),
            !r.login_status,
            !r.registration_status,
            r.app_state == AppState::WelcomePage,
            r.widget_state == WidgetState::Default,
            r.open_windows.all_closed(),
            !r.settings_sign_up.show_password,
            r.singletons.forms_cleared(),
    {
        Application {
            user: User::default(),
            login_status: false,
            registration_status: false,
            app_state: AppState::WelcomePage,
            widget_state: WidgetState::Default,
            open_windows: OpenWindows::default(),
            settings_sign_up: SettingsSignUp::default(),
            singletons: Singletons::default(),
        }
    }
}

impl Application {
    /// Asks for the user's data to be stored, forgets the user and returns
    /// to the welcome page.
    pub fn sign_out(&mut self)
        ensures
            final(self).singletons == (Singletons {
                should_save_user_data: true,
                ..old(self).singletons
            }),
            final(self).app_state == AppState::WelcomePage,
            !final(self).login_status,
            !final(self).registration_status,
            final(self).user.is_fresh(),
            final(self).widget_state == old(self).widget_state,
            final(self).open_windows == old(self).open_windows,
            final(self).settings_sign_up == old(self).settings_sign_up,
    {
        self.singletons.should_save_user_data = true;
        self.app_state = AppState::WelcomePage;
        self.login_status = false;
        self.registration_status = false;
        self.user = User::default();
    }

    /// Carries out a choice of the user menu. A choice the menu does not
    /// offer on the current screen changes nothing.
    pub fn apply_auth_action(&mut self, action: AuthAction)
        ensures
            !offers(old(self).app_state, action) ==> *final(self) == *old(self),
            offers(old(self).app_state, action) && action != AuthAction::SignOut ==> *final(self)
                == (Application {
                app_state: match action {
                    AuthAction::SignIn => AppState::SignIn,
                    AuthAction::SignUp => AppState::SignUp,
                    _ => AppState::WelcomePage,
                },
                ..*old(self)
            }),
            offers(old(self).app_state, action) && action == AuthAction::SignOut ==> {
                &&& final(self).singletons == (Singletons {
                    should_save_user_data: true,
                    ..old(self).singletons
                })
                &&& final(self).app_state == AppState::WelcomePage
                &&& !final(self).login_status
                &&& !final(self).registration_status
                &&& final(self).user.is_fresh()
            },
    {
        match (self.app_state, action) {
            (AppState::WelcomePage, AuthAction::SignIn) => self.app_state = AppState::SignIn,
            (AppState::WelcomePage, AuthAction::SignUp) => self.app_state = AppState::SignUp,
            (AppState::SignIn, AuthAction::SignUp) => self.app_state = AppState::SignUp,
            (AppState::SignIn, AuthAction::WelcomePage) => self.app_state = AppState::WelcomePage,
            (AppState::SignUp, AuthAction::SignIn) => self.app_state = AppState::SignIn,
            (AppState::SignUp, AuthAction::WelcomePage) => self.app_state = AppState::WelcomePage,
            (AppState::Application, AuthAction::SignOut) => {
                self.singletons.should_save_user_data = true;
                self.sign_out();
            },
            _ => {},
        }
    }

    /// Whether the user's data is to be stored now; the request is cleared.
    pub fn take_save_request(&mut self) -> (r: bool)
        ensures
            r == old(self).singletons.should_save_user_data,
            final(self).singletons == (Singletons {
                should_save_user_data: false,
                ..old(self).singletons
            }),
            final(self).user == old(self).user,
            final(self).app_state == old(self).app_state,
    {
        let r = self.singletons.should_save_user_data;
        self.singletons.should_save_user_data = false;
        r
    }

    /// Takes in the answer to a sign-in attempt, if one has come. On success
    /// the application opens with the user's stored data, and the answer is
    /// used up: then the result is true.
    pub fn finish_sign_in(&mut self, login_status: Option<bool>, user_data: Option<UserData>) -> (r:
        bool)
        ensures
            r == (login_status == Some(true)),
            !r ==> *final(self) == *old(self),
            r ==> final(self).app_state == AppState::Application,
            r ==> final(self).user.user_data == (match user_data {
                Some(d) => d,
                None => old(self).user.user_data,
            }),
            r ==> final(self).user.username == old(self).user.username,
            r ==> final(self).singletons == old(self).singletons,
    {
        if let Some(true) = login_status {
            self.app_state = AppState::Application;
            if let Some(data) = user_data {
                self.user.user_data = data;
            }
            true
        } else {
            false
        }
    }

    /// Takes in the answer to a registration, if one has come. On success
    /// the form is cleared for signing in, and the answer is used up: then
    /// the result is true.
    pub fn finish_sign_up(&mut self, registration_status: Option<bool>) -> (r: bool)
        ensures
            r == (registration_status == Some(true)),
            !r ==> *final(self) == *old(self),
            r ==> final(self).app_state == AppState::SignIn,
            r ==> final(self).user.is_fresh(),
            r ==> final(self).singletons == old(self).singletons,
    {
        if let Some(true) = registration_status {
            self.app_state = AppState::SignIn;
            self.user = User::default();
            true
        } else {
            false
        }
    }

    /// Opens the add-machine window.
    pub fn request_add_machine(&mut self)
        ensures
            *final(self) == (Application {
                widget_state: WidgetState::AddMachine,
                open_windows: OpenWindows { add_machine_window_open: true, ..old(self).open_windows },
                ..*old(self)
            }),
    {
        self.widget_state = WidgetState::AddMachine;
        self.open_windows.add_machine_window_open = true;
    }

    /// Opens the delete-machine window, if a machine is selected.
    pub fn request_delete_machine(&mut self)
        ensures
            old(self).user.user_data.selections.selected_machine is None ==> *final(self) == *old(
                self,
            ),
            old(self).user.user_data.selections.selected_machine is Some ==> *final(self) == (
            Application {
                widget_state: WidgetState::DeleteMachine,
                open_windows: OpenWindows {
                    delete_machine_window_open: true,
                    ..old(self).open_windows
                },
                ..*old(self)
            }),
    {
        if self.user.user_data.selections.selected_machine.is_some() {
            self.widget_state = WidgetState::DeleteMachine;
            self.open_windows.delete_machine_window_open = true;
        }
    }

    /// The add-machine form is confirmed: the machine being edited gets its
    /// magazines, joins the user's machines and is selected; the window
    /// closes, the forms are cleared and the data is to be stored.
    pub fn confirm_add_machine(&mut self)
        requires
            old(self).user.user_data.machines@.len() < usize::MAX,
        ensures
            final(self).user.user_data.machines@.len() == old(self).user.user_data.machines@.len()
                + 1,
            final(self).user.user_data.machines@.drop_last() == old(self).user.user_data.machines@,
            ({
                let m = final(self).user.user_data.machines@.last();
                let f = old(self).singletons.machine;
                &&& m.name == f.name
                &&& m.manufacturer == f.manufacturer
                &&& m.model == f.model
                &&& m.description == f.description
                &&& m.magazine_count == f.magazine_count
                &&& m.magazines@.len() == f.magazines@.len() + f.magazine_count
                &&& m.magazines@.subrange(0, f.magazines@.len() as int) == f.magazines@
                &&& forall|k: int|
                    0 <= k < f.magazine_count ==> crate::machine::Magazine::is_new(
                        #[trigger] m.magazines@[f.magazines@.len() + k],
                        k as usize,
                        old(self).singletons.magazine.capacity,
                    )
            }),
            final(self).user.user_data.selections.selected_machine == Some(
                old(self).user.user_data.machines@.len() as usize,
            ),
            final(self).user.user_data.library == old(self).user.user_data.library,
            final(self).app_state == AppState::Application,
            final(self).widget_state == WidgetState::Default,
            !final(self).open_windows.add_machine_window_open,
            final(self).singletons.forms_blank(),
            final(self).singletons.should_save_user_data,
    {
        let capacity = self.singletons.magazine.capacity;
        let mut machine = Machine::default();
        core::mem::swap(&mut machine, &mut self.singletons.machine);
        machine.add_magazines(capacity);
        self.user.user_data.add_machine(machine);
        self.app_state = AppState::Application;
        self.widget_state = WidgetState::Default;
        self.open_windows.add_machine_window_open = false;
        self.singletons.reset();
        self.singletons.should_save_user_data = true;
    }

    /// The delete-machine window is confirmed for the machine at `index`:
    /// the machine goes, the selection follows, the window closes and the
    /// data is to be stored.
    pub fn confirm_delete_machine(&mut self, index: usize)
        requires
            index < old(self).user.user_data.machines@.len(),
        ensures
            final(self).user.user_data.machines@ == old(self).user.user_data.machines@.remove(
                index as int,
            ),
            final(self).user.user_data.selections.selected_machine == (match old(
                self,
            ).user.user_data.selections.selected_machine {
                None => None,
                Some(s) => if s == index {
                    None
                } else if s > index {
                    Some((s - 1) as usize)
                } else {
                    Some(s)
                },
            }),
            final(self).user.user_data.library == old(self).user.user_data.library,
            final(self).app_state == AppState::Application,
            final(self).widget_state == WidgetState::Default,
            !final(self).open_windows.delete_machine_window_open,
            final(self).singletons.should_save_user_data,
    {
        self.user.user_data.delete_machine(index);
        self.app_state = AppState::Application;
        self.widget_state = WidgetState::Default;
        self.open_windows.delete_machine_window_open = false;
        self.singletons.should_save_user_data = true;
    }

    /// The edit-machine window is applied; edits of the machine itself were
    /// made in place, and `changed` tells whether there were any.
    pub fn confirm_edit_machine(&mut self, changed: bool)
        ensures
            final(self).user == old(self).user,
            final(self).app_state == AppState::Application,
            final(self).widget_state == WidgetState::Default,
            !final(self).open_windows.edit_machine_window_open,
            final(self).singletons.should_save_user_data == (changed
                || old(self).singletons.should_save_user_data),
    {
        if changed {
            self.singletons.should_save_user_data = true;
        }
        self.app_state = AppState::Application;
        self.widget_state = WidgetState::Default;
        self.open_windows.edit_machine_window_open = false;
    }

    /// A task window is cancelled: back to the application, nothing stored.
    pub fn cancel_task_window(&mut self)
        ensures
            *final(self) == (Application { app_state: AppState::Application, ..*old(self) }),
    {
        self.app_state = AppState::Application;
    }

    /// The add-tool form is confirmed: the drafted tool of the selected kind
    /// joins the library under a fresh identifier; the window closes, the
    /// forms are cleared and the data is to be stored.
    pub fn confirm_add_tool(&mut self)
        ensures
            final(self).user.user_data.library.holders@
                == old(self).user.user_data.library.holders@,
            final(self).user.user_data.library.tools@.len()
                == old(self).user.user_data.library.tools@.len() + 1,
            final(self).user.user_data.library.tools@.drop_last()
                == old(self).user.user_data.library.tools@,
            exists|id: String|
                id@.len() == 36 && final(self).user.user_data.library.tools@.last() == (match old(
                    self,
                ).singletons.tool_type_selection {
                    ToolTypeSelection::Rotating => Tool::Rotating(old(self).singletons.rotating_tool),
                    ToolTypeSelection::Turning => Tool::Turning(old(self).singletons.turning_tool),
                }).with_uuid(id),
            final(self).user.user_data.machines@ == old(self).user.user_data.machines@,
            final(self).app_state == AppState::Application,
            final(self).widget_state == WidgetState::Default,
            !final(self).open_windows.add_tool_window,
            final(self).singletons.forms_blank(),
            final(self).singletons.should_save_user_data,
    {
        let tool = match self.singletons.tool_type_selection {
            ToolTypeSelection::Rotating => Tool::Rotating(self.singletons.rotating_tool.clone()),
            ToolTypeSelection::Turning => Tool::Turning(self.singletons.turning_tool.clone()),
        };
        self.user.user_data.library.add_tool(tool);
        self.app_state = AppState::Application;
        self.widget_state = WidgetState::Default;
        self.open_windows.add_tool_window = false;
        self.singletons.reset();
        self.singletons.should_save_user_data = true;
    }

    /// The add-holder form is confirmed: the drafted holder of the selected
    /// kind joins the library under a fresh identifier; the window closes, the
    /// forms are cleared and the data is to be stored.
    pub fn confirm_add_holder(&mut self)
        ensures
            final(self).user.user_data.library.tools@ == old(self).user.user_data.library.tools@,
            final(self).user.user_data.library.holders@.len()
                == old(self).user.user_data.library.holders@.len() + 1,
            final(self).user.user_data.library.holders@.drop_last()
                == old(self).user.user_data.library.holders@,
            exists|id: String|
                id@.len() == 36 && final(self).user.user_data.library.holders@.last() == (match old(
                    self,
                ).singletons.holder_type_selection {
                    HolderTypeSelection::Rotating => Holder::Rotating(
                        old(self).singletons.rotating_holder,
                    ),
                    HolderTypeSelection::Turning => Holder::Turning(
                        old(self).singletons.turning_holder,
                    ),
                }).with_uuid(id),
            final(self).user.user_data.machines@ == old(self).user.user_data.machines@,
            final(self).app_state == AppState::Application,
            final(self).widget_state == WidgetState::Default,
            !final(self).open_windows.add_holder_window,
            final(self).singletons.forms_blank(),
            final(self).singletons.should_save_user_data,
    {
        let holder = match self.singletons.holder_type_selection {
            HolderTypeSelection::Rotating => Holder::Rotating(
                self.singletons.rotating_holder.clone(),
            ),
            HolderTypeSelection::Turning => Holder::Turning(self.singletons.turning_holder.clone()),
        };
        self.user.user_data.library.add_holder(holder);
        self.app_state = AppState::Application;
        self.widget_state = WidgetState::Default;
        self.open_windows.add_holder_window = false;
        self.singletons.reset();
        self.singletons.should_save_user_data = true;
    }
}

} // verus!
