use shop_tooling::app_states::{AppState, OpenWindows, ToolTypeSelection, WidgetState};
use shop_tooling::application::{auth_actions, Application, AuthAction};
use shop_tooling::custom_traits::{GetName, GetUuid};
use shop_tooling::description::Description;
use shop_tooling::machine::{Machine, Magazine};
use shop_tooling::settings::SettingsSignUp;
use shop_tooling::template_app::TemplateApp;
use shop_tooling::text::usize_to_string;
use shop_tooling::tools::RotatingToolCategory;
use shop_tooling::user::UserData;
use shop_tooling::widgets::{FirstUseWidget, WelcomeWidget};

fn machine(name: &str) -> Machine {
    Machine::new(name.to_string(), "Maker".to_string(), "M1".to_string(), Description::new("d".to_string()))
}

#[test]
fn magazines_are_numbered_from_one() {
    let m = Magazine::new(2, 4);
    assert_eq!(m.name, "Magazine 3");
    assert_eq!(m.index_in_machine, 2);
    assert_eq!(m.capacity, 4);
    assert_eq!(m.content.len(), 4);
    for slot in &m.content {
        assert!(slot.0.is_none() && slot.1.is_none() && slot.2.is_none() && slot.3.is_none());
        assert_eq!(slot.4.text, "...");
    }
    assert_eq!(Magazine::new(9, 0).name, "Magazine 10");
    assert!(Magazine::new(0, 0).content.is_empty());
}

#[test]
fn machine_gets_its_magazines() {
    let mut m = machine("Lathe");
    m.magazine_count = 3;
    m.add_magazines(10);
    assert_eq!(m.magazines.len(), 3);
    assert_eq!(m.magazines[2].name, "Magazine 3");
    assert_eq!(m.magazines[2].content.len(), 10);
    assert_eq!(m.get_name(), "Lathe");
}

#[test]
fn machine_picker_label() {
    let mut d = UserData::default();
    assert_eq!(d.machine_selection_label(), "No Machines Created");
    d.machines.push(machine("Mill"));
    assert_eq!(d.machine_selection_label(), "Select a Machine");
    d.add_machine(machine("Lathe"));
    assert_eq!(d.selections.selected_machine, Some(1));
    assert_eq!(d.machine_selection_label(), "Lathe");
}

#[test]
fn deleting_a_machine_moves_the_selection() {
    let mut d = UserData::default();
    for n in ["A", "B", "C"] {
        d.add_machine(machine(n));
    }
    d.selections.selected_machine = Some(2);
    d.delete_machine(0);
    assert_eq!(d.machines.len(), 2);
    assert_eq!(d.machines[0].name, "B");
    assert_eq!(d.selections.selected_machine, Some(1));
    d.delete_machine(1);
    assert_eq!(d.selections.selected_machine, None);
    d.selections.selected_machine = Some(0);
    d.add_machine(machine("D"));
    d.selections.selected_machine = Some(0);
    d.delete_machine(1);
    assert_eq!(d.selections.selected_machine, Some(0));
}

#[test]
fn user_menu_offers_by_screen() {
    assert_eq!(auth_actions(AppState::WelcomePage), vec![AuthAction::SignIn, AuthAction::SignUp]);
    assert_eq!(auth_actions(AppState::SignIn), vec![AuthAction::SignUp, AuthAction::WelcomePage]);
    assert_eq!(auth_actions(AppState::SignUp), vec![AuthAction::SignIn, AuthAction::WelcomePage]);
    assert_eq!(auth_actions(AppState::Application), vec![AuthAction::SignOut]);
}

#[test]
fn user_menu_moves_between_screens() {
    let mut app = Application::default();
    app.apply_auth_action(AuthAction::SignOut);
    assert_eq!(app.app_state, AppState::WelcomePage);
    app.apply_auth_action(AuthAction::SignUp);
    assert_eq!(app.app_state, AppState::SignUp);
    app.apply_auth_action(AuthAction::SignIn);
    assert_eq!(app.app_state, AppState::SignIn);
    app.apply_auth_action(AuthAction::WelcomePage);
    assert_eq!(app.app_state, AppState::WelcomePage);
}

#[test]
fn signing_out_forgets_the_user_and_asks_to_save() {
    let mut app = Application::default();
    app.user.username = "ann".to_string();
    app.app_state = AppState::Application;
    app.login_status = true;
    app.apply_auth_action(AuthAction::SignOut);
    assert_eq!(app.app_state, AppState::WelcomePage);
    assert!(app.user.username.is_empty());
    assert!(!app.login_status);
    assert!(app.singletons.should_save_user_data);
    assert!(app.take_save_request());
    assert!(!app.take_save_request());
}

#[test]
fn sign_in_answer_opens_the_application() {
    let mut app = Application::default();
    app.app_state = AppState::SignIn;
    assert!(!app.finish_sign_in(None, None));
    assert!(!app.finish_sign_in(Some(false), None));
    assert_eq!(app.app_state, AppState::SignIn);
    let mut data = UserData::default();
    data.machines.push(machine("Mill"));
    assert!(app.finish_sign_in(Some(true), Some(data)));
    assert_eq!(app.app_state, AppState::Application);
    assert_eq!(app.user.user_data.machines.len(), 1);
}

#[test]
fn registration_answer_returns_to_sign_in() {
    let mut app = Application::default();
    app.app_state = AppState::SignUp;
    app.user.username = "bob".to_string();
    assert!(!app.finish_sign_up(Some(false)));
    assert_eq!(app.user.username, "bob");
    assert!(app.finish_sign_up(Some(true)));
    assert_eq!(app.app_state, AppState::SignIn);
    assert!(app.user.username.is_empty());
}

#[test]
fn confirming_a_new_machine() {
    let mut app = Application::default();
    app.app_state = AppState::Application;
    app.request_add_machine();
    assert_eq!(app.widget_state, WidgetState::AddMachine);
    assert!(app.open_windows.add_machine_window_open);
    app.singletons.machine.name = "Mill".to_string();
    app.singletons.machine.magazine_count = 2;
    app.singletons.magazine.capacity = 24;
    app.confirm_add_machine();
    let m = &app.user.user_data.machines[0];
    assert_eq!(m.name, "Mill");
    assert_eq!(m.magazines.len(), 2);
    assert_eq!(m.magazines[1].content.len(), 24);
    assert_eq!(app.user.user_data.selections.selected_machine, Some(0));
    assert_eq!(app.widget_state, WidgetState::Default);
    assert!(!app.open_windows.add_machine_window_open);
    assert!(app.singletons.machine.name.is_empty());
    assert!(app.singletons.should_save_user_data);
}

#[test]
fn deleting_the_selected_machine() {
    let mut app = Application::default();
    app.request_delete_machine();
    assert!(!app.open_windows.delete_machine_window_open);
    app.user.user_data.add_machine(machine("Mill"));
    app.request_delete_machine();
    assert_eq!(app.widget_state, WidgetState::DeleteMachine);
    app.confirm_delete_machine(0);
    assert!(app.user.user_data.machines.is_empty());
    assert_eq!(app.user.user_data.selections.selected_machine, None);
    assert!(app.singletons.should_save_user_data);
    assert!(!app.open_windows.delete_machine_window_open);
}

#[test]
fn confirming_a_new_tool_uses_the_selected_draft() {
    let mut app = Application::default();
    app.singletons.tool_type_selection = ToolTypeSelection::Rotating;
    app.singletons.rotating_tool.category = RotatingToolCategory::EndMill;
    let draft_id = app.singletons.rotating_tool.uuid.clone();
    app.confirm_add_tool();
    let tools = &app.user.user_data.library.tools;
    assert_eq!(tools.len(), 1);
    assert_ne!(tools[0].get_uuid(), draft_id);
    match &tools[0] {
        shop_tooling::tools::Tool::Rotating(t) => assert_eq!(t.category, RotatingToolCategory::EndMill),
        _ => panic!("expected a rotating tool"),
    }
    assert_eq!(app.singletons.rotating_tool.category, RotatingToolCategory::Empty);
    assert!(app.singletons.should_save_user_data);
    assert!(app.take_save_request());
    app.confirm_add_holder();
    assert_eq!(app.user.user_data.library.holders.len(), 1);
    assert!(app.singletons.should_save_user_data);
}

#[test]
fn windows_close_together() {
    let mut w = OpenWindows::default();
    w.settings_window_open = true;
    w.add_tool_window = true;
    w.reset();
    assert!(!w.settings_window_open && !w.add_tool_window && !w.gripper_window_open);
}

#[test]
fn first_use_and_welcome_buttons() {
    let mut s = AppState::WelcomePage;
    FirstUseWidget::new(&mut s).apply_clicks(true, false);
    assert_eq!(s, AppState::SignUp);
    FirstUseWidget::new(&mut s).apply_clicks(true, true);
    assert_eq!(s, AppState::SignIn);
    WelcomeWidget::new(&mut s).apply_clicks(true, true);
    assert_eq!(s, AppState::SignUp);
    WelcomeWidget::new(&mut s).apply_clicks(false, false);
    assert_eq!(s, AppState::SignUp);
    assert!(!SettingsSignUp::default().show_password);
}

#[test]
fn template_app_records_the_answer() {
    let mut t = TemplateApp::default();
    assert_eq!(t.status_message(), None);
    t.record_sign_in::<()>(Ok(true));
    assert_eq!(t.status_message().unwrap(), "Login successful!");
    t.record_sign_in(Err("no table"));
    assert_eq!(t.login_status, Some(false));
    assert_eq!(t.status_message().unwrap(), "Login failed!");
}

#[test]
fn decimal_text_of_numbers() {
    assert_eq!(usize_to_string(0), "0");
    assert_eq!(usize_to_string(7), "7");
    assert_eq!(usize_to_string(10), "10");
    assert_eq!(usize_to_string(1_234_567), "1234567");
    assert_eq!(usize_to_string(usize::MAX), usize::MAX.to_string());
}
