//! Tooling inventory for a machine shop: machines, magazines, tools and
//! holders, the screen states of the application around them, and the
//! bar-gripper length calculators.
//!
//! Every length is held in whole micrometres, so that the calculators are
//! exact.
pub mod app_states;
pub mod application;
pub mod custom_traits;
pub mod description;
pub mod gripper;
pub mod gripper_fixed;
pub mod holders;
pub mod ids;
pub mod library;
pub mod machine;
pub mod selection;
pub mod settings;
pub mod singletons;
pub mod template_app;
pub mod text;
pub mod tools;
pub mod user;
pub mod widgets;
