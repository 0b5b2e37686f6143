//! The computing parts of the launcher's reusable components.
pub mod account_add_dialog;
pub mod add_resources_dialog;
pub mod instance_create_dialog;
pub mod instance_actions;
pub mod instance_icon;
pub mod minecraft_avatar;
pub mod nav_sidebar;
pub mod running_instances_popover;
pub mod runtime_dialog;
