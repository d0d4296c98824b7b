pub mod watch_list;
pub mod toast;
pub mod exit_modal;
pub mod menu_bar;
pub mod sidebar;
pub mod widgets;
pub mod inspect;
