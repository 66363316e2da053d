pub mod breadcrumb;
pub mod card;
pub mod menu;
pub mod message;
pub mod panel;
pub mod tabs;
