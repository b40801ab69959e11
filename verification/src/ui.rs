//! The state behind the desktop pages. Each page takes a message and says
//! what is to be done outside of it; drawing is not its business.
pub mod achievements;
pub mod add_ons;
pub mod app;
pub mod app_page;
pub mod counter;
pub mod html;
pub mod icons;
pub mod library;
pub mod library_table;
pub mod nav_view;
pub mod number_input;
pub mod settings;
pub mod tools;
