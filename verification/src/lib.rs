//! The decisions behind HoverDict, a desktop helper that translates the text
//! a user has just selected with the mouse.
pub mod capture;
pub mod dictionary;
pub mod fonts;
pub mod icon;
pub mod json;
pub mod layout;
pub mod llm;
pub mod menu;
pub mod mouse;
pub mod palette;
pub mod popup;
pub mod route;
pub mod taskbar;
pub mod text;
pub mod translator;
pub mod window;
