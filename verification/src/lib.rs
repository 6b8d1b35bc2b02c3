#![allow(non_camel_case_types, non_snake_case)]

pub mod cards;
pub mod clipboard;
pub mod devices;
pub mod discovery;
pub mod drm;
pub mod event;
pub mod input;
pub mod key_rows;
pub mod keyboard;
pub mod keys;
pub mod main_loop;
pub mod mouse;
pub mod os;
pub mod present;
pub mod setup;
pub mod text;
