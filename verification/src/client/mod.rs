//! The terminal client's pure side: the forms and screens it shows, the
//! state machine that reacts to keys and server messages, and the side
//! effects that state machine asks the surrounding loop to perform.

pub mod auth_form;
pub mod address;
pub mod config;
pub mod connection_form;
pub mod screen;
pub mod state;
pub mod update;
pub mod input;
pub mod display;
pub mod transport;
