//! Decision logic of an interactive tool that signs in to the Discord REST
//! API with a token, lists the guilds of the account and leaves the ones the
//! user confirms.
//!
//! The library never touches the network or the console. It builds the
//! requests, interprets the replies and drives the dialogue as a state
//! machine; a thin driver performs the actions it asks for.

pub mod guild;
pub mod http;
pub mod json;
pub mod leaver;
pub mod lister;
pub mod notice;
pub mod session;
pub mod startup;
pub mod text;
pub mod validator;
