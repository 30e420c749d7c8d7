//! A small user service: a greeting endpoint and a user-creation endpoint,
//! served only after the document store has answered a ping.
//!
//! The request handlers and the startup gate are verified; the HTTP server,
//! JSON decoding and database round-trips live in the application around it.
pub mod handlers;
pub mod startup;
