//! A request and reply server for many clients, as a library: the frames
//! that clients send, the session a client goes through from sign-in to
//! authentication, and the table of slots through which connections hand
//! commands to workers and get answers back. Listening, reading and writing
//! sockets, threads and pauses are left to the program that uses it.

pub mod common;
pub mod connection;
pub mod consts;
pub mod handler;
pub mod json;
pub mod options;
pub mod processing;
pub mod protocol;
pub mod text;
pub mod transport;
