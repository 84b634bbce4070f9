//! A session gateway between many short-lived proxy connections and one
//! backend authority: token issue and binding, proxy-link bookkeeping,
//! idle-session reclamation, account purges and reply framing.
//!
//! Every function states what it returns or changes over a mathematical
//! model of the gateway's state, and Verus proves the body against it.

pub mod config;
pub mod controller;
pub mod error;
pub mod packers;
pub mod peer;
pub mod services;
pub mod time;
