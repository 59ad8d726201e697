//! What holds of the operations of the gateway, stated of what they are given and what they return.
pub mod answers;
pub mod approvals;
pub mod attachments;
pub mod contents;
pub mod controls;
pub mod menus;
pub mod messages;
pub mod models;
pub mod operation;
pub mod permissions;
pub mod permits;
pub mod pictures;
pub mod projects;
pub mod proxied;
pub mod proxied_controls;
pub mod runs;
pub mod service;
pub mod texts;
pub mod threads;
pub mod tools;
pub mod transport;
pub mod turns;
pub mod watching;
