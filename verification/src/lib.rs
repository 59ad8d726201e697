//! The decisions of a gateway that lets one user talk to Codex in Discord: what is accepted, sent,
//! shown and stored, and what must never happen twice.

pub mod admin;
pub mod application;
pub mod approval_ui;
pub mod backup;
pub mod button_laws;
pub mod codec;
pub mod codex_execution;
pub mod codex_transport;
pub mod command_replies;
pub mod commands;
pub mod components;
pub mod config;
pub mod delivery;
pub mod direct_application;
pub mod direct_approval;
pub mod direct_artifacts;
pub mod direct_buttons;
pub mod direct_commands;
pub mod direct_config;
pub mod direct_content;
pub mod direct_control_store;
pub mod direct_conversation;
pub mod direct_daemon;
pub mod direct_delivery;
pub mod direct_image_store;
pub mod direct_images;
pub mod direct_input;
pub mod direct_interaction_store;
pub mod direct_menus;
pub mod direct_migration;
pub mod direct_model_store;
pub mod direct_models;
pub mod direct_run;
pub mod direct_run_actor;
pub mod direct_store;
pub mod direct_workspace;
pub mod discord;
pub mod discord_permissions;
pub mod domain;
pub mod fields;
pub mod files;
pub mod generated_images;
pub mod json;
pub mod laws;
pub mod mcp_details;
pub mod mcp_form;
pub mod mcp_grant_menu;
pub mod mcp_grants;
pub mod mcp_inline;
pub mod numbers;
pub mod operations;
pub mod pages;
pub mod paths;
pub mod program;
pub mod run_grants;
pub mod tables;
pub mod text;
