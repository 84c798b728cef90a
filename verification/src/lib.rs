//! A library of verified logic for managing workspaces of many repositories.
pub mod text;
pub mod scm_type;
pub mod util;
pub mod repository;
pub mod scm_interface;
pub mod manifest;
pub mod path;
pub mod workspace;
pub mod workspace_config;
pub mod ip;
pub mod git_url;
pub mod credential;
pub mod credential_store;
pub mod credential_service;
pub mod env_map;
pub mod sys;
pub mod foreach_command;
pub mod status_check;
pub mod sync_repositories;
pub mod security_service;
pub mod security_audit;
pub mod command_executor;
pub mod scm_backends;
pub mod scm_factory;
pub mod templates;
pub mod rclone;
pub mod s3;
pub mod manifest_service;
pub mod manifest_store;
pub mod git_repository;
pub mod cli_commands;
pub mod cli;
pub mod error;
pub mod result;
pub mod scm_status;
pub mod http;
pub mod audit_report;
