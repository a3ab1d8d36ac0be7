pub mod agent;
pub mod api_key;
pub mod auth;
pub mod banner;
pub mod base_url;
pub mod cli;
pub mod config;
pub mod customer;
pub mod debug;
pub mod db;
pub mod deploy;
pub mod env;
pub mod expose;
pub mod failure;
pub mod github;
pub mod i18n;
pub mod launch;
pub mod node;
pub mod output;
pub mod project;
pub mod quick_deploy;
pub mod relay;
pub mod runtime_install;
pub mod session;
pub mod shell;
pub mod skill;
pub mod strs;
pub mod text;
pub mod theme;
pub mod view;
