pub mod auto_clean;
pub mod cleanup;
pub mod clock;
pub mod commands;
pub mod config;
pub mod database;
pub mod error;
pub mod grid;
pub mod history;
pub mod i18n;
pub mod history_runs;
pub mod matcher;
pub mod mock;
pub mod notifier;
pub mod privacy;
pub mod qa_cache;
pub mod quick_access;
pub mod rules;
pub mod rules_transfer;
pub mod scheduler;
pub mod shell;
pub mod status;
pub mod text;
pub mod tray_menu;
pub mod winpath;
