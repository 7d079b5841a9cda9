//! Supervision logic for a single locally running backend service: exit
//! coordination, readiness probing, restart strategy, termination escalation,
//! log rotation planning and a minimal HTTP/1.1 framing layer.

pub mod backend_config;
pub mod backend_http;
pub mod backend_launch;
pub mod backend_path;
pub mod backend_process_lifecycle;
pub mod backend_readiness;
pub mod backend_restart;
pub mod backend_runtime;
pub mod backend_startup;
pub mod backend_state;
pub mod desktop_bridge;
pub mod encoding;
pub mod exit_cleanup;
pub mod exit_events;
pub mod exit_state;
pub mod http_response;
pub mod json;
pub mod launch_plan;
pub mod lines;
pub mod logging;
pub mod notes;
pub mod numbers;
pub mod origin_policy;
pub mod packaged_webui;
pub mod paths;
pub mod process_control;
pub mod runtime_paths;
pub mod search;
pub mod shell_locale;
pub mod startup_loading;
pub mod startup_mode;
pub mod text;
pub mod urls;
pub mod webui_paths;
