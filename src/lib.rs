//! An interactive administration shell for a message-broker cluster: command
//! dispatch, the shell's state machine, topic-creation input handling,
//! client configuration and the rendering of cluster metadata.

pub mod command;
pub mod config;
pub mod render;
pub mod shell;
pub mod text;
pub mod topic;

pub use command::{parse_command, Command};
pub use config::{bootstrap_servers, client_config, REQUEST_TIMEOUT_SECS};
pub use render::{
    broker_line, creation_report, farewell_line, help_lines, outcome_line, render_brokers,
    render_topics, topic_line, BrokerInfo, ClusterMetadata, TopicInfo, TopicOutcome,
};
pub use shell::{dispatch, run_script, step, ShellState};
pub use text::decimal_text;
pub use topic::{count_from_word, parse_count, topic_request, RequestError, TopicRequest};
