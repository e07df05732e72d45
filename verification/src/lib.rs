//! Repository location and initialization layer of a small version-control
//! tool: resolving a root path to its worktree and metadata directory,
//! validating the on-disk metadata of an existing repository, and planning
//! the creation of a fresh one.

mod config;
mod create;
mod errors;
mod paths;
mod repo;

pub use config::Config;
pub use config::IniConfig;
pub use config::IniDoc;
pub use create::apply_action;
pub use create::apply_plan;
pub use create::create_plan;
pub use create::create_plan_spec;
pub use create::default_config_spec;
pub use create::default_config_text;
pub use create::description_spec;
pub use create::description_text;
pub use create::head_spec;
pub use create::head_text;
pub use create::lemma_apply_plan_as_writes;
pub use create::lemma_non_directory_guard;
pub use create::lemma_non_empty_guard;
pub use create::lemma_plan_idempotent;
pub use create::lemma_scaffold_end_state;
pub use create::plan_writes;
pub use create::scaffold_spec;
pub use create::Action;
pub use create::ActionV;
pub use create::EntryV;
pub use create::GitdirScan;
pub use create::GitdirScanV;
pub use create::PathState;
pub use errors::Error;
pub use errors::ErrorV;
pub use paths::join;
pub use paths::join_spec;
pub use paths::UnvalidatedRepo;
pub use repo::lemma_missing_worktree;
pub use repo::lemma_version_gate;
pub use repo::text_view;
pub use repo::validate_spec;
pub use repo::Repo;
