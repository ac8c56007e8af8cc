//! Orchestration logic for chains of processes connected like a shell pipe.
//!
//! The library decides; the caller performs. It models a pipeline builder
//! with plain values, turns it into launch descriptions for each stage,
//! drives the spawn sequence (with rollback of earlier stages when a later
//! one cannot be started), picks the overall status of a join, and plans the
//! clean-up of a pipeline that is released without being joined.
pub mod builder;
pub mod join;
pub mod release;
pub mod spawn;
pub mod stage;

pub use builder::{CommandPipeline, CommandPipelineConfig};
pub use join::{JoinVerdict, WaitReport, join_verdict};
pub use release::{Lifecycle, OnDrop, ReleaseStep, release_plan};
pub use spawn::{Input, Launch, SpawnAction, SpawnEvent, SpawnPlan, Spawner};
pub use stage::{EnvEdit, StageSpec, StreamSpec};
