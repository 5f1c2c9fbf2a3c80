//! A backend-agnostic graphics layer over an explicit GPU API: it turns a
//! recorded command stream into a synchronized native command stream, with
//! the barriers, layout transitions, queue waits and deferred destruction
//! that the stream needs.
//!
//! Native objects are named by their handles, as plain numbers. The library
//! plans; whoever owns the device records, submits and destroys.

// Plain data of the recording interface.
pub mod types;
pub mod vk;
pub mod convert;

// Resources.
pub mod buffer;
pub mod compute_pipeline;
pub mod descriptor_set;
pub mod graphics_pipeline;
pub mod shader;
pub mod surface;
pub mod texture;

// Recorded commands.
pub mod command_buffer;
pub mod compute_pass;
pub mod render_pass;

// Tracking and synchronization.
pub mod assoc;
pub mod pipeline_tracker;
pub mod resource_state;
pub mod semaphores;
pub mod tracking;
pub mod usage;
pub mod usage_proofs;

// Submission.
pub mod backend;
pub mod backend_proofs;
pub mod encode;
pub mod queue;

// Lifetime of native objects.
pub mod cache;
pub mod caches;
pub mod descriptor_pool;
pub mod garbage_collector;
pub mod release;
pub mod render_pass_cache;

// Device selection.
pub mod device;
