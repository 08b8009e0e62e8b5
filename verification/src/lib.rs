//! Core logic of a small always-on network device: a persistent boot-mode
//! handoff protocol (how the running application tells a separate bootloader
//! to stay booted or to swap images, across power loss and corruption), a
//! critical-section guard that serializes the singleton non-volatile memory
//! controller among cooperative tasks, and the state machines of the
//! long-running activities (status indicator, update-trigger watcher,
//! diagnostic TCP echo session).
//!
//! Scheduling is strictly cooperative: tasks yield only at explicit
//! suspension points, so any run of operations that crosses no suspension
//! point is atomic with respect to every other task. Each public operation
//! here completes its critical section before returning, which is what makes
//! the guard sound without a blocking mutex.

pub mod boot_store;
pub mod echo;
pub mod guard;
pub mod net_config;
pub mod nonvolatile;
pub mod scheduler;
pub mod tasks;
