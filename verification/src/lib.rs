//! Host-side orchestrator library for preparing kernel resources (network
//! taps, VFIO passthrough devices, device-file ownership) and assembling the
//! argument vector for an unprivileged hypervisor process.
//!
//! The library holds the decision logic of the two-phase VM lifecycle:
//! configuration sections become device modules (`conf`, `modules`),
//! the privileged phase is planned as explicit action sequences (`plans`,
//! `sysfs`), and the launch phase synthesizes the exact argument vector
//! (`modules`, `vm`). Executing the plans (running link-management commands,
//! writing sysfs control files, changing file ownership, spawning the
//! hypervisor) is left to an unverified front end.

pub mod conf;
pub mod modules;
pub mod plans;
pub mod repo;
pub mod strutil;
pub mod sysfs;
pub mod vm;
