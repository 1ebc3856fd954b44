//! Core logic of a listener operator: it exposes groups of pods through a
//! derived Service object, publishes the reachable addresses into the
//! Listener's status, and delivers them to pods as a mounted directory of
//! address and port files.
//!
//! All cluster and filesystem I/O lives outside this crate; the functions
//! here compute over plain values handed in by that outer shell.

pub mod address;
pub mod crd;
pub mod csi;
pub mod csi_controller;
pub mod csi_node;
pub mod decimal;
pub mod error;
pub mod identity;
pub mod k8s;
pub mod kv;
pub mod listener_controller;
pub mod pod_dir;
pub mod store;
pub mod strutil;
