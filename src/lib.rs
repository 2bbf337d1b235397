//! Orchestration core of a cluster-management client: resolves commands into
//! resource fetches and long-lived streams, tracks the streams' cancellation
//! handles by category, and decides what each stream step emits.
pub mod command;
pub mod envelope;
pub mod kinds;
pub mod kubeconfig;
pub mod poller;
pub mod registry;
pub mod selector;
pub mod text;
