//! The core of a multi-tenant task and time-tracking service: ownership-scoped
//! CRUD over projects, tasks, labels and time entries, three-way partial
//! updates that tell an absent field from an explicit null, the task-label
//! association with its double ownership check, and the analytics that resolve
//! a reporting period into a date range and aggregate tracked time.
//!
//! All state lives in a [`store::Store`], an explicitly passed value; callers
//! supply the clock and the caller identity, so every rule here is stated in
//! and checked against the contracts alone.

pub mod analytics;
pub mod calendar;
pub mod error;
pub mod labels;
pub mod laws;
pub mod models;
pub mod projects;
pub mod store;
pub mod task_labels;
pub mod tasks;
pub mod time_entries;
