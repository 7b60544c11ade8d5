//! The logic of a workstation for testing the security of UAVs.
//!
//! The heart of the crate is the pane tree of the workspace: panes that
//! hold content items ([`pane`]), arranged by nested splits whose children
//! share the space by flex weights ([`pane_group`], [`layout`],
//! [`geometry`]), and resized by dragging the handle between two of them
//! ([`resize_handle`]).
//!
//! Around it stand the records that the panels show ([`models`]), the
//! stores that keep them ([`repository`], [`memory`], [`task_store`],
//! [`database`], [`vuln_db`]), the agents and their tasks ([`agent`],
//! [`task`]), the scanners ([`scanner`]), and the state and the rules of
//! the panels themselves ([`shell`], [`dashboard`], [`views`], [`kanban`],
//! [`style`]).
//!
//! Nothing here draws or opens a file. But for the clock and the random
//! identifiers, every function takes plain values and returns plain values,
//! and says in its contract what it returns.

pub mod agent;
pub mod app_state;
pub mod clock;
pub mod dashboard;
pub mod database;
pub mod dialog;
pub mod events;
pub mod geometry;
pub mod ident;
pub mod item;
pub mod kanban;
pub mod keybindings;
pub mod layout;
pub mod memory;
pub mod models;
pub mod pane;
pub mod pane_group;
pub mod repository;
pub mod resize_handle;
pub mod scanner;
pub mod sequences;
pub mod shell;
pub mod sidebar;
pub mod style;
pub mod task;
pub mod task_store;
pub mod text;
pub mod ui;
pub mod views;
pub mod vuln_db;
pub mod workspace;
