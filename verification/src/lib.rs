//! Core library of `dot`: a coordinator that lets a parent git repository
//! travel with hidden repositories rooted in its subdirectories.
//!
//! The library owns the logic of the tool: repository-key derivation, the
//! project index, the atomic transaction engine with compensating rollback,
//! and the orchestration rules for multi-repository commands.  Repository
//! primitives, the hosting provider and all file, network and console I/O
//! are external collaborators reached through a thin unverified shell.

pub mod atomic;
pub mod config;
pub mod error;
pub mod git_operations;
pub mod github;
pub mod index;
pub mod repository;
pub mod strutil;
