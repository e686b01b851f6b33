//! Configuration types shared between the mycelial daemon and server, and the
//! Bacalhau destination section: its payload and message types, its
//! constructor from a section configuration map, and the decision logic of its
//! event loop.
#![allow(non_camel_case_types)]

pub mod pipe_config;
pub mod frame;
pub mod payload;
pub mod section_loop;
pub mod destination;
pub mod config_map;
pub mod constructor;
pub mod config;
