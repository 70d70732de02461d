//! Clients of the services the bar talks to.

pub mod compositor;
