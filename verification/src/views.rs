//! The views: top-level compositions that a router mounts into the layout.

pub mod home;
