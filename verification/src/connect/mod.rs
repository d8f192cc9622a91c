//! The service mesh.

pub mod ca;
