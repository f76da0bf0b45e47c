//! Bindings of the pipeline mechanism to concrete channel libraries.

pub mod crossbeam;
