//! Host-side bridge for values crossing the boundary of an embedded
//! scripting runtime.
//!
//! The crate has three parts: [`registry::AutoIdMap`], an incrementing-id
//! keyed store used to mint collision-free correlation ids; the
//! [`facade::EsValueFacade`] snapshot type with its conversions from and to
//! the runtime's value representation, modelled by [`native::NativeValue`];
//! and [`bridge::PromiseBridge`], the per-worker correlation table that lets
//! a host thread block until a scripted asynchronous value settles.

pub mod bridge;
pub mod convert;
pub mod facade;
pub mod native;
pub mod registry;
pub mod render;
