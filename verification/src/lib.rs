//! Compile-time memoization support: a method-block transformer that rewrites
//! methods into compute-once form, a registry that carries the resulting slot
//! specifications between build passes, and a struct embedder that splices a
//! companion aggregate of lazy slots into the owning type.

pub mod model;
pub mod render;
pub mod registry;
pub mod transform;
pub mod embed;
pub mod slot;

pub use embed::add_cache_field;
pub use transform::impl_cached_method;
