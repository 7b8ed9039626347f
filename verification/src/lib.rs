//! A resource and execution layer above a real-time graphics device.
//!
//! A caller declares buffers, textures, samplers, bind groups, pipelines and
//! passes in one context, and asks the context once per frame what to draw.
//! The library holds what has to be decided about these resources: which
//! write has to reallocate, which bind groups a reallocation invalidates, which
//! configuration must not be built, and which commands make up a frame. The
//! device itself stays with the caller, who carries the decisions out.
//!
//! Every function is verified against its contract. The contracts speak of
//! the context as plain values, [`state::ManagerView`], and the property
//! that holds throughout is referential consistency: every stored handle
//! resolves, and no bind group points at an allocation that is gone.

pub mod bind_group;
pub mod buffer;
pub mod compute_pass;
pub mod compute_pipeline;
pub mod error;
pub mod frame;
pub mod handle;
pub mod label;
pub mod manager;
pub mod math;
pub mod render_pass;
pub mod render_pipeline;
pub mod sampler;
pub mod shader;
pub mod state;
pub mod surface;
pub mod texel;
pub mod texture;
pub mod vertex;
