//! Render-graph nodes for an environment-map renderer: resource access
//! tracking and barrier planning, the cubemap assembly node, the skybox
//! pipeline node, and the per-frame input rules that feed them.
pub mod access;
pub mod cubemap;
pub mod input;
pub mod skybox;
