//! A stateless HTTP gateway core for an anime metadata service: it decodes
//! form-encoded requests, chooses the upstream endpoint, applies the
//! sub-only and preferred-quality rules to upstream data and renders the
//! result as HTML fragments.

pub mod html;
pub mod model;
pub mod rules;
pub mod render;
pub mod dispatch;
