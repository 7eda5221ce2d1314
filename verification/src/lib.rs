//! A progressive Monte Carlo ray tracer core.
//!
//! The library renders a static triangle-mesh scene by repeatedly generating
//! camera rays, handing them to a spatial-index backend for nearest-hit and
//! any-hit queries, shading the hit points with direct-light sampling, and
//! accumulating the noisy per-frame samples into a converging image.
//!
//! All scalar quantities (colors, distances, areas) are Q16.16 fixed-point
//! integers, so every arithmetic step has an exact contract.  The GPU backend
//! (device buffers, intersection queries, presentation) lives outside the
//! library; the library produces the frame plans, the packed buffer contents
//! and the per-pixel shading results, and consumes the backend's intersection
//! results as plain values.

pub mod emitter;
pub mod geometry;
pub mod image;
pub mod intersector;
pub mod layout;
pub mod noise;
pub mod passes;
pub mod rayintersector;
pub mod raytracer;
pub mod scalar;
pub mod vecmath;
