//! Core of a stereoscopic rendering session: the shader-fetch rendezvous,
//! the pipeline-builder and session-lifecycle state machines, the per-frame
//! render plan, the fixed cube mesh, and the telemetry counters. The host
//! platform (DOM, GPU context, frame scheduler) is driven from outside this
//! crate; every decision it needs is computed and verified here.

pub mod frame;
pub mod logger;
pub mod mesh;
pub mod pipeline;
pub mod session;
pub mod shader;
