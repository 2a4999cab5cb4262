//! Verified bookkeeping for GPU-visible resources: memory arenas, buffer and
//! image bindings, queue selection, pipeline descriptions and the
//! frame-in-flight pacing state machine that drives presentation.

pub mod apps;
pub mod dock;
pub mod gpu;
pub mod math;
