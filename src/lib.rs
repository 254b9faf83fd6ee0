//! Verified core of a small game engine: the per-category job queues and
//! worker decisions of the job scheduler, the category configuration, the
//! input-state tracker and a small integer linear-algebra library.
pub mod category;
pub mod input_handler;
pub mod job;
pub mod job_queue;
pub mod logger;
pub mod math;
pub mod renderer;
pub mod runtime_id;
pub mod scene;
