pub mod clock;
pub mod engine;
pub mod render_context;
pub mod sampler;
pub mod scenes;
pub mod transitions;
