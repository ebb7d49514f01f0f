//! Resource management for GPU shader stages and the programs linked from
//! them, written as verified state machines that say which driver operation
//! comes next, together with a formatter for chains of error causes.

pub mod diagnostics;
pub mod lifecycle;
pub mod program;
pub mod protocol;
pub mod shader;
pub mod text;

pub use diagnostics::failure_to_string;
pub use program::Program;
pub use shader::Shader;
