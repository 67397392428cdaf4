//! Command-translation layer for a robotics middleware CLI.
//!
//! The library turns typed requests (set a runtime parameter, publish a
//! message on a channel) into the exact argument vectors of the external
//! `ros2` tool, and maps process outcomes back into a uniform result.
//! Spawning the process itself is left to the caller.

pub mod invoke;
pub mod text;
pub mod value;

pub use invoke::ProcessOutcome;
pub use invoke::RosError;
pub use invoke::classify_outcome;
pub use invoke::clamp_to_i16;
pub use invoke::publish_float32_multi_array;
pub use invoke::publish_int16;
pub use invoke::publish_int32;
pub use invoke::set_ros_parameter;
pub use text::trim_str;
pub use value::ParamValue;
pub use value::value_to_cli_string;
