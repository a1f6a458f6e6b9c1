pub mod constants;
pub mod definitions;
pub mod enums;
pub mod functions;
