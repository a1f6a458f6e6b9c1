pub mod cq;
pub mod enter;
pub mod ring;
pub mod sq;
pub mod syscalls;
pub mod utility;
