pub mod map;
