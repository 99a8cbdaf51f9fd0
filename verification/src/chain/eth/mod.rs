pub mod adapter;
pub mod primitives;
