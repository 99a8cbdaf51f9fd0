pub mod adapter;
