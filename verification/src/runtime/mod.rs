pub mod chain_runtime;
