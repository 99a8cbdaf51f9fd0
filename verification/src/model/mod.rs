pub mod keyring;
pub mod listening;
