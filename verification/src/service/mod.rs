pub mod erc20_service;
