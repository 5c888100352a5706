//! A virtual soda machine: inventory, prices, coin slot and purchase log,
//! with every rule of the machine stated as a contract and proved.

pub mod controller;
pub mod laws;
pub mod model;
pub mod prompts;
pub mod text;
pub mod view;
