pub mod bytecode;
pub mod data;
pub mod instructions;
pub mod laws;
pub mod ops;
pub mod stack;
pub mod traits;
pub mod vm;
