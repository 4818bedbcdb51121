//! A protocol-aware fuzzing library: seeded, weighted automata that generate
//! or mutate textual values (JSON and YAML tokens).
pub mod automaton;
pub mod catalog;
pub mod configuration;
pub mod generator;
pub mod helper;
pub mod json;
pub mod mutator;
pub mod numbers;
pub mod randomization;
pub mod randomness;
pub mod skewed;
pub mod text;
pub mod tokenizer;
pub mod weights;
