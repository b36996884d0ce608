//! Small verified building blocks. The centre piece is a memoizing
//! evaluator, [`closures::Cacher`], which runs a calculation at most once for
//! every distinct argument; beside it stand a Fibonacci function that files
//! what it has worked out, and short helpers on lists, texts and shapes.

pub mod boxes;
pub mod closures;
pub mod deref;
pub mod enums;
pub mod fib;
pub mod functions;
pub mod generics;
pub mod iterators;
pub mod lifetimes;
pub mod match_control_flow;
pub mod ownership;
pub mod recoverable_errors;
pub mod slice;
pub mod struct_example;
pub mod structs;
pub mod traits;
