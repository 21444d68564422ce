//! A static-analysis engine for compiled Solidity abstract syntax trees: a
//! single depth-first walk dispatches typed node events to a set of analysis
//! passes, the central one a data-flow checker for state mutation after an
//! external call.
pub mod analyzers;
pub mod assert_usage;
pub mod assoc;
pub mod ast;
pub mod check_effects_interactions;
pub mod diagnostics;
pub mod explicit_variable_return;
pub mod expressions;
pub mod functions;
pub mod redundant_getter_function;
pub mod safe_erc20_functions;
pub mod statements;
pub mod text;
pub mod unused_return;
pub mod visitor;
pub mod walker;
pub mod yul;
