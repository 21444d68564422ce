//! Reports a public function that is nothing but a getter for a state
//! variable of the same name (allowing one leading underscore on the
//! variable): a single-statement body returning exactly that variable.
use vstd::prelude::*;

use crate::ast::{spec_source_line, spec_variable_in_nodes, AnalysisError, ContractDefinition,
    NodeID, SourceUnit, Visibility};
use crate::diagnostics::{Diagnostic, Finding};
use crate::expressions::Expression;
use crate::functions::{FunctionDefinition, FunctionDefinitionContext};
use crate::statements::Statement;
use crate::text::{getter_name_matches, spec_getter_name_matches, spec_str_bytes};
use crate::visitor::AstVisitor;

verus! {

/// A stateless pass: each function definition is judged on its own.
pub struct RedundantGetterFunctionVisitor {
    pub diagnostics: Vec<Diagnostic>,
}

/// A function definition is a redundant getter when it is public and named,
/// returns exactly one value, and its whole body is `return v;` for a state
/// variable `v` of this contract whose name matches the function's (exactly,
/// or with one leading underscore). The finding names the variable; an
/// unreadable span aborts the walk (`None`).
pub open spec fn spec_on_getter_candidate(
    m: Seq<Diagnostic>,
    su: SourceUnit,
    contract: ContractDefinition,
    f: FunctionDefinition,
) -> Option<Seq<Diagnostic>> {
    if f.name@.len() == 0 {
        Some(m)
    } else {
        match f.body {
            None => Some(m),
            Some(body) => {
                if f.return_parameters.parameters@.len() != 1 {
                    Some(m)
                } else if f.visibility != Visibility::Public {
                    Some(m)
                } else if body.statements@.len() != 1 {
                    Some(m)
                } else {
                    match body.statements@[0] {
                        Statement::Return(ret) => match ret.expression {
                            Some(Expression::Identifier(ident)) => {
                                match spec_variable_in_nodes(
                                    contract.nodes@,
                                    ident.referenced_declaration,
                                ) {
                                    None => Some(m),
                                    Some(vd) => {
                                        if spec_getter_name_matches(
                                            spec_str_bytes(vd.name@),
                                            spec_str_bytes(f.name@),
                                        ) {
                                            match spec_source_line(su, spec_str_bytes(f.src@)) {
                                                None => None,
                                                Some(line) => Some(
                                                    m.push(
                                                        Diagnostic {
                                                            contract: contract.id,
                                                            definition: f.id,
                                                            line: Some(line as usize),
                                                            finding: Finding::RedundantGetter {
                                                                state_variable: vd.id,
                                                            },
                                                        },
                                                    ),
                                                ),
                                            }
                                        } else {
                                            Some(m)
                                        }
                                    },
                                }
                            },
                            _ => Some(m),
                        },
                        _ => Some(m),
                    }
                }
            },
        }
    }
}

impl RedundantGetterFunctionVisitor {
    /// A pass that has reported nothing yet.
    pub fn new() -> (r: RedundantGetterFunctionVisitor)
        ensures
            r.diagnostics@ == Seq::<Diagnostic>::empty(),
    {
        RedundantGetterFunctionVisitor { diagnostics: Vec::new() }
    }

    /// The diagnostics reported so far, in the order they were found.
    pub fn diagnostics(&self) -> (r: &Vec<Diagnostic>)
        ensures
            r@ == self.diagnostics@,
    {
        &self.diagnostics
    }

    /// A function definition: reported when it is a redundant getter.
    pub fn on_function_definition(&mut self, context: &FunctionDefinitionContext) -> (r: Result<
        (),
        AnalysisError,
    >)
        ensures
            r is Ok ==> Some(final(self).diagnostics@) == spec_on_getter_candidate(
                old(self).diagnostics@,
                *context.current_source_unit,
                *context.contract_definition,
                *context.function_definition,
            ),
            r is Err ==> spec_on_getter_candidate(
                old(self).diagnostics@,
                *context.current_source_unit,
                *context.contract_definition,
                *context.function_definition,
            ) is None && final(self).diagnostics@ == old(self).diagnostics@ && r == Err::<
                (),
                AnalysisError,
            >(AnalysisError::InvalidSourceSpan),
    {
        let f = context.function_definition;
        if f.name.as_str().is_empty() {
            return Ok(());
        }
        let body = match &f.body {
            Some(body) => body,
            None => {
                return Ok(());
            },
        };
        if f.return_parameters.parameters.len() != 1 {
            return Ok(());
        }
        if !matches!(f.visibility, Visibility::Public) {
            return Ok(());
        }
        if body.statements.len() != 1 {
            return Ok(());
        }
        let ret = match &body.statements[0] {
            Statement::Return(ret) => ret,
            _ => {
                return Ok(());
            },
        };
        let ident = match &ret.expression {
            Some(Expression::Identifier(ident)) => ident,
            _ => {
                return Ok(());
            },
        };
        let vd = match context.contract_definition.variable_declaration(
            ident.referenced_declaration,
        ) {
            Some(vd) => vd,
            None => {
                return Ok(());
            },
        };
        if !getter_name_matches(vd.name.as_str(), f.name.as_str()) {
            return Ok(());
        }
        let line = match context.current_source_unit.source_line(f.src.as_str()) {
            Ok(line) => line,
            Err(e) => {
                return Err(e);
            },
        };
        self.diagnostics.push(
            Diagnostic {
                contract: context.contract_definition.id,
                definition: f.id,
                line: Some(line),
                finding: Finding::RedundantGetter { state_variable: vd.id },
            },
        );
        Ok(())
    }
}

impl Default for RedundantGetterFunctionVisitor {
    fn default() -> (r: RedundantGetterFunctionVisitor)
        ensures
            r.diagnostics@ == Seq::<Diagnostic>::empty(),
    {
        RedundantGetterFunctionVisitor::new()
    }
}

impl AstVisitor for RedundantGetterFunctionVisitor {
    fn visit_function_definition(&mut self, context: &mut FunctionDefinitionContext) -> (r: Result<
        (),
        AnalysisError,
    >) {
        self.on_function_definition(&*context)
    }
}

} // verus!
