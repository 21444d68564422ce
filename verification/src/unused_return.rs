//! Reports an expression statement that calls a function with a non-empty
//! return list and discards the returned values.
use vstd::prelude::*;

use crate::ast::{definition_id, find_function_and_contract, spec_definition_id,
    spec_find_function_and_contract, AnalysisError, ContractDefinitionNode, NodeID, SourceUnit};
use crate::diagnostics::{Diagnostic, Finding};
use crate::expressions::{spec_root_expression, Expression};
use crate::statements::{Statement, StatementContext};
use crate::visitor::AstVisitor;

verus! {

/// Resolves discarded calls against the full set of source units it was
/// created over.
pub struct UnusedReturnVisitor<'a> {
    pub source_units: &'a Vec<SourceUnit>,
    pub diagnostics: Vec<Diagnostic>,
}

/// The declaration a discarded call statement's callee resolves to: the root
/// of the called expression must be an identifier, or a member access with a
/// resolved member.
pub open spec fn spec_discarded_callee(stmt: Statement) -> Option<NodeID> {
    match stmt {
        Statement::ExpressionStatement(es) => {
            let callee = match es.expression {
                Expression::FunctionCall(call) => Some(*call.expression),
                Expression::FunctionCallOptions(fco) => Some(*fco.expression),
                _ => None,
            };
            match callee {
                None => None,
                Some(callee_expression) => match spec_root_expression(callee_expression) {
                    Some(Expression::Identifier(ident)) => Some(ident.referenced_declaration),
                    Some(Expression::MemberAccess(ma)) => ma.referenced_declaration,
                    _ => None,
                },
            }
        },
        _ => None,
    }
}

/// A statement that discards the result of a call to a function declared
/// with a non-empty return list is reported against the called declaration,
/// when the statement stands in a function or modifier.
pub open spec fn spec_on_discarded_return(
    m: Seq<Diagnostic>,
    units: Seq<SourceUnit>,
    cid: NodeID,
    dn: ContractDefinitionNode,
    stmt: Statement,
) -> Seq<Diagnostic> {
    match spec_discarded_callee(stmt) {
        None => m,
        Some(rid) => match spec_find_function_and_contract(units, rid) {
            None => m,
            Some(pair) => {
                if pair.1.return_parameters.parameters@.len() == 0 {
                    m
                } else {
                    match spec_definition_id(dn) {
                        None => m,
                        Some(fid) => m.push(
                            Diagnostic {
                                contract: cid,
                                definition: fid,
                                line: None,
                                finding: Finding::UnusedReturn { called: rid },
                            },
                        ),
                    }
                }
            },
        },
    }
}

impl<'a> UnusedReturnVisitor<'a> {
    /// A pass over the given source units that has reported nothing yet.
    pub fn new(source_units: &'a Vec<SourceUnit>) -> (r: UnusedReturnVisitor<'a>)
        ensures
            r.source_units == source_units,
            r.diagnostics@ == Seq::<Diagnostic>::empty(),
    {
        UnusedReturnVisitor { source_units, diagnostics: Vec::new() }
    }

    /// The diagnostics reported so far, in the order they were found.
    pub fn diagnostics(&self) -> (r: &Vec<Diagnostic>)
        ensures
            r@ == self.diagnostics@,
    {
        &self.diagnostics
    }

    /// A statement: reported when it discards a non-empty return value.
    pub fn on_statement(&mut self, context: &StatementContext) -> (r: Result<(), AnalysisError>)
        ensures
            r is Ok,
            final(self).diagnostics@ == spec_on_discarded_return(
                old(self).diagnostics@,
                old(self).source_units@,
                context.contract_definition.id,
                *context.definition_node,
                *context.statement,
            ),
            final(self).source_units == old(self).source_units,
    {
        let es = match context.statement {
            Statement::ExpressionStatement(es) => es,
            _ => {
                return Ok(());
            },
        };
        let callee: &Expression = match &es.expression {
            Expression::FunctionCall(call) => &call.expression,
            Expression::FunctionCallOptions(fco) => &fco.expression,
            _ => {
                return Ok(());
            },
        };
        let rid = match callee.root_expression() {
            Some(Expression::Identifier(ident)) => ident.referenced_declaration,
            Some(Expression::MemberAccess(ma)) => match ma.referenced_declaration {
                Some(rid) => rid,
                None => {
                    return Ok(());
                },
            },
            _ => {
                return Ok(());
            },
        };
        let pair = match find_function_and_contract(self.source_units, rid) {
            Some(pair) => pair,
            None => {
                return Ok(());
            },
        };
        if pair.1.return_parameters.parameters.len() == 0 {
            return Ok(());
        }
        let fid = match definition_id(context.definition_node) {
            Some(fid) => fid,
            None => {
                return Ok(());
            },
        };
        self.diagnostics.push(
            Diagnostic {
                contract: context.contract_definition.id,
                definition: fid,
                line: None,
                finding: Finding::UnusedReturn { called: rid },
            },
        );
        Ok(())
    }
}

impl<'a> AstVisitor for UnusedReturnVisitor<'a> {
    fn visit_statement(&mut self, context: &mut StatementContext) -> (r: Result<
        (),
        AnalysisError,
    >) {
        self.on_statement(&*context)
    }
}

} // verus!
