//! Reports every distinct function or modifier that contains an
//! `assert(...)` call, at most once per definition.
use vstd::prelude::*;

use crate::assoc::contains_id;
use crate::ast::{definition_id, spec_definition_id, spec_source_line, AnalysisError,
    ContractDefinitionNode, NodeID, SourceUnit};
use crate::diagnostics::{Diagnostic, Finding};
use crate::expressions::{Expression, FunctionCall};
use crate::text::{spec_str_bytes, str_eq};
use crate::visitor::{AstVisitor, FunctionCallContext};

verus! {

/// Remembers which definitions were already reported, so each is named once.
pub struct AssertUsageVisitor {
    pub reported_definitions: Vec<NodeID>,
    pub diagnostics: Vec<Diagnostic>,
}

#[verifier::ext_equal]
pub ghost struct AssertUsageModel {
    pub reported_definitions: Seq<NodeID>,
    pub diagnostics: Seq<Diagnostic>,
}

impl View for AssertUsageVisitor {
    type V = AssertUsageModel;

    open spec fn view(&self) -> AssertUsageModel {
        AssertUsageModel {
            reported_definitions: self.reported_definitions@,
            diagnostics: self.diagnostics@,
        }
    }
}

/// A call whose callee is the bare identifier `assert`, inside a function or
/// modifier not yet reported, is reported once at its source line; a span
/// that cannot be read back aborts the walk (`None`).
pub open spec fn spec_on_assert_call(
    m: AssertUsageModel,
    su: SourceUnit,
    cid: NodeID,
    dn: ContractDefinitionNode,
    call: FunctionCall,
) -> Option<AssertUsageModel> {
    match spec_definition_id(dn) {
        None => Some(m),
        Some(fid) => match *call.expression {
            Expression::Identifier(ident) => {
                if spec_str_bytes(ident.name@) != spec_str_bytes("assert"@) {
                    Some(m)
                } else if m.reported_definitions.contains(fid) {
                    Some(m)
                } else {
                    match spec_source_line(su, spec_str_bytes(call.src@)) {
                        None => None,
                        Some(line) => Some(
                            AssertUsageModel {
                                reported_definitions: m.reported_definitions.push(fid),
                                diagnostics: m.diagnostics.push(
                                    Diagnostic {
                                        contract: cid,
                                        definition: fid,
                                        line: Some(line as usize),
                                        finding: Finding::AssertUsage,
                                    },
                                ),
                            },
                        ),
                    }
                }
            },
            _ => Some(m),
        },
    }
}

impl AssertUsageVisitor {
    /// A pass that has reported nothing yet.
    pub fn new() -> (r: AssertUsageVisitor)
        ensures
            r@.reported_definitions == Seq::<NodeID>::empty(),
            r@.diagnostics == Seq::<Diagnostic>::empty(),
    {
        AssertUsageVisitor { reported_definitions: Vec::new(), diagnostics: Vec::new() }
    }

    /// The diagnostics reported so far, in the order they were found.
    pub fn diagnostics(&self) -> (r: &Vec<Diagnostic>)
        ensures
            r@ == self@.diagnostics,
    {
        &self.diagnostics
    }

    /// A function call: reported once per definition when its callee is the
    /// `assert` identifier.
    pub fn on_function_call(&mut self, context: &FunctionCallContext) -> (r: Result<
        (),
        AnalysisError,
    >)
        ensures
            r is Ok ==> Some(final(self)@) == spec_on_assert_call(
                old(self)@,
                *context.current_source_unit,
                context.contract_definition.id,
                *context.definition_node,
                *context.function_call,
            ),
            r is Err ==> spec_on_assert_call(
                old(self)@,
                *context.current_source_unit,
                context.contract_definition.id,
                *context.definition_node,
                *context.function_call,
            ) is None && final(self)@ == old(self)@ && r == Err::<(), AnalysisError>(
                AnalysisError::InvalidSourceSpan,
            ),
    {
        let fid = match definition_id(context.definition_node) {
            Some(fid) => fid,
            None => {
                return Ok(());
            },
        };
        let ident = match &*context.function_call.expression {
            Expression::Identifier(ident) => ident,
            _ => {
                return Ok(());
            },
        };
        if !str_eq(ident.name.as_str(), "assert") {
            return Ok(());
        }
        if contains_id(&self.reported_definitions, fid) {
            return Ok(());
        }
        let line = match context.current_source_unit.source_line(
            context.function_call.src.as_str(),
        ) {
            Ok(line) => line,
            Err(e) => {
                return Err(e);
            },
        };
        self.reported_definitions.push(fid);
        self.diagnostics.push(
            Diagnostic {
                contract: context.contract_definition.id,
                definition: fid,
                line: Some(line),
                finding: Finding::AssertUsage,
            },
        );
        Ok(())
    }
}

impl Default for AssertUsageVisitor {
    fn default() -> (r: AssertUsageVisitor)
        ensures
            r@.reported_definitions == Seq::<NodeID>::empty(),
            r@.diagnostics == Seq::<Diagnostic>::empty(),
    {
        AssertUsageVisitor::new()
    }
}

impl AstVisitor for AssertUsageVisitor {
    fn visit_function_call(&mut self, context: &mut FunctionCallContext) -> (r: Result<
        (),
        AnalysisError,
    >) {
        self.on_function_call(&*context)
    }
}

} // verus!
