//! Reports calls to `transfer`, `transferFrom` or `approve` that resolve to
//! a token contract named (case-insensitively) `erc20`, `ierc20` or
//! `erc20interface`, for which safe-wrapper equivalents exist.
use vstd::prelude::*;

use crate::ast::{definition_id, find_function_and_contract, spec_definition_id,
    spec_find_function_and_contract, spec_source_line, AnalysisError, NodeID, SourceUnit};
use crate::diagnostics::{Diagnostic, Erc20Function, Finding};
use crate::expressions::spec_referenced_declarations;
use crate::text::{spec_lower_bytes, spec_str_bytes, str_eq, str_eq_ignore_ascii_case};
use crate::visitor::{AstVisitor, FunctionCallContext};

verus! {

/// A stateless pass: each call is judged on its own.
pub struct SafeERC20FunctionsVisitor {
    pub diagnostics: Vec<Diagnostic>,
}

/// Whether a contract name is a token contract's, up to ASCII case.
pub open spec fn spec_is_erc20_contract_name(name: Seq<char>) -> bool {
    ||| spec_lower_bytes(spec_str_bytes(name)) == spec_lower_bytes(spec_str_bytes("erc20"@))
    ||| spec_lower_bytes(spec_str_bytes(name)) == spec_lower_bytes(spec_str_bytes("ierc20"@))
    ||| spec_lower_bytes(spec_str_bytes(name)) == spec_lower_bytes(
        spec_str_bytes("erc20interface"@),
    )
}

/// The token-contract entry point a called function's name is, if any.
pub open spec fn spec_erc20_function(name: Seq<char>) -> Option<Erc20Function> {
    if spec_str_bytes(name) == spec_str_bytes("transfer"@) {
        Some(Erc20Function::Transfer)
    } else if spec_str_bytes(name) == spec_str_bytes("transferFrom"@) {
        Some(Erc20Function::TransferFrom)
    } else if spec_str_bytes(name) == spec_str_bytes("approve"@) {
        Some(Erc20Function::Approve)
    } else {
        None
    }
}

/// The callee's referenced declarations, first to last: an unresolvable one
/// is skipped; one that resolves to a token contract reports its entry point
/// (at the call's line, whose span must then be readable); one that resolves
/// anywhere else stops the scan.
pub open spec fn spec_erc20_fold(
    m: Seq<Diagnostic>,
    units: Seq<SourceUnit>,
    su: SourceUnit,
    cid: NodeID,
    fid: NodeID,
    src: Seq<u8>,
    refs: Seq<NodeID>,
    idx: int,
) -> Option<Seq<Diagnostic>>
    decreases refs.len() - idx,
{
    if idx < 0 || idx >= refs.len() {
        Some(m)
    } else {
        match spec_find_function_and_contract(units, refs[idx]) {
            None => spec_erc20_fold(m, units, su, cid, fid, src, refs, idx + 1),
            Some(pair) => {
                if spec_is_erc20_contract_name(pair.0.name@) {
                    match spec_erc20_function(pair.1.name@) {
                        Some(function) => match spec_source_line(su, src) {
                            None => None,
                            Some(line) => spec_erc20_fold(
                                m.push(
                                    Diagnostic {
                                        contract: cid,
                                        definition: fid,
                                        line: Some(line as usize),
                                        finding: Finding::Erc20UnsafeCall { function },
                                    },
                                ),
                                units,
                                su,
                                cid,
                                fid,
                                src,
                                refs,
                                idx + 1,
                            ),
                        },
                        None => spec_erc20_fold(m, units, su, cid, fid, src, refs, idx + 1),
                    }
                } else {
                    Some(m)
                }
            },
        }
    }
}

/// A call inside any contract but `SafeERC20` itself, judged through its
/// callee's referenced declarations.
pub open spec fn spec_on_erc20_call(
    m: Seq<Diagnostic>,
    units: Seq<SourceUnit>,
    su: SourceUnit,
    contract_name: Seq<char>,
    cid: NodeID,
    dn: crate::ast::ContractDefinitionNode,
    call: crate::expressions::FunctionCall,
) -> Option<Seq<Diagnostic>> {
    if spec_str_bytes(contract_name) == spec_str_bytes("SafeERC20"@) {
        Some(m)
    } else {
        match spec_definition_id(dn) {
            None => Some(m),
            Some(fid) => spec_erc20_fold(
                m,
                units,
                su,
                cid,
                fid,
                spec_str_bytes(call.src@),
                spec_referenced_declarations(*call.expression),
                0,
            ),
        }
    }
}

impl SafeERC20FunctionsVisitor {
    /// A pass that has reported nothing yet.
    pub fn new() -> (r: SafeERC20FunctionsVisitor)
        ensures
            r.diagnostics@ == Seq::<Diagnostic>::empty(),
    {
        SafeERC20FunctionsVisitor { diagnostics: Vec::new() }
    }

    /// The diagnostics reported so far, in the order they were found.
    pub fn diagnostics(&self) -> (r: &Vec<Diagnostic>)
        ensures
            r@ == self.diagnostics@,
    {
        &self.diagnostics
    }

    /// A function call: reports token-contract entry points that have safe
    /// wrappers.
    pub fn on_function_call(&mut self, context: &FunctionCallContext) -> (r: Result<
        (),
        AnalysisError,
    >)
        ensures
            r is Ok ==> Some(final(self).diagnostics@) == spec_on_erc20_call(
                old(self).diagnostics@,
                context.source_units@,
                *context.current_source_unit,
                context.contract_definition.name@,
                context.contract_definition.id,
                *context.definition_node,
                *context.function_call,
            ),
            r is Err ==> spec_on_erc20_call(
                old(self).diagnostics@,
                context.source_units@,
                *context.current_source_unit,
                context.contract_definition.name@,
                context.contract_definition.id,
                *context.definition_node,
                *context.function_call,
            ) is None && r == Err::<(), AnalysisError>(AnalysisError::InvalidSourceSpan),
    {
        if str_eq(context.contract_definition.name.as_str(), "SafeERC20") {
            return Ok(());
        }
        let fid = match definition_id(context.definition_node) {
            Some(fid) => fid,
            None => {
                return Ok(());
            },
        };
        let cid = context.contract_definition.id;
        let refs = context.function_call.expression.referenced_declarations();
        let ghost m0 = self.diagnostics@;
        let ghost src = spec_str_bytes(context.function_call.src@);
        let mut idx: usize = 0;
        while idx < refs.len()
            invariant
                idx <= refs@.len(),
                m0 == old(self).diagnostics@,
                spec_str_bytes(context.contract_definition.name@) != spec_str_bytes(
                    "SafeERC20"@,
                ),
                spec_definition_id(*context.definition_node) == Some(fid),
                src == spec_str_bytes(context.function_call.src@),
                refs@ == spec_referenced_declarations(*context.function_call.expression),
                cid == context.contract_definition.id,
                spec_erc20_fold(
                    m0,
                    context.source_units@,
                    *context.current_source_unit,
                    cid,
                    fid,
                    src,
                    refs@,
                    0,
                ) == spec_erc20_fold(
                    self.diagnostics@,
                    context.source_units@,
                    *context.current_source_unit,
                    cid,
                    fid,
                    src,
                    refs@,
                    idx as int,
                ),
            decreases refs.len() - idx,
        {
            match find_function_and_contract(context.source_units, refs[idx]) {
                None => {},
                Some(pair) => {
                    let is_token = str_eq_ignore_ascii_case(pair.0.name.as_str(), "erc20")
                        || str_eq_ignore_ascii_case(pair.0.name.as_str(), "ierc20")
                        || str_eq_ignore_ascii_case(pair.0.name.as_str(), "erc20interface");
                    if !is_token {
                        return Ok(());
                    }
                    let function: Option<Erc20Function> = if str_eq(
                        pair.1.name.as_str(),
                        "transfer",
                    ) {
                        Some(Erc20Function::Transfer)
                    } else if str_eq(pair.1.name.as_str(), "transferFrom") {
                        Some(Erc20Function::TransferFrom)
                    } else if str_eq(pair.1.name.as_str(), "approve") {
                        Some(Erc20Function::Approve)
                    } else {
                        None
                    };
                    match function {
                        Some(function) => {
                            let line = match context.current_source_unit.source_line(
                                context.function_call.src.as_str(),
                            ) {
                                Ok(line) => line,
                                Err(e) => {
                                    proof {
                                        assert(spec_erc20_fold(
                                            self.diagnostics@,
                                            context.source_units@,
                                            *context.current_source_unit,
                                            cid,
                                            fid,
                                            src,
                                            refs@,
                                            idx as int,
                                        ) is None);
                                    }
                                    return Err(e);
                                },
                            };
                            self.diagnostics.push(
                                Diagnostic {
                                    contract: cid,
                                    definition: fid,
                                    line: Some(line),
                                    finding: Finding::Erc20UnsafeCall { function },
                                },
                            );
                        },
                        None => {},
                    }
                },
            }
            idx = idx + 1;
        }
        Ok(())
    }
}

impl Default for SafeERC20FunctionsVisitor {
    fn default() -> (r: SafeERC20FunctionsVisitor)
        ensures
            r.diagnostics@ == Seq::<Diagnostic>::empty(),
    {
        SafeERC20FunctionsVisitor::new()
    }
}

impl AstVisitor for SafeERC20FunctionsVisitor {
    fn visit_function_call(&mut self, context: &mut FunctionCallContext) -> (r: Result<
        (),
        AnalysisError,
    >) {
        self.on_function_call(&*context)
    }
}

} // verus!
