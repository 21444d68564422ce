//! Reports a return statement that returns a previously declared local
//! variable — or a tuple made entirely of them — by name instead of
//! declaring the value inline.
use vstd::prelude::*;

use crate::assoc::contains_id;
use crate::ast::{definition_id, spec_definition_id, spec_source_line, AnalysisError,
    ContractDefinitionNode, NodeID, SourceUnit, VariableDeclaration};
use crate::diagnostics::{Diagnostic, Finding};
use crate::expressions::Expression;
use crate::statements::{Return, ReturnContext, VariableDeclarationStatement,
    VariableDeclarationStatementContext};
use crate::text::spec_str_bytes;
use crate::visitor::AstVisitor;

verus! {

/// Remembers every local variable declared so far in the walk.
pub struct ExplicitVariableReturnVisitor {
    pub local_variable_ids: Vec<NodeID>,
    pub diagnostics: Vec<Diagnostic>,
}

#[verifier::ext_equal]
pub ghost struct ExplicitReturnModel {
    pub local_variable_ids: Seq<NodeID>,
    pub diagnostics: Seq<Diagnostic>,
}

impl View for ExplicitVariableReturnVisitor {
    type V = ExplicitReturnModel;

    open spec fn view(&self) -> ExplicitReturnModel {
        ExplicitReturnModel {
            local_variable_ids: self.local_variable_ids@,
            diagnostics: self.diagnostics@,
        }
    }
}

/// The known locals extended by the statement's declarations, first to last,
/// each added once.
pub open spec fn spec_add_locals(locals: Seq<NodeID>, decls: Seq<Option<VariableDeclaration>>, idx: int) -> Seq<
    NodeID,
>
    decreases decls.len() - idx,
{
    if idx < 0 || idx >= decls.len() {
        locals
    } else {
        let locals1 = match decls[idx] {
            Some(vd) => {
                if locals.contains(vd.id) {
                    locals
                } else {
                    locals.push(vd.id)
                }
            },
            None => locals,
        };
        spec_add_locals(locals1, decls, idx + 1)
    }
}

/// Whether every present tuple component is an identifier naming a known
/// local (absent components are skipped; an all-absent tuple counts).
pub open spec fn spec_all_local_components(
    locals: Seq<NodeID>,
    components: Seq<Option<Expression>>,
    idx: int,
) -> bool
    decreases components.len() - idx,
{
    if idx < 0 || idx >= components.len() {
        true
    } else {
        (match components[idx] {
            Some(component) => match component {
                Expression::Identifier(ident) => locals.contains(ident.referenced_declaration),
                _ => false,
            },
            None => true,
        }) && spec_all_local_components(locals, components, idx + 1)
    }
}

pub open spec fn spec_on_locals_declared(
    m: ExplicitReturnModel,
    vds: VariableDeclarationStatement,
) -> ExplicitReturnModel {
    ExplicitReturnModel {
        local_variable_ids: spec_add_locals(m.local_variable_ids, vds.declarations@, 0),
        diagnostics: m.diagnostics,
    }
}

/// A return of a single known local, or of a tuple whose present components
/// are all known locals, is reported at its source line; an unreadable span
/// aborts the walk (`None`).
pub open spec fn spec_on_return_statement(
    m: ExplicitReturnModel,
    su: SourceUnit,
    cid: NodeID,
    dn: ContractDefinitionNode,
    ret: Return,
) -> Option<ExplicitReturnModel> {
    match ret.expression {
        Some(Expression::Identifier(ident)) => {
            if m.local_variable_ids.contains(ident.referenced_declaration) {
                spec_push_return_diagnostic(m, su, cid, dn, ret, false)
            } else {
                Some(m)
            }
        },
        Some(Expression::TupleExpression(tuple)) => {
            if spec_all_local_components(m.local_variable_ids, tuple.components@, 0) {
                spec_push_return_diagnostic(m, su, cid, dn, ret, true)
            } else {
                Some(m)
            }
        },
        _ => Some(m),
    }
}

pub open spec fn spec_push_return_diagnostic(
    m: ExplicitReturnModel,
    su: SourceUnit,
    cid: NodeID,
    dn: ContractDefinitionNode,
    ret: Return,
    tuple: bool,
) -> Option<ExplicitReturnModel> {
    match spec_definition_id(dn) {
        None => Some(m),
        Some(fid) => match spec_source_line(su, spec_str_bytes(ret.src@)) {
            None => None,
            Some(line) => Some(
                ExplicitReturnModel {
                    local_variable_ids: m.local_variable_ids,
                    diagnostics: m.diagnostics.push(
                        Diagnostic {
                            contract: cid,
                            definition: fid,
                            line: Some(line as usize),
                            finding: Finding::ExplicitLocalReturn { tuple },
                        },
                    ),
                },
            ),
        },
    }
}

impl ExplicitVariableReturnVisitor {
    /// A pass that knows no locals and has reported nothing yet.
    pub fn new() -> (r: ExplicitVariableReturnVisitor)
        ensures
            r@.local_variable_ids == Seq::<NodeID>::empty(),
            r@.diagnostics == Seq::<Diagnostic>::empty(),
    {
        ExplicitVariableReturnVisitor { local_variable_ids: Vec::new(), diagnostics: Vec::new() }
    }

    /// The diagnostics reported so far, in the order they were found.
    pub fn diagnostics(&self) -> (r: &Vec<Diagnostic>)
        ensures
            r@ == self@.diagnostics,
    {
        &self.diagnostics
    }

    /// A declaration statement: remembers each declared local.
    pub fn on_variable_declaration_statement(
        &mut self,
        context: &VariableDeclarationStatementContext,
    ) -> (r: Result<(), AnalysisError>)
        ensures
            r is Ok,
            final(self)@ == spec_on_locals_declared(
                old(self)@,
                *context.variable_declaration_statement,
            ),
    {
        let decls = &context.variable_declaration_statement.declarations;
        let ghost m0 = self@;
        let mut idx: usize = 0;
        while idx < decls.len()
            invariant
                idx <= decls@.len(),
                self@.diagnostics == m0.diagnostics,
                spec_add_locals(m0.local_variable_ids, decls@, 0) == spec_add_locals(
                    self@.local_variable_ids,
                    decls@,
                    idx as int,
                ),
            decreases decls.len() - idx,
        {
            match &decls[idx] {
                Some(vd) => {
                    if !contains_id(&self.local_variable_ids, vd.id) {
                        self.local_variable_ids.push(vd.id);
                    }
                },
                None => {},
            }
            idx = idx + 1;
        }
        Ok(())
    }

    /// A return statement: reported when it returns known locals by name.
    pub fn on_return(&mut self, context: &ReturnContext) -> (r: Result<(), AnalysisError>)
        ensures
            r is Ok ==> Some(final(self)@) == spec_on_return_statement(
                old(self)@,
                *context.current_source_unit,
                context.contract_definition.id,
                *context.definition_node,
                *context.return_statement,
            ),
            r is Err ==> spec_on_return_statement(
                old(self)@,
                *context.current_source_unit,
                context.contract_definition.id,
                *context.definition_node,
                *context.return_statement,
            ) is None && final(self)@ == old(self)@ && r == Err::<(), AnalysisError>(
                AnalysisError::InvalidSourceSpan,
            ),
    {
        let tuple: bool;
        match &context.return_statement.expression {
            Some(Expression::Identifier(ident)) => {
                if !contains_id(&self.local_variable_ids, ident.referenced_declaration) {
                    return Ok(());
                }
                tuple = false;
            },
            Some(Expression::TupleExpression(t)) => {
                let ghost locals = self@.local_variable_ids;
                let mut idx: usize = 0;
                while idx < t.components.len()
                    invariant
                        idx <= t.components@.len(),
                        self@ == old(self)@,
                        locals == self@.local_variable_ids,
                        context.return_statement.expression == Some(
                            Expression::TupleExpression(*t),
                        ),
                        spec_all_local_components(locals, t.components@, 0)
                            == spec_all_local_components(locals, t.components@, idx as int),
                    decreases t.components.len() - idx,
                {
                    match &t.components[idx] {
                        Some(component) => match component {
                            Expression::Identifier(ident) => {
                                if !contains_id(
                                    &self.local_variable_ids,
                                    ident.referenced_declaration,
                                ) {
                                    proof {
                                        assert(!spec_all_local_components(
                                            locals,
                                            t.components@,
                                            idx as int,
                                        ));
                                    }
                                    return Ok(());
                                }
                            },
                            _ => {
                                proof {
                                    assert(!spec_all_local_components(
                                        locals,
                                        t.components@,
                                        idx as int,
                                    ));
                                }
                                return Ok(());
                            },
                        },
                        None => {},
                    }
                    idx = idx + 1;
                }
                tuple = true;
            },
            _ => {
                return Ok(());
            },
        }
        let fid = match definition_id(context.definition_node) {
            Some(fid) => fid,
            None => {
                return Ok(());
            },
        };
        let line = match context.current_source_unit.source_line(
            context.return_statement.src.as_str(),
        ) {
            Ok(line) => line,
            Err(e) => {
                return Err(e);
            },
        };
        self.diagnostics.push(
            Diagnostic {
                contract: context.contract_definition.id,
                definition: fid,
                line: Some(line),
                finding: Finding::ExplicitLocalReturn { tuple },
            },
        );
        Ok(())
    }
}

impl Default for ExplicitVariableReturnVisitor {
    fn default() -> (r: ExplicitVariableReturnVisitor)
        ensures
            r@.local_variable_ids == Seq::<NodeID>::empty(),
            r@.diagnostics == Seq::<Diagnostic>::empty(),
    {
        ExplicitVariableReturnVisitor::new()
    }
}

impl AstVisitor for ExplicitVariableReturnVisitor {
    fn visit_variable_declaration_statement(
        &mut self,
        context: &mut VariableDeclarationStatementContext,
    ) -> (r: Result<(), AnalysisError>) {
        self.on_variable_declaration_statement(&*context)
    }

    fn visit_return(&mut self, context: &mut ReturnContext) -> (r: Result<(), AnalysisError>) {
        self.on_return(&*context)
    }
}

} // verus!
