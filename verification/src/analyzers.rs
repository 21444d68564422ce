//! The registered set of analysis passes and the per-event dispatch the
//! traversal engine drives: every node event is handed to each pass that
//! consumes it, in registration order, and the first failing pass aborts the
//! walk.
use vstd::prelude::*;

use crate::assert_usage::{spec_on_assert_call, AssertUsageModel, AssertUsageVisitor};
use crate::ast::{AnalysisError, ContractDefinition, ContractDefinitionNode, NodeID, SourceUnit};
use crate::check_effects_interactions::{spec_on_assignment, spec_on_block,
    spec_on_contract_definition, spec_on_definition, spec_on_function_call,
    spec_on_identifier_ref, spec_on_member_access, spec_on_unary_operation,
    spec_on_variable_declaration_statement, CheckEffectsInteractionsVisitor, EffectsModel};
use crate::diagnostics::Diagnostic;
use crate::explicit_variable_return::{spec_on_locals_declared, spec_on_return_statement,
    ExplicitReturnModel, ExplicitVariableReturnVisitor};
use crate::expressions::{Assignment, FunctionCall, UnaryOperation};
use crate::functions::{FunctionDefinition, FunctionDefinitionContext, ModifierDefinition,
    ModifierDefinitionContext};
use crate::redundant_getter_function::{spec_on_getter_candidate, RedundantGetterFunctionVisitor};
use crate::safe_erc20_functions::{spec_on_erc20_call, SafeERC20FunctionsVisitor};
use crate::statements::{Return, ReturnContext, Statement, StatementContext,
    VariableDeclarationStatement, VariableDeclarationStatementContext};
use crate::unused_return::{spec_on_discarded_return, UnusedReturnVisitor};
use crate::visitor::{AssignmentContext, BlockContext, ContractDefinitionContext,
    FunctionCallContext, IdentifierContext, MemberAccessContext, UnaryOperationContext};

verus! {

/// The passes of one analysis run, in registration order.
pub struct Analyzers<'a> {
    pub assert_usage: AssertUsageVisitor,
    pub check_effects_interactions: CheckEffectsInteractionsVisitor,
    pub explicit_variable_return: ExplicitVariableReturnVisitor,
    pub redundant_getter_function: RedundantGetterFunctionVisitor,
    pub safe_erc20_functions: SafeERC20FunctionsVisitor,
    pub unused_return: UnusedReturnVisitor<'a>,
}

/// The joint state of all passes: each pass's own bookkeeping and its
/// diagnostics.
#[verifier::ext_equal]
pub ghost struct ToolModel {
    pub assert_usage: AssertUsageModel,
    pub effects: EffectsModel,
    pub explicit_return: ExplicitReturnModel,
    pub redundant_getter: Seq<Diagnostic>,
    pub safe_erc20: Seq<Diagnostic>,
    pub unused_return: Seq<Diagnostic>,
}

impl<'a> View for Analyzers<'a> {
    type V = ToolModel;

    open spec fn view(&self) -> ToolModel {
        ToolModel {
            assert_usage: self.assert_usage@,
            effects: self.check_effects_interactions@,
            explicit_return: self.explicit_variable_return@,
            redundant_getter: self.redundant_getter_function.diagnostics@,
            safe_erc20: self.safe_erc20_functions.diagnostics@,
            unused_return: self.unused_return.diagnostics@,
        }
    }
}

pub open spec fn spec_step_contract_definition(m: ToolModel, cid: NodeID) -> ToolModel {
    ToolModel { effects: spec_on_contract_definition(m.effects, cid), ..m }
}

pub open spec fn spec_step_function_definition(
    m: ToolModel,
    su: SourceUnit,
    contract: ContractDefinition,
    f: FunctionDefinition,
) -> Option<ToolModel> {
    let m1 = ToolModel { effects: spec_on_definition(m.effects, contract.id, f.id), ..m };
    match spec_on_getter_candidate(m1.redundant_getter, su, contract, f) {
        None => None,
        Some(d) => Some(ToolModel { redundant_getter: d, ..m1 }),
    }
}

pub open spec fn spec_step_modifier_definition(
    m: ToolModel,
    contract: ContractDefinition,
    md: ModifierDefinition,
) -> ToolModel {
    ToolModel { effects: spec_on_definition(m.effects, contract.id, md.id), ..m }
}

pub open spec fn spec_step_block(
    m: ToolModel,
    dn: ContractDefinitionNode,
    cid: NodeID,
    ancestors: Seq<NodeID>,
    bid: NodeID,
) -> ToolModel {
    ToolModel { effects: spec_on_block(m.effects, dn, cid, ancestors, bid), ..m }
}

pub open spec fn spec_step_statement(
    m: ToolModel,
    units: Seq<SourceUnit>,
    cid: NodeID,
    dn: ContractDefinitionNode,
    stmt: Statement,
) -> ToolModel {
    ToolModel {
        unused_return: spec_on_discarded_return(m.unused_return, units, cid, dn, stmt),
        ..m
    }
}

pub open spec fn spec_step_variable_declaration_statement(
    m: ToolModel,
    units: Seq<SourceUnit>,
    contract: ContractDefinition,
    dn: ContractDefinitionNode,
    blocks: Seq<NodeID>,
    vds: VariableDeclarationStatement,
) -> Option<ToolModel> {
    match spec_on_variable_declaration_statement(m.effects, units, contract, dn, blocks, vds) {
        None => None,
        Some(eff) => Some(
            ToolModel {
                effects: eff,
                explicit_return: spec_on_locals_declared(m.explicit_return, vds),
                ..m
            },
        ),
    }
}

pub open spec fn spec_step_return(
    m: ToolModel,
    su: SourceUnit,
    cid: NodeID,
    dn: ContractDefinitionNode,
    ret: Return,
) -> Option<ToolModel> {
    match spec_on_return_statement(m.explicit_return, su, cid, dn, ret) {
        None => None,
        Some(er) => Some(ToolModel { explicit_return: er, ..m }),
    }
}

pub open spec fn spec_step_identifier(
    m: ToolModel,
    units: Seq<SourceUnit>,
    cid: NodeID,
    dn: ContractDefinitionNode,
    blocks: Seq<NodeID>,
    rid: NodeID,
) -> ToolModel {
    ToolModel { effects: spec_on_identifier_ref(m.effects, units, cid, dn, blocks, rid), ..m }
}

pub open spec fn spec_step_member_access(
    m: ToolModel,
    units: Seq<SourceUnit>,
    cid: NodeID,
    dn: ContractDefinitionNode,
    blocks: Seq<NodeID>,
    rid: Option<NodeID>,
) -> ToolModel {
    ToolModel { effects: spec_on_member_access(m.effects, units, cid, dn, blocks, rid), ..m }
}

pub open spec fn spec_step_assignment(
    m: ToolModel,
    units: Seq<SourceUnit>,
    su: SourceUnit,
    contract: ContractDefinition,
    dn: ContractDefinitionNode,
    blocks: Seq<NodeID>,
    assignment: Assignment,
) -> Option<ToolModel> {
    match spec_on_assignment(m.effects, units, su, contract, dn, blocks, assignment) {
        None => None,
        Some(eff) => Some(ToolModel { effects: eff, ..m }),
    }
}

pub open spec fn spec_step_unary_operation(
    m: ToolModel,
    units: Seq<SourceUnit>,
    su: SourceUnit,
    contract: ContractDefinition,
    dn: ContractDefinitionNode,
    blocks: Seq<NodeID>,
    unary: UnaryOperation,
) -> Option<ToolModel> {
    match spec_on_unary_operation(m.effects, units, su, contract, dn, blocks, unary) {
        None => None,
        Some(eff) => Some(ToolModel { effects: eff, ..m }),
    }
}

pub open spec fn spec_step_function_call(
    m: ToolModel,
    units: Seq<SourceUnit>,
    su: SourceUnit,
    contract: ContractDefinition,
    dn: ContractDefinitionNode,
    blocks: Seq<NodeID>,
    call: FunctionCall,
) -> Option<ToolModel> {
    match spec_on_assert_call(m.assert_usage, su, contract.id, dn, call) {
        None => None,
        Some(au) => match spec_on_function_call(m.effects, units, su, contract, dn, blocks, call) {
            None => None,
            Some(eff) => match spec_on_erc20_call(
                m.safe_erc20,
                units,
                su,
                contract.name@,
                contract.id,
                dn,
                call,
            ) {
                None => None,
                Some(sf) => Some(
                    ToolModel { assert_usage: au, effects: eff, safe_erc20: sf, ..m },
                ),
            },
        },
    }
}

impl<'a> Analyzers<'a> {
    /// A fresh run over the given source units: every pass in its initial
    /// state.
    pub fn new(source_units: &'a Vec<SourceUnit>) -> (r: Analyzers<'a>)
        ensures
            r.unused_return.source_units == source_units,
            r@ == spec_initial_tool_model(),
    {
        let r = Analyzers {
            assert_usage: AssertUsageVisitor::new(),
            check_effects_interactions: CheckEffectsInteractionsVisitor::new(),
            explicit_variable_return: ExplicitVariableReturnVisitor::new(),
            redundant_getter_function: RedundantGetterFunctionVisitor::new(),
            safe_erc20_functions: SafeERC20FunctionsVisitor::new(),
            unused_return: UnusedReturnVisitor::new(source_units),
        };
        proof {
            assert(r@ =~~= spec_initial_tool_model());
        }
        r
    }

    pub fn dispatch_contract_definition(&mut self, context: &ContractDefinitionContext) -> (r:
        Result<(), AnalysisError>)
        ensures
            r is Ok,
            final(self)@ == spec_step_contract_definition(
                old(self)@,
                context.contract_definition.id,
            ),
            final(self).unused_return.source_units == old(self).unused_return.source_units,
    {
        self.check_effects_interactions.on_contract_definition(context)
    }

    pub fn dispatch_function_definition(&mut self, context: &FunctionDefinitionContext) -> (r:
        Result<(), AnalysisError>)
        ensures
            r is Ok ==> Some(final(self)@) == spec_step_function_definition(
                old(self)@,
                *context.current_source_unit,
                *context.contract_definition,
                *context.function_definition,
            ),
            r is Err ==> spec_step_function_definition(
                old(self)@,
                *context.current_source_unit,
                *context.contract_definition,
                *context.function_definition,
            ) is None,
            final(self).unused_return.source_units == old(self).unused_return.source_units,
    {
        self.check_effects_interactions.on_function_definition(context)?;
        self.redundant_getter_function.on_function_definition(context)
    }

    pub fn dispatch_modifier_definition(&mut self, context: &ModifierDefinitionContext) -> (r:
        Result<(), AnalysisError>)
        ensures
            r is Ok,
            final(self)@ == spec_step_modifier_definition(
                old(self)@,
                *context.contract_definition,
                *context.modifier_definition,
            ),
            final(self).unused_return.source_units == old(self).unused_return.source_units,
    {
        self.check_effects_interactions.on_modifier_definition(context)
    }

    pub fn dispatch_block(&mut self, context: &BlockContext) -> (r: Result<(), AnalysisError>)
        ensures
            r is Ok,
            final(self)@ == spec_step_block(
                old(self)@,
                *context.definition_node,
                context.contract_definition.id,
                context.blocks@,
                context.block.id,
            ),
            final(self).unused_return.source_units == old(self).unused_return.source_units,
    {
        self.check_effects_interactions.on_block(context)
    }

    pub fn dispatch_statement(&mut self, context: &StatementContext) -> (r: Result<
        (),
        AnalysisError,
    >)
        requires
            old(self).unused_return.source_units@ == context.source_units@,
        ensures
            r is Ok,
            final(self)@ == spec_step_statement(
                old(self)@,
                context.source_units@,
                context.contract_definition.id,
                *context.definition_node,
                *context.statement,
            ),
            final(self).unused_return.source_units == old(self).unused_return.source_units,
    {
        self.unused_return.on_statement(context)
    }

    pub fn dispatch_variable_declaration_statement(
        &mut self,
        context: &VariableDeclarationStatementContext,
    ) -> (r: Result<(), AnalysisError>)
        ensures
            r is Ok ==> Some(final(self)@) == spec_step_variable_declaration_statement(
                old(self)@,
                context.source_units@,
                *context.contract_definition,
                *context.definition_node,
                context.blocks@,
                *context.variable_declaration_statement,
            ),
            r is Err ==> spec_step_variable_declaration_statement(
                old(self)@,
                context.source_units@,
                *context.contract_definition,
                *context.definition_node,
                context.blocks@,
                *context.variable_declaration_statement,
            ) is None,
            final(self).unused_return.source_units == old(self).unused_return.source_units,
    {
        self.check_effects_interactions.on_variable_declaration_statement(context)?;
        self.explicit_variable_return.on_variable_declaration_statement(context)
    }

    pub fn dispatch_return(&mut self, context: &ReturnContext) -> (r: Result<(), AnalysisError>)
        ensures
            r is Ok ==> Some(final(self)@) == spec_step_return(
                old(self)@,
                *context.current_source_unit,
                context.contract_definition.id,
                *context.definition_node,
                *context.return_statement,
            ),
            r is Err ==> spec_step_return(
                old(self)@,
                *context.current_source_unit,
                context.contract_definition.id,
                *context.definition_node,
                *context.return_statement,
            ) is None,
            final(self).unused_return.source_units == old(self).unused_return.source_units,
    {
        self.explicit_variable_return.on_return(context)
    }

    pub fn dispatch_identifier(&mut self, context: &IdentifierContext) -> (r: Result<
        (),
        AnalysisError,
    >)
        ensures
            r is Ok,
            final(self)@ == spec_step_identifier(
                old(self)@,
                context.source_units@,
                context.contract_definition.id,
                *context.definition_node,
                context.blocks@,
                context.identifier.referenced_declaration,
            ),
            final(self).unused_return.source_units == old(self).unused_return.source_units,
    {
        self.check_effects_interactions.on_identifier(context)
    }

    pub fn dispatch_member_access(&mut self, context: &MemberAccessContext) -> (r: Result<
        (),
        AnalysisError,
    >)
        ensures
            r is Ok,
            final(self)@ == spec_step_member_access(
                old(self)@,
                context.source_units@,
                context.contract_definition.id,
                *context.definition_node,
                context.blocks@,
                context.member_access.referenced_declaration,
            ),
            final(self).unused_return.source_units == old(self).unused_return.source_units,
    {
        self.check_effects_interactions.on_member_access(context)
    }

    pub fn dispatch_assignment(&mut self, context: &AssignmentContext) -> (r: Result<
        (),
        AnalysisError,
    >)
        ensures
            r is Ok ==> Some(final(self)@) == spec_step_assignment(
                old(self)@,
                context.source_units@,
                *context.current_source_unit,
                *context.contract_definition,
                *context.definition_node,
                context.blocks@,
                *context.assignment,
            ),
            r is Err ==> spec_step_assignment(
                old(self)@,
                context.source_units@,
                *context.current_source_unit,
                *context.contract_definition,
                *context.definition_node,
                context.blocks@,
                *context.assignment,
            ) is None,
            final(self).unused_return.source_units == old(self).unused_return.source_units,
    {
        self.check_effects_interactions.on_assignment(context)
    }

    pub fn dispatch_unary_operation(&mut self, context: &UnaryOperationContext) -> (r: Result<
        (),
        AnalysisError,
    >)
        ensures
            r is Ok ==> Some(final(self)@) == spec_step_unary_operation(
                old(self)@,
                context.source_units@,
                *context.current_source_unit,
                *context.contract_definition,
                *context.definition_node,
                context.blocks@,
                *context.unary_operation,
            ),
            r is Err ==> spec_step_unary_operation(
                old(self)@,
                context.source_units@,
                *context.current_source_unit,
                *context.contract_definition,
                *context.definition_node,
                context.blocks@,
                *context.unary_operation,
            ) is None,
            final(self).unused_return.source_units == old(self).unused_return.source_units,
    {
        self.check_effects_interactions.on_unary_operation(context)
    }

    pub fn dispatch_function_call(&mut self, context: &FunctionCallContext) -> (r: Result<
        (),
        AnalysisError,
    >)
        ensures
            r is Ok ==> Some(final(self)@) == spec_step_function_call(
                old(self)@,
                context.source_units@,
                *context.current_source_unit,
                *context.contract_definition,
                *context.definition_node,
                context.blocks@,
                *context.function_call,
            ),
            r is Err ==> spec_step_function_call(
                old(self)@,
                context.source_units@,
                *context.current_source_unit,
                *context.contract_definition,
                *context.definition_node,
                context.blocks@,
                *context.function_call,
            ) is None,
            final(self).unused_return.source_units == old(self).unused_return.source_units,
    {
        self.assert_usage.on_function_call(context)?;
        self.check_effects_interactions.on_function_call(context)?;
        self.safe_erc20_functions.on_function_call(context)
    }
}

/// The joint state before any node was visited.
pub open spec fn spec_initial_tool_model() -> ToolModel {
    ToolModel {
        assert_usage: AssertUsageModel {
            reported_definitions: Seq::empty(),
            diagnostics: Seq::empty(),
        },
        effects: EffectsModel { contract_info: Seq::empty(), diagnostics: Seq::empty() },
        explicit_return: ExplicitReturnModel {
            local_variable_ids: Seq::empty(),
            diagnostics: Seq::empty(),
        },
        redundant_getter: Seq::empty(),
        safe_erc20: Seq::empty(),
        unused_return: Seq::empty(),
    }
}

} // verus!
