//! The contract every analysis pass implements: one optional callback per
//! node category, each taking the context the traversal engine built for that
//! node. A pass overrides only the callbacks it cares about; every default is
//! a no-op. A callback returning an error aborts the whole walk.
use vstd::prelude::*;

use crate::ast::{AnalysisError, ContractDefinition, ContractDefinitionNode, NodeID, SourceUnit};
use crate::expressions::{Assignment, Expression, FunctionCall, FunctionCallOptions, Identifier,
    MemberAccess, UnaryOperation};
use crate::functions::{FunctionDefinitionContext, ModifierDefinitionContext};
use crate::statements::{Block, EmitStatementContext, ForStatementContext, IfStatementContext,
    InlineAssemblyContext, ReturnContext, RevertStatementContext, StatementContext,
    TryStatementContext, VariableDeclarationStatementContext, WhileStatementContext};

verus! {

pub struct SourceUnitContext<'a> {
    pub source_units: &'a Vec<SourceUnit>,
    pub current_source_unit: &'a SourceUnit,
}

pub struct ContractDefinitionContext<'a> {
    pub source_units: &'a Vec<SourceUnit>,
    pub current_source_unit: &'a SourceUnit,
    pub contract_definition: &'a ContractDefinition,
}

pub struct BlockContext<'a> {
    pub source_units: &'a Vec<SourceUnit>,
    pub current_source_unit: &'a SourceUnit,
    pub contract_definition: &'a ContractDefinition,
    pub definition_node: &'a ContractDefinitionNode,
    pub blocks: &'a Vec<NodeID>,
    pub block: &'a Block,
}

pub struct ExpressionContext<'a> {
    pub source_units: &'a Vec<SourceUnit>,
    pub current_source_unit: &'a SourceUnit,
    pub contract_definition: &'a ContractDefinition,
    pub definition_node: &'a ContractDefinitionNode,
    pub blocks: &'a Vec<NodeID>,
    pub expression: &'a Expression,
}

pub struct IdentifierContext<'a> {
    pub source_units: &'a Vec<SourceUnit>,
    pub current_source_unit: &'a SourceUnit,
    pub contract_definition: &'a ContractDefinition,
    pub definition_node: &'a ContractDefinitionNode,
    pub blocks: &'a Vec<NodeID>,
    pub identifier: &'a Identifier,
}

pub struct MemberAccessContext<'a> {
    pub source_units: &'a Vec<SourceUnit>,
    pub current_source_unit: &'a SourceUnit,
    pub contract_definition: &'a ContractDefinition,
    pub definition_node: &'a ContractDefinitionNode,
    pub blocks: &'a Vec<NodeID>,
    pub member_access: &'a MemberAccess,
}

pub struct AssignmentContext<'a> {
    pub source_units: &'a Vec<SourceUnit>,
    pub current_source_unit: &'a SourceUnit,
    pub contract_definition: &'a ContractDefinition,
    pub definition_node: &'a ContractDefinitionNode,
    pub blocks: &'a Vec<NodeID>,
    pub assignment: &'a Assignment,
}

pub struct UnaryOperationContext<'a> {
    pub source_units: &'a Vec<SourceUnit>,
    pub current_source_unit: &'a SourceUnit,
    pub contract_definition: &'a ContractDefinition,
    pub definition_node: &'a ContractDefinitionNode,
    pub blocks: &'a Vec<NodeID>,
    pub unary_operation: &'a UnaryOperation,
}

pub struct FunctionCallContext<'a> {
    pub source_units: &'a Vec<SourceUnit>,
    pub current_source_unit: &'a SourceUnit,
    pub contract_definition: &'a ContractDefinition,
    pub definition_node: &'a ContractDefinitionNode,
    pub blocks: &'a Vec<NodeID>,
    pub function_call: &'a FunctionCall,
}

pub struct FunctionCallOptionsContext<'a> {
    pub source_units: &'a Vec<SourceUnit>,
    pub current_source_unit: &'a SourceUnit,
    pub contract_definition: &'a ContractDefinition,
    pub definition_node: &'a ContractDefinitionNode,
    pub blocks: &'a Vec<NodeID>,
    pub function_call_options: &'a FunctionCallOptions,
}

/// One optional callback per node category; a pass that does not care about a
/// category keeps the default no-op. Callbacks run in program (lexical)
/// order: a block's entry event fires before its contents, and the contents
/// of a block fire before anything that follows them textually.
pub trait AstVisitor {
    fn visit_source_unit(&mut self, context: &mut SourceUnitContext) -> (r: Result<
        (),
        AnalysisError,
    >) {
        Ok(())
    }

    fn visit_contract_definition(&mut self, context: &mut ContractDefinitionContext) -> (r: Result<
        (),
        AnalysisError,
    >) {
        Ok(())
    }

    fn visit_function_definition(&mut self, context: &mut FunctionDefinitionContext) -> (r: Result<
        (),
        AnalysisError,
    >) {
        Ok(())
    }

    fn visit_modifier_definition(&mut self, context: &mut ModifierDefinitionContext) -> (r: Result<
        (),
        AnalysisError,
    >) {
        Ok(())
    }

    fn visit_block(&mut self, context: &mut BlockContext) -> (r: Result<(), AnalysisError>) {
        Ok(())
    }

    fn visit_statement(&mut self, context: &mut StatementContext) -> (r: Result<
        (),
        AnalysisError,
    >) {
        Ok(())
    }

    fn visit_variable_declaration_statement(
        &mut self,
        context: &mut VariableDeclarationStatementContext,
    ) -> (r: Result<(), AnalysisError>) {
        Ok(())
    }

    fn visit_if_statement(&mut self, context: &mut IfStatementContext) -> (r: Result<
        (),
        AnalysisError,
    >) {
        Ok(())
    }

    fn visit_for_statement(&mut self, context: &mut ForStatementContext) -> (r: Result<
        (),
        AnalysisError,
    >) {
        Ok(())
    }

    fn visit_while_statement(&mut self, context: &mut WhileStatementContext) -> (r: Result<
        (),
        AnalysisError,
    >) {
        Ok(())
    }

    fn visit_emit_statement(&mut self, context: &mut EmitStatementContext) -> (r: Result<
        (),
        AnalysisError,
    >) {
        Ok(())
    }

    fn visit_try_statement(&mut self, context: &mut TryStatementContext) -> (r: Result<
        (),
        AnalysisError,
    >) {
        Ok(())
    }

    fn visit_revert_statement(&mut self, context: &mut RevertStatementContext) -> (r: Result<
        (),
        AnalysisError,
    >) {
        Ok(())
    }

    fn visit_return(&mut self, context: &mut ReturnContext) -> (r: Result<(), AnalysisError>) {
        Ok(())
    }

    fn visit_inline_assembly(&mut self, context: &mut InlineAssemblyContext) -> (r: Result<
        (),
        AnalysisError,
    >) {
        Ok(())
    }

    fn visit_expression(&mut self, context: &mut ExpressionContext) -> (r: Result<
        (),
        AnalysisError,
    >) {
        Ok(())
    }

    fn visit_identifier(&mut self, context: &mut IdentifierContext) -> (r: Result<
        (),
        AnalysisError,
    >) {
        Ok(())
    }

    fn visit_member_access(&mut self, context: &mut MemberAccessContext) -> (r: Result<
        (),
        AnalysisError,
    >) {
        Ok(())
    }

    fn visit_assignment(&mut self, context: &mut AssignmentContext) -> (r: Result<
        (),
        AnalysisError,
    >) {
        Ok(())
    }

    fn visit_unary_operation(&mut self, context: &mut UnaryOperationContext) -> (r: Result<
        (),
        AnalysisError,
    >) {
        Ok(())
    }

    fn visit_function_call(&mut self, context: &mut FunctionCallContext) -> (r: Result<
        (),
        AnalysisError,
    >) {
        Ok(())
    }

    fn visit_function_call_options(&mut self, context: &mut FunctionCallOptionsContext) -> (r:
        Result<(), AnalysisError>) {
        Ok(())
    }
}

} // verus!
