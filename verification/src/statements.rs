//! Statement nodes, the lexical blocks that scope them, and the queries the
//! analyses ask of statements, together with the context bundles handed to a
//! pass when one of these nodes is visited.
use vstd::prelude::*;

use crate::ast::{ContractDefinition, ContractDefinitionNode, NodeID, NodeType, SourceUnit,
    VariableDeclaration};
use crate::expressions::{Expression, FunctionCall};
use crate::functions::ParameterList;
use crate::yul::{ExternalReference, YulBlock};

verus! {

/// An ordered sequence of statements with its own scope identity.
pub struct Block {
    pub statements: Vec<Statement>,
    pub src: String,
    pub id: NodeID,
}

pub enum Statement {
    VariableDeclarationStatement(VariableDeclarationStatement),
    IfStatement(IfStatement),
    ForStatement(ForStatement),
    WhileStatement(WhileStatement),
    EmitStatement(EmitStatement),
    TryStatement(TryStatement),
    UncheckedBlock(Block),
    Return(Return),
    RevertStatement(RevertStatement),
    ExpressionStatement(ExpressionStatement),
    InlineAssembly(InlineAssembly),
    UnhandledStatement { node_type: NodeType, src: Option<String>, id: Option<NodeID> },
}

pub struct ExpressionStatement {
    pub expression: Expression,
}

pub struct VariableDeclarationStatement {
    pub assignments: Vec<Option<NodeID>>,
    pub declarations: Vec<Option<VariableDeclaration>>,
    pub initial_value: Option<Expression>,
    pub src: String,
    pub id: NodeID,
}

pub enum BlockOrStatement {
    Block(Box<Block>),
    Statement(Box<Statement>),
}

pub struct IfStatement {
    pub condition: Expression,
    pub true_body: BlockOrStatement,
    pub false_body: Option<BlockOrStatement>,
    pub src: String,
    pub id: NodeID,
}

pub struct ForStatement {
    pub initialization_expression: Option<Box<Statement>>,
    pub condition: Option<Expression>,
    pub loop_expression: Option<Box<Statement>>,
    pub body: BlockOrStatement,
    pub src: String,
    pub id: NodeID,
}

pub struct WhileStatement {
    pub condition: Expression,
    pub body: BlockOrStatement,
    pub src: String,
    pub id: NodeID,
}

pub struct EmitStatement {
    pub event_call: Expression,
}

pub struct TryStatement {
    pub clauses: Vec<TryCatchClause>,
    pub external_call: FunctionCall,
}

pub struct RevertStatement {
    pub error_call: FunctionCall,
}

pub struct TryCatchClause {
    pub block: Block,
    pub error_name: Option<String>,
    pub parameters: Option<ParameterList>,
}

pub struct Return {
    pub function_return_parameters: NodeID,
    pub expression: Option<Expression>,
    pub src: String,
    pub id: NodeID,
}

pub struct InlineAssembly {
    pub ast: Option<YulBlock>,
    pub evm_version: Option<String>,
    pub external_references: Vec<ExternalReference>,
    pub operations: Option<String>,
    pub src: String,
    pub id: NodeID,
}

pub open spec fn spec_is_return_statement(s: Statement) -> bool {
    s is Return
}

/// Whether every path through the block or statement ends in a return: a
/// return statement does, an if does when both branches do (or the true
/// branch does and there is no false branch), and a block does when its last
/// statement does.
pub open spec fn spec_block_contains_returns(b: Block) -> bool
    decreases b,
{
    if b.statements@.len() == 0 {
        false
    } else {
        spec_statement_contains_returns(b.statements@.last())
    }
}

pub open spec fn spec_statement_contains_returns(s: Statement) -> bool
    decreases s,
{
    match s {
        Statement::Return(_) => true,
        Statement::IfStatement(if_statement) => {
            if !spec_block_or_statement_contains_returns(if_statement.true_body) {
                false
            } else {
                match if_statement.false_body {
                    Some(false_body) => spec_block_or_statement_contains_returns(false_body),
                    None => true,
                }
            }
        },
        _ => false,
    }
}

pub open spec fn spec_block_or_statement_contains_returns(bos: BlockOrStatement) -> bool
    decreases bos,
{
    match bos {
        BlockOrStatement::Block(block) => spec_block_contains_returns(*block),
        BlockOrStatement::Statement(statement) => spec_statement_contains_returns(*statement),
    }
}

impl Statement {
    pub fn is_return_statement(&self) -> (r: bool)
        ensures
            r == spec_is_return_statement(*self),
    {
        match self {
            Statement::Return(_) => true,
            _ => false,
        }
    }

    fn contains_returns(&self) -> (r: bool)
        ensures
            r == spec_statement_contains_returns(*self),
        decreases *self,
    {
        match self {
            Statement::Return(_) => true,
            Statement::IfStatement(if_statement) => {
                if !if_statement.true_body.contains_returns() {
                    false
                } else {
                    match &if_statement.false_body {
                        Some(false_body) => false_body.contains_returns(),
                        None => true,
                    }
                }
            },
            _ => false,
        }
    }
}

impl BlockOrStatement {
    /// Whether control leaving this block or statement necessarily did so
    /// through a return.
    pub fn contains_returns(&self) -> (r: bool)
        ensures
            r == spec_block_or_statement_contains_returns(*self),
        decreases *self,
    {
        match self {
            BlockOrStatement::Block(block) => {
                if block.statements.len() == 0 {
                    false
                } else {
                    let last = &block.statements[block.statements.len() - 1];
                    proof {
                        assert(decreases_to!(*self => *last)) by {
                            assert(decreases_to!(*self => self->Block_0));
                            assert(decreases_to!(block.statements@ => block.statements@.last()));
                        }
                    }
                    last.contains_returns()
                }
            },
            BlockOrStatement::Statement(statement) => statement.contains_returns(),
        }
    }
}

pub struct StatementContext<'a> {
    pub source_units: &'a Vec<SourceUnit>,
    pub current_source_unit: &'a SourceUnit,
    pub contract_definition: &'a ContractDefinition,
    pub definition_node: &'a ContractDefinitionNode,
    pub blocks: &'a Vec<NodeID>,
    pub statement: &'a Statement,
}

pub struct VariableDeclarationStatementContext<'a> {
    pub source_units: &'a Vec<SourceUnit>,
    pub current_source_unit: &'a SourceUnit,
    pub contract_definition: &'a ContractDefinition,
    pub definition_node: &'a ContractDefinitionNode,
    pub blocks: &'a Vec<NodeID>,
    pub variable_declaration_statement: &'a VariableDeclarationStatement,
}

pub struct BlockOrStatementContext<'a> {
    pub source_units: &'a Vec<SourceUnit>,
    pub current_source_unit: &'a SourceUnit,
    pub contract_definition: &'a ContractDefinition,
    pub definition_node: &'a ContractDefinitionNode,
    pub blocks: &'a Vec<NodeID>,
    pub block_or_statement: &'a BlockOrStatement,
}

pub struct IfStatementContext<'a> {
    pub source_units: &'a Vec<SourceUnit>,
    pub current_source_unit: &'a SourceUnit,
    pub contract_definition: &'a ContractDefinition,
    pub definition_node: &'a ContractDefinitionNode,
    pub blocks: &'a Vec<NodeID>,
    pub if_statement: &'a IfStatement,
}

pub struct ForStatementContext<'a> {
    pub source_units: &'a Vec<SourceUnit>,
    pub current_source_unit: &'a SourceUnit,
    pub contract_definition: &'a ContractDefinition,
    pub definition_node: &'a ContractDefinitionNode,
    pub blocks: &'a Vec<NodeID>,
    pub for_statement: &'a ForStatement,
}

pub struct WhileStatementContext<'a> {
    pub source_units: &'a Vec<SourceUnit>,
    pub current_source_unit: &'a SourceUnit,
    pub contract_definition: &'a ContractDefinition,
    pub definition_node: &'a ContractDefinitionNode,
    pub blocks: &'a Vec<NodeID>,
    pub while_statement: &'a WhileStatement,
}

pub struct EmitStatementContext<'a> {
    pub source_units: &'a Vec<SourceUnit>,
    pub current_source_unit: &'a SourceUnit,
    pub contract_definition: &'a ContractDefinition,
    pub definition_node: &'a ContractDefinitionNode,
    pub blocks: &'a Vec<NodeID>,
    pub emit_statement: &'a EmitStatement,
}

pub struct TryStatementContext<'a> {
    pub source_units: &'a Vec<SourceUnit>,
    pub current_source_unit: &'a SourceUnit,
    pub contract_definition: &'a ContractDefinition,
    pub definition_node: &'a ContractDefinitionNode,
    pub blocks: &'a Vec<NodeID>,
    pub try_statement: &'a TryStatement,
}

pub struct RevertStatementContext<'a> {
    pub source_units: &'a Vec<SourceUnit>,
    pub current_source_unit: &'a SourceUnit,
    pub contract_definition: &'a ContractDefinition,
    pub definition_node: &'a ContractDefinitionNode,
    pub blocks: &'a Vec<NodeID>,
    pub revert_statement: &'a RevertStatement,
}

pub struct ReturnContext<'a> {
    pub source_units: &'a Vec<SourceUnit>,
    pub current_source_unit: &'a SourceUnit,
    pub contract_definition: &'a ContractDefinition,
    pub definition_node: &'a ContractDefinitionNode,
    pub blocks: &'a Vec<NodeID>,
    pub return_statement: &'a Return,
}

pub struct InlineAssemblyContext<'a> {
    pub source_units: &'a Vec<SourceUnit>,
    pub current_source_unit: &'a SourceUnit,
    pub contract_definition: &'a ContractDefinition,
    pub definition_node: &'a ContractDefinitionNode,
    pub blocks: &'a Vec<NodeID>,
    pub inline_assembly: &'a InlineAssembly,
}

} // verus!
