//! The traversal engine: one depth-first, pre-order walk of every source
//! unit, contract, member, statement and expression, dispatching each node
//! event to the registered passes in program (lexical) order. A nested
//! block's entry event fires before that block's contents, and a block's own
//! contents fire before anything that follows them textually — the ordering
//! the effects-interactions analyzer relies on to read "after the call" off
//! the walk itself. A failing pass aborts the whole walk.
//!
//! Every walk function is pinned to a specification-level fold over the same
//! tree, so the diagnostics of a run are a function of the source units
//! alone.
use vstd::prelude::*;

use crate::analyzers::{spec_initial_tool_model, spec_step_assignment, spec_step_block,
    spec_step_contract_definition, spec_step_function_call, spec_step_function_definition,
    spec_step_identifier, spec_step_member_access, spec_step_modifier_definition,
    spec_step_return, spec_step_statement, spec_step_unary_operation,
    spec_step_variable_declaration_statement, Analyzers, ToolModel};
use crate::ast::{AnalysisError, ContractDefinition, ContractDefinitionNode, NodeID, SourceUnit};
use crate::diagnostics::Diagnostic;
use crate::expressions::{Expression, FunctionCall};
use crate::functions::{FunctionDefinitionContext, ModifierDefinitionContext};
use crate::statements::{Block, BlockOrStatement, ReturnContext, Statement, StatementContext,
    TryCatchClause, VariableDeclarationStatementContext};
use crate::visitor::{AssignmentContext, BlockContext, ContractDefinitionContext,
    FunctionCallContext, IdentifierContext, MemberAccessContext, UnaryOperationContext};

verus! {

pub open spec fn spec_walk_units(m: ToolModel, units: Seq<SourceUnit>, idx: int) -> Option<
    ToolModel,
>
    decreases units, units.len() - idx,
{
    if idx < 0 || idx >= units.len() {
        Some(m)
    } else {
        match spec_walk_source_unit(m, units, units[idx]) {
            None => None,
            Some(m1) => spec_walk_units(m1, units, idx + 1),
        }
    }
}

pub open spec fn spec_walk_source_unit(m: ToolModel, units: Seq<SourceUnit>, su: SourceUnit) -> Option<
    ToolModel,
>
    decreases su, 8int,
{
    spec_walk_contracts(m, units, su, su.contracts@, 0)
}

pub open spec fn spec_walk_contracts(
    m: ToolModel,
    units: Seq<SourceUnit>,
    su: SourceUnit,
    contracts: Seq<ContractDefinition>,
    idx: int,
) -> Option<ToolModel>
    decreases contracts, contracts.len() - idx,
{
    if idx < 0 || idx >= contracts.len() {
        Some(m)
    } else {
        match spec_walk_contract(m, units, su, contracts[idx]) {
            None => None,
            Some(m1) => spec_walk_contracts(m1, units, su, contracts, idx + 1),
        }
    }
}

pub open spec fn spec_walk_contract(
    m: ToolModel,
    units: Seq<SourceUnit>,
    su: SourceUnit,
    contract: ContractDefinition,
) -> Option<ToolModel>
    decreases contract, 8int,
{
    let m1 = spec_step_contract_definition(m, contract.id);
    spec_walk_members(m1, units, su, contract, contract.nodes@, 0)
}

pub open spec fn spec_walk_members(
    m: ToolModel,
    units: Seq<SourceUnit>,
    su: SourceUnit,
    contract: ContractDefinition,
    nodes: Seq<ContractDefinitionNode>,
    idx: int,
) -> Option<ToolModel>
    decreases nodes, nodes.len() - idx,
{
    if idx < 0 || idx >= nodes.len() {
        Some(m)
    } else {
        match spec_walk_member(m, units, su, contract, nodes[idx]) {
            None => None,
            Some(m1) => spec_walk_members(m1, units, su, contract, nodes, idx + 1),
        }
    }
}

pub open spec fn spec_walk_member(
    m: ToolModel,
    units: Seq<SourceUnit>,
    su: SourceUnit,
    contract: ContractDefinition,
    member: ContractDefinitionNode,
) -> Option<ToolModel>
    decreases member, 8int,
{
    match member {
        ContractDefinitionNode::FunctionDefinition(f) => {
            match spec_step_function_definition(m, su, contract, f) {
                None => None,
                Some(m1) => match f.body {
                    Some(body) => spec_walk_block(
                        m1,
                        units,
                        su,
                        contract,
                        member,
                        Seq::empty(),
                        body,
                    ),
                    None => Some(m1),
                },
            }
        },
        ContractDefinitionNode::ModifierDefinition(md) => {
            let m1 = spec_step_modifier_definition(m, contract, md);
            match md.body {
                Some(body) => spec_walk_block(m1, units, su, contract, member, Seq::empty(), body),
                None => Some(m1),
            }
        },
        _ => Some(m),
    }
}

pub open spec fn spec_walk_block(
    m: ToolModel,
    units: Seq<SourceUnit>,
    su: SourceUnit,
    contract: ContractDefinition,
    dn: ContractDefinitionNode,
    blocks: Seq<NodeID>,
    b: Block,
) -> Option<ToolModel>
    decreases b, 7int,
{
    let m1 = spec_step_block(m, dn, contract.id, blocks, b.id);
    spec_walk_statements(m1, units, su, contract, dn, blocks.push(b.id), b.statements@, 0)
}

pub open spec fn spec_walk_statements(
    m: ToolModel,
    units: Seq<SourceUnit>,
    su: SourceUnit,
    contract: ContractDefinition,
    dn: ContractDefinitionNode,
    blocks: Seq<NodeID>,
    statements: Seq<Statement>,
    idx: int,
) -> Option<ToolModel>
    decreases statements, statements.len() - idx,
{
    if idx < 0 || idx >= statements.len() {
        Some(m)
    } else {
        let m1 = spec_step_statement(m, units, contract.id, dn, statements[idx]);
        match spec_walk_statement(m1, units, su, contract, dn, blocks, statements[idx]) {
            None => None,
            Some(m2) => spec_walk_statements(
                m2,
                units,
                su,
                contract,
                dn,
                blocks,
                statements,
                idx + 1,
            ),
        }
    }
}

pub open spec fn spec_walk_statement(
    m: ToolModel,
    units: Seq<SourceUnit>,
    su: SourceUnit,
    contract: ContractDefinition,
    dn: ContractDefinitionNode,
    blocks: Seq<NodeID>,
    s: Statement,
) -> Option<ToolModel>
    decreases s, 6int,
{
    match s {
        Statement::VariableDeclarationStatement(vds) => {
            match spec_step_variable_declaration_statement(m, units, contract, dn, blocks, vds) {
                None => None,
                Some(m1) => match vds.initial_value {
                    Some(iv) => spec_walk_expression(m1, units, su, contract, dn, blocks, iv),
                    None => Some(m1),
                },
            }
        },
        Statement::IfStatement(if_statement) => spec_walk_if(
            m,
            units,
            su,
            contract,
            dn,
            blocks,
            if_statement,
        ),
        Statement::ForStatement(for_statement) => spec_walk_for(
            m,
            units,
            su,
            contract,
            dn,
            blocks,
            for_statement,
        ),
        Statement::WhileStatement(while_statement) => {
            match spec_walk_expression(
                m,
                units,
                su,
                contract,
                dn,
                blocks,
                while_statement.condition,
            ) {
                None => None,
                Some(m1) => spec_walk_block_or_statement(
                    m1,
                    units,
                    su,
                    contract,
                    dn,
                    blocks,
                    while_statement.body,
                ),
            }
        },
        Statement::EmitStatement(emit_statement) => spec_walk_expression(
            m,
            units,
            su,
            contract,
            dn,
            blocks,
            emit_statement.event_call,
        ),
        Statement::TryStatement(try_statement) => {
            match spec_walk_function_call_node(
                m,
                units,
                su,
                contract,
                dn,
                blocks,
                try_statement.external_call,
            ) {
                None => None,
                Some(m1) => spec_walk_clauses(
                    m1,
                    units,
                    su,
                    contract,
                    dn,
                    blocks,
                    try_statement.clauses@,
                    0,
                ),
            }
        },
        Statement::UncheckedBlock(b) => spec_walk_block(m, units, su, contract, dn, blocks, b),
        Statement::Return(ret) => {
            match spec_step_return(m, su, contract.id, dn, ret) {
                None => None,
                Some(m1) => match ret.expression {
                    Some(e) => spec_walk_expression(m1, units, su, contract, dn, blocks, e),
                    None => Some(m1),
                },
            }
        },
        Statement::RevertStatement(revert_statement) => spec_walk_function_call_node(
            m,
            units,
            su,
            contract,
            dn,
            blocks,
            revert_statement.error_call,
        ),
        Statement::ExpressionStatement(expression_statement) => spec_walk_expression(
            m,
            units,
            su,
            contract,
            dn,
            blocks,
            expression_statement.expression,
        ),
        Statement::InlineAssembly(_) => Some(m),
        Statement::UnhandledStatement { .. } => Some(m),
    }
}

pub open spec fn spec_walk_if(
    m: ToolModel,
    units: Seq<SourceUnit>,
    su: SourceUnit,
    contract: ContractDefinition,
    dn: ContractDefinitionNode,
    blocks: Seq<NodeID>,
    if_statement: crate::statements::IfStatement,
) -> Option<ToolModel>
    decreases if_statement, 9int,
{
    match spec_walk_expression(m, units, su, contract, dn, blocks, if_statement.condition) {
        None => None,
        Some(m1) => match spec_walk_block_or_statement(
            m1,
            units,
            su,
            contract,
            dn,
            blocks,
            if_statement.true_body,
        ) {
            None => None,
            Some(m2) => match if_statement.false_body {
                Some(false_body) => spec_walk_block_or_statement(
                    m2,
                    units,
                    su,
                    contract,
                    dn,
                    blocks,
                    false_body,
                ),
                None => Some(m2),
            },
        },
    }
}

pub open spec fn spec_walk_for(
    m: ToolModel,
    units: Seq<SourceUnit>,
    su: SourceUnit,
    contract: ContractDefinition,
    dn: ContractDefinitionNode,
    blocks: Seq<NodeID>,
    for_statement: crate::statements::ForStatement,
) -> Option<ToolModel>
    decreases for_statement, 9int,
{

            let init_result = match for_statement.initialization_expression {
                Some(init) => spec_walk_inner_statement(
                    m,
                    units,
                    su,
                    contract,
                    dn,
                    blocks,
                    *init,
                ),
                None => Some(m),
            };
            match init_result {
                None => None,
                Some(m1) => {
                    let cond_result = match for_statement.condition {
                        Some(cond) => spec_walk_expression(
                            m1,
                            units,
                            su,
                            contract,
                            dn,
                            blocks,
                            cond,
                        ),
                        None => Some(m1),
                    };
                    match cond_result {
                        None => None,
                        Some(m2) => {
                            let loop_result = match for_statement.loop_expression {
                                Some(le) => spec_walk_inner_statement(
                                    m2,
                                    units,
                                    su,
                                    contract,
                                    dn,
                                    blocks,
                                    *le,
                                ),
                                None => Some(m2),
                            };
                            match loop_result {
                                None => None,
                                Some(m3) => spec_walk_block_or_statement(
                                    m3,
                                    units,
                                    su,
                                    contract,
                                    dn,
                                    blocks,
                                    for_statement.body,
                                ),
                            }
                        },
                    }
                },
            }
        
}

/// A statement nested in another statement's header (a for-loop's
/// initialization or loop expression) gets its own statement event before
/// its contents, exactly as a block member does.
pub open spec fn spec_walk_inner_statement(
    m: ToolModel,
    units: Seq<SourceUnit>,
    su: SourceUnit,
    contract: ContractDefinition,
    dn: ContractDefinitionNode,
    blocks: Seq<NodeID>,
    s: Statement,
) -> Option<ToolModel>
    decreases s, 7int,
{
    let m1 = spec_step_statement(m, units, contract.id, dn, s);
    spec_walk_statement(m1, units, su, contract, dn, blocks, s)
}

pub open spec fn spec_walk_block_or_statement(
    m: ToolModel,
    units: Seq<SourceUnit>,
    su: SourceUnit,
    contract: ContractDefinition,
    dn: ContractDefinitionNode,
    blocks: Seq<NodeID>,
    bos: BlockOrStatement,
) -> Option<ToolModel>
    decreases bos, 8int,
{
    match bos {
        BlockOrStatement::Block(b) => spec_walk_block(m, units, su, contract, dn, blocks, *b),
        BlockOrStatement::Statement(s) => spec_walk_inner_statement(
            m,
            units,
            su,
            contract,
            dn,
            blocks,
            *s,
        ),
    }
}

pub open spec fn spec_walk_clauses(
    m: ToolModel,
    units: Seq<SourceUnit>,
    su: SourceUnit,
    contract: ContractDefinition,
    dn: ContractDefinitionNode,
    blocks: Seq<NodeID>,
    clauses: Seq<TryCatchClause>,
    idx: int,
) -> Option<ToolModel>
    decreases clauses, clauses.len() - idx,
{
    if idx < 0 || idx >= clauses.len() {
        Some(m)
    } else {
        match spec_walk_block(m, units, su, contract, dn, blocks, clauses[idx].block) {
            None => None,
            Some(m1) => spec_walk_clauses(m1, units, su, contract, dn, blocks, clauses, idx + 1),
        }
    }
}

pub open spec fn spec_walk_expression(
    m: ToolModel,
    units: Seq<SourceUnit>,
    su: SourceUnit,
    contract: ContractDefinition,
    dn: ContractDefinitionNode,
    blocks: Seq<NodeID>,
    e: Expression,
) -> Option<ToolModel>
    decreases e, 4int,
{
    match e {
        Expression::Literal(_) => Some(m),
        Expression::Identifier(ident) => Some(
            spec_step_identifier(m, units, contract.id, dn, blocks, ident.referenced_declaration),
        ),
        Expression::UnaryOperation(unary) => {
            match spec_step_unary_operation(m, units, su, contract, dn, blocks, unary) {
                None => None,
                Some(m1) => spec_walk_expression(
                    m1,
                    units,
                    su,
                    contract,
                    dn,
                    blocks,
                    *unary.sub_expression,
                ),
            }
        },
        Expression::BinaryOperation(binary) => {
            match spec_walk_expression(m, units, su, contract, dn, blocks, *binary.left_expression) {
                None => None,
                Some(m1) => spec_walk_expression(
                    m1,
                    units,
                    su,
                    contract,
                    dn,
                    blocks,
                    *binary.right_expression,
                ),
            }
        },
        Expression::Conditional(cond) => {
            match spec_walk_expression(m, units, su, contract, dn, blocks, *cond.condition) {
                None => None,
                Some(m1) => match spec_walk_expression(
                    m1,
                    units,
                    su,
                    contract,
                    dn,
                    blocks,
                    *cond.true_expression,
                ) {
                    None => None,
                    Some(m2) => spec_walk_expression(
                        m2,
                        units,
                        su,
                        contract,
                        dn,
                        blocks,
                        *cond.false_expression,
                    ),
                },
            }
        },
        Expression::Assignment(assignment) => {
            match spec_step_assignment(m, units, su, contract, dn, blocks, assignment) {
                None => None,
                Some(m1) => match spec_walk_expression(
                    m1,
                    units,
                    su,
                    contract,
                    dn,
                    blocks,
                    *assignment.left_hand_side,
                ) {
                    None => None,
                    Some(m2) => spec_walk_expression(
                        m2,
                        units,
                        su,
                        contract,
                        dn,
                        blocks,
                        *assignment.right_hand_side,
                    ),
                },
            }
        },
        Expression::FunctionCall(call) => spec_walk_function_call_node(
            m,
            units,
            su,
            contract,
            dn,
            blocks,
            call,
        ),
        Expression::FunctionCallOptions(fco) => {
            match spec_walk_expression(m, units, su, contract, dn, blocks, *fco.expression) {
                None => None,
                Some(m1) => spec_walk_expressions(
                    m1,
                    units,
                    su,
                    contract,
                    dn,
                    blocks,
                    fco.options@,
                    0,
                ),
            }
        },
        Expression::IndexAccess(ia) => {
            match spec_walk_expression(m, units, su, contract, dn, blocks, *ia.base_expression) {
                None => None,
                Some(m1) => match ia.index_expression {
                    Some(index) => spec_walk_expression(
                        m1,
                        units,
                        su,
                        contract,
                        dn,
                        blocks,
                        *index,
                    ),
                    None => Some(m1),
                },
            }
        },
        Expression::IndexRangeAccess(ira) => {
            match spec_walk_expression(m, units, su, contract, dn, blocks, *ira.base_expression) {
                None => None,
                Some(m1) => {
                    let start_result = match ira.start_expression {
                        Some(start) => spec_walk_expression(
                            m1,
                            units,
                            su,
                            contract,
                            dn,
                            blocks,
                            *start,
                        ),
                        None => Some(m1),
                    };
                    match start_result {
                        None => None,
                        Some(m2) => match ira.end_expression {
                            Some(end) => spec_walk_expression(
                                m2,
                                units,
                                su,
                                contract,
                                dn,
                                blocks,
                                *end,
                            ),
                            None => Some(m2),
                        },
                    }
                },
            }
        },
        Expression::MemberAccess(ma) => {
            let m1 = spec_step_member_access(
                m,
                units,
                contract.id,
                dn,
                blocks,
                ma.referenced_declaration,
            );
            spec_walk_expression(m1, units, su, contract, dn, blocks, *ma.expression)
        },
        Expression::TupleExpression(tuple) => spec_walk_opt_expressions(
            m,
            units,
            su,
            contract,
            dn,
            blocks,
            tuple.components@,
            0,
        ),
        Expression::UnhandledExpression { .. } => Some(m),
    }
}

pub open spec fn spec_walk_function_call_node(
    m: ToolModel,
    units: Seq<SourceUnit>,
    su: SourceUnit,
    contract: ContractDefinition,
    dn: ContractDefinitionNode,
    blocks: Seq<NodeID>,
    call: FunctionCall,
) -> Option<ToolModel>
    decreases call, 3int,
{
    match spec_step_function_call(m, units, su, contract, dn, blocks, call) {
        None => None,
        Some(m1) => match spec_walk_expression(m1, units, su, contract, dn, blocks, *call.expression) {
            None => None,
            Some(m2) => spec_walk_expressions(m2, units, su, contract, dn, blocks, call.arguments@, 0),
        },
    }
}

pub open spec fn spec_walk_expressions(
    m: ToolModel,
    units: Seq<SourceUnit>,
    su: SourceUnit,
    contract: ContractDefinition,
    dn: ContractDefinitionNode,
    blocks: Seq<NodeID>,
    es: Seq<Expression>,
    idx: int,
) -> Option<ToolModel>
    decreases es, es.len() - idx,
{
    if idx < 0 || idx >= es.len() {
        Some(m)
    } else {
        match spec_walk_expression(m, units, su, contract, dn, blocks, es[idx]) {
            None => None,
            Some(m1) => spec_walk_expressions(m1, units, su, contract, dn, blocks, es, idx + 1),
        }
    }
}

pub open spec fn spec_walk_opt_expressions(
    m: ToolModel,
    units: Seq<SourceUnit>,
    su: SourceUnit,
    contract: ContractDefinition,
    dn: ContractDefinitionNode,
    blocks: Seq<NodeID>,
    es: Seq<Option<Expression>>,
    idx: int,
) -> Option<ToolModel>
    decreases es, es.len() - idx,
{
    if idx < 0 || idx >= es.len() {
        Some(m)
    } else {
        let step = match es[idx] {
            Some(e) => spec_walk_expression(m, units, su, contract, dn, blocks, e),
            None => Some(m),
        };
        match step {
            None => None,
            Some(m1) => spec_walk_opt_expressions(m1, units, su, contract, dn, blocks, es, idx + 1),
        }
    }
}

/// Performs one depth-first, pre-order walk of every source unit,
/// dispatching each node event to every registered pass; a failing pass
/// aborts the walk.
#[verifier::rlimit(100)]
pub fn walk(passes: &mut Analyzers, source_units: &Vec<SourceUnit>) -> (r: Result<
    (),
    AnalysisError,
>)
    requires
        old(passes).unused_return.source_units@ == source_units@,
    ensures
        final(passes).unused_return.source_units == old(passes).unused_return.source_units,
        r is Ok ==> Some(final(passes)@) == spec_walk_units(old(passes)@, source_units@, 0),
        r is Err ==> spec_walk_units(old(passes)@, source_units@, 0) is None,
{
    let ghost m0 = passes@;
    let mut i: usize = 0;
    while i < source_units.len()
        invariant
            i <= source_units@.len(),
            m0 == old(passes)@,
            passes.unused_return.source_units@ == source_units@,
            passes.unused_return.source_units == old(passes).unused_return.source_units,
            spec_walk_units(m0, source_units@, 0) == spec_walk_units(
                passes@,
                source_units@,
                i as int,
            ),
        decreases source_units.len() - i,
    {
        match walk_source_unit(passes, source_units, &source_units[i]) {
            Ok(()) => {},
            Err(e) => {
                return Err(e);
            },
        }
        i = i + 1;
    }
    Ok(())
}

#[verifier::rlimit(100)]
fn walk_source_unit(passes: &mut Analyzers, units: &Vec<SourceUnit>, su: &SourceUnit) -> (r:
    Result<(), AnalysisError>)
    requires
        old(passes).unused_return.source_units@ == units@,
    ensures
        final(passes).unused_return.source_units == old(passes).unused_return.source_units,
        r is Ok ==> Some(final(passes)@) == spec_walk_source_unit(old(passes)@, units@, *su),
        r is Err ==> spec_walk_source_unit(old(passes)@, units@, *su) is None,
    decreases *su, 8int,
{
    let ghost m0 = passes@;
    let mut i: usize = 0;
    while i < su.contracts.len()
        invariant
            i <= su.contracts@.len(),
            m0 == old(passes)@,
            passes.unused_return.source_units@ == units@,
            passes.unused_return.source_units == old(passes).unused_return.source_units,
            spec_walk_contracts(m0, units@, *su, su.contracts@, 0) == spec_walk_contracts(
                passes@,
                units@,
                *su,
                su.contracts@,
                i as int,
            ),
        decreases su.contracts.len() - i,
    {
        match walk_contract(passes, units, su, &su.contracts[i]) {
            Ok(()) => {},
            Err(e) => {
                return Err(e);
            },
        }
        i = i + 1;
    }
    Ok(())
}

#[verifier::rlimit(100)]
fn walk_contract(
    passes: &mut Analyzers,
    units: &Vec<SourceUnit>,
    su: &SourceUnit,
    contract: &ContractDefinition,
) -> (r: Result<(), AnalysisError>)
    requires
        old(passes).unused_return.source_units@ == units@,
    ensures
        final(passes).unused_return.source_units == old(passes).unused_return.source_units,
        r is Ok ==> Some(final(passes)@) == spec_walk_contract(
            old(passes)@,
            units@,
            *su,
            *contract,
        ),
        r is Err ==> spec_walk_contract(old(passes)@, units@, *su, *contract) is None,
    decreases *contract, 8int,
{
    let ctx = ContractDefinitionContext {
        source_units: units,
        current_source_unit: su,
        contract_definition: contract,
    };
    match passes.dispatch_contract_definition(&ctx) {
        Ok(()) => {},
        Err(e) => {
            return Err(e);
        },
    }
    let ghost m1 = passes@;
    let mut i: usize = 0;
    while i < contract.nodes.len()
        invariant
            i <= contract.nodes@.len(),
            m1 == spec_step_contract_definition(old(passes)@, contract.id),
            passes.unused_return.source_units@ == units@,
            passes.unused_return.source_units == old(passes).unused_return.source_units,
            spec_walk_members(m1, units@, *su, *contract, contract.nodes@, 0)
                == spec_walk_members(
                passes@,
                units@,
                *su,
                *contract,
                contract.nodes@,
                i as int,
            ),
        decreases contract.nodes.len() - i,
    {
        match walk_member(passes, units, su, contract, &contract.nodes[i]) {
            Ok(()) => {},
            Err(e) => {
                return Err(e);
            },
        }
        i = i + 1;
    }
    Ok(())
}

#[verifier::rlimit(100)]
fn walk_member(
    passes: &mut Analyzers,
    units: &Vec<SourceUnit>,
    su: &SourceUnit,
    contract: &ContractDefinition,
    member: &ContractDefinitionNode,
) -> (r: Result<(), AnalysisError>)
    requires
        old(passes).unused_return.source_units@ == units@,
    ensures
        final(passes).unused_return.source_units == old(passes).unused_return.source_units,
        r is Ok ==> Some(final(passes)@) == spec_walk_member(
            old(passes)@,
            units@,
            *su,
            *contract,
            *member,
        ),
        r is Err ==> spec_walk_member(old(passes)@, units@, *su, *contract, *member) is None,
    decreases *member, 8int,
{
    match member {
        ContractDefinitionNode::FunctionDefinition(f) => {
            let ctx = FunctionDefinitionContext {
                source_units: units,
                current_source_unit: su,
                contract_definition: contract,
                definition_node: member,
                function_definition: f,
            };
            match passes.dispatch_function_definition(&ctx) {
                Ok(()) => {},
                Err(e) => {
                    return Err(e);
                },
            }
            match &f.body {
                Some(body) => {
                    let mut blocks: Vec<NodeID> = Vec::new();
                    walk_block(passes, units, su, contract, member, &mut blocks, body)
                },
                None => Ok(()),
            }
        },
        ContractDefinitionNode::ModifierDefinition(md) => {
            let ctx = ModifierDefinitionContext {
                source_units: units,
                current_source_unit: su,
                contract_definition: contract,
                definition_node: member,
                modifier_definition: md,
            };
            match passes.dispatch_modifier_definition(&ctx) {
                Ok(()) => {},
                Err(e) => {
                    return Err(e);
                },
            }
            match &md.body {
                Some(body) => {
                    let mut blocks: Vec<NodeID> = Vec::new();
                    walk_block(passes, units, su, contract, member, &mut blocks, body)
                },
                None => Ok(()),
            }
        },
        _ => Ok(()),
    }
}

#[verifier::rlimit(100)]
fn walk_block(
    passes: &mut Analyzers,
    units: &Vec<SourceUnit>,
    su: &SourceUnit,
    contract: &ContractDefinition,
    dn: &ContractDefinitionNode,
    blocks: &mut Vec<NodeID>,
    b: &Block,
) -> (r: Result<(), AnalysisError>)
    requires
        old(passes).unused_return.source_units@ == units@,
    ensures
        final(passes).unused_return.source_units == old(passes).unused_return.source_units,
        final(blocks)@ == old(blocks)@,
        r is Ok ==> Some(final(passes)@) == spec_walk_block(
            old(passes)@,
            units@,
            *su,
            *contract,
            *dn,
            old(blocks)@,
            *b,
        ),
        r is Err ==> spec_walk_block(old(passes)@, units@, *su, *contract, *dn, old(blocks)@, *b)
            is None,
    decreases *b, 7int,
{
    let ctx = BlockContext {
        source_units: units,
        current_source_unit: su,
        contract_definition: contract,
        definition_node: dn,
        blocks: &*blocks,
        block: b,
    };
    match passes.dispatch_block(&ctx) {
        Ok(()) => {},
        Err(e) => {
            return Err(e);
        },
    }
    blocks.push(b.id);
    let ghost m1 = passes@;
    let ghost inner = blocks@;
    let mut i: usize = 0;
    while i < b.statements.len()
        invariant
            i <= b.statements@.len(),
            m1 == spec_step_block(old(passes)@, *dn, contract.id, old(blocks)@, b.id),
            passes.unused_return.source_units@ == units@,
            passes.unused_return.source_units == old(passes).unused_return.source_units,
            blocks@ == inner,
            inner == old(blocks)@.push(b.id),
            spec_walk_statements(m1, units@, *su, *contract, *dn, inner, b.statements@, 0)
                == spec_walk_statements(
                passes@,
                units@,
                *su,
                *contract,
                *dn,
                inner,
                b.statements@,
                i as int,
            ),
        decreases b.statements.len() - i,
    {
        let stmt_ctx = StatementContext {
            source_units: units,
            current_source_unit: su,
            contract_definition: contract,
            definition_node: dn,
            blocks: &*blocks,
            statement: &b.statements[i],
        };
        match passes.dispatch_statement(&stmt_ctx) {
            Ok(()) => {},
            Err(e) => {
                return Err(e);
            },
        }
        match walk_statement(passes, units, su, contract, dn, blocks, &b.statements[i]) {
            Ok(()) => {},
            Err(e) => {
                proof {
                    assert(blocks@ == inner);
                }
                blocks.pop();
                proof {
                    assert(blocks@ =~= old(blocks)@);
                }
                return Err(e);
            },
        }
        i = i + 1;
    }
    blocks.pop();
    proof {
        assert(blocks@ =~= old(blocks)@);
    }
    Ok(())
}

/// A statement standing in another statement's header: it gets its own
/// statement event, then its contents.
#[verifier::rlimit(100)]
fn walk_inner_statement(
    passes: &mut Analyzers,
    units: &Vec<SourceUnit>,
    su: &SourceUnit,
    contract: &ContractDefinition,
    dn: &ContractDefinitionNode,
    blocks: &mut Vec<NodeID>,
    s: &Statement,
) -> (r: Result<(), AnalysisError>)
    requires
        old(passes).unused_return.source_units@ == units@,
    ensures
        final(passes).unused_return.source_units == old(passes).unused_return.source_units,
        final(blocks)@ == old(blocks)@,
        r is Ok ==> Some(final(passes)@) == spec_walk_inner_statement(
            old(passes)@,
            units@,
            *su,
            *contract,
            *dn,
            old(blocks)@,
            *s,
        ),
        r is Err ==> spec_walk_inner_statement(
            old(passes)@,
            units@,
            *su,
            *contract,
            *dn,
            old(blocks)@,
            *s,
        ) is None,
    decreases *s, 7int,
{
    let stmt_ctx = StatementContext {
        source_units: units,
        current_source_unit: su,
        contract_definition: contract,
        definition_node: dn,
        blocks: &*blocks,
        statement: s,
    };
    match passes.dispatch_statement(&stmt_ctx) {
        Ok(()) => {},
        Err(e) => {
            return Err(e);
        },
    }
    walk_statement(passes, units, su, contract, dn, blocks, s)
}

#[verifier::rlimit(100)]
fn walk_block_or_statement(
    passes: &mut Analyzers,
    units: &Vec<SourceUnit>,
    su: &SourceUnit,
    contract: &ContractDefinition,
    dn: &ContractDefinitionNode,
    blocks: &mut Vec<NodeID>,
    bos: &BlockOrStatement,
) -> (r: Result<(), AnalysisError>)
    requires
        old(passes).unused_return.source_units@ == units@,
    ensures
        final(passes).unused_return.source_units == old(passes).unused_return.source_units,
        final(blocks)@ == old(blocks)@,
        r is Ok ==> Some(final(passes)@) == spec_walk_block_or_statement(
            old(passes)@,
            units@,
            *su,
            *contract,
            *dn,
            old(blocks)@,
            *bos,
        ),
        r is Err ==> spec_walk_block_or_statement(
            old(passes)@,
            units@,
            *su,
            *contract,
            *dn,
            old(blocks)@,
            *bos,
        ) is None,
    decreases *bos, 8int,
{
    match bos {
        BlockOrStatement::Block(b) => walk_block(passes, units, su, contract, dn, blocks, b),
        BlockOrStatement::Statement(s) => walk_inner_statement(
            passes,
            units,
            su,
            contract,
            dn,
            blocks,
            s,
        ),
    }
}

#[verifier::rlimit(100)]
fn walk_clauses(
    passes: &mut Analyzers,
    units: &Vec<SourceUnit>,
    su: &SourceUnit,
    contract: &ContractDefinition,
    dn: &ContractDefinitionNode,
    blocks: &mut Vec<NodeID>,
    clauses: &Vec<TryCatchClause>,
) -> (r: Result<(), AnalysisError>)
    requires
        old(passes).unused_return.source_units@ == units@,
    ensures
        final(passes).unused_return.source_units == old(passes).unused_return.source_units,
        final(blocks)@ == old(blocks)@,
        r is Ok ==> Some(final(passes)@) == spec_walk_clauses(
            old(passes)@,
            units@,
            *su,
            *contract,
            *dn,
            old(blocks)@,
            clauses@,
            0,
        ),
        r is Err ==> spec_walk_clauses(
            old(passes)@,
            units@,
            *su,
            *contract,
            *dn,
            old(blocks)@,
            clauses@,
            0,
        ) is None,
    decreases clauses@, clauses@.len(),
{
    let ghost m0 = passes@;
    let mut i: usize = 0;
    while i < clauses.len()
        invariant
            i <= clauses@.len(),
            m0 == old(passes)@,
            passes.unused_return.source_units@ == units@,
            passes.unused_return.source_units == old(passes).unused_return.source_units,
            blocks@ == old(blocks)@,
            spec_walk_clauses(m0, units@, *su, *contract, *dn, old(blocks)@, clauses@, 0)
                == spec_walk_clauses(
                passes@,
                units@,
                *su,
                *contract,
                *dn,
                old(blocks)@,
                clauses@,
                i as int,
            ),
        decreases clauses.len() - i,
    {
        match walk_block(passes, units, su, contract, dn, blocks, &clauses[i].block) {
            Ok(()) => {},
            Err(e) => {
                return Err(e);
            },
        }
        i = i + 1;
    }
    Ok(())
}

#[verifier::rlimit(100)]
fn walk_statement(
    passes: &mut Analyzers,
    units: &Vec<SourceUnit>,
    su: &SourceUnit,
    contract: &ContractDefinition,
    dn: &ContractDefinitionNode,
    blocks: &mut Vec<NodeID>,
    s: &Statement,
) -> (r: Result<(), AnalysisError>)
    requires
        old(passes).unused_return.source_units@ == units@,
    ensures
        final(passes).unused_return.source_units == old(passes).unused_return.source_units,
        final(blocks)@ == old(blocks)@,
        r is Ok ==> Some(final(passes)@) == spec_walk_statement(
            old(passes)@,
            units@,
            *su,
            *contract,
            *dn,
            old(blocks)@,
            *s,
        ),
        r is Err ==> spec_walk_statement(
            old(passes)@,
            units@,
            *su,
            *contract,
            *dn,
            old(blocks)@,
            *s,
        ) is None,
    decreases *s, 6int,
{
    match s {
        Statement::VariableDeclarationStatement(vds) => {
            let ctx = VariableDeclarationStatementContext {
                source_units: units,
                current_source_unit: su,
                contract_definition: contract,
                definition_node: dn,
                blocks: &*blocks,
                variable_declaration_statement: vds,
            };
            match passes.dispatch_variable_declaration_statement(&ctx) {
                Ok(()) => {},
                Err(e) => {
                    return Err(e);
                },
            }
            match &vds.initial_value {
                Some(iv) => {
                    walk_expression(passes, units, su, contract, dn, &*blocks, iv)
                },
                None => Ok(()),
            }
        },
        Statement::IfStatement(if_statement) => {
            walk_if_statement(passes, units, su, contract, dn, blocks, if_statement)
        },
        Statement::ForStatement(for_statement) => {
            walk_for_statement(passes, units, su, contract, dn, blocks, for_statement)
        },
        Statement::WhileStatement(while_statement) => {
            match walk_expression(
                passes,
                units,
                su,
                contract,
                dn,
                &*blocks,
                &while_statement.condition,
            ) {
                Ok(()) => {},
                Err(e) => {
                    return Err(e);
                },
            }
            walk_block_or_statement(passes, units, su, contract, dn, blocks, &while_statement.body)
        },
        Statement::EmitStatement(emit_statement) => walk_expression(
            passes,
            units,
            su,
            contract,
            dn,
            &*blocks,
            &emit_statement.event_call,
        ),
        Statement::TryStatement(try_statement) => {
            match walk_function_call_node(
                passes,
                units,
                su,
                contract,
                dn,
                &*blocks,
                &try_statement.external_call,
            ) {
                Ok(()) => {},
                Err(e) => {
                    return Err(e);
                },
            }
            walk_clauses(passes, units, su, contract, dn, blocks, &try_statement.clauses)
        },
        Statement::UncheckedBlock(b) => walk_block(passes, units, su, contract, dn, blocks, b),
        Statement::Return(ret) => {
            let ctx = ReturnContext {
                source_units: units,
                current_source_unit: su,
                contract_definition: contract,
                definition_node: dn,
                blocks: &*blocks,
                return_statement: ret,
            };
            match passes.dispatch_return(&ctx) {
                Ok(()) => {},
                Err(e) => {
                    return Err(e);
                },
            }
            match &ret.expression {
                Some(e) => {
                    walk_expression(passes, units, su, contract, dn, &*blocks, e)
                },
                None => Ok(()),
            }
        },
        Statement::RevertStatement(revert_statement) => walk_function_call_node(
            passes,
            units,
            su,
            contract,
            dn,
            &*blocks,
            &revert_statement.error_call,
        ),
        Statement::ExpressionStatement(expression_statement) => walk_expression(
            passes,
            units,
            su,
            contract,
            dn,
            &*blocks,
            &expression_statement.expression,
        ),
        Statement::InlineAssembly(_) => Ok(()),
        Statement::UnhandledStatement { .. } => Ok(()),
    }
}


#[verifier::rlimit(100)]
fn walk_if_statement(
    passes: &mut Analyzers,
    units: &Vec<SourceUnit>,
    su: &SourceUnit,
    contract: &ContractDefinition,
    dn: &ContractDefinitionNode,
    blocks: &mut Vec<NodeID>,
    if_statement: &crate::statements::IfStatement,
) -> (r: Result<(), AnalysisError>)
    requires
        old(passes).unused_return.source_units@ == units@,
    ensures
        final(passes).unused_return.source_units == old(passes).unused_return.source_units,
        final(blocks)@ == old(blocks)@,
        r is Ok ==> Some(final(passes)@) == spec_walk_if(
            old(passes)@,
            units@,
            *su,
            *contract,
            *dn,
            old(blocks)@,
            *if_statement,
        ),
        r is Err ==> spec_walk_if(
            old(passes)@,
            units@,
            *su,
            *contract,
            *dn,
            old(blocks)@,
            *if_statement,
        ) is None,
    decreases *if_statement, 9int,
{
    match walk_expression(passes, units, su, contract, dn, &*blocks, &if_statement.condition) {
        Ok(()) => {},
        Err(e) => {
            return Err(e);
        },
    }
    match walk_block_or_statement(passes, units, su, contract, dn, blocks, &if_statement.true_body) {
        Ok(()) => {},
        Err(e) => {
            return Err(e);
        },
    }
    match &if_statement.false_body {
        Some(false_body) => {
            walk_block_or_statement(passes, units, su, contract, dn, blocks, false_body)
        },
        None => Ok(()),
    }
}

#[verifier::rlimit(100)]
fn walk_for_statement(
    passes: &mut Analyzers,
    units: &Vec<SourceUnit>,
    su: &SourceUnit,
    contract: &ContractDefinition,
    dn: &ContractDefinitionNode,
    blocks: &mut Vec<NodeID>,
    for_statement: &crate::statements::ForStatement,
) -> (r: Result<(), AnalysisError>)
    requires
        old(passes).unused_return.source_units@ == units@,
    ensures
        final(passes).unused_return.source_units == old(passes).unused_return.source_units,
        final(blocks)@ == old(blocks)@,
        r is Ok ==> Some(final(passes)@) == spec_walk_for(
            old(passes)@,
            units@,
            *su,
            *contract,
            *dn,
            old(blocks)@,
            *for_statement,
        ),
        r is Err ==> spec_walk_for(
            old(passes)@,
            units@,
            *su,
            *contract,
            *dn,
            old(blocks)@,
            *for_statement,
        ) is None,
    decreases *for_statement, 9int,
{
    match &for_statement.initialization_expression {
        Some(init) => {
            match walk_inner_statement(passes, units, su, contract, dn, blocks, init) {
                Ok(()) => {},
                Err(e) => {
                    return Err(e);
                },
            }
        },
        None => {},
    }
    match &for_statement.condition {
        Some(cond) => {
            match walk_expression(passes, units, su, contract, dn, &*blocks, cond) {
                Ok(()) => {},
                Err(e) => {
                    return Err(e);
                },
            }
        },
        None => {},
    }
    match &for_statement.loop_expression {
        Some(le) => {
            match walk_inner_statement(passes, units, su, contract, dn, blocks, le) {
                Ok(()) => {},
                Err(e) => {
                    return Err(e);
                },
            }
        },
        None => {},
    }
    walk_block_or_statement(passes, units, su, contract, dn, blocks, &for_statement.body)
}

#[verifier::rlimit(100)]
fn walk_expression(
    passes: &mut Analyzers,
    units: &Vec<SourceUnit>,
    su: &SourceUnit,
    contract: &ContractDefinition,
    dn: &ContractDefinitionNode,
    blocks: &Vec<NodeID>,
    e: &Expression,
) -> (r: Result<(), AnalysisError>)
    requires
        old(passes).unused_return.source_units@ == units@,
    ensures
        final(passes).unused_return.source_units == old(passes).unused_return.source_units,
        r is Ok ==> Some(final(passes)@) == spec_walk_expression(
            old(passes)@,
            units@,
            *su,
            *contract,
            *dn,
            blocks@,
            *e,
        ),
        r is Err ==> spec_walk_expression(
            old(passes)@,
            units@,
            *su,
            *contract,
            *dn,
            blocks@,
            *e,
        ) is None,
    decreases *e, 4int,
{
    match e {
        Expression::Literal(_) => Ok(()),
        Expression::Identifier(ident) => {
            let ctx = IdentifierContext {
                source_units: units,
                current_source_unit: su,
                contract_definition: contract,
                definition_node: dn,
                blocks,
                identifier: ident,
            };
            passes.dispatch_identifier(&ctx)
        },
        Expression::UnaryOperation(unary) => {
            let ctx = UnaryOperationContext {
                source_units: units,
                current_source_unit: su,
                contract_definition: contract,
                definition_node: dn,
                blocks,
                unary_operation: unary,
            };
            match passes.dispatch_unary_operation(&ctx) {
                Ok(()) => {},
                Err(e2) => {
                    return Err(e2);
                },
            }
            walk_expression(passes, units, su, contract, dn, blocks, &unary.sub_expression)
        },
        Expression::BinaryOperation(binary) => {
            match walk_expression(passes, units, su, contract, dn, blocks, &binary.left_expression) {
                Ok(()) => {},
                Err(e2) => {
                    return Err(e2);
                },
            }
            walk_expression(passes, units, su, contract, dn, blocks, &binary.right_expression)
        },
        Expression::Conditional(cond) => {
            match walk_expression(passes, units, su, contract, dn, blocks, &cond.condition) {
                Ok(()) => {},
                Err(e2) => {
                    return Err(e2);
                },
            }
            match walk_expression(passes, units, su, contract, dn, blocks, &cond.true_expression) {
                Ok(()) => {},
                Err(e2) => {
                    return Err(e2);
                },
            }
            walk_expression(passes, units, su, contract, dn, blocks, &cond.false_expression)
        },
        Expression::Assignment(assignment) => {
            let ctx = AssignmentContext {
                source_units: units,
                current_source_unit: su,
                contract_definition: contract,
                definition_node: dn,
                blocks,
                assignment,
            };
            match passes.dispatch_assignment(&ctx) {
                Ok(()) => {},
                Err(e2) => {
                    return Err(e2);
                },
            }
            match walk_expression(
                passes,
                units,
                su,
                contract,
                dn,
                blocks,
                &assignment.left_hand_side,
            ) {
                Ok(()) => {},
                Err(e2) => {
                    return Err(e2);
                },
            }
            walk_expression(passes, units, su, contract, dn, blocks, &assignment.right_hand_side)
        },
        Expression::FunctionCall(call) => {
            walk_function_call_node(passes, units, su, contract, dn, blocks, call)
        },
        Expression::FunctionCallOptions(fco) => {
            match walk_expression(passes, units, su, contract, dn, blocks, &fco.expression) {
                Ok(()) => {},
                Err(e2) => {
                    return Err(e2);
                },
            }
            walk_expressions(passes, units, su, contract, dn, blocks, &fco.options)
        },
        Expression::IndexAccess(ia) => {
            match walk_expression(passes, units, su, contract, dn, blocks, &ia.base_expression) {
                Ok(()) => {},
                Err(e2) => {
                    return Err(e2);
                },
            }
            match &ia.index_expression {
                Some(index) => {
                    walk_expression(passes, units, su, contract, dn, blocks, index)
                },
                None => Ok(()),
            }
        },
        Expression::IndexRangeAccess(ira) => {
            match walk_expression(passes, units, su, contract, dn, blocks, &ira.base_expression) {
                Ok(()) => {},
                Err(e2) => {
                    return Err(e2);
                },
            }
            match &ira.start_expression {
                Some(start) => {
                    match walk_expression(passes, units, su, contract, dn, blocks, start) {
                        Ok(()) => {},
                        Err(e2) => {
                            return Err(e2);
                        },
                    }
                },
                None => {},
            }
            match &ira.end_expression {
                Some(end) => {
                    walk_expression(passes, units, su, contract, dn, blocks, end)
                },
                None => Ok(()),
            }
        },
        Expression::MemberAccess(ma) => {
            let ctx = MemberAccessContext {
                source_units: units,
                current_source_unit: su,
                contract_definition: contract,
                definition_node: dn,
                blocks,
                member_access: ma,
            };
            match passes.dispatch_member_access(&ctx) {
                Ok(()) => {},
                Err(e2) => {
                    return Err(e2);
                },
            }
            walk_expression(passes, units, su, contract, dn, blocks, &ma.expression)
        },
        Expression::TupleExpression(tuple) => {
            walk_opt_expressions(passes, units, su, contract, dn, blocks, &tuple.components)
        },
        Expression::UnhandledExpression { .. } => Ok(()),
    }
}

#[verifier::rlimit(100)]
fn walk_function_call_node(
    passes: &mut Analyzers,
    units: &Vec<SourceUnit>,
    su: &SourceUnit,
    contract: &ContractDefinition,
    dn: &ContractDefinitionNode,
    blocks: &Vec<NodeID>,
    call: &FunctionCall,
) -> (r: Result<(), AnalysisError>)
    requires
        old(passes).unused_return.source_units@ == units@,
    ensures
        final(passes).unused_return.source_units == old(passes).unused_return.source_units,
        r is Ok ==> Some(final(passes)@) == spec_walk_function_call_node(
            old(passes)@,
            units@,
            *su,
            *contract,
            *dn,
            blocks@,
            *call,
        ),
        r is Err ==> spec_walk_function_call_node(
            old(passes)@,
            units@,
            *su,
            *contract,
            *dn,
            blocks@,
            *call,
        ) is None,
    decreases *call, 3int,
{
    let ctx = FunctionCallContext {
        source_units: units,
        current_source_unit: su,
        contract_definition: contract,
        definition_node: dn,
        blocks,
        function_call: call,
    };
    match passes.dispatch_function_call(&ctx) {
        Ok(()) => {},
        Err(e) => {
            return Err(e);
        },
    }
    match walk_expression(passes, units, su, contract, dn, blocks, &call.expression) {
        Ok(()) => {},
        Err(e) => {
            return Err(e);
        },
    }
    walk_expressions(passes, units, su, contract, dn, blocks, &call.arguments)
}

#[verifier::rlimit(100)]
fn walk_expressions(
    passes: &mut Analyzers,
    units: &Vec<SourceUnit>,
    su: &SourceUnit,
    contract: &ContractDefinition,
    dn: &ContractDefinitionNode,
    blocks: &Vec<NodeID>,
    es: &Vec<Expression>,
) -> (r: Result<(), AnalysisError>)
    requires
        old(passes).unused_return.source_units@ == units@,
    ensures
        final(passes).unused_return.source_units == old(passes).unused_return.source_units,
        r is Ok ==> Some(final(passes)@) == spec_walk_expressions(
            old(passes)@,
            units@,
            *su,
            *contract,
            *dn,
            blocks@,
            es@,
            0,
        ),
        r is Err ==> spec_walk_expressions(
            old(passes)@,
            units@,
            *su,
            *contract,
            *dn,
            blocks@,
            es@,
            0,
        ) is None,
    decreases es@, 0int,
{
    let ghost m0 = passes@;
    let mut i: usize = 0;
    while i < es.len()
        invariant
            i <= es@.len(),
            m0 == old(passes)@,
            passes.unused_return.source_units@ == units@,
            passes.unused_return.source_units == old(passes).unused_return.source_units,
            spec_walk_expressions(m0, units@, *su, *contract, *dn, blocks@, es@, 0)
                == spec_walk_expressions(
                passes@,
                units@,
                *su,
                *contract,
                *dn,
                blocks@,
                es@,
                i as int,
            ),
        decreases es.len() - i,
    {
        match walk_expression(passes, units, su, contract, dn, blocks, &es[i]) {
            Ok(()) => {},
            Err(e) => {
                return Err(e);
            },
        }
        i = i + 1;
    }
    proof {
        assert(spec_walk_expressions(passes@, units@, *su, *contract, *dn, blocks@, es@, i as int)
            == Some(passes@));
    }
    Ok(())
}

#[verifier::rlimit(100)]
fn walk_opt_expressions(
    passes: &mut Analyzers,
    units: &Vec<SourceUnit>,
    su: &SourceUnit,
    contract: &ContractDefinition,
    dn: &ContractDefinitionNode,
    blocks: &Vec<NodeID>,
    es: &Vec<Option<Expression>>,
) -> (r: Result<(), AnalysisError>)
    requires
        old(passes).unused_return.source_units@ == units@,
    ensures
        final(passes).unused_return.source_units == old(passes).unused_return.source_units,
        r is Ok ==> Some(final(passes)@) == spec_walk_opt_expressions(
            old(passes)@,
            units@,
            *su,
            *contract,
            *dn,
            blocks@,
            es@,
            0,
        ),
        r is Err ==> spec_walk_opt_expressions(
            old(passes)@,
            units@,
            *su,
            *contract,
            *dn,
            blocks@,
            es@,
            0,
        ) is None,
    decreases es@, 0int,
{
    let ghost m0 = passes@;
    let mut i: usize = 0;
    while i < es.len()
        invariant
            i <= es@.len(),
            m0 == old(passes)@,
            passes.unused_return.source_units@ == units@,
            passes.unused_return.source_units == old(passes).unused_return.source_units,
            spec_walk_opt_expressions(m0, units@, *su, *contract, *dn, blocks@, es@, 0)
                == spec_walk_opt_expressions(
                passes@,
                units@,
                *su,
                *contract,
                *dn,
                blocks@,
                es@,
                i as int,
            ),
        decreases es.len() - i,
    {
        match &es[i] {
            Some(inner) => {
                match walk_expression(passes, units, su, contract, dn, blocks, inner) {
                    Ok(()) => {},
                    Err(e) => {
                        return Err(e);
                    },
                }
            },
            None => {},
        }
        i = i + 1;
    }
    proof {
        assert(spec_walk_opt_expressions(
            passes@,
            units@,
            *su,
            *contract,
            *dn,
            blocks@,
            es@,
            i as int,
        ) == Some(passes@));
    }
    Ok(())
}

/// Builds a fresh set of passes, walks the source units once, and returns
/// every pass's diagnostics in registration order.
pub fn analyze(source_units: &Vec<SourceUnit>) -> (r: Result<Vec<Diagnostic>, AnalysisError>)
    ensures
        match r {
            Ok(d) => spec_analysis(source_units@) == Some(d@),
            Err(_) => spec_analysis(source_units@) is None,
        },
{
    let mut passes = Analyzers::new(source_units);
    match walk(&mut passes, source_units) {
        Ok(()) => {},
        Err(e) => {
            return Err(e);
        },
    }
    let mut out: Vec<Diagnostic> = Vec::new();
    append_diagnostics(&mut out, &passes.assert_usage.diagnostics);
    append_diagnostics(&mut out, &passes.check_effects_interactions.diagnostics);
    append_diagnostics(&mut out, &passes.explicit_variable_return.diagnostics);
    append_diagnostics(&mut out, &passes.redundant_getter_function.diagnostics);
    append_diagnostics(&mut out, &passes.safe_erc20_functions.diagnostics);
    append_diagnostics(&mut out, &passes.unused_return.diagnostics);
    proof {
        assert(out@ =~= spec_combined_diagnostics(passes@));
    }
    Ok(out)
}

/// Appends a pass's diagnostics to the combined report.
fn append_diagnostics(out: &mut Vec<Diagnostic>, src: &Vec<Diagnostic>)
    ensures
        final(out)@ == old(out)@ + src@,
{
    let mut i: usize = 0;
    while i < src.len()
        invariant
            i <= src@.len(),
            out@ == old(out)@ + src@.take(i as int),
        decreases src.len() - i,
    {
        out.push(src[i]);
        proof {
            assert(old(out)@ + src@.take(i as int + 1) =~= (old(out)@ + src@.take(i as int)).push(
                src@[i as int],
            ));
        }
        i = i + 1;
    }
    proof {
        assert(src@.take(src@.len() as int) =~= src@);
    }
}

/// What a whole run reports: the walk's final joint state, each pass's
/// diagnostics concatenated in registration order; nothing when the walk
/// aborts.
pub open spec fn spec_analysis(units: Seq<SourceUnit>) -> Option<Seq<Diagnostic>> {
    match spec_walk_units(spec_initial_tool_model(), units, 0) {
        None => None,
        Some(m) => Some(spec_combined_diagnostics(m)),
    }
}

pub open spec fn spec_combined_diagnostics(m: ToolModel) -> Seq<Diagnostic> {
    m.assert_usage.diagnostics + m.effects.diagnostics + m.explicit_return.diagnostics
        + m.redundant_getter + m.safe_erc20 + m.unused_return
}

/// Running the analysis twice over the same tree gives identical diagnostic
/// sequences: what a run reports is a function of the source units alone,
/// with nothing left to iteration order or run-to-run state.
pub proof fn lemma_analysis_deterministic(
    units: Seq<SourceUnit>,
    d1: Seq<Diagnostic>,
    d2: Seq<Diagnostic>,
)
    requires
        spec_analysis(units) == Some(d1),
        spec_analysis(units) == Some(d2),
    ensures
        d1 == d2,
{
}

/// The analyzer's central invariant, read at the joint state: every flagged
/// block is in call danger.
pub open spec fn spec_tool_invariant(m: ToolModel) -> bool {
    crate::check_effects_interactions::spec_flagged_implies_call_danger(m.effects)
}

proof fn lemma_inv_step_function_call(
    m: ToolModel,
    units: Seq<SourceUnit>,
    su: SourceUnit,
    contract: ContractDefinition,
    dn: ContractDefinitionNode,
    blocks: Seq<NodeID>,
    call: FunctionCall,
    m2: ToolModel,
)
    requires
        spec_tool_invariant(m),
        spec_step_function_call(m, units, su, contract, dn, blocks, call) == Some(m2),
    ensures
        spec_tool_invariant(m2),
{
    match crate::assert_usage::spec_on_assert_call(m.assert_usage, su, contract.id, dn, call) {
        None => {},
        Some(_) => {
            match crate::check_effects_interactions::spec_on_function_call(
                m.effects,
                units,
                su,
                contract,
                dn,
                blocks,
                call,
            ) {
                None => {},
                Some(eff) => {
                    crate::check_effects_interactions::lemma_invariant_on_function_call(
                        m.effects,
                        units,
                        su,
                        contract,
                        dn,
                        blocks,
                        call,
                        eff,
                    );
                },
            }
        },
    }
}

proof fn lemma_inv_walk_units(m: ToolModel, units: Seq<SourceUnit>, idx: int, m2: ToolModel)
    requires
        spec_tool_invariant(m),
        spec_walk_units(m, units, idx) == Some(m2),
    ensures
        spec_tool_invariant(m2),
    decreases units, units.len() - idx,
{
    if !(idx < 0 || idx >= units.len()) {
        match spec_walk_source_unit(m, units, units[idx]) {
            None => {},
            Some(m1) => {
                lemma_inv_walk_source_unit(m, units, units[idx], m1);
                lemma_inv_walk_units(m1, units, idx + 1, m2);
            },
        }
    }
}

proof fn lemma_inv_walk_source_unit(m: ToolModel, units: Seq<SourceUnit>, su: SourceUnit, m2: ToolModel)
    requires
        spec_tool_invariant(m),
        spec_walk_source_unit(m, units, su) == Some(m2),
    ensures
        spec_tool_invariant(m2),
    decreases su, 8int,
{
    lemma_inv_walk_contracts(m, units, su, su.contracts@, 0, m2);
}

proof fn lemma_inv_walk_contracts(
    m: ToolModel,
    units: Seq<SourceUnit>,
    su: SourceUnit,
    contracts: Seq<ContractDefinition>,
    idx: int,
    m2: ToolModel,
)
    requires
        spec_tool_invariant(m),
        spec_walk_contracts(m, units, su, contracts, idx) == Some(m2),
    ensures
        spec_tool_invariant(m2),
    decreases contracts, contracts.len() - idx,
{
    if !(idx < 0 || idx >= contracts.len()) {
        match spec_walk_contract(m, units, su, contracts[idx]) {
            None => {},
            Some(m1) => {
                lemma_inv_walk_contract(m, units, su, contracts[idx], m1);
                lemma_inv_walk_contracts(m1, units, su, contracts, idx + 1, m2);
            },
        }
    }
}

proof fn lemma_inv_walk_contract(
    m: ToolModel,
    units: Seq<SourceUnit>,
    su: SourceUnit,
    contract: ContractDefinition,
    m2: ToolModel,
)
    requires
        spec_tool_invariant(m),
        spec_walk_contract(m, units, su, contract) == Some(m2),
    ensures
        spec_tool_invariant(m2),
    decreases contract, 8int,
{
    let m1 = spec_step_contract_definition(m, contract.id);
    crate::check_effects_interactions::lemma_invariant_on_contract_definition(
        m.effects,
        contract.id,
    );
    lemma_inv_walk_members(m1, units, su, contract, contract.nodes@, 0, m2);
}

proof fn lemma_inv_walk_members(
    m: ToolModel,
    units: Seq<SourceUnit>,
    su: SourceUnit,
    contract: ContractDefinition,
    nodes: Seq<ContractDefinitionNode>,
    idx: int,
    m2: ToolModel,
)
    requires
        spec_tool_invariant(m),
        spec_walk_members(m, units, su, contract, nodes, idx) == Some(m2),
    ensures
        spec_tool_invariant(m2),
    decreases nodes, nodes.len() - idx,
{
    if !(idx < 0 || idx >= nodes.len()) {
        match spec_walk_member(m, units, su, contract, nodes[idx]) {
            None => {},
            Some(m1) => {
                lemma_inv_walk_member(m, units, su, contract, nodes[idx], m1);
                lemma_inv_walk_members(m1, units, su, contract, nodes, idx + 1, m2);
            },
        }
    }
}

proof fn lemma_inv_walk_member(
    m: ToolModel,
    units: Seq<SourceUnit>,
    su: SourceUnit,
    contract: ContractDefinition,
    member: ContractDefinitionNode,
    m2: ToolModel,
)
    requires
        spec_tool_invariant(m),
        spec_walk_member(m, units, su, contract, member) == Some(m2),
    ensures
        spec_tool_invariant(m2),
    decreases member, 8int,
{
    match member {
        ContractDefinitionNode::FunctionDefinition(f) => {
            match spec_step_function_definition(m, su, contract, f) {
                None => {},
                Some(m1) => {
                    crate::check_effects_interactions::lemma_invariant_on_definition(
                        m.effects,
                        contract.id,
                        f.id,
                    );
                    match f.body {
                        Some(body) => {
                            lemma_inv_walk_block(
                                m1,
                                units,
                                su,
                                contract,
                                member,
                                Seq::empty(),
                                body,
                                m2,
                            );
                        },
                        None => {},
                    }
                },
            }
        },
        ContractDefinitionNode::ModifierDefinition(md) => {
            let m1 = spec_step_modifier_definition(m, contract, md);
            crate::check_effects_interactions::lemma_invariant_on_definition(
                m.effects,
                contract.id,
                md.id,
            );
            match md.body {
                Some(body) => {
                    lemma_inv_walk_block(m1, units, su, contract, member, Seq::empty(), body, m2);
                },
                None => {},
            }
        },
        _ => {},
    }
}

proof fn lemma_inv_walk_block(
    m: ToolModel,
    units: Seq<SourceUnit>,
    su: SourceUnit,
    contract: ContractDefinition,
    dn: ContractDefinitionNode,
    blocks: Seq<NodeID>,
    b: Block,
    m2: ToolModel,
)
    requires
        spec_tool_invariant(m),
        spec_walk_block(m, units, su, contract, dn, blocks, b) == Some(m2),
    ensures
        spec_tool_invariant(m2),
    decreases b, 7int,
{
    let m1 = spec_step_block(m, dn, contract.id, blocks, b.id);
    match crate::ast::spec_definition_id(dn) {
        None => {},
        Some(fid) => {
            crate::check_effects_interactions::lemma_invariant_on_block_entry(
                m.effects,
                contract.id,
                fid,
                b.id,
                blocks,
            );
        },
    }
    lemma_inv_walk_statements(m1, units, su, contract, dn, blocks.push(b.id), b.statements@, 0, m2);
}

proof fn lemma_inv_walk_statements(
    m: ToolModel,
    units: Seq<SourceUnit>,
    su: SourceUnit,
    contract: ContractDefinition,
    dn: ContractDefinitionNode,
    blocks: Seq<NodeID>,
    statements: Seq<Statement>,
    idx: int,
    m2: ToolModel,
)
    requires
        spec_tool_invariant(m),
        spec_walk_statements(m, units, su, contract, dn, blocks, statements, idx) == Some(m2),
    ensures
        spec_tool_invariant(m2),
    decreases statements, statements.len() - idx,
{
    if !(idx < 0 || idx >= statements.len()) {
        let m1 = spec_step_statement(m, units, contract.id, dn, statements[idx]);
        match spec_walk_statement(m1, units, su, contract, dn, blocks, statements[idx]) {
            None => {},
            Some(mm) => {
                lemma_inv_walk_statement(m1, units, su, contract, dn, blocks, statements[idx], mm);
                lemma_inv_walk_statements(
                    mm,
                    units,
                    su,
                    contract,
                    dn,
                    blocks,
                    statements,
                    idx + 1,
                    m2,
                );
            },
        }
    }
}

proof fn lemma_inv_walk_statement(
    m: ToolModel,
    units: Seq<SourceUnit>,
    su: SourceUnit,
    contract: ContractDefinition,
    dn: ContractDefinitionNode,
    blocks: Seq<NodeID>,
    s: Statement,
    m2: ToolModel,
)
    requires
        spec_tool_invariant(m),
        spec_walk_statement(m, units, su, contract, dn, blocks, s) == Some(m2),
    ensures
        spec_tool_invariant(m2),
    decreases s, 6int,
{
    match s {
        Statement::VariableDeclarationStatement(vds) => {
            match spec_step_variable_declaration_statement(m, units, contract, dn, blocks, vds) {
                None => {},
                Some(m1) => {
                    match crate::check_effects_interactions::spec_on_variable_declaration_statement(
                        m.effects,
                        units,
                        contract,
                        dn,
                        blocks,
                        vds,
                    ) {
                        None => {},
                        Some(eff) => {
                            crate::check_effects_interactions::lemma_invariant_on_variable_declaration_statement(
                                m.effects,
                                units,
                                contract,
                                dn,
                                blocks,
                                vds,
                                eff,
                            );
                        },
                    }
                    match vds.initial_value {
                        Some(iv) => {
                            lemma_inv_walk_expression(m1, units, su, contract, dn, blocks, iv, m2);
                        },
                        None => {},
                    }
                },
            }
        },
        Statement::IfStatement(if_statement) => {
            match spec_walk_expression(m, units, su, contract, dn, blocks, if_statement.condition) {
                None => {},
                Some(m1) => {
                    lemma_inv_walk_expression(
                        m,
                        units,
                        su,
                        contract,
                        dn,
                        blocks,
                        if_statement.condition,
                        m1,
                    );
                    match spec_walk_block_or_statement(
                        m1,
                        units,
                        su,
                        contract,
                        dn,
                        blocks,
                        if_statement.true_body,
                    ) {
                        None => {},
                        Some(mm) => {
                            lemma_inv_walk_block_or_statement(
                                m1,
                                units,
                                su,
                                contract,
                                dn,
                                blocks,
                                if_statement.true_body,
                                mm,
                            );
                            match if_statement.false_body {
                                Some(false_body) => {
                                    lemma_inv_walk_block_or_statement(
                                        mm,
                                        units,
                                        su,
                                        contract,
                                        dn,
                                        blocks,
                                        false_body,
                                        m2,
                                    );
                                },
                                None => {},
                            }
                        },
                    }
                },
            }
        },
        Statement::ForStatement(for_statement) => {
            let init_result = match for_statement.initialization_expression {
                Some(init) => spec_walk_inner_statement(m, units, su, contract, dn, blocks, *init),
                None => Some(m),
            };
            match init_result {
                None => {},
                Some(m1) => {
                    match for_statement.initialization_expression {
                        Some(init) => {
                            lemma_inv_walk_inner_statement(
                                m,
                                units,
                                su,
                                contract,
                                dn,
                                blocks,
                                *init,
                                m1,
                            );
                        },
                        None => {},
                    }
                    let cond_result = match for_statement.condition {
                        Some(cond) => spec_walk_expression(m1, units, su, contract, dn, blocks, cond),
                        None => Some(m1),
                    };
                    match cond_result {
                        None => {},
                        Some(mm) => {
                            match for_statement.condition {
                                Some(cond) => {
                                    lemma_inv_walk_expression(
                                        m1,
                                        units,
                                        su,
                                        contract,
                                        dn,
                                        blocks,
                                        cond,
                                        mm,
                                    );
                                },
                                None => {},
                            }
                            let loop_result = match for_statement.loop_expression {
                                Some(le) => spec_walk_inner_statement(
                                    mm,
                                    units,
                                    su,
                                    contract,
                                    dn,
                                    blocks,
                                    *le,
                                ),
                                None => Some(mm),
                            };
                            match loop_result {
                                None => {},
                                Some(m3) => {
                                    match for_statement.loop_expression {
                                        Some(le) => {
                                            lemma_inv_walk_inner_statement(
                                                mm,
                                                units,
                                                su,
                                                contract,
                                                dn,
                                                blocks,
                                                *le,
                                                m3,
                                            );
                                        },
                                        None => {},
                                    }
                                    lemma_inv_walk_block_or_statement(
                                        m3,
                                        units,
                                        su,
                                        contract,
                                        dn,
                                        blocks,
                                        for_statement.body,
                                        m2,
                                    );
                                },
                            }
                        },
                    }
                },
            }
        },
        Statement::WhileStatement(while_statement) => {
            match spec_walk_expression(m, units, su, contract, dn, blocks, while_statement.condition) {
                None => {},
                Some(m1) => {
                    lemma_inv_walk_expression(
                        m,
                        units,
                        su,
                        contract,
                        dn,
                        blocks,
                        while_statement.condition,
                        m1,
                    );
                    lemma_inv_walk_block_or_statement(
                        m1,
                        units,
                        su,
                        contract,
                        dn,
                        blocks,
                        while_statement.body,
                        m2,
                    );
                },
            }
        },
        Statement::EmitStatement(emit_statement) => {
            lemma_inv_walk_expression(
                m,
                units,
                su,
                contract,
                dn,
                blocks,
                emit_statement.event_call,
                m2,
            );
        },
        Statement::TryStatement(try_statement) => {
            match spec_walk_function_call_node(
                m,
                units,
                su,
                contract,
                dn,
                blocks,
                try_statement.external_call,
            ) {
                None => {},
                Some(m1) => {
                    lemma_inv_walk_function_call_node(
                        m,
                        units,
                        su,
                        contract,
                        dn,
                        blocks,
                        try_statement.external_call,
                        m1,
                    );
                    lemma_inv_walk_clauses(
                        m1,
                        units,
                        su,
                        contract,
                        dn,
                        blocks,
                        try_statement.clauses@,
                        0,
                        m2,
                    );
                },
            }
        },
        Statement::UncheckedBlock(b) => {
            lemma_inv_walk_block(m, units, su, contract, dn, blocks, b, m2);
        },
        Statement::Return(ret) => {
            match spec_step_return(m, su, contract.id, dn, ret) {
                None => {},
                Some(m1) => {
                    match ret.expression {
                        Some(e) => {
                            lemma_inv_walk_expression(m1, units, su, contract, dn, blocks, e, m2);
                        },
                        None => {},
                    }
                },
            }
        },
        Statement::RevertStatement(revert_statement) => {
            lemma_inv_walk_function_call_node(
                m,
                units,
                su,
                contract,
                dn,
                blocks,
                revert_statement.error_call,
                m2,
            );
        },
        Statement::ExpressionStatement(expression_statement) => {
            lemma_inv_walk_expression(
                m,
                units,
                su,
                contract,
                dn,
                blocks,
                expression_statement.expression,
                m2,
            );
        },
        Statement::InlineAssembly(_) => {},
        Statement::UnhandledStatement { .. } => {},
    }
}

proof fn lemma_inv_walk_inner_statement(
    m: ToolModel,
    units: Seq<SourceUnit>,
    su: SourceUnit,
    contract: ContractDefinition,
    dn: ContractDefinitionNode,
    blocks: Seq<NodeID>,
    s: Statement,
    m2: ToolModel,
)
    requires
        spec_tool_invariant(m),
        spec_walk_inner_statement(m, units, su, contract, dn, blocks, s) == Some(m2),
    ensures
        spec_tool_invariant(m2),
    decreases s, 7int,
{
    let m1 = spec_step_statement(m, units, contract.id, dn, s);
    lemma_inv_walk_statement(m1, units, su, contract, dn, blocks, s, m2);
}

proof fn lemma_inv_walk_block_or_statement(
    m: ToolModel,
    units: Seq<SourceUnit>,
    su: SourceUnit,
    contract: ContractDefinition,
    dn: ContractDefinitionNode,
    blocks: Seq<NodeID>,
    bos: BlockOrStatement,
    m2: ToolModel,
)
    requires
        spec_tool_invariant(m),
        spec_walk_block_or_statement(m, units, su, contract, dn, blocks, bos) == Some(m2),
    ensures
        spec_tool_invariant(m2),
    decreases bos, 8int,
{
    match bos {
        BlockOrStatement::Block(b) => {
            lemma_inv_walk_block(m, units, su, contract, dn, blocks, *b, m2);
        },
        BlockOrStatement::Statement(st) => {
            lemma_inv_walk_inner_statement(m, units, su, contract, dn, blocks, *st, m2);
        },
    }
}

proof fn lemma_inv_walk_clauses(
    m: ToolModel,
    units: Seq<SourceUnit>,
    su: SourceUnit,
    contract: ContractDefinition,
    dn: ContractDefinitionNode,
    blocks: Seq<NodeID>,
    clauses: Seq<TryCatchClause>,
    idx: int,
    m2: ToolModel,
)
    requires
        spec_tool_invariant(m),
        spec_walk_clauses(m, units, su, contract, dn, blocks, clauses, idx) == Some(m2),
    ensures
        spec_tool_invariant(m2),
    decreases clauses, clauses.len() - idx,
{
    if !(idx < 0 || idx >= clauses.len()) {
        match spec_walk_block(m, units, su, contract, dn, blocks, clauses[idx].block) {
            None => {},
            Some(m1) => {
                lemma_inv_walk_block(m, units, su, contract, dn, blocks, clauses[idx].block, m1);
                lemma_inv_walk_clauses(m1, units, su, contract, dn, blocks, clauses, idx + 1, m2);
            },
        }
    }
}

proof fn lemma_inv_walk_expression(
    m: ToolModel,
    units: Seq<SourceUnit>,
    su: SourceUnit,
    contract: ContractDefinition,
    dn: ContractDefinitionNode,
    blocks: Seq<NodeID>,
    e: Expression,
    m2: ToolModel,
)
    requires
        spec_tool_invariant(m),
        spec_walk_expression(m, units, su, contract, dn, blocks, e) == Some(m2),
    ensures
        spec_tool_invariant(m2),
    decreases e, 4int,
{
    match e {
        Expression::Literal(_) => {},
        Expression::Identifier(ident) => {
            crate::check_effects_interactions::lemma_invariant_on_identifier_ref(
                m.effects,
                units,
                contract.id,
                dn,
                blocks,
                ident.referenced_declaration,
            );
        },
        Expression::UnaryOperation(unary) => {
            match spec_step_unary_operation(m, units, su, contract, dn, blocks, unary) {
                None => {},
                Some(m1) => {
                    match crate::check_effects_interactions::spec_on_unary_operation(
                        m.effects,
                        units,
                        su,
                        contract,
                        dn,
                        blocks,
                        unary,
                    ) {
                        None => {},
                        Some(eff) => {
                            crate::check_effects_interactions::lemma_invariant_on_unary_operation(
                                m.effects,
                                units,
                                su,
                                contract,
                                dn,
                                blocks,
                                unary,
                                eff,
                            );
                        },
                    }
                    lemma_inv_walk_expression(
                        m1,
                        units,
                        su,
                        contract,
                        dn,
                        blocks,
                        *unary.sub_expression,
                        m2,
                    );
                },
            }
        },
        Expression::BinaryOperation(binary) => {
            match spec_walk_expression(m, units, su, contract, dn, blocks, *binary.left_expression) {
                None => {},
                Some(m1) => {
                    lemma_inv_walk_expression(
                        m,
                        units,
                        su,
                        contract,
                        dn,
                        blocks,
                        *binary.left_expression,
                        m1,
                    );
                    lemma_inv_walk_expression(
                        m1,
                        units,
                        su,
                        contract,
                        dn,
                        blocks,
                        *binary.right_expression,
                        m2,
                    );
                },
            }
        },
        Expression::Conditional(cond) => {
            match spec_walk_expression(m, units, su, contract, dn, blocks, *cond.condition) {
                None => {},
                Some(m1) => {
                    lemma_inv_walk_expression(m, units, su, contract, dn, blocks, *cond.condition, m1);
                    match spec_walk_expression(
                        m1,
                        units,
                        su,
                        contract,
                        dn,
                        blocks,
                        *cond.true_expression,
                    ) {
                        None => {},
                        Some(mm) => {
                            lemma_inv_walk_expression(
                                m1,
                                units,
                                su,
                                contract,
                                dn,
                                blocks,
                                *cond.true_expression,
                                mm,
                            );
                            lemma_inv_walk_expression(
                                mm,
                                units,
                                su,
                                contract,
                                dn,
                                blocks,
                                *cond.false_expression,
                                m2,
                            );
                        },
                    }
                },
            }
        },
        Expression::Assignment(assignment) => {
            match spec_step_assignment(m, units, su, contract, dn, blocks, assignment) {
                None => {},
                Some(m1) => {
                    match crate::check_effects_interactions::spec_on_assignment(
                        m.effects,
                        units,
                        su,
                        contract,
                        dn,
                        blocks,
                        assignment,
                    ) {
                        None => {},
                        Some(eff) => {
                            crate::check_effects_interactions::lemma_invariant_on_assignment(
                                m.effects,
                                units,
                                su,
                                contract,
                                dn,
                                blocks,
                                assignment,
                                eff,
                            );
                        },
                    }
                    match spec_walk_expression(
                        m1,
                        units,
                        su,
                        contract,
                        dn,
                        blocks,
                        *assignment.left_hand_side,
                    ) {
                        None => {},
                        Some(mm) => {
                            lemma_inv_walk_expression(
                                m1,
                                units,
                                su,
                                contract,
                                dn,
                                blocks,
                                *assignment.left_hand_side,
                                mm,
                            );
                            lemma_inv_walk_expression(
                                mm,
                                units,
                                su,
                                contract,
                                dn,
                                blocks,
                                *assignment.right_hand_side,
                                m2,
                            );
                        },
                    }
                },
            }
        },
        Expression::FunctionCall(call) => {
            lemma_inv_walk_function_call_node(m, units, su, contract, dn, blocks, call, m2);
        },
        Expression::FunctionCallOptions(fco) => {
            match spec_walk_expression(m, units, su, contract, dn, blocks, *fco.expression) {
                None => {},
                Some(m1) => {
                    lemma_inv_walk_expression(m, units, su, contract, dn, blocks, *fco.expression, m1);
                    lemma_inv_walk_expressions(m1, units, su, contract, dn, blocks, fco.options@, 0, m2);
                },
            }
        },
        Expression::IndexAccess(ia) => {
            match spec_walk_expression(m, units, su, contract, dn, blocks, *ia.base_expression) {
                None => {},
                Some(m1) => {
                    lemma_inv_walk_expression(
                        m,
                        units,
                        su,
                        contract,
                        dn,
                        blocks,
                        *ia.base_expression,
                        m1,
                    );
                    match ia.index_expression {
                        Some(index) => {
                            lemma_inv_walk_expression(
                                m1,
                                units,
                                su,
                                contract,
                                dn,
                                blocks,
                                *index,
                                m2,
                            );
                        },
                        None => {},
                    }
                },
            }
        },
        Expression::IndexRangeAccess(ira) => {
            match spec_walk_expression(m, units, su, contract, dn, blocks, *ira.base_expression) {
                None => {},
                Some(m1) => {
                    lemma_inv_walk_expression(
                        m,
                        units,
                        su,
                        contract,
                        dn,
                        blocks,
                        *ira.base_expression,
                        m1,
                    );
                    let start_result = match ira.start_expression {
                        Some(start) => spec_walk_expression(
                            m1,
                            units,
                            su,
                            contract,
                            dn,
                            blocks,
                            *start,
                        ),
                        None => Some(m1),
                    };
                    match start_result {
                        None => {},
                        Some(mm) => {
                            match ira.start_expression {
                                Some(start) => {
                                    lemma_inv_walk_expression(
                                        m1,
                                        units,
                                        su,
                                        contract,
                                        dn,
                                        blocks,
                                        *start,
                                        mm,
                                    );
                                },
                                None => {},
                            }
                            match ira.end_expression {
                                Some(end) => {
                                    lemma_inv_walk_expression(
                                        mm,
                                        units,
                                        su,
                                        contract,
                                        dn,
                                        blocks,
                                        *end,
                                        m2,
                                    );
                                },
                                None => {},
                            }
                        },
                    }
                },
            }
        },
        Expression::MemberAccess(ma) => {
            let m1 = spec_step_member_access(
                m,
                units,
                contract.id,
                dn,
                blocks,
                ma.referenced_declaration,
            );
            crate::check_effects_interactions::lemma_invariant_on_member_access(
                m.effects,
                units,
                contract.id,
                dn,
                blocks,
                ma.referenced_declaration,
            );
            lemma_inv_walk_expression(m1, units, su, contract, dn, blocks, *ma.expression, m2);
        },
        Expression::TupleExpression(tuple) => {
            lemma_inv_walk_opt_expressions(
                m,
                units,
                su,
                contract,
                dn,
                blocks,
                tuple.components@,
                0,
                m2,
            );
        },
        Expression::UnhandledExpression { .. } => {},
    }
}

proof fn lemma_inv_walk_function_call_node(
    m: ToolModel,
    units: Seq<SourceUnit>,
    su: SourceUnit,
    contract: ContractDefinition,
    dn: ContractDefinitionNode,
    blocks: Seq<NodeID>,
    call: FunctionCall,
    m2: ToolModel,
)
    requires
        spec_tool_invariant(m),
        spec_walk_function_call_node(m, units, su, contract, dn, blocks, call) == Some(m2),
    ensures
        spec_tool_invariant(m2),
    decreases call, 3int,
{
    match spec_step_function_call(m, units, su, contract, dn, blocks, call) {
        None => {},
        Some(m1) => {
            lemma_inv_step_function_call(m, units, su, contract, dn, blocks, call, m1);
            match spec_walk_expression(m1, units, su, contract, dn, blocks, *call.expression) {
                None => {},
                Some(mm) => {
                    lemma_inv_walk_expression(
                        m1,
                        units,
                        su,
                        contract,
                        dn,
                        blocks,
                        *call.expression,
                        mm,
                    );
                    lemma_inv_walk_expressions(
                        mm,
                        units,
                        su,
                        contract,
                        dn,
                        blocks,
                        call.arguments@,
                        0,
                        m2,
                    );
                },
            }
        },
    }
}

proof fn lemma_inv_walk_expressions(
    m: ToolModel,
    units: Seq<SourceUnit>,
    su: SourceUnit,
    contract: ContractDefinition,
    dn: ContractDefinitionNode,
    blocks: Seq<NodeID>,
    es: Seq<Expression>,
    idx: int,
    m2: ToolModel,
)
    requires
        spec_tool_invariant(m),
        spec_walk_expressions(m, units, su, contract, dn, blocks, es, idx) == Some(m2),
    ensures
        spec_tool_invariant(m2),
    decreases es, es.len() - idx,
{
    if !(idx < 0 || idx >= es.len()) {
        match spec_walk_expression(m, units, su, contract, dn, blocks, es[idx]) {
            None => {},
            Some(m1) => {
                lemma_inv_walk_expression(m, units, su, contract, dn, blocks, es[idx], m1);
                lemma_inv_walk_expressions(m1, units, su, contract, dn, blocks, es, idx + 1, m2);
            },
        }
    }
}

proof fn lemma_inv_walk_opt_expressions(
    m: ToolModel,
    units: Seq<SourceUnit>,
    su: SourceUnit,
    contract: ContractDefinition,
    dn: ContractDefinitionNode,
    blocks: Seq<NodeID>,
    es: Seq<Option<Expression>>,
    idx: int,
    m2: ToolModel,
)
    requires
        spec_tool_invariant(m),
        spec_walk_opt_expressions(m, units, su, contract, dn, blocks, es, idx) == Some(m2),
    ensures
        spec_tool_invariant(m2),
    decreases es, es.len() - idx,
{
    if !(idx < 0 || idx >= es.len()) {
        let step = match es[idx] {
            Some(e) => spec_walk_expression(m, units, su, contract, dn, blocks, e),
            None => Some(m),
        };
        match step {
            None => {},
            Some(m1) => {
                match es[idx] {
                    Some(e) => {
                        lemma_inv_walk_expression(m, units, su, contract, dn, blocks, e, m1);
                    },
                    None => {},
                }
                lemma_inv_walk_opt_expressions(
                    m1,
                    units,
                    su,
                    contract,
                    dn,
                    blocks,
                    es,
                    idx + 1,
                    m2,
                );
            },
        }
    }
}

/// Any state a whole run reaches satisfies the analyzer's invariant: in the
/// final bookkeeping of a successful walk, every block flagged as violating
/// has an external call recorded on itself or on an ancestor — a reported
/// violation always follows a call observed earlier in the walk.
pub proof fn lemma_run_upholds_flag_invariant(units: Seq<SourceUnit>, m2: ToolModel)
    requires
        spec_walk_units(spec_initial_tool_model(), units, 0) == Some(m2),
    ensures
        spec_tool_invariant(m2),
{
    crate::check_effects_interactions::lemma_invariant_initial(
        spec_initial_tool_model().effects,
    );
    lemma_inv_walk_units(spec_initial_tool_model(), units, 0, m2);
}

} // verus!
