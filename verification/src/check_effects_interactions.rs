//! The effects-interactions analyzer: flags any state-variable write,
//! increment/decrement or mutating array operation that occurs after an
//! externally-dispatched call within the same function or modifier — a
//! violation of the checks-effects-interactions discipline.
//!
//! The pass keeps, per contract, per function or modifier, per lexical block,
//! a record with two sticky flags (an external call was seen; a violation was
//! already reported), the storage-alias bindings recorded in that block, and
//! the block's ancestor chain captured at entry. Per block the record moves
//! only forward: clean, then call-seen, then violation-reported, which is
//! terminal. The analyzer has no control-flow graph: "after the call" means
//! after in traversal order, which the engine guarantees equals program
//! order, an accepted source of imprecision around early exits inside
//! branches.
use vstd::prelude::*;

use crate::assoc::{assoc_index, contains_id, lemma_assoc_first_index, lemma_assoc_get_at,
    lemma_assoc_get_none, lemma_assoc_get_push_present, lemma_assoc_get_put_other,
    lemma_assoc_get_put_same, lemma_assoc_put_append, lemma_assoc_put_update, spec_assoc_get,
    spec_assoc_first_index, spec_assoc_put};
use crate::ast::{definition_id, is_external_function_reference, spec_definition_id,
    spec_is_external_function_reference, spec_hierarchy_contains_state_variable, spec_source_line,
    AnalysisError, ContractDefinition, ContractDefinitionNode, NodeID, SourceUnit,
    StorageLocation, VariableDeclaration};
use crate::diagnostics::{Diagnostic, Finding};
use crate::expressions::{spec_referenced_declarations, spec_root_expression, Assignment,
    Expression, FunctionCall, UnaryOperation};
use crate::statements::{VariableDeclarationStatement, VariableDeclarationStatementContext};
use crate::text::{spec_str_bytes, str_eq};
use crate::visitor::{AssignmentContext, AstVisitor, BlockContext, ContractDefinitionContext,
    FunctionCallContext, IdentifierContext, MemberAccessContext, UnaryOperationContext};
use crate::functions::{FunctionDefinitionContext, ModifierDefinitionContext};

verus! {

/// Per-block bookkeeping, created at the block's entry event.
pub struct BlockInfo {
    /// Sticky: an expression in this block's own contents resolved to a
    /// function with external visibility.
    pub makes_external_call: bool,
    /// Sticky: a qualifying mutation was already reported for this block; no
    /// further checks run for it.
    pub makes_post_external_call_assignment: bool,
    /// State-variable identity to the local storage aliases bound to it in
    /// this block, in the order they were recorded.
    pub variable_bindings: Vec<(NodeID, Vec<NodeID>)>,
    /// The enclosing blocks' identities, outermost first, captured at entry.
    pub parent_blocks: Vec<NodeID>,
}

/// Per-function-or-modifier bookkeeping: one record per visited block.
pub struct FunctionInfo {
    pub block_info: Vec<(NodeID, BlockInfo)>,
}

/// Per-contract bookkeeping: one record per visited function or modifier.
pub struct ContractInfo {
    pub function_info: Vec<(NodeID, FunctionInfo)>,
}

/// The analyzer's whole private state: per-contract records and the
/// diagnostics reported so far, in the order they were found.
pub struct CheckEffectsInteractionsVisitor {
    pub contract_info: Vec<(NodeID, ContractInfo)>,
    pub diagnostics: Vec<Diagnostic>,
}

#[verifier::ext_equal]
pub ghost struct BlockModel {
    pub makes_external_call: bool,
    pub makes_post_external_call_assignment: bool,
    pub variable_bindings: Seq<(NodeID, Seq<NodeID>)>,
    pub parent_blocks: Seq<NodeID>,
}

#[verifier::ext_equal]
pub ghost struct FunctionModel {
    pub block_info: Seq<(NodeID, BlockModel)>,
}

#[verifier::ext_equal]
pub ghost struct ContractModel {
    pub function_info: Seq<(NodeID, FunctionModel)>,
}

#[verifier::ext_equal]
pub ghost struct EffectsModel {
    pub contract_info: Seq<(NodeID, ContractModel)>,
    pub diagnostics: Seq<Diagnostic>,
}

impl View for BlockInfo {
    type V = BlockModel;

    open spec fn view(&self) -> BlockModel {
        BlockModel {
            makes_external_call: self.makes_external_call,
            makes_post_external_call_assignment: self.makes_post_external_call_assignment,
            variable_bindings: self.variable_bindings@.map_values(
                |p: (NodeID, Vec<NodeID>)| (p.0, p.1@),
            ),
            parent_blocks: self.parent_blocks@,
        }
    }
}

impl View for FunctionInfo {
    type V = FunctionModel;

    open spec fn view(&self) -> FunctionModel {
        FunctionModel {
            block_info: self.block_info@.map_values(|p: (NodeID, BlockInfo)| (p.0, p.1@)),
        }
    }
}

impl View for ContractInfo {
    type V = ContractModel;

    open spec fn view(&self) -> ContractModel {
        ContractModel {
            function_info: self.function_info@.map_values(|p: (NodeID, FunctionInfo)| (p.0, p.1@)),
        }
    }
}

impl View for CheckEffectsInteractionsVisitor {
    type V = EffectsModel;

    open spec fn view(&self) -> EffectsModel {
        EffectsModel {
            contract_info: self.contract_info@.map_values(
                |p: (NodeID, ContractInfo)| (p.0, p.1@),
            ),
            diagnostics: self.diagnostics@,
        }
    }
}

/// The state variable the bindings alias `rid` to: the key of the first list
/// that holds it, in recording order.
pub open spec fn spec_bindings_resolve(
    bindings: Seq<(NodeID, Seq<NodeID>)>,
    rid: NodeID,
) -> Option<NodeID>
    decreases bindings.len(),
{
    if bindings.len() == 0 {
        None
    } else if bindings[0].1.contains(rid) {
        Some(bindings[0].0)
    } else {
        spec_bindings_resolve(bindings.skip(1), rid)
    }
}

/// Resolution through the ancestor chain, innermost ancestor first; an
/// ancestor without a record contributes nothing.
pub open spec fn spec_resolve_in_parents(
    fm: FunctionModel,
    parents: Seq<NodeID>,
    rid: NodeID,
) -> Option<NodeID>
    decreases parents.len(),
{
    if parents.len() == 0 {
        None
    } else {
        let rest = parents.drop_last();
        match spec_assoc_get(fm.block_info, parents.last()) {
            Some(pm) => match spec_bindings_resolve(pm.variable_bindings, rid) {
                Some(sv) => Some(sv),
                None => spec_resolve_in_parents(fm, rest, rid),
            },
            None => spec_resolve_in_parents(fm, rest, rid),
        }
    }
}

/// What a referenced declaration means for contract state: itself, when it is
/// a state variable anywhere in the inheritance hierarchy; otherwise the
/// state variable it was recorded as an alias of, searched in the current
/// block first and then outward along the ancestor chain; otherwise nothing.
pub open spec fn spec_resolve_state_variable(
    units: Seq<SourceUnit>,
    contract: ContractDefinition,
    fm: FunctionModel,
    block_id: NodeID,
    rid: NodeID,
) -> Option<NodeID> {
    if spec_hierarchy_contains_state_variable(units, contract, rid) {
        Some(rid)
    } else {
        match spec_assoc_get(fm.block_info, block_id) {
            Some(bm) => match spec_bindings_resolve(bm.variable_bindings, rid) {
                Some(sv) => Some(sv),
                None => spec_resolve_in_parents(fm, bm.parent_blocks, rid),
            },
            None => None,
        }
    }
}

/// Whether the block, or any ancestor on its recorded chain, has already seen
/// an external call: the condition under which a later mutation is a
/// violation.
pub open spec fn spec_call_danger(fm: FunctionModel, bm: BlockModel) -> bool {
    bm.makes_external_call || exists|j: int|
        0 <= j < bm.parent_blocks.len() && (match spec_assoc_get(
            fm.block_info,
            #[trigger] bm.parent_blocks[j],
        ) {
            Some(pm) => pm.makes_external_call,
            None => false,
        })
}

/// Whether any of the referenced declarations resolves to a state variable.
pub open spec fn spec_any_resolves(
    units: Seq<SourceUnit>,
    contract: ContractDefinition,
    fm: FunctionModel,
    block_id: NodeID,
    ids: Seq<NodeID>,
) -> bool {
    exists|i: int|
        0 <= i < ids.len() && spec_resolve_state_variable(
            units,
            contract,
            fm,
            block_id,
            #[trigger] ids[i],
        ) is Some
}

/// The bindings with `local` recorded as one more alias of `sv`: appended to
/// the existing list when absent from it, a fresh single-alias entry when the
/// state variable had none.
pub open spec fn spec_record_binding(
    bindings: Seq<(NodeID, Seq<NodeID>)>,
    sv: NodeID,
    local: NodeID,
) -> Seq<(NodeID, Seq<NodeID>)> {
    match spec_assoc_get(bindings, sv) {
        Some(list) => {
            if list.contains(local) {
                bindings
            } else {
                spec_assoc_put(bindings, sv, list.push(local))
            }
        },
        None => spec_assoc_put(bindings, sv, seq![local]),
    }
}

pub open spec fn spec_em_contract(em: EffectsModel, cid: NodeID) -> Option<ContractModel> {
    spec_assoc_get(em.contract_info, cid)
}

pub open spec fn spec_em_function(em: EffectsModel, cid: NodeID, fid: NodeID) -> Option<
    FunctionModel,
> {
    match spec_em_contract(em, cid) {
        Some(cm) => spec_assoc_get(cm.function_info, fid),
        None => None,
    }
}

pub open spec fn spec_em_block(em: EffectsModel, cid: NodeID, fid: NodeID, bid: NodeID) -> Option<
    BlockModel,
> {
    match spec_em_function(em, cid, fid) {
        Some(fm) => spec_assoc_get(fm.block_info, bid),
        None => None,
    }
}

/// The state with the named block's record replaced; the state unchanged
/// when the contract or definition has no record yet.
pub open spec fn spec_em_set_block(
    em: EffectsModel,
    cid: NodeID,
    fid: NodeID,
    bid: NodeID,
    bm: BlockModel,
) -> EffectsModel {
    match spec_em_contract(em, cid) {
        None => em,
        Some(cm) => match spec_assoc_get(cm.function_info, fid) {
            None => em,
            Some(fm) => EffectsModel {
                contract_info: spec_assoc_put(
                    em.contract_info,
                    cid,
                    ContractModel {
                        function_info: spec_assoc_put(
                            cm.function_info,
                            fid,
                            FunctionModel { block_info: spec_assoc_put(fm.block_info, bid, bm) },
                        ),
                    },
                ),
                diagnostics: em.diagnostics,
            },
        },
    }
}

/// Entering a contract creates its record if it has none.
pub open spec fn spec_on_contract_definition(em: EffectsModel, cid: NodeID) -> EffectsModel {
    if spec_em_contract(em, cid) is Some {
        em
    } else {
        EffectsModel {
            contract_info: em.contract_info.push(
                (cid, ContractModel { function_info: Seq::empty() }),
            ),
            diagnostics: em.diagnostics,
        }
    }
}

/// Entering a function or modifier creates its record under its contract if
/// it has none; outside a recorded contract the event does nothing.
pub open spec fn spec_on_definition(em: EffectsModel, cid: NodeID, fid: NodeID) -> EffectsModel {
    match spec_em_contract(em, cid) {
        None => em,
        Some(cm) => {
            if spec_assoc_get(cm.function_info, fid) is Some {
                em
            } else {
                EffectsModel {
                    contract_info: spec_assoc_put(
                        em.contract_info,
                        cid,
                        ContractModel {
                            function_info: cm.function_info.push(
                                (fid, FunctionModel { block_info: Seq::empty() }),
                            ),
                        },
                    ),
                    diagnostics: em.diagnostics,
                }
            }
        },
    }
}

/// Entering a block creates its record, capturing the ancestor chain as it
/// stands; re-entry and blocks outside a recorded definition do nothing.
pub open spec fn spec_on_block_entry(
    em: EffectsModel,
    cid: NodeID,
    fid: NodeID,
    bid: NodeID,
    ancestors: Seq<NodeID>,
) -> EffectsModel {
    match spec_em_contract(em, cid) {
        None => em,
        Some(cm) => match spec_assoc_get(cm.function_info, fid) {
            None => em,
            Some(fm) => {
                if spec_assoc_get(fm.block_info, bid) is Some {
                    em
                } else {
                    EffectsModel {
                        contract_info: spec_assoc_put(
                            em.contract_info,
                            cid,
                            ContractModel {
                                function_info: spec_assoc_put(
                                    cm.function_info,
                                    fid,
                                    FunctionModel {
                                        block_info: fm.block_info.push(
                                            (
                                                bid,
                                                BlockModel {
                                                    makes_external_call: false,
                                                    makes_post_external_call_assignment: false,
                                                    variable_bindings: Seq::empty(),
                                                    parent_blocks: ancestors,
                                                },
                                            ),
                                        ),
                                    },
                                ),
                            },
                        ),
                        diagnostics: em.diagnostics,
                    }
                }
            },
        },
    }
}

/// What one block record means after a block-entry event, keyed through the
/// enclosing definition; outside a function or modifier the event does
/// nothing.
pub open spec fn spec_on_block(
    em: EffectsModel,
    dn: ContractDefinitionNode,
    cid: NodeID,
    ancestors: Seq<NodeID>,
    bid: NodeID,
) -> EffectsModel {
    match spec_definition_id(dn) {
        None => em,
        Some(fid) => spec_on_block_entry(em, cid, fid, bid, ancestors),
    }
}

/// An identifier or member-access reference inside a block: when the block is
/// not already marked and the reference names an externally-visible function
/// anywhere in the source units, the innermost block's call flag is raised.
pub open spec fn spec_on_identifier_ref(
    em: EffectsModel,
    units: Seq<SourceUnit>,
    cid: NodeID,
    dn: ContractDefinitionNode,
    blocks: Seq<NodeID>,
    rid: NodeID,
) -> EffectsModel {
    if blocks.len() == 0 {
        em
    } else {
        match spec_definition_id(dn) {
            None => em,
            Some(fid) => match spec_em_function(em, cid, fid) {
                None => em,
                Some(fm) => match spec_assoc_get(fm.block_info, blocks.last()) {
                    None => em,
                    Some(bm) => {
                        if bm.makes_external_call {
                            em
                        } else if spec_is_external_function_reference(units, rid) {
                            spec_em_set_block(
                                em,
                                cid,
                                fid,
                                blocks.last(),
                                spec_with_flag(bm, false),
                            )
                        } else {
                            em
                        }
                    },
                },
            },
        }
    }
}

pub open spec fn spec_on_member_access(
    em: EffectsModel,
    units: Seq<SourceUnit>,
    cid: NodeID,
    dn: ContractDefinitionNode,
    blocks: Seq<NodeID>,
    rid: Option<NodeID>,
) -> EffectsModel {
    match rid {
        None => em,
        Some(r) => spec_on_identifier_ref(em, units, cid, dn, blocks, r),
    }
}

/// The record path and scope a mutation event works in: nothing when the
/// event falls outside a recorded block.
pub open spec fn spec_mutation_scope(
    em: EffectsModel,
    cid: NodeID,
    dn: ContractDefinitionNode,
    blocks: Seq<NodeID>,
) -> Option<(NodeID, FunctionModel, BlockModel)> {
    if blocks.len() == 0 {
        None
    } else {
        match spec_definition_id(dn) {
            None => None,
            Some(fid) => match spec_em_function(em, cid, fid) {
                None => None,
                Some(fm) => match spec_assoc_get(fm.block_info, blocks.last()) {
                    None => None,
                    Some(bm) => Some((fid, fm, bm)),
                },
            },
        }
    }
}

/// The check run once a mutation is seen in call danger: when any referenced
/// declaration resolves to a state variable, the block's violation flag is
/// raised and one diagnostic naming the contract, the definition, the line
/// and the block is appended; otherwise nothing changes.
pub open spec fn spec_check_tail(
    em: EffectsModel,
    units: Seq<SourceUnit>,
    contract: ContractDefinition,
    fid: NodeID,
    bid: NodeID,
    refs: Seq<NodeID>,
    line: usize,
) -> EffectsModel {
    match spec_em_function(em, contract.id, fid) {
        None => em,
        Some(fm) => {
            if spec_any_resolves(units, contract, fm, bid, refs) {
                match spec_assoc_get(fm.block_info, bid) {
                    None => em,
                    Some(bm) => EffectsModel {
                        contract_info: spec_em_set_block(
                            em,
                            contract.id,
                            fid,
                            bid,
                            spec_with_flag(bm, true),
                        ).contract_info,
                        diagnostics: em.diagnostics.push(
                            Diagnostic {
                                contract: contract.id,
                                definition: fid,
                                line: Some(line),
                                finding: Finding::PostExternalCallStateMutation { block: bid },
                            },
                        ),
                    },
                }
            } else {
                em
            }
        },
    }
}

/// An assignment inside a block: checked only when the scope is recorded, not
/// yet reported, and in call danger; the span must then be readable (`None`
/// aborts the walk), and the left-hand side's references decide.
pub open spec fn spec_on_assignment(
    em: EffectsModel,
    units: Seq<SourceUnit>,
    su: SourceUnit,
    contract: ContractDefinition,
    dn: ContractDefinitionNode,
    blocks: Seq<NodeID>,
    assignment: Assignment,
) -> Option<EffectsModel> {
    match spec_mutation_scope(em, contract.id, dn, blocks) {
        None => Some(em),
        Some((fid, fm, bm)) => {
            if bm.makes_post_external_call_assignment {
                Some(em)
            } else if !spec_call_danger(fm, bm) {
                Some(em)
            } else {
                match spec_source_line(su, spec_str_bytes(assignment.src@)) {
                    None => None,
                    Some(line) => Some(
                        spec_check_tail(
                            em,
                            units,
                            contract,
                            fid,
                            blocks.last(),
                            spec_referenced_declarations(*assignment.left_hand_side),
                            line as usize,
                        ),
                    ),
                }
            }
        },
    }
}

/// An increment, decrement or delete-like operation, checked through its
/// operand exactly as an assignment is through its left-hand side.
pub open spec fn spec_on_unary_operation(
    em: EffectsModel,
    units: Seq<SourceUnit>,
    su: SourceUnit,
    contract: ContractDefinition,
    dn: ContractDefinitionNode,
    blocks: Seq<NodeID>,
    unary: UnaryOperation,
) -> Option<EffectsModel> {
    match spec_mutation_scope(em, contract.id, dn, blocks) {
        None => Some(em),
        Some((fid, fm, bm)) => {
            if bm.makes_post_external_call_assignment {
                Some(em)
            } else if !spec_call_danger(fm, bm) {
                Some(em)
            } else {
                match spec_source_line(su, spec_str_bytes(unary.src@)) {
                    None => None,
                    Some(line) => Some(
                        spec_check_tail(
                            em,
                            units,
                            contract,
                            fid,
                            blocks.last(),
                            spec_referenced_declarations(*unary.sub_expression),
                            line as usize,
                        ),
                    ),
                }
            }
        },
    }
}

/// A call in call danger counts only when it is an unresolvable `push` or
/// `pop` member access — an array mutator — and is then checked through the
/// accessed base expression.
pub open spec fn spec_on_function_call(
    em: EffectsModel,
    units: Seq<SourceUnit>,
    su: SourceUnit,
    contract: ContractDefinition,
    dn: ContractDefinitionNode,
    blocks: Seq<NodeID>,
    call: FunctionCall,
) -> Option<EffectsModel> {
    match spec_mutation_scope(em, contract.id, dn, blocks) {
        None => Some(em),
        Some((fid, fm, bm)) => {
            if bm.makes_post_external_call_assignment {
                Some(em)
            } else if !spec_call_danger(fm, bm) {
                Some(em)
            } else {
                match *call.expression {
                    Expression::MemberAccess(ma) => {
                        if ma.referenced_declaration is None && (spec_str_bytes(ma.member_name@)
                            == spec_str_bytes("push"@) || spec_str_bytes(ma.member_name@)
                            == spec_str_bytes("pop"@)) {
                            match spec_source_line(su, spec_str_bytes(call.src@)) {
                                None => None,
                                Some(line) => Some(
                                    spec_check_tail(
                                        em,
                                        units,
                                        contract,
                                        fid,
                                        blocks.last(),
                                        spec_referenced_declarations(*ma.expression),
                                        line as usize,
                                    ),
                                ),
                            }
                        } else {
                            Some(em)
                        }
                    },
                    _ => Some(em),
                }
            }
        },
    }
}

/// The state with `local` recorded as a storage alias of `sv` in the named
/// block, when that block has a record.
pub open spec fn spec_em_record(
    em: EffectsModel,
    cid: NodeID,
    fid: NodeID,
    bid: NodeID,
    sv: NodeID,
    local: NodeID,
) -> EffectsModel {
    match spec_em_block(em, cid, fid, bid) {
        None => em,
        Some(bm) => spec_em_set_block(em, cid, fid, bid, spec_with_binding(bm, sv, local)),
    }
}

/// One tuple component after another, each recorded only when it is a
/// storage-located declaration initialized from an identifier that resolves —
/// against the bindings as they stand at that component — to a state
/// variable.
pub open spec fn spec_record_tuple(
    em: EffectsModel,
    units: Seq<SourceUnit>,
    contract: ContractDefinition,
    fid: NodeID,
    bid: NodeID,
    components: Seq<Option<Expression>>,
    declarations: Seq<Option<VariableDeclaration>>,
    idx: int,
) -> EffectsModel
    decreases components.len() - idx,
{
    if idx < 0 || idx >= components.len() {
        em
    } else {
        let em1 = spec_tuple_component_step(
            em,
            units,
            contract,
            fid,
            bid,
            components[idx],
            declarations[idx],
        );
        spec_record_tuple(em1, units, contract, fid, bid, components, declarations, idx + 1)
    }
}

/// What one tuple component contributes: a recorded alias when it is a
/// storage declaration whose initializer root is an identifier resolving to a
/// state variable, and nothing otherwise.
pub open spec fn spec_tuple_component_step(
    em: EffectsModel,
    units: Seq<SourceUnit>,
    contract: ContractDefinition,
    fid: NodeID,
    bid: NodeID,
    component: Option<Expression>,
    declaration: Option<VariableDeclaration>,
) -> EffectsModel {
    match component {
        None => em,
        Some(comp) => match spec_root_expression(comp) {
            Some(Expression::Identifier(ident)) => match declaration {
                Some(vd) => {
                    if vd.storage_location == StorageLocation::Storage {
                        match spec_em_function(em, contract.id, fid) {
                            None => em,
                            Some(fm) => match spec_resolve_state_variable(
                                units,
                                contract,
                                fm,
                                bid,
                                ident.referenced_declaration,
                            ) {
                                None => em,
                                Some(sv) => spec_em_record(em, contract.id, fid, bid, sv, vd.id),
                            },
                        }
                    } else {
                        em
                    }
                },
                None => em,
            },
            _ => em,
        },
    }
}

/// A local declaration statement records storage aliases: a single
/// declaration whose initializer's root is an identifier, or a tuple
/// initializer component by component. A count mismatch between declarations
/// and initializer components is a malformed tree and aborts the walk
/// (`None`).
pub open spec fn spec_on_variable_declaration_statement(
    em: EffectsModel,
    units: Seq<SourceUnit>,
    contract: ContractDefinition,
    dn: ContractDefinitionNode,
    blocks: Seq<NodeID>,
    vds: VariableDeclarationStatement,
) -> Option<EffectsModel> {
    if blocks.len() == 0 {
        Some(em)
    } else {
        match spec_definition_id(dn) {
            None => Some(em),
            Some(fid) => match spec_em_function(em, contract.id, fid) {
                None => Some(em),
                Some(fm) => match vds.initial_value {
                    None => Some(em),
                    Some(iv) => match spec_root_expression(iv) {
                        Some(Expression::Identifier(ident)) => {
                            if vds.declarations@.len() != 1 {
                                None
                            } else {
                                match vds.declarations@[0] {
                                    Some(vd) => {
                                        if vd.storage_location == StorageLocation::Storage {
                                            match spec_resolve_state_variable(
                                                units,
                                                contract,
                                                fm,
                                                blocks.last(),
                                                ident.referenced_declaration,
                                            ) {
                                                None => Some(em),
                                                Some(sv) => Some(
                                                    spec_em_record(
                                                        em,
                                                        contract.id,
                                                        fid,
                                                        blocks.last(),
                                                        sv,
                                                        vd.id,
                                                    ),
                                                ),
                                            }
                                        } else {
                                            Some(em)
                                        }
                                    },
                                    None => Some(em),
                                }
                            }
                        },
                        Some(Expression::TupleExpression(tuple)) => {
                            if tuple.components@.len() != vds.declarations@.len() {
                                None
                            } else {
                                Some(
                                    spec_record_tuple(
                                        em,
                                        units,
                                        contract,
                                        fid,
                                        blocks.last(),
                                        tuple.components@,
                                        vds.declarations@,
                                        0,
                                    ),
                                )
                            }
                        },
                        _ => Some(em),
                    },
                },
            },
        }
    }
}

pub open spec fn spec_cid_at(em: EffectsModel, i: int) -> NodeID {
    em.contract_info[i].0
}

pub open spec fn spec_fid_at(em: EffectsModel, i: int, j: int) -> NodeID {
    em.contract_info[i].1.function_info[j].0
}

pub open spec fn spec_bid_at(em: EffectsModel, i: int, j: int, k: int) -> NodeID {
    em.contract_info[i].1.function_info[j].1.block_info[k].0
}

pub open spec fn spec_bm_at(em: EffectsModel, i: int, j: int, k: int) -> BlockModel {
    em.contract_info[i].1.function_info[j].1.block_info[k].1
}

/// `(i, j)` lead to the first records of their keys.
pub open spec fn spec_function_path_ok(em: EffectsModel, i: int, j: int) -> bool {
    &&& 0 <= i < em.contract_info.len()
    &&& forall|l: int| 0 <= l < i ==> em.contract_info[l].0 != spec_cid_at(em, i)
    &&& 0 <= j < em.contract_info[i].1.function_info.len()
    &&& forall|l: int|
        0 <= l < j ==> em.contract_info[i].1.function_info[l].0 != spec_fid_at(em, i, j)
}

/// `(i, j, k)` lead to the first records of their keys.
pub open spec fn spec_block_path_ok(em: EffectsModel, i: int, j: int, k: int) -> bool {
    &&& spec_function_path_ok(em, i, j)
    &&& 0 <= k < em.contract_info[i].1.function_info[j].1.block_info.len()
    &&& forall|l: int|
        0 <= l < k ==> em.contract_info[i].1.function_info[j].1.block_info[l].0 != spec_bid_at(
            em,
            i,
            j,
            k,
        )
}

/// The block record with one of its sticky flags raised: the violation flag
/// when `assignment` holds, the external-call flag otherwise.
pub open spec fn spec_with_flag(bm: BlockModel, assignment: bool) -> BlockModel {
    BlockModel {
        makes_external_call: bm.makes_external_call || !assignment,
        makes_post_external_call_assignment: bm.makes_post_external_call_assignment || assignment,
        variable_bindings: bm.variable_bindings,
        parent_blocks: bm.parent_blocks,
    }
}

/// The block record with `local` recorded as an alias of `sv`.
pub open spec fn spec_with_binding(bm: BlockModel, sv: NodeID, local: NodeID) -> BlockModel {
    BlockModel {
        makes_external_call: bm.makes_external_call,
        makes_post_external_call_assignment: bm.makes_post_external_call_assignment,
        variable_bindings: spec_record_binding(bm.variable_bindings, sv, local),
        parent_blocks: bm.parent_blocks,
    }
}

/// The pointwise correspondence between the analyzer's vectors and its
/// model's sequences, at every level `(i, j)` reaches.
proof fn lemma_model_path_facts(v: &CheckEffectsInteractionsVisitor, i: int, j: int)
    ensures
        forall|l: int|
            0 <= l < v.contract_info@.len() ==> #[trigger] v@.contract_info[l] == (
            v.contract_info@[l].0, v.contract_info@[l].1@),
        0 <= i < v.contract_info@.len() ==> forall|l: int|
            0 <= l < v.contract_info@[i].1.function_info@.len()
                ==> #[trigger] v@.contract_info[i].1.function_info[l] == (
            v.contract_info@[i].1.function_info@[l].0, v.contract_info@[i].1.function_info@[l].1@),
        (0 <= i < v.contract_info@.len() && 0 <= j
            < v.contract_info@[i].1.function_info@.len()) ==> forall|l: int|
            0 <= l < v.contract_info@[i].1.function_info@[j].1.block_info@.len()
                ==> #[trigger] v@.contract_info[i].1.function_info[j].1.block_info[l] == (
            v.contract_info@[i].1.function_info@[j].1.block_info@[l].0,
            v.contract_info@[i].1.function_info@[j].1.block_info@[l].1@),
{
}

/// Writing a block's record back unchanged leaves the whole state unchanged.
proof fn lemma_set_block_same(
    em: EffectsModel,
    cid: NodeID,
    fid: NodeID,
    bid: NodeID,
    i: int,
    j: int,
    k: int,
)
    requires
        spec_block_path_ok(em, i, j, k),
        cid == spec_cid_at(em, i),
        fid == spec_fid_at(em, i, j),
        bid == spec_bid_at(em, i, j, k),
    ensures
        spec_em_set_block(em, cid, fid, bid, spec_bm_at(em, i, j, k)) == em,
{
    let cm = em.contract_info[i].1;
    let fm = cm.function_info[j].1;
    let bm = spec_bm_at(em, i, j, k);
    lemma_assoc_get_at(em.contract_info, cid, i);
    lemma_assoc_get_at(cm.function_info, fid, j);
    lemma_assoc_put_update(fm.block_info, bid, bm, k);
    assert(fm.block_info.update(k, (bid, bm)) =~= fm.block_info);
    let fm_new = FunctionModel { block_info: spec_assoc_put(fm.block_info, bid, bm) };
    assert(fm_new =~~= fm);
    lemma_assoc_put_update(cm.function_info, fid, fm_new, j);
    assert(cm.function_info.update(j, (fid, fm_new)) =~~= cm.function_info);
    let cm_new = ContractModel { function_info: spec_assoc_put(cm.function_info, fid, fm_new) };
    assert(cm_new =~~= cm);
    lemma_assoc_put_update(em.contract_info, cid, cm_new, i);
    assert(em.contract_info.update(i, (cid, cm_new)) =~~= em.contract_info);
    assert(spec_em_set_block(em, cid, fid, bid, bm) =~~= em);
}

/// A copy of a list of identities.
fn clone_ids(ids: &Vec<NodeID>) -> (r: Vec<NodeID>)
    ensures
        r@ == ids@,
{
    let mut out: Vec<NodeID> = Vec::new();
    let mut i: usize = 0;
    while i < ids.len()
        invariant
            i <= ids@.len(),
            out@ == ids@.take(i as int),
        decreases ids.len() - i,
    {
        out.push(ids[i]);
        proof {
            assert(ids@.take(i as int).push(ids@[i as int]) =~= ids@.take(i as int + 1));
        }
        i = i + 1;
    }
    proof {
        assert(ids@.take(ids@.len() as int) =~= ids@);
    }
    out
}

impl CheckEffectsInteractionsVisitor {
    /// Finds the record index of a contract, with the facts that tie the
    /// index to the model's lookup.
    fn contract_index(&self, id: NodeID) -> (r: Option<usize>)
        ensures
            match r {
                Some(i) => 0 <= i < self.contract_info@.len() && self.contract_info@[i as int].0
                    == id && self@.contract_info[i as int].0 == id && spec_assoc_get(
                    self@.contract_info,
                    id,
                ) == Some(self@.contract_info[i as int].1) && (forall|j: int|
                    0 <= j < i ==> self@.contract_info[j].0 != id) && (forall|j: int|
                    0 <= j < i ==> self.contract_info@[j].0 != id),
                None => spec_assoc_get(self@.contract_info, id) is None,
            },
    {
        let r = assoc_index(&self.contract_info, id);
        proof {
            let m = self@.contract_info;
            assert(forall|j: int|
                0 <= j < m.len() ==> #[trigger] m[j] == (self.contract_info@[j].0,
                self.contract_info@[j].1@));
            match r {
                Some(i) => {
                    lemma_assoc_get_at(m, id, i as int);
                },
                None => {
                    lemma_assoc_get_none(m, id);
                },
            }
        }
        r
    }

    /// Creates the contract's record if it has none.
    fn ensure_contract(&mut self, id: NodeID)
        ensures
            final(self)@ == spec_on_contract_definition(old(self)@, id),
    {
        match self.contract_index(id) {
            Some(_) => {},
            None => {
                self.contract_info.push((id, ContractInfo { function_info: Vec::new() }));
                proof {
                    assert(self@.contract_info =~~= old(self)@.contract_info.push(
                        (id, ContractModel { function_info: Seq::empty() }),
                    )) by {
                        assert(forall|j: int|
                            0 <= j < self.contract_info@.len() ==> #[trigger] self@.contract_info[j]
                                == (self.contract_info@[j].0, self.contract_info@[j].1@));
                        assert(forall|j: int|
                            0 <= j < old(self).contract_info@.len() ==> #[trigger] old(
                                self,
                            )@.contract_info[j] == (old(self).contract_info@[j].0,
                            old(self).contract_info@[j].1@));
                        assert(self.contract_info@[self.contract_info@.len() - 1].1.function_info@
                            =~= Seq::<(NodeID, FunctionInfo)>::empty());
                    }
                }
            },
        }
    }

    /// Creates the definition's record under the contract at `i` if it has
    /// none.
    fn ensure_function(&mut self, i: usize, fid: NodeID)
        requires
            i < old(self).contract_info@.len(),
            forall|j: int|
                0 <= j < i ==> old(self)@.contract_info[j].0 != old(self)@.contract_info[
                    i as int
                ].0,
        ensures
            final(self)@ == spec_on_definition(
                old(self)@,
                old(self)@.contract_info[i as int].0,
                fid,
            ),
    {
        let ghost cid = self@.contract_info[i as int].0;
        let ghost old_cm = self@.contract_info[i as int].1;
        proof {
            assert(old(self)@.contract_info[i as int] == (self.contract_info@[i as int].0,
            self.contract_info@[i as int].1@));
            lemma_assoc_get_at(old(self)@.contract_info, cid, i as int);
            assert(forall|j: int|
                0 <= j < old_cm.function_info.len() ==> #[trigger] old_cm.function_info[j] == (
                self.contract_info@[i as int].1.function_info@[j].0,
                self.contract_info@[i as int].1.function_info@[j].1@));
        }
        match assoc_index(&self.contract_info[i].1.function_info, fid) {
            Some(fidx) => {
                proof {
                    lemma_assoc_get_at(old_cm.function_info, fid, fidx as int);
                }
            },
            None => {
                proof {
                    lemma_assoc_get_none(old_cm.function_info, fid);
                }
                let ci = &mut self.contract_info[i];
                ci.1.function_info.push((fid, FunctionInfo { block_info: Vec::new() }));
                proof {
                    let cm_new = ContractModel {
                        function_info: old_cm.function_info.push(
                            (fid, FunctionModel { block_info: Seq::empty() }),
                        ),
                    };
                    assert(self.contract_info@[i as int].1@ =~~= cm_new);
                    assert(self@.contract_info =~~= old(self)@.contract_info.update(
                        i as int,
                        (cid, cm_new),
                    )) by {
                        assert(forall|j: int|
                            0 <= j < self.contract_info@.len() ==> #[trigger] self@.contract_info[j]
                                == (self.contract_info@[j].0, self.contract_info@[j].1@));
                        assert(forall|j: int|
                            0 <= j < old(self).contract_info@.len() ==> #[trigger] old(
                                self,
                            )@.contract_info[j] == (old(self).contract_info@[j].0,
                            old(self).contract_info@[j].1@));
                    }
                    lemma_assoc_put_update(old(self)@.contract_info, cid, cm_new, i as int);
                    assert(self@ =~~= spec_on_definition(old(self)@, cid, fid));
                }
            },
        }
    }

    /// Creates the block's record under the definition at `(i, j)` if it has
    /// none, capturing `ancestors` as its chain.
    fn ensure_block(&mut self, i: usize, j: usize, bid: NodeID, ancestors: &Vec<NodeID>)
        requires
            spec_function_path_ok(old(self)@, i as int, j as int),
        ensures
            final(self)@ == spec_on_block_entry(
                old(self)@,
                spec_cid_at(old(self)@, i as int),
                spec_fid_at(old(self)@, i as int, j as int),
                bid,
                ancestors@,
            ),
    {
        let ghost em = self@;
        let ghost cid = spec_cid_at(em, i as int);
        let ghost fid = spec_fid_at(em, i as int, j as int);
        let ghost old_cm = em.contract_info[i as int].1;
        let ghost old_fm = old_cm.function_info[j as int].1;
        proof {
            lemma_model_path_facts(self, i as int, j as int);
            lemma_assoc_get_at(em.contract_info, cid, i as int);
            lemma_assoc_get_at(old_cm.function_info, fid, j as int);
            assert(forall|l: int|
                0 <= l < old_fm.block_info.len() ==> #[trigger] old_fm.block_info[l] == (
                self.contract_info@[i as int].1.function_info@[j as int].1.block_info@[l].0,
                self.contract_info@[i as int].1.function_info@[j as int].1.block_info@[l].1@));
        }
        match assoc_index(&self.contract_info[i].1.function_info[j].1.block_info, bid) {
            Some(bidx) => {
                proof {
                    lemma_assoc_get_at(old_fm.block_info, bid, bidx as int);
                }
            },
            None => {
                proof {
                    lemma_assoc_get_none(old_fm.block_info, bid);
                }
                let parents = clone_ids(ancestors);
                let ci = &mut self.contract_info[i];
                let fi = &mut ci.1.function_info[j];
                fi.1.block_info.push(
                    (
                        bid,
                        BlockInfo {
                            makes_external_call: false,
                            makes_post_external_call_assignment: false,
                            variable_bindings: Vec::new(),
                            parent_blocks: parents,
                        },
                    ),
                );
                proof {
                    let bm_new = BlockModel {
                        makes_external_call: false,
                        makes_post_external_call_assignment: false,
                        variable_bindings: Seq::empty(),
                        parent_blocks: ancestors@,
                    };
                    let fm_new = FunctionModel { block_info: old_fm.block_info.push((bid, bm_new)) };
                    let cm_new = ContractModel {
                        function_info: spec_assoc_put(old_cm.function_info, fid, fm_new),
                    };
                    lemma_model_path_facts(self, i as int, j as int);
                    assert(self.contract_info@[i as int].1.function_info@[j as int].1@
                        =~~= fm_new);
                    assert(self@.contract_info[i as int].1 =~~= cm_new) by {
                        lemma_assoc_put_update(old_cm.function_info, fid, fm_new, j as int);
                    }
                    assert(self@.contract_info =~~= spec_assoc_put(
                        em.contract_info,
                        cid,
                        cm_new,
                    )) by {
                        lemma_assoc_put_update(em.contract_info, cid, cm_new, i as int);
                    }
                    assert(self@ =~~= spec_on_block_entry(em, cid, fid, bid, ancestors@));
                }
            },
        }
    }

    /// Sets one of the block's two sticky flags: the violation flag when
    /// `assignment` holds, the external-call flag otherwise.
    fn set_block_flag(&mut self, i: usize, j: usize, k: usize, assignment: bool)
        requires
            spec_block_path_ok(old(self)@, i as int, j as int, k as int),
        ensures
            final(self)@ == spec_em_set_block(
                old(self)@,
                spec_cid_at(old(self)@, i as int),
                spec_fid_at(old(self)@, i as int, j as int),
                spec_bid_at(old(self)@, i as int, j as int, k as int),
                spec_with_flag(spec_bm_at(old(self)@, i as int, j as int, k as int), assignment),
            ),
    {
        let ghost em = self@;
        let ghost cid = spec_cid_at(em, i as int);
        let ghost fid = spec_fid_at(em, i as int, j as int);
        let ghost bid = spec_bid_at(em, i as int, j as int, k as int);
        let ghost old_cm = em.contract_info[i as int].1;
        let ghost old_fm = old_cm.function_info[j as int].1;
        let ghost old_bm = old_fm.block_info[k as int].1;
        proof {
            lemma_model_path_facts(self, i as int, j as int);
            lemma_assoc_get_at(em.contract_info, cid, i as int);
            lemma_assoc_get_at(old_cm.function_info, fid, j as int);
        }
        let ci = &mut self.contract_info[i];
        let fi = &mut ci.1.function_info[j];
        let bi = &mut fi.1.block_info[k];
        if assignment {
            bi.1.makes_post_external_call_assignment = true;
        } else {
            bi.1.makes_external_call = true;
        }
        proof {
            let bm_new = spec_with_flag(old_bm, assignment);
            let fm_new = FunctionModel {
                block_info: spec_assoc_put(old_fm.block_info, bid, bm_new),
            };
            let cm_new = ContractModel {
                function_info: spec_assoc_put(old_cm.function_info, fid, fm_new),
            };
            lemma_model_path_facts(self, i as int, j as int);
            assert(self.contract_info@[i as int].1.function_info@[j as int].1@ =~~= fm_new) by {
                assert(forall|l: int|
                    0 <= l < old_fm.block_info.len() ==> #[trigger] old_fm.block_info[l] == (old(
                        self,
                    ).contract_info@[i as int].1.function_info@[j as int].1.block_info@[l].0,
                    old(self).contract_info@[i as int].1.function_info@[j as int].1.block_info@[
                        l
                    ].1@));
                lemma_assoc_put_update(old_fm.block_info, bid, bm_new, k as int);
            }
            assert(self@.contract_info[i as int].1 =~~= cm_new) by {
                lemma_assoc_put_update(old_cm.function_info, fid, fm_new, j as int);
            }
            assert(self@.contract_info =~~= spec_assoc_put(em.contract_info, cid, cm_new)) by {
                lemma_assoc_put_update(em.contract_info, cid, cm_new, i as int);
            }
            assert(self@ =~~= spec_em_set_block(em, cid, fid, bid, bm_new));
        }
    }

    /// Records `local` as a storage alias of `sv` in the block at
    /// `(i, j, k)`.
    fn record_binding_at(&mut self, i: usize, j: usize, k: usize, sv: NodeID, local: NodeID)
        requires
            spec_block_path_ok(old(self)@, i as int, j as int, k as int),
        ensures
            final(self)@ == spec_em_set_block(
                old(self)@,
                spec_cid_at(old(self)@, i as int),
                spec_fid_at(old(self)@, i as int, j as int),
                spec_bid_at(old(self)@, i as int, j as int, k as int),
                spec_with_binding(
                    spec_bm_at(old(self)@, i as int, j as int, k as int),
                    sv,
                    local,
                ),
            ),
    {
        let ghost em = self@;
        let ghost cid = spec_cid_at(em, i as int);
        let ghost fid = spec_fid_at(em, i as int, j as int);
        let ghost bid = spec_bid_at(em, i as int, j as int, k as int);
        let ghost old_cm = em.contract_info[i as int].1;
        let ghost old_fm = old_cm.function_info[j as int].1;
        let ghost old_bm = old_fm.block_info[k as int].1;
        proof {
            lemma_model_path_facts(self, i as int, j as int);
            lemma_assoc_get_at(em.contract_info, cid, i as int);
            lemma_assoc_get_at(old_cm.function_info, fid, j as int);
            assert(old_bm.variable_bindings == self.contract_info@[i as int].1.function_info@[
                j as int
            ].1.block_info@[k as int].1.variable_bindings@.map_values(
                |p: (NodeID, Vec<NodeID>)| (p.0, p.1@),
            ));
        }
        let ghost old_bindings = old_bm.variable_bindings;
        proof {
            assert(forall|l: int|
                0 <= l < old_bindings.len() ==> #[trigger] old_bindings[l] == (
                self.contract_info@[i as int].1.function_info@[j as int].1.block_info@[
                    k as int
                ].1.variable_bindings@[l].0,
                self.contract_info@[i as int].1.function_info@[j as int].1.block_info@[
                    k as int
                ].1.variable_bindings@[l].1@));
        }
        let probe = assoc_index(
            &self.contract_info[i].1.function_info[j].1.block_info[k].1.variable_bindings,
            sv,
        );
        match probe {
            Some(e) => {
                proof {
                    lemma_assoc_get_at(old_bindings, sv, e as int);
                }
                if contains_id(
                    &self.contract_info[i].1.function_info[j].1.block_info[k].1.variable_bindings[
                        e
                    ].1,
                    local,
                ) {
                    proof {
                        assert(spec_with_binding(old_bm, sv, local) =~~= old_bm);
                        lemma_set_block_same(em, cid, fid, bid, i as int, j as int, k as int);
                    }
                    return ;
                }
                let ci = &mut self.contract_info[i];
                let fi = &mut ci.1.function_info[j];
                let bi = &mut fi.1.block_info[k];
                let entry = &mut bi.1.variable_bindings[e];
                entry.1.push(local);
                proof {
                    let list_new = old_bindings[e as int].1.push(local);
                    assert(bi.1.variable_bindings@.map_values(
                        |p: (NodeID, Vec<NodeID>)| (p.0, p.1@),
                    ) =~~= spec_assoc_put(old_bindings, sv, list_new)) by {
                        lemma_assoc_put_update(old_bindings, sv, list_new, e as int);
                    }
                }
            },
            None => {
                proof {
                    lemma_assoc_get_none(old_bindings, sv);
                }
                let ci = &mut self.contract_info[i];
                let fi = &mut ci.1.function_info[j];
                let bi = &mut fi.1.block_info[k];
                bi.1.variable_bindings.push((sv, vec![local]));
                proof {
                    assert(bi.1.variable_bindings@.map_values(
                        |p: (NodeID, Vec<NodeID>)| (p.0, p.1@),
                    ) =~~= spec_assoc_put(old_bindings, sv, seq![local])) by {
                        lemma_assoc_put_append(old_bindings, sv, seq![local]);
                        assert(bi.1.variable_bindings@[bi.1.variable_bindings@.len() - 1].1@
                            =~= seq![local]);
                    }
                }
            },
        }
        proof {
            let bm_new = spec_with_binding(old_bm, sv, local);
            assert(self.contract_info@[i as int].1.function_info@[j as int].1.block_info@[
                k as int
            ].1@ =~~= bm_new);
            let fm_new = FunctionModel {
                block_info: spec_assoc_put(old_fm.block_info, bid, bm_new),
            };
            let cm_new = ContractModel {
                function_info: spec_assoc_put(old_cm.function_info, fid, fm_new),
            };
            lemma_model_path_facts(self, i as int, j as int);
            assert(self.contract_info@[i as int].1.function_info@[j as int].1@ =~~= fm_new) by {
                assert(forall|l: int|
                    0 <= l < old_fm.block_info.len() ==> #[trigger] old_fm.block_info[l] == (old(
                        self,
                    ).contract_info@[i as int].1.function_info@[j as int].1.block_info@[l].0,
                    old(self).contract_info@[i as int].1.function_info@[j as int].1.block_info@[
                        l
                    ].1@));
                lemma_assoc_put_update(old_fm.block_info, bid, bm_new, k as int);
            }
            assert(self@.contract_info[i as int].1 =~~= cm_new) by {
                lemma_assoc_put_update(old_cm.function_info, fid, fm_new, j as int);
            }
            assert(self@.contract_info =~~= spec_assoc_put(em.contract_info, cid, cm_new)) by {
                lemma_assoc_put_update(em.contract_info, cid, cm_new, i as int);
            }
            assert(self@ =~~= spec_em_set_block(em, cid, fid, bid, bm_new));
        }
    }

    /// An analyzer with no bookkeeping and no diagnostics.
    pub fn new() -> (r: CheckEffectsInteractionsVisitor)
        ensures
            r@.contract_info == Seq::<(NodeID, ContractModel)>::empty(),
            r@.diagnostics == Seq::<Diagnostic>::empty(),
    {
        let r = CheckEffectsInteractionsVisitor { contract_info: Vec::new(), diagnostics: Vec::new() };
        proof {
            assert(r@.contract_info =~= Seq::<(NodeID, ContractModel)>::empty());
        }
        r
    }

    /// The diagnostics reported so far, in the order they were found.
    pub fn diagnostics(&self) -> (r: &Vec<Diagnostic>)
        ensures
            r@ == self@.diagnostics,
    {
        &self.diagnostics
    }
}

impl Default for CheckEffectsInteractionsVisitor {
    fn default() -> (r: CheckEffectsInteractionsVisitor)
        ensures
            r@.contract_info == Seq::<(NodeID, ContractModel)>::empty(),
            r@.diagnostics == Seq::<Diagnostic>::empty(),
    {
        CheckEffectsInteractionsVisitor::new()
    }
}

impl BlockInfo {
    /// Resolves `rid` through this block's own bindings.
    fn resolve_binding(&self, rid: NodeID) -> (r: Option<NodeID>)
        ensures
            r == spec_bindings_resolve(self@.variable_bindings, rid),
    {
        let ghost m = self@.variable_bindings;
        let mut i: usize = 0;
        proof {
            assert(m.skip(0) =~= m);
        }
        while i < self.variable_bindings.len()
            invariant
                m == self@.variable_bindings,
                i <= self.variable_bindings@.len(),
                m.len() == self.variable_bindings@.len(),
                spec_bindings_resolve(m, rid) == spec_bindings_resolve(m.skip(i as int), rid),
            decreases self.variable_bindings.len() - i,
        {
            proof {
                assert(m[i as int] == (self.variable_bindings@[i as int].0,
                self.variable_bindings@[i as int].1@));
                assert(m.skip(i as int)[0] == m[i as int]);
                assert(m.skip(i as int).skip(1) =~= m.skip(i as int + 1));
            }
            if contains_id(&self.variable_bindings[i].1, rid) {
                return Some(self.variable_bindings[i].0);
            }
            i = i + 1;
        }
        proof {
            assert(m.skip(m.len() as int) =~= Seq::<(NodeID, Seq<NodeID>)>::empty());
        }
        None
    }
}

impl FunctionInfo {
    /// Finds the record index of a block, with the facts that tie the index
    /// to the model's lookup.
    fn block_index(&self, id: NodeID) -> (r: Option<usize>)
        ensures
            match r {
                Some(i) => 0 <= i < self.block_info@.len() && self.block_info@[i as int].0 == id
                    && self@.block_info[i as int].0 == id && spec_assoc_get(self@.block_info, id)
                    == Some(self@.block_info[i as int].1) && (forall|j: int|
                    0 <= j < i ==> self@.block_info[j].0 != id),
                None => spec_assoc_get(self@.block_info, id) is None,
            },
    {
        let r = assoc_index(&self.block_info, id);
        proof {
            let m = self@.block_info;
            assert(forall|j: int|
                0 <= j < m.len() ==> #[trigger] m[j] == (self.block_info@[j].0,
                self.block_info@[j].1@));
            match r {
                Some(i) => {
                    lemma_assoc_get_at(m, id, i as int);
                },
                None => {
                    lemma_assoc_get_none(m, id);
                },
            }
        }
        r
    }

    /// Resolves `rid` through a block's bindings and, failing that, outward
    /// along its recorded ancestor chain, innermost first.
    fn resolve_through_blocks(&self, block_id: NodeID, rid: NodeID) -> (r: Option<NodeID>)
        ensures
            r == (match spec_assoc_get(self@.block_info, block_id) {
                Some(bm) => match spec_bindings_resolve(bm.variable_bindings, rid) {
                    Some(sv) => Some(sv),
                    None => spec_resolve_in_parents(self@, bm.parent_blocks, rid),
                },
                None => None::<NodeID>,
            }),
    {
        let k = match self.block_index(block_id) {
            Some(k) => k,
            None => {
                return None;
            },
        };
        let block = &self.block_info[k].1;
        proof {
            assert(self@.block_info[k as int].1 == self.block_info@[k as int].1@);
        }
        match block.resolve_binding(rid) {
            Some(sv) => Some(sv),
            None => {
                let mut p: usize = block.parent_blocks.len();
                proof {
                    assert(block.parent_blocks@.take(p as int) =~= block.parent_blocks@);
                }
                while p > 0
                    invariant
                        p <= block.parent_blocks@.len(),
                        spec_assoc_get(self@.block_info, block_id) == Some(block@),
                        spec_bindings_resolve(block@.variable_bindings, rid) is None,
                        spec_resolve_in_parents(self@, block@.parent_blocks, rid)
                            == spec_resolve_in_parents(
                            self@,
                            block@.parent_blocks.take(p as int),
                            rid,
                        ),
                    decreases p,
                {
                    proof {
                        assert(block.parent_blocks@.take(p as int).drop_last()
                            =~= block.parent_blocks@.take(p as int - 1));
                        assert(block.parent_blocks@.take(p as int).last()
                            == block.parent_blocks@[p as int - 1]);
                    }
                    let parent_id = block.parent_blocks[p - 1];
                    match self.block_index(parent_id) {
                        Some(pk) => {
                            match self.block_info[pk].1.resolve_binding(rid) {
                                Some(sv) => {
                                    proof {
                                        assert(self@.block_info[pk as int].1
                                            == self.block_info@[pk as int].1@);
                                    }
                                    return Some(sv);
                                },
                                None => {
                                    proof {
                                        assert(self@.block_info[pk as int].1
                                            == self.block_info@[pk as int].1@);
                                    }
                                },
                            }
                        },
                        None => {},
                    }
                    p = p - 1;
                }
                proof {
                    assert(block@.parent_blocks.take(0) =~= Seq::<NodeID>::empty());
                }
                None
            },
        }
    }
}

impl ContractInfo {
    /// Finds the record index of a definition, with the facts that tie the
    /// index to the model's lookup.
    fn function_index(&self, id: NodeID) -> (r: Option<usize>)
        ensures
            match r {
                Some(j) => 0 <= j < self.function_info@.len() && self.function_info@[j as int].0
                    == id && self@.function_info[j as int].0 == id && spec_assoc_get(
                    self@.function_info,
                    id,
                ) == Some(self@.function_info[j as int].1) && (forall|l: int|
                    0 <= l < j ==> self@.function_info[l].0 != id) && (forall|l: int|
                    0 <= l < j ==> self.function_info@[l].0 != id),
                None => spec_assoc_get(self@.function_info, id) is None,
            },
    {
        let r = assoc_index(&self.function_info, id);
        proof {
            let m = self@.function_info;
            assert(forall|l: int|
                0 <= l < m.len() ==> #[trigger] m[l] == (self.function_info@[l].0,
                self.function_info@[l].1@));
            match r {
                Some(j) => {
                    lemma_assoc_get_at(m, id, j as int);
                },
                None => {
                    lemma_assoc_get_none(m, id);
                },
            }
        }
        r
    }
}

impl CheckEffectsInteractionsVisitor {
    /// Entering a contract creates its record.
    pub fn on_contract_definition(&mut self, context: &ContractDefinitionContext) -> (r: Result<
        (),
        crate::ast::AnalysisError,
    >)
        ensures
            r is Ok,
            final(self)@ == spec_on_contract_definition(
                old(self)@,
                context.contract_definition.id,
            ),
    {
        self.ensure_contract(context.contract_definition.id);
        Ok(())
    }

    /// Entering a function creates its record under its contract.
    pub fn on_function_definition(&mut self, context: &FunctionDefinitionContext) -> (r: Result<
        (),
        crate::ast::AnalysisError,
    >)
        ensures
            r is Ok,
            final(self)@ == spec_on_definition(
                old(self)@,
                context.contract_definition.id,
                context.function_definition.id,
            ),
    {
        self.on_definition_entered(context.contract_definition.id, context.function_definition.id);
        Ok(())
    }

    /// Entering a modifier creates its record under its contract.
    pub fn on_modifier_definition(&mut self, context: &ModifierDefinitionContext) -> (r: Result<
        (),
        crate::ast::AnalysisError,
    >)
        ensures
            r is Ok,
            final(self)@ == spec_on_definition(
                old(self)@,
                context.contract_definition.id,
                context.modifier_definition.id,
            ),
    {
        self.on_definition_entered(context.contract_definition.id, context.modifier_definition.id);
        Ok(())
    }

    fn on_definition_entered(&mut self, cid: NodeID, fid: NodeID)
        ensures
            final(self)@ == spec_on_definition(old(self)@, cid, fid),
    {
        match self.contract_index(cid) {
            Some(i) => {
                self.ensure_function(i, fid);
            },
            None => {},
        }
    }

    /// Entering a block creates its record, capturing the current ancestor
    /// chain.
    pub fn on_block(&mut self, context: &BlockContext) -> (r: Result<(), crate::ast::AnalysisError>)
        ensures
            r is Ok,
            final(self)@ == spec_on_block(
                old(self)@,
                *context.definition_node,
                context.contract_definition.id,
                context.blocks@,
                context.block.id,
            ),
    {
        let fid = match definition_id(context.definition_node) {
            Some(fid) => fid,
            None => {
                return Ok(());
            },
        };
        let cid = context.contract_definition.id;
        let i = match self.contract_index(cid) {
            Some(i) => i,
            None => {
                return Ok(());
            },
        };
        proof {
            lemma_model_path_facts(self, i as int, 0);
        }
        let j = match self.contract_info[i].1.function_index(fid) {
            Some(j) => j,
            None => {
                return Ok(());
            },
        };
        self.ensure_block(i, j, context.block.id, context.blocks);
        Ok(())
    }

    /// An identifier evaluated inside a block: raises the block's call flag
    /// when it names an externally-visible function.
    pub fn on_identifier(&mut self, context: &IdentifierContext) -> (r: Result<
        (),
        crate::ast::AnalysisError,
    >)
        ensures
            r is Ok,
            final(self)@ == spec_on_identifier_ref(
                old(self)@,
                context.source_units@,
                context.contract_definition.id,
                *context.definition_node,
                context.blocks@,
                context.identifier.referenced_declaration,
            ),
    {
        self.on_reference(
            context.source_units,
            context.contract_definition,
            context.definition_node,
            context.blocks,
            context.identifier.referenced_declaration,
        );
        Ok(())
    }

    /// A member access evaluated inside a block: raises the block's call flag
    /// when its resolved member is an externally-visible function.
    pub fn on_member_access(&mut self, context: &MemberAccessContext) -> (r: Result<
        (),
        crate::ast::AnalysisError,
    >)
        ensures
            r is Ok,
            final(self)@ == spec_on_member_access(
                old(self)@,
                context.source_units@,
                context.contract_definition.id,
                *context.definition_node,
                context.blocks@,
                context.member_access.referenced_declaration,
            ),
    {
        match context.member_access.referenced_declaration {
            Some(rid) => {
                self.on_reference(
                    context.source_units,
                    context.contract_definition,
                    context.definition_node,
                    context.blocks,
                    rid,
                );
            },
            None => {},
        }
        Ok(())
    }

    fn on_reference(
        &mut self,
        source_units: &Vec<SourceUnit>,
        contract_definition: &ContractDefinition,
        definition_node: &ContractDefinitionNode,
        blocks: &Vec<NodeID>,
        rid: NodeID,
    )
        ensures
            final(self)@ == spec_on_identifier_ref(
                old(self)@,
                source_units@,
                contract_definition.id,
                *definition_node,
                blocks@,
                rid,
            ),
    {
        let ghost em = self@;
        if blocks.len() == 0 {
            return ;
        }
        let fid = match definition_id(definition_node) {
            Some(fid) => fid,
            None => {
                return ;
            },
        };
        let cid = contract_definition.id;
        let i = match self.contract_index(cid) {
            Some(i) => i,
            None => {
                return ;
            },
        };
        proof {
            lemma_model_path_facts(self, i as int, 0);
        }
        let j = match self.contract_info[i].1.function_index(fid) {
            Some(j) => j,
            None => {
                return ;
            },
        };
        proof {
            lemma_model_path_facts(self, i as int, j as int);
        }
        let bid = blocks[blocks.len() - 1];
        let k = match self.contract_info[i].1.function_info[j].1.block_index(bid) {
            Some(k) => k,
            None => {
                return ;
            },
        };
        if self.contract_info[i].1.function_info[j].1.block_info[k].1.makes_external_call {
            return ;
        }
        if is_external_function_reference(source_units, rid) {
            proof {
                assert(spec_block_path_ok(em, i as int, j as int, k as int));
            }
            self.set_block_flag(i, j, k, false);
            proof {
                let fm = em.contract_info[i as int].1.function_info[j as int].1;
                let bm = spec_bm_at(em, i as int, j as int, k as int);
                assert(spec_em_function(em, cid, fid) == Some(fm));
                assert(spec_assoc_get(fm.block_info, blocks@.last()) == Some(bm));
                assert(self@ == spec_on_identifier_ref(
                    em,
                    source_units@,
                    cid,
                    *definition_node,
                    blocks@,
                    rid,
                ));
            }
        }
    }
}

impl CheckEffectsInteractionsVisitor {
    /// Resolves a referenced declaration to the state variable it denotes or
    /// aliases, if any.
    pub fn get_state_variable_id(
        source_units: &Vec<SourceUnit>,
        contract_definition: &ContractDefinition,
        function_info: &FunctionInfo,
        block_id: NodeID,
        referenced_declaration: NodeID,
    ) -> (r: Option<NodeID>)
        ensures
            r == spec_resolve_state_variable(
                source_units@,
                *contract_definition,
                function_info@,
                block_id,
                referenced_declaration,
            ),
    {
        if contract_definition.hierarchy_contains_state_variable(
            source_units,
            referenced_declaration,
        ) {
            Some(referenced_declaration)
        } else {
            function_info.resolve_through_blocks(block_id, referenced_declaration)
        }
    }

    /// Whether the block at `(i, j, k)` or an ancestor on its chain has seen
    /// an external call.
    fn call_danger_at(&self, i: usize, j: usize, k: usize) -> (r: bool)
        requires
            spec_block_path_ok(self@, i as int, j as int, k as int),
        ensures
            r == spec_call_danger(
                self@.contract_info[i as int].1.function_info[j as int].1,
                spec_bm_at(self@, i as int, j as int, k as int),
            ),
    {
        proof {
            lemma_model_path_facts(self, i as int, j as int);
        }
        let ghost fm = self@.contract_info[i as int].1.function_info[j as int].1;
        let ghost bm = spec_bm_at(self@, i as int, j as int, k as int);
        let fi = &self.contract_info[i].1.function_info[j].1;
        let block = &fi.block_info[k].1;
        proof {
            assert(self@.contract_info[i as int].1 == self.contract_info@[i as int].1@);
            assert(fi@ == fm);
            assert(fi@.block_info[k as int].1 == fi.block_info@[k as int].1@);
            assert(block@ == bm);
        }
        if block.makes_external_call {
            return true;
        }
        let mut p: usize = block.parent_blocks.len();
        while p > 0
            invariant
                p <= block.parent_blocks@.len(),
                fm == self@.contract_info[i as int].1.function_info[j as int].1,
                fi@ == fm,
                bm == spec_bm_at(self@, i as int, j as int, k as int),
                bm.parent_blocks == block.parent_blocks@,
                forall|m: int|
                    p <= m < bm.parent_blocks.len() ==> !(match spec_assoc_get(
                        fm.block_info,
                        #[trigger] bm.parent_blocks[m],
                    ) {
                        Some(pm) => pm.makes_external_call,
                        None => false,
                    }),
            decreases p,
        {
            let parent_id = block.parent_blocks[p - 1];
            match fi.block_index(parent_id) {
                Some(pk) => {
                    if fi.block_info[pk].1.makes_external_call {
                        proof {
                            assert(fi@.block_info[pk as int].1 == fi.block_info@[pk as int].1@);
                            assert(spec_call_danger(fm, bm)) by {
                                assert(0 <= p - 1 < bm.parent_blocks.len());
                                assert(match spec_assoc_get(
                                    fm.block_info,
                                    bm.parent_blocks[p as int - 1],
                                ) {
                                    Some(pm) => pm.makes_external_call,
                                    None => false,
                                });
                            }
                        }
                        return true;
                    }
                    proof {
                        assert(fi@.block_info[pk as int].1 == fi.block_info@[pk as int].1@);
                    }
                },
                None => {},
            }
            p = p - 1;
        }
        proof {
            assert(!spec_call_danger(fm, bm));
        }
        false
    }

    /// Checks a mutated expression seen in call danger: when any declaration
    /// it references resolves to a state variable, the block's violation flag
    /// is raised and one diagnostic is reported.
    fn check_expression(
        &mut self,
        i: usize,
        j: usize,
        k: usize,
        source_units: &Vec<SourceUnit>,
        contract_definition: &ContractDefinition,
        fid: NodeID,
        expression: &Expression,
        source_line: usize,
    )
        requires
            spec_block_path_ok(old(self)@, i as int, j as int, k as int),
            spec_cid_at(old(self)@, i as int) == contract_definition.id,
            spec_fid_at(old(self)@, i as int, j as int) == fid,
        ensures
            final(self)@ == spec_check_tail(
                old(self)@,
                source_units@,
                *contract_definition,
                fid,
                spec_bid_at(old(self)@, i as int, j as int, k as int),
                spec_referenced_declarations(*expression),
                source_line,
            ),
    {
        let ghost em = self@;
        let ghost fm = em.contract_info[i as int].1.function_info[j as int].1;
        let ghost bid_g = spec_bid_at(em, i as int, j as int, k as int);
        proof {
            lemma_model_path_facts(self, i as int, j as int);
            assert(spec_em_function(em, contract_definition.id, fid) == Some(fm)) by {
                lemma_assoc_get_at(em.contract_info, contract_definition.id, i as int);
                lemma_assoc_get_at(
                    em.contract_info[i as int].1.function_info,
                    fid,
                    j as int,
                );
            }
            assert(spec_assoc_get(fm.block_info, bid_g) == Some(
                spec_bm_at(em, i as int, j as int, k as int),
            )) by {
                lemma_assoc_get_at(fm.block_info, bid_g, k as int);
            }
        }
        let ids = expression.referenced_declarations();
        let bid = self.contract_info[i].1.function_info[j].1.block_info[k].0;
        let mut found = false;
        let mut l: usize = 0;
        while l < ids.len()
            invariant
                l <= ids@.len(),
                ids@ == spec_referenced_declarations(*expression),
                fm == self@.contract_info[i as int].1.function_info[j as int].1,
                spec_block_path_ok(self@, i as int, j as int, k as int),
                bid == spec_bid_at(self@, i as int, j as int, k as int),
                self@ == em,
                found ==> spec_any_resolves(
                    source_units@,
                    *contract_definition,
                    fm,
                    bid,
                    ids@,
                ),
                !found ==> forall|m: int|
                    0 <= m < l ==> !(spec_resolve_state_variable(
                        source_units@,
                        *contract_definition,
                        fm,
                        bid,
                        #[trigger] ids@[m],
                    ) is Some),
            decreases ids.len() - l,
        {
            if !found {
                proof {
                    lemma_model_path_facts(self, i as int, j as int);
                }
                let hit = Self::get_state_variable_id(
                    source_units,
                    contract_definition,
                    &self.contract_info[i].1.function_info[j].1,
                    bid,
                    ids[l],
                );
                if hit.is_some() {
                    found = true;
                }
            }
            l = l + 1;
        }
        if found {
            self.set_block_flag(i, j, k, true);
            self.diagnostics.push(
                Diagnostic {
                    contract: contract_definition.id,
                    definition: fid,
                    line: Some(source_line),
                    finding: Finding::PostExternalCallStateMutation { block: bid },
                },
            );
            proof {
                assert(self@ =~~= spec_check_tail(
                    em,
                    source_units@,
                    *contract_definition,
                    fid,
                    bid_g,
                    ids@,
                    source_line,
                ));
            }
        } else {
            proof {
                assert(!spec_any_resolves(source_units@, *contract_definition, fm, bid_g, ids@));
            }
        }
    }

    /// An assignment inside a block: reported when a state variable (or an
    /// alias of one) is written while the scope is in call danger.
    pub fn on_assignment(&mut self, context: &AssignmentContext) -> (r: Result<
        (),
        AnalysisError,
    >)
        ensures
            r is Ok ==> Some(final(self)@) == spec_on_assignment(
                old(self)@,
                context.source_units@,
                *context.current_source_unit,
                *context.contract_definition,
                *context.definition_node,
                context.blocks@,
                *context.assignment,
            ),
            r is Err ==> spec_on_assignment(
                old(self)@,
                context.source_units@,
                *context.current_source_unit,
                *context.contract_definition,
                *context.definition_node,
                context.blocks@,
                *context.assignment,
            ) is None && final(self)@ == old(self)@ && r == Err::<(), AnalysisError>(
                AnalysisError::InvalidSourceSpan,
            ),
    {
        let (i, j, k, fid) = match self.mutation_scope_indices(
            context.contract_definition,
            context.definition_node,
            context.blocks,
        ) {
            Some(path) => path,
            None => {
                return Ok(());
            },
        };
        if self.contract_info[i].1.function_info[j].1.block_info[
            k
        ].1.makes_post_external_call_assignment {
            return Ok(());
        }
        if !self.call_danger_at(i, j, k) {
            return Ok(());
        }
        let line = match context.current_source_unit.source_line(
            context.assignment.src.as_str(),
        ) {
            Ok(line) => line,
            Err(e) => {
                return Err(e);
            },
        };
        self.check_expression(
            i,
            j,
            k,
            context.source_units,
            context.contract_definition,
            fid,
            &context.assignment.left_hand_side,
            line,
        );
        Ok(())
    }

    /// An increment, decrement or delete-like operation inside a block,
    /// checked through its operand.
    pub fn on_unary_operation(&mut self, context: &UnaryOperationContext) -> (r: Result<
        (),
        AnalysisError,
    >)
        ensures
            r is Ok ==> Some(final(self)@) == spec_on_unary_operation(
                old(self)@,
                context.source_units@,
                *context.current_source_unit,
                *context.contract_definition,
                *context.definition_node,
                context.blocks@,
                *context.unary_operation,
            ),
            r is Err ==> spec_on_unary_operation(
                old(self)@,
                context.source_units@,
                *context.current_source_unit,
                *context.contract_definition,
                *context.definition_node,
                context.blocks@,
                *context.unary_operation,
            ) is None && final(self)@ == old(self)@ && r == Err::<(), AnalysisError>(
                AnalysisError::InvalidSourceSpan,
            ),
    {
        let (i, j, k, fid) = match self.mutation_scope_indices(
            context.contract_definition,
            context.definition_node,
            context.blocks,
        ) {
            Some(path) => path,
            None => {
                return Ok(());
            },
        };
        if self.contract_info[i].1.function_info[j].1.block_info[
            k
        ].1.makes_post_external_call_assignment {
            return Ok(());
        }
        if !self.call_danger_at(i, j, k) {
            return Ok(());
        }
        let line = match context.current_source_unit.source_line(
            context.unary_operation.src.as_str(),
        ) {
            Ok(line) => line,
            Err(e) => {
                return Err(e);
            },
        };
        self.check_expression(
            i,
            j,
            k,
            context.source_units,
            context.contract_definition,
            fid,
            &context.unary_operation.sub_expression,
            line,
        );
        Ok(())
    }

    /// A call inside a block: an unresolvable `push` or `pop` member access
    /// is an array mutator and is checked through its base expression.
    pub fn on_function_call(&mut self, context: &FunctionCallContext) -> (r: Result<
        (),
        AnalysisError,
    >)
        ensures
            r is Ok ==> Some(final(self)@) == spec_on_function_call(
                old(self)@,
                context.source_units@,
                *context.current_source_unit,
                *context.contract_definition,
                *context.definition_node,
                context.blocks@,
                *context.function_call,
            ),
            r is Err ==> spec_on_function_call(
                old(self)@,
                context.source_units@,
                *context.current_source_unit,
                *context.contract_definition,
                *context.definition_node,
                context.blocks@,
                *context.function_call,
            ) is None && final(self)@ == old(self)@ && r == Err::<(), AnalysisError>(
                AnalysisError::InvalidSourceSpan,
            ),
    {
        let (i, j, k, fid) = match self.mutation_scope_indices(
            context.contract_definition,
            context.definition_node,
            context.blocks,
        ) {
            Some(path) => path,
            None => {
                return Ok(());
            },
        };
        if self.contract_info[i].1.function_info[j].1.block_info[
            k
        ].1.makes_post_external_call_assignment {
            return Ok(());
        }
        if !self.call_danger_at(i, j, k) {
            return Ok(());
        }
        let ma = match &*context.function_call.expression {
            Expression::MemberAccess(ma) => ma,
            _ => {
                return Ok(());
            },
        };
        if ma.referenced_declaration.is_some() {
            return Ok(());
        }
        if !(str_eq(ma.member_name.as_str(), "push") || str_eq(ma.member_name.as_str(), "pop")) {
            return Ok(());
        }
        let line = match context.current_source_unit.source_line(
            context.function_call.src.as_str(),
        ) {
            Ok(line) => line,
            Err(e) => {
                return Err(e);
            },
        };
        self.check_expression(
            i,
            j,
            k,
            context.source_units,
            context.contract_definition,
            fid,
            &ma.expression,
            line,
        );
        Ok(())
    }

    /// The indices of the innermost block's record, when the event happens in
    /// a recorded function-or-modifier block.
    fn mutation_scope_indices(
        &self,
        contract_definition: &ContractDefinition,
        definition_node: &ContractDefinitionNode,
        blocks: &Vec<NodeID>,
    ) -> (r: Option<(usize, usize, usize, NodeID)>)
        ensures
            match r {
                Some(path) => {
                    &&& spec_block_path_ok(self@, path.0 as int, path.1 as int, path.2 as int)
                    &&& spec_cid_at(self@, path.0 as int) == contract_definition.id
                    &&& spec_fid_at(self@, path.0 as int, path.1 as int) == path.3
                    &&& spec_bid_at(self@, path.0 as int, path.1 as int, path.2 as int)
                        == blocks@.last()
                    &&& blocks@.len() > 0
                    &&& spec_mutation_scope(
                        self@,
                        contract_definition.id,
                        *definition_node,
                        blocks@,
                    ) == Some(
                        (
                            path.3,
                            self@.contract_info[path.0 as int].1.function_info[path.1 as int].1,
                            spec_bm_at(self@, path.0 as int, path.1 as int, path.2 as int),
                        ),
                    )
                },
                None => spec_mutation_scope(
                    self@,
                    contract_definition.id,
                    *definition_node,
                    blocks@,
                ) is None,
            },
    {
        if blocks.len() == 0 {
            return None;
        }
        let fid = match definition_id(definition_node) {
            Some(fid) => fid,
            None => {
                return None;
            },
        };
        let i = match self.contract_index(contract_definition.id) {
            Some(i) => i,
            None => {
                return None;
            },
        };
        proof {
            lemma_model_path_facts(self, i as int, 0);
        }
        let j = match self.contract_info[i].1.function_index(fid) {
            Some(j) => j,
            None => {
                return None;
            },
        };
        proof {
            lemma_model_path_facts(self, i as int, j as int);
        }
        let bid = blocks[blocks.len() - 1];
        let k = match self.contract_info[i].1.function_info[j].1.block_index(bid) {
            Some(k) => k,
            None => {
                return None;
            },
        };
        Some((i, j, k, fid))
    }
}

impl CheckEffectsInteractionsVisitor {
    /// A local declaration statement: records storage-reference locals as
    /// aliases of the state variable their initializer resolves to, for the
    /// innermost block. A declaration/component count mismatch is a malformed
    /// tree and aborts the walk.
    pub fn on_variable_declaration_statement(
        &mut self,
        context: &VariableDeclarationStatementContext,
    ) -> (r: Result<(), AnalysisError>)
        ensures
            r is Ok ==> Some(final(self)@) == spec_on_variable_declaration_statement(
                old(self)@,
                context.source_units@,
                *context.contract_definition,
                *context.definition_node,
                context.blocks@,
                *context.variable_declaration_statement,
            ),
            r is Err ==> spec_on_variable_declaration_statement(
                old(self)@,
                context.source_units@,
                *context.contract_definition,
                *context.definition_node,
                context.blocks@,
                *context.variable_declaration_statement,
            ) is None && final(self)@ == old(self)@ && r == Err::<(), AnalysisError>(
                AnalysisError::MalformedTree,
            ),
    {
        let ghost em = self@;
        if context.blocks.len() == 0 {
            return Ok(());
        }
        let fid = match definition_id(context.definition_node) {
            Some(fid) => fid,
            None => {
                return Ok(());
            },
        };
        let cid = context.contract_definition.id;
        let i = match self.contract_index(cid) {
            Some(i) => i,
            None => {
                return Ok(());
            },
        };
        proof {
            lemma_model_path_facts(self, i as int, 0);
        }
        let j = match self.contract_info[i].1.function_index(fid) {
            Some(j) => j,
            None => {
                return Ok(());
            },
        };
        proof {
            lemma_model_path_facts(self, i as int, j as int);
            assert(spec_em_function(em, cid, fid) == Some(
                em.contract_info[i as int].1.function_info[j as int].1,
            ));
        }
        let bid = context.blocks[context.blocks.len() - 1];
        let vds = context.variable_declaration_statement;
        let iv = match &vds.initial_value {
            Some(iv) => iv,
            None => {
                return Ok(());
            },
        };
        let root = match iv.root_expression() {
            Some(root) => root,
            None => {
                return Ok(());
            },
        };
        match root {
            Expression::Identifier(ident) => {
                if vds.declarations.len() != 1 {
                    return Err(AnalysisError::MalformedTree);
                }
                let vd = match &vds.declarations[0] {
                    Some(vd) => vd,
                    None => {
                        return Ok(());
                    },
                };
                match vd.storage_location {
                    StorageLocation::Storage => {},
                    _ => {
                        return Ok(());
                    },
                }
                let sv = match Self::get_state_variable_id(
                    context.source_units,
                    context.contract_definition,
                    &self.contract_info[i].1.function_info[j].1,
                    bid,
                    ident.referenced_declaration,
                ) {
                    Some(sv) => sv,
                    None => {
                        return Ok(());
                    },
                };
                let k = match self.contract_info[i].1.function_info[j].1.block_index(bid) {
                    Some(k) => k,
                    None => {
                        return Ok(());
                    },
                };
                self.record_binding_at(i, j, k, sv, vd.id);
                proof {
                    assert(final(self)@ == spec_em_record(em, cid, fid, bid, sv, vd.id));
                }
                Ok(())
            },
            Expression::TupleExpression(tuple) => {
                if tuple.components.len() != vds.declarations.len() {
                    return Err(AnalysisError::MalformedTree);
                }
                let mut idx: usize = 0;
                while idx < tuple.components.len()
                    invariant
                        idx <= tuple.components@.len(),
                        tuple.components@.len()
                            == context.variable_declaration_statement.declarations@.len(),
                        cid == context.contract_definition.id,
                        spec_record_tuple(
                            em,
                            context.source_units@,
                            *context.contract_definition,
                            fid,
                            bid,
                            tuple.components@,
                            context.variable_declaration_statement.declarations@,
                            0,
                        ) == spec_record_tuple(
                            self@,
                            context.source_units@,
                            *context.contract_definition,
                            fid,
                            bid,
                            tuple.components@,
                            context.variable_declaration_statement.declarations@,
                            idx as int,
                        ),
                    decreases tuple.components.len() - idx,
                {
                    let ghost em_iter = self@;
                    self.record_tuple_component(
                        context.source_units,
                        context.contract_definition,
                        fid,
                        bid,
                        &tuple.components[idx],
                        &context.variable_declaration_statement.declarations[idx],
                    );
                    proof {
                        assert(spec_record_tuple(
                            em_iter,
                            context.source_units@,
                            *context.contract_definition,
                            fid,
                            bid,
                            tuple.components@,
                            context.variable_declaration_statement.declarations@,
                            idx as int,
                        ) == spec_record_tuple(
                            self@,
                            context.source_units@,
                            *context.contract_definition,
                            fid,
                            bid,
                            tuple.components@,
                            context.variable_declaration_statement.declarations@,
                            idx as int + 1,
                        ));
                    }
                    idx = idx + 1;
                }
                Ok(())
            },
            _ => Ok(()),
        }
    }

    /// One tuple component of a declaration statement: records it when it is
    /// a storage-located declaration initialized from an identifier that
    /// resolves to a state variable.
    fn record_tuple_component(
        &mut self,
        source_units: &Vec<SourceUnit>,
        contract_definition: &ContractDefinition,
        fid: NodeID,
        bid: NodeID,
        component: &Option<Expression>,
        declaration: &Option<VariableDeclaration>,
    )
        ensures
            final(self)@ == spec_tuple_component_step(
                old(self)@,
                source_units@,
                *contract_definition,
                fid,
                bid,
                *component,
                *declaration,
            ),
    {
        let ghost em = self@;
        let cid = contract_definition.id;
        let comp = match component {
            Some(comp) => comp,
            None => {
                return ;
            },
        };
        let root = match comp.root_expression() {
            Some(root) => root,
            None => {
                return ;
            },
        };
        let ident = match root {
            Expression::Identifier(ident) => ident,
            _ => {
                return ;
            },
        };
        let vd = match declaration {
            Some(vd) => vd,
            None => {
                return ;
            },
        };
        match vd.storage_location {
            StorageLocation::Storage => {},
            _ => {
                return ;
            },
        }
        let i = match self.contract_index(cid) {
            Some(i) => i,
            None => {
                return ;
            },
        };
        proof {
            lemma_model_path_facts(self, i as int, 0);
        }
        let j = match self.contract_info[i].1.function_index(fid) {
            Some(j) => j,
            None => {
                return ;
            },
        };
        proof {
            lemma_model_path_facts(self, i as int, j as int);
            assert(spec_em_function(em, cid, fid) == Some(
                em.contract_info[i as int].1.function_info[j as int].1,
            ));
        }
        let sv = match Self::get_state_variable_id(
            source_units,
            contract_definition,
            &self.contract_info[i].1.function_info[j].1,
            bid,
            ident.referenced_declaration,
        ) {
            Some(sv) => sv,
            None => {
                return ;
            },
        };
        let k = match self.contract_info[i].1.function_info[j].1.block_index(bid) {
            Some(k) => k,
            None => {
                return ;
            },
        };
        self.record_binding_at(i, j, k, sv, vd.id);
        proof {
            assert(final(self)@ == spec_em_record(em, cid, fid, bid, sv, vd.id));
        }
    }
}

impl AstVisitor for CheckEffectsInteractionsVisitor {
    fn visit_contract_definition(&mut self, context: &mut ContractDefinitionContext) -> (r: Result<
        (),
        AnalysisError,
    >) {
        self.on_contract_definition(&*context)
    }

    fn visit_function_definition(&mut self, context: &mut FunctionDefinitionContext) -> (r: Result<
        (),
        AnalysisError,
    >) {
        self.on_function_definition(&*context)
    }

    fn visit_modifier_definition(&mut self, context: &mut ModifierDefinitionContext) -> (r: Result<
        (),
        AnalysisError,
    >) {
        self.on_modifier_definition(&*context)
    }

    fn visit_block(&mut self, context: &mut BlockContext) -> (r: Result<(), AnalysisError>) {
        self.on_block(&*context)
    }

    fn visit_variable_declaration_statement(
        &mut self,
        context: &mut VariableDeclarationStatementContext,
    ) -> (r: Result<(), AnalysisError>) {
        self.on_variable_declaration_statement(&*context)
    }

    fn visit_identifier(&mut self, context: &mut IdentifierContext) -> (r: Result<
        (),
        AnalysisError,
    >) {
        self.on_identifier(&*context)
    }

    fn visit_member_access(&mut self, context: &mut MemberAccessContext) -> (r: Result<
        (),
        AnalysisError,
    >) {
        self.on_member_access(&*context)
    }

    fn visit_assignment(&mut self, context: &mut AssignmentContext) -> (r: Result<
        (),
        AnalysisError,
    >) {
        self.on_assignment(&*context)
    }

    fn visit_unary_operation(&mut self, context: &mut UnaryOperationContext) -> (r: Result<
        (),
        AnalysisError,
    >) {
        self.on_unary_operation(&*context)
    }

    fn visit_function_call(&mut self, context: &mut FunctionCallContext) -> (r: Result<
        (),
        AnalysisError,
    >) {
        self.on_function_call(&*context)
    }
}

/// After writing a block's record back, looking it up yields exactly the
/// written record, provided the contract and definition have records.
proof fn lemma_em_set_block_get(
    em: EffectsModel,
    cid: NodeID,
    fid: NodeID,
    bid: NodeID,
    bm: BlockModel,
)
    requires
        spec_em_function(em, cid, fid) is Some,
    ensures
        spec_em_block(spec_em_set_block(em, cid, fid, bid, bm), cid, fid, bid) == Some(bm),
{
    let cm = spec_em_contract(em, cid)->Some_0;
    let fm = spec_assoc_get(cm.function_info, fid)->Some_0;
    let fm_new = FunctionModel { block_info: spec_assoc_put(fm.block_info, bid, bm) };
    let cm_new = ContractModel { function_info: spec_assoc_put(cm.function_info, fid, fm_new) };
    lemma_assoc_get_put_same(em.contract_info, cid, cm_new);
    lemma_assoc_get_put_same(cm.function_info, fid, fm_new);
    lemma_assoc_get_put_same(fm.block_info, bid, bm);
}

/// What the reporting tail can do: either nothing, or append exactly one
/// violation diagnostic for the named block while turning that block's
/// violation flag on.
proof fn lemma_check_tail_effects(
    em: EffectsModel,
    units: Seq<SourceUnit>,
    contract: ContractDefinition,
    fid: NodeID,
    bid: NodeID,
    refs: Seq<NodeID>,
    line: usize,
)
    ensures
        ({
            let em2 = spec_check_tail(em, units, contract, fid, bid, refs, line);
            ||| em2 == em
            ||| (em2.diagnostics == em.diagnostics.push(
                Diagnostic {
                    contract: contract.id,
                    definition: fid,
                    line: Some(line),
                    finding: Finding::PostExternalCallStateMutation { block: bid },
                },
            ) && spec_em_block(em2, contract.id, fid, bid) == Some(
                spec_with_flag(spec_em_block(em, contract.id, fid, bid)->Some_0, true),
            ))
        }),
{
    let em2 = spec_check_tail(em, units, contract, fid, bid, refs, line);
    match spec_em_function(em, contract.id, fid) {
        None => {},
        Some(fm) => {
            if spec_any_resolves(units, contract, fm, bid, refs) {
                match spec_assoc_get(fm.block_info, bid) {
                    None => {},
                    Some(bm) => {
                        lemma_em_set_block_get(em, contract.id, fid, bid, spec_with_flag(bm, true));
                        assert(spec_em_set_block(
                            em,
                            contract.id,
                            fid,
                            bid,
                            spec_with_flag(bm, true),
                        ).diagnostics == em.diagnostics);
                        assert(em2.contract_info == spec_em_set_block(
                            em,
                            contract.id,
                            fid,
                            bid,
                            spec_with_flag(bm, true),
                        ).contract_info);
                    },
                }
            }
        },
    }
}

/// An assignment event reports a violation only when its block's scope is
/// already in call danger — the block itself, or an ancestor on its recorded
/// chain, has seen an external call earlier in the walk — and it reports at
/// most one diagnostic, for a block that was not yet flagged and is flagged
/// from then on.
pub proof fn lemma_assignment_violation_needs_prior_call(
    em: EffectsModel,
    units: Seq<SourceUnit>,
    su: SourceUnit,
    contract: ContractDefinition,
    dn: ContractDefinitionNode,
    blocks: Seq<NodeID>,
    assignment: Assignment,
    em2: EffectsModel,
)
    requires
        spec_on_assignment(em, units, su, contract, dn, blocks, assignment) == Some(em2),
        em2.diagnostics != em.diagnostics,
    ensures
        ({
            let scope = spec_mutation_scope(em, contract.id, dn, blocks);
            &&& scope is Some
            &&& spec_call_danger(scope->Some_0.1, scope->Some_0.2)
            &&& !scope->Some_0.2.makes_post_external_call_assignment
            &&& em2.diagnostics.len() == em.diagnostics.len() + 1
            &&& em2.diagnostics.last().finding == (Finding::PostExternalCallStateMutation {
                block: blocks.last(),
            })
            &&& spec_em_block(
                em2,
                contract.id,
                scope->Some_0.0,
                blocks.last(),
            )->Some_0.makes_post_external_call_assignment
        }),
{
    match spec_mutation_scope(em, contract.id, dn, blocks) {
        None => {},
        Some(scope) => {
            let fid = scope.0;
            let fm = scope.1;
            let bm = scope.2;
            if !bm.makes_post_external_call_assignment && spec_call_danger(fm, bm) {
                match spec_source_line(su, spec_str_bytes(assignment.src@)) {
                    None => {},
                    Some(line) => {
                        lemma_check_tail_effects(
                            em,
                            units,
                            contract,
                            fid,
                            blocks.last(),
                            spec_referenced_declarations(*assignment.left_hand_side),
                            line as usize,
                        );
                    },
                }
            }
        },
    }
}

/// The same guarantee for an increment, decrement or delete-like operation.
pub proof fn lemma_unary_violation_needs_prior_call(
    em: EffectsModel,
    units: Seq<SourceUnit>,
    su: SourceUnit,
    contract: ContractDefinition,
    dn: ContractDefinitionNode,
    blocks: Seq<NodeID>,
    unary: UnaryOperation,
    em2: EffectsModel,
)
    requires
        spec_on_unary_operation(em, units, su, contract, dn, blocks, unary) == Some(em2),
        em2.diagnostics != em.diagnostics,
    ensures
        ({
            let scope = spec_mutation_scope(em, contract.id, dn, blocks);
            &&& scope is Some
            &&& spec_call_danger(scope->Some_0.1, scope->Some_0.2)
            &&& !scope->Some_0.2.makes_post_external_call_assignment
            &&& em2.diagnostics.len() == em.diagnostics.len() + 1
            &&& spec_em_block(
                em2,
                contract.id,
                scope->Some_0.0,
                blocks.last(),
            )->Some_0.makes_post_external_call_assignment
        }),
{
    match spec_mutation_scope(em, contract.id, dn, blocks) {
        None => {},
        Some(scope) => {
            if !scope.2.makes_post_external_call_assignment && spec_call_danger(
                scope.1,
                scope.2,
            ) {
                match spec_source_line(su, spec_str_bytes(unary.src@)) {
                    None => {},
                    Some(line) => {
                        lemma_check_tail_effects(
                            em,
                            units,
                            contract,
                            scope.0,
                            blocks.last(),
                            spec_referenced_declarations(*unary.sub_expression),
                            line as usize,
                        );
                    },
                }
            }
        },
    }
}

/// The same guarantee for an array `push`/`pop` mutator call.
pub proof fn lemma_call_violation_needs_prior_call(
    em: EffectsModel,
    units: Seq<SourceUnit>,
    su: SourceUnit,
    contract: ContractDefinition,
    dn: ContractDefinitionNode,
    blocks: Seq<NodeID>,
    call: FunctionCall,
    em2: EffectsModel,
)
    requires
        spec_on_function_call(em, units, su, contract, dn, blocks, call) == Some(em2),
        em2.diagnostics != em.diagnostics,
    ensures
        ({
            let scope = spec_mutation_scope(em, contract.id, dn, blocks);
            &&& scope is Some
            &&& spec_call_danger(scope->Some_0.1, scope->Some_0.2)
            &&& !scope->Some_0.2.makes_post_external_call_assignment
            &&& em2.diagnostics.len() == em.diagnostics.len() + 1
            &&& spec_em_block(
                em2,
                contract.id,
                scope->Some_0.0,
                blocks.last(),
            )->Some_0.makes_post_external_call_assignment
        }),
{
    match spec_mutation_scope(em, contract.id, dn, blocks) {
        None => {},
        Some(scope) => {
            if !scope.2.makes_post_external_call_assignment && spec_call_danger(
                scope.1,
                scope.2,
            ) {
                match *call.expression {
                    Expression::MemberAccess(ma) => {
                        if ma.referenced_declaration is None && (spec_str_bytes(ma.member_name@)
                            == spec_str_bytes("push"@) || spec_str_bytes(ma.member_name@)
                            == spec_str_bytes("pop"@)) {
                            match spec_source_line(su, spec_str_bytes(call.src@)) {
                                None => {},
                                Some(line) => {
                                    lemma_check_tail_effects(
                                        em,
                                        units,
                                        contract,
                                        scope.0,
                                        blocks.last(),
                                        spec_referenced_declarations(*ma.expression),
                                        line as usize,
                                    );
                                },
                            }
                        }
                    },
                    _ => {},
                }
            }
        },
    }
}

/// A mutation event never reports against a block already flagged: together
/// with the previous lemmas — a report flags its block, and a flagged block
/// is never reported again — at most one violation diagnostic is ever
/// emitted per block.
pub proof fn lemma_flagged_block_not_reported_again(
    em: EffectsModel,
    units: Seq<SourceUnit>,
    su: SourceUnit,
    contract: ContractDefinition,
    dn: ContractDefinitionNode,
    blocks: Seq<NodeID>,
    assignment: Assignment,
)
    requires
        spec_mutation_scope(em, contract.id, dn, blocks) is Some,
        spec_mutation_scope(
            em,
            contract.id,
            dn,
            blocks,
        )->Some_0.2.makes_post_external_call_assignment,
    ensures
        spec_on_assignment(em, units, su, contract, dn, blocks, assignment) == Some(em),
{
}

/// A local recorded as a storage alias resolves to its state variable: the
/// binding recorded for the innermost block wins, and an identifier that is
/// itself a state variable resolves to itself.
pub proof fn lemma_recorded_alias_resolves(
    units: Seq<SourceUnit>,
    contract: ContractDefinition,
    fm: FunctionModel,
    bid: NodeID,
    local: NodeID,
)
    requires
        spec_assoc_get(fm.block_info, bid) is Some,
        spec_bindings_resolve(
            spec_assoc_get(fm.block_info, bid)->Some_0.variable_bindings,
            local,
        ) is Some,
    ensures
        spec_resolve_state_variable(units, contract, fm, bid, local) is Some,
{
}

/// A declaration statement that declares no storage-located variable records
/// no alias and leaves the analyzer's state unchanged (when its shape is not
/// malformed): a `memory` local is therefore never treated as a state
/// variable by later mutation checks.
pub proof fn lemma_non_storage_declarations_record_nothing(
    em: EffectsModel,
    units: Seq<SourceUnit>,
    contract: ContractDefinition,
    dn: ContractDefinitionNode,
    blocks: Seq<NodeID>,
    vds: VariableDeclarationStatement,
    em2: EffectsModel,
)
    requires
        forall|i: int|
            0 <= i < vds.declarations@.len() ==> ((#[trigger] vds.declarations@[i]) matches Some(
                vd,
            ) ==> vd.storage_location != StorageLocation::Storage),
        spec_on_variable_declaration_statement(em, units, contract, dn, blocks, vds) == Some(em2),
    ensures
        em2 == em,
{
    if blocks.len() != 0 {
        match spec_definition_id(dn) {
            None => {},
            Some(fid) => {
                match spec_em_function(em, contract.id, fid) {
                    None => {},
                    Some(fm) => {
                        match vds.initial_value {
                            None => {},
                            Some(iv) => {
                                match spec_root_expression(iv) {
                                    Some(Expression::Identifier(ident)) => {
                                        assert(vds.declarations@.len() == 1);
                                        assert(vds.declarations@[0] matches Some(vd)
                                            ==> vd.storage_location
                                            != StorageLocation::Storage);
                                    },
                                    Some(Expression::TupleExpression(tuple)) => {
                                        lemma_record_tuple_no_storage(
                                            em,
                                            units,
                                            contract,
                                            fid,
                                            blocks.last(),
                                            tuple.components@,
                                            vds.declarations@,
                                            0,
                                        );
                                    },
                                    _ => {},
                                }
                            },
                        }
                    },
                }
            },
        }
    }
}

proof fn lemma_record_tuple_no_storage(
    em: EffectsModel,
    units: Seq<SourceUnit>,
    contract: ContractDefinition,
    fid: NodeID,
    bid: NodeID,
    components: Seq<Option<Expression>>,
    declarations: Seq<Option<VariableDeclaration>>,
    idx: int,
)
    requires
        forall|i: int|
            0 <= i < declarations.len() ==> ((#[trigger] declarations[i]) matches Some(vd)
                ==> vd.storage_location != StorageLocation::Storage),
        components.len() == declarations.len(),
    ensures
        spec_record_tuple(em, units, contract, fid, bid, components, declarations, idx) == em,
    decreases components.len() - idx,
{
    if 0 <= idx < components.len() {
        assert(spec_tuple_component_step(
            em,
            units,
            contract,
            fid,
            bid,
            components[idx],
            declarations[idx],
        ) == em);
        lemma_record_tuple_no_storage(
            em,
            units,
            contract,
            fid,
            bid,
            components,
            declarations,
            idx + 1,
        );
    }
}

/// A reference that is neither a state variable in the contract's hierarchy
/// nor recorded as a storage alias in any of the definition's blocks never
/// resolves to contract state: mutations through it are never reported.
pub proof fn lemma_unbound_reference_resolves_to_nothing(
    units: Seq<SourceUnit>,
    contract: ContractDefinition,
    fm: FunctionModel,
    bid: NodeID,
    rid: NodeID,
)
    requires
        !spec_hierarchy_contains_state_variable(units, contract, rid),
        forall|k: int|
            0 <= k < fm.block_info.len() ==> spec_bindings_resolve(
                (#[trigger] fm.block_info[k]).1.variable_bindings,
                rid,
            ) is None,
    ensures
        spec_resolve_state_variable(units, contract, fm, bid, rid) is None,
{
    match spec_assoc_get(fm.block_info, bid) {
        None => {},
        Some(bm) => {
            crate::assoc::lemma_assoc_get_some_index(fm.block_info, bid);
            lemma_unbound_in_parents(fm, bm.parent_blocks, rid);
        },
    }
}

proof fn lemma_unbound_in_parents(fm: FunctionModel, parents: Seq<NodeID>, rid: NodeID)
    requires
        forall|k: int|
            0 <= k < fm.block_info.len() ==> spec_bindings_resolve(
                (#[trigger] fm.block_info[k]).1.variable_bindings,
                rid,
            ) is None,
    ensures
        spec_resolve_in_parents(fm, parents, rid) is None,
    decreases parents.len(),
{
    if parents.len() != 0 {
        match spec_assoc_get(fm.block_info, parents.last()) {
            None => {},
            Some(pm) => {
                crate::assoc::lemma_assoc_get_some_index(fm.block_info, parents.last());
            },
        }
        lemma_unbound_in_parents(fm, parents.drop_last(), rid);
    }
}

/// Whether `(i, j, k)` index a recorded block.
pub open spec fn spec_block_path_valid(em: EffectsModel, i: int, j: int, k: int) -> bool {
    &&& 0 <= i < em.contract_info.len()
    &&& 0 <= j < em.contract_info[i].1.function_info.len()
    &&& 0 <= k < em.contract_info[i].1.function_info[j].1.block_info.len()
}

/// The analyzer's central invariant: every block record carrying the
/// violation flag is in call danger — the block itself, or an ancestor on
/// its recorded chain, has its external-call flag raised. Together with the
/// per-event lemmas below, which show that every event of a run preserves
/// it, a reported violation always follows an external call observed
/// earlier, in the same scope or an enclosing one.
pub open spec fn spec_flagged_implies_call_danger(em: EffectsModel) -> bool {
    forall|i: int, j: int, k: int|
        spec_block_path_valid(em, i, j, k) ==> ((#[trigger] spec_bm_at(
            em,
            i,
            j,
            k,
        )).makes_post_external_call_assignment ==> spec_call_danger(
            em.contract_info[i].1.function_info[j].1,
            spec_bm_at(em, i, j, k),
        ))
}

/// A state with no records at all satisfies the invariant.
pub proof fn lemma_invariant_initial(em: EffectsModel)
    requires
        em.contract_info.len() == 0,
    ensures
        spec_flagged_implies_call_danger(em),
{
}

/// Creating a contract's record preserves the invariant.
pub proof fn lemma_invariant_on_contract_definition(em: EffectsModel, cid: NodeID)
    requires
        spec_flagged_implies_call_danger(em),
    ensures
        spec_flagged_implies_call_danger(spec_on_contract_definition(em, cid)),
{
    let em2 = spec_on_contract_definition(em, cid);
    assert forall|i: int, j: int, k: int|
        spec_block_path_valid(em2, i, j, k) && (#[trigger] spec_bm_at(
            em2,
            i,
            j,
            k,
        )).makes_post_external_call_assignment implies spec_call_danger(
        em2.contract_info[i].1.function_info[j].1,
        spec_bm_at(em2, i, j, k),
    ) by {
        if spec_em_contract(em, cid) is Some {
        } else {
            assert(i < em.contract_info.len());
            assert(em2.contract_info[i] == em.contract_info[i]);
            assert(spec_bm_at(em2, i, j, k) == spec_bm_at(em, i, j, k));
        }
    }
}

/// Creating a definition's record preserves the invariant.
pub proof fn lemma_invariant_on_definition(em: EffectsModel, cid: NodeID, fid: NodeID)
    requires
        spec_flagged_implies_call_danger(em),
    ensures
        spec_flagged_implies_call_danger(spec_on_definition(em, cid, fid)),
{
    let em2 = spec_on_definition(em, cid, fid);
    match spec_em_contract(em, cid) {
        None => {},
        Some(cm) => {
            if spec_assoc_get(cm.function_info, fid) is Some {
            } else {
                lemma_assoc_first_index(em.contract_info, cid);
                let ci = spec_assoc_first_index(em.contract_info, cid);
                let cm_new = ContractModel {
                    function_info: cm.function_info.push(
                        (fid, FunctionModel { block_info: Seq::empty() }),
                    ),
                };
                lemma_assoc_put_update(em.contract_info, cid, cm_new, ci);
                assert forall|i: int, j: int, k: int|
                    spec_block_path_valid(em2, i, j, k) && (#[trigger] spec_bm_at(
                        em2,
                        i,
                        j,
                        k,
                    )).makes_post_external_call_assignment implies spec_call_danger(
                    em2.contract_info[i].1.function_info[j].1,
                    spec_bm_at(em2, i, j, k),
                ) by {
                    if i != ci {
                        assert(em2.contract_info[i] == em.contract_info[i]);
                        assert(spec_bm_at(em2, i, j, k) == spec_bm_at(em, i, j, k));
                    } else if j < cm.function_info.len() {
                        assert(em2.contract_info[i].1.function_info[j]
                            == em.contract_info[i].1.function_info[j]);
                        assert(spec_bm_at(em2, i, j, k) == spec_bm_at(em, i, j, k));
                        assert(spec_block_path_valid(em, i, j, k));
                    } else {
                        assert(em2.contract_info[i].1.function_info[j].1.block_info.len() == 0);
                    }
                }
            }
        },
    }
}

/// Creating a block's record preserves the invariant: the new record is
/// clean, and existing call-danger witnesses survive the extension of the
/// block table.
pub proof fn lemma_invariant_on_block_entry(
    em: EffectsModel,
    cid: NodeID,
    fid: NodeID,
    bid: NodeID,
    ancestors: Seq<NodeID>,
)
    requires
        spec_flagged_implies_call_danger(em),
    ensures
        spec_flagged_implies_call_danger(spec_on_block_entry(em, cid, fid, bid, ancestors)),
{
    let em2 = spec_on_block_entry(em, cid, fid, bid, ancestors);
    match spec_em_contract(em, cid) {
        None => {},
        Some(cm) => match spec_assoc_get(cm.function_info, fid) {
            None => {},
            Some(fm) => {
                if spec_assoc_get(fm.block_info, bid) is Some {
                } else {
                    lemma_assoc_first_index(em.contract_info, cid);
                    let ci = spec_assoc_first_index(em.contract_info, cid);
                    lemma_assoc_first_index(cm.function_info, fid);
                    let cj = spec_assoc_first_index(cm.function_info, fid);
                    let bm_new = BlockModel {
                        makes_external_call: false,
                        makes_post_external_call_assignment: false,
                        variable_bindings: Seq::empty(),
                        parent_blocks: ancestors,
                    };
                    let fm_new = FunctionModel { block_info: fm.block_info.push((bid, bm_new)) };
                    let cm_new = ContractModel {
                        function_info: spec_assoc_put(cm.function_info, fid, fm_new),
                    };
                    lemma_assoc_put_update(em.contract_info, cid, cm_new, ci);
                    lemma_assoc_put_update(cm.function_info, fid, fm_new, cj);
                    assert forall|i: int, j: int, k: int|
                        spec_block_path_valid(em2, i, j, k) && (#[trigger] spec_bm_at(
                            em2,
                            i,
                            j,
                            k,
                        )).makes_post_external_call_assignment implies spec_call_danger(
                        em2.contract_info[i].1.function_info[j].1,
                        spec_bm_at(em2, i, j, k),
                    ) by {
                        if i != ci {
                            assert(em2.contract_info[i] == em.contract_info[i]);
                            assert(spec_bm_at(em2, i, j, k) == spec_bm_at(em, i, j, k));
                        } else if j != cj {
                            assert(em2.contract_info[i].1.function_info[j]
                                == em.contract_info[i].1.function_info[j]);
                            assert(spec_bm_at(em2, i, j, k) == spec_bm_at(em, i, j, k));
                            assert(spec_block_path_valid(em, i, j, k));
                        } else if k < fm.block_info.len() {
                            assert(spec_bm_at(em2, i, j, k) == spec_bm_at(em, i, j, k));
                            assert(spec_block_path_valid(em, i, j, k));
                            let bm = spec_bm_at(em, i, j, k);
                            assert(spec_call_danger(fm, bm));
                            lemma_danger_preserved_by_push(fm, bm, (bid, bm_new));
                        } else {
                            assert(spec_bm_at(
                                em2,
                                i,
                                j,
                                k,
                            ).makes_post_external_call_assignment == false);
                        }
                    }
                }
            },
        },
    }
}

/// Appending a fresh block record cannot destroy an existing call-danger
/// witness.
proof fn lemma_danger_preserved_by_push(fm: FunctionModel, bm: BlockModel, e: (NodeID, BlockModel))
    requires
        spec_call_danger(fm, bm),
    ensures
        spec_call_danger(FunctionModel { block_info: fm.block_info.push(e) }, bm),
{
    if !bm.makes_external_call {
        let p = choose|p: int|
            0 <= p < bm.parent_blocks.len() && (match spec_assoc_get(
                fm.block_info,
                #[trigger] bm.parent_blocks[p],
            ) {
                Some(pm) => pm.makes_external_call,
                None => false,
            });
        lemma_assoc_get_push_present(fm.block_info, e, bm.parent_blocks[p]);
        assert(match spec_assoc_get(
            FunctionModel { block_info: fm.block_info.push(e) }.block_info,
            bm.parent_blocks[p],
        ) {
            Some(pm) => pm.makes_external_call,
            None => false,
        });
    }
}

/// Call danger survives replacing one block record, provided the
/// replacement's external-call flag is at least the old one's; stated for
/// any probing block whose chain is unchanged and whose own flag did not
/// drop.
proof fn lemma_danger_transfer(
    fm: FunctionModel,
    bid: NodeID,
    bm_new: BlockModel,
    probe: BlockModel,
    probe2: BlockModel,
)
    requires
        spec_assoc_get(fm.block_info, bid) is Some,
        spec_assoc_get(fm.block_info, bid)->Some_0.makes_external_call
            ==> bm_new.makes_external_call,
        probe2.parent_blocks == probe.parent_blocks,
        probe.makes_external_call ==> probe2.makes_external_call,
        spec_call_danger(fm, probe),
    ensures
        spec_call_danger(
            FunctionModel { block_info: spec_assoc_put(fm.block_info, bid, bm_new) },
            probe2,
        ),
{
    let fm2 = FunctionModel { block_info: spec_assoc_put(fm.block_info, bid, bm_new) };
    if !probe.makes_external_call {
        let p = choose|p: int|
            0 <= p < probe.parent_blocks.len() && (match spec_assoc_get(
                fm.block_info,
                #[trigger] probe.parent_blocks[p],
            ) {
                Some(pm) => pm.makes_external_call,
                None => false,
            });
        if probe.parent_blocks[p] == bid {
            lemma_assoc_get_put_same(fm.block_info, bid, bm_new);
        } else {
            lemma_assoc_get_put_other(fm.block_info, bid, bm_new, probe.parent_blocks[p]);
        }
        assert(match spec_assoc_get(fm2.block_info, probe2.parent_blocks[p]) {
            Some(pm) => pm.makes_external_call,
            None => false,
        });
    }
}

/// Replacing one block's record preserves the invariant whenever the new
/// record keeps the ancestor chain, never lowers the external-call flag, and
/// raises the violation flag only in call danger.
proof fn lemma_invariant_em_set_block(
    em: EffectsModel,
    cid: NodeID,
    fid: NodeID,
    bid: NodeID,
    bm_new: BlockModel,
)
    requires
        spec_flagged_implies_call_danger(em),
        spec_em_function(em, cid, fid) is Some,
        spec_assoc_get(spec_em_function(em, cid, fid)->Some_0.block_info, bid) is Some,
        ({
            let fm = spec_em_function(em, cid, fid)->Some_0;
            let bm_old = spec_assoc_get(fm.block_info, bid)->Some_0;
            &&& bm_new.parent_blocks == bm_old.parent_blocks
            &&& (bm_old.makes_external_call ==> bm_new.makes_external_call)
            &&& (bm_new.makes_post_external_call_assignment
                ==> bm_old.makes_post_external_call_assignment || spec_call_danger(fm, bm_old))
            &&& (bm_old.makes_post_external_call_assignment
                ==> bm_new.makes_post_external_call_assignment)
        }),
    ensures
        spec_flagged_implies_call_danger(spec_em_set_block(em, cid, fid, bid, bm_new)),
{
    let em2 = spec_em_set_block(em, cid, fid, bid, bm_new);
    let cm = spec_em_contract(em, cid)->Some_0;
    let fm = spec_em_function(em, cid, fid)->Some_0;
    let bm_old = spec_assoc_get(fm.block_info, bid)->Some_0;
    lemma_assoc_first_index(em.contract_info, cid);
    let ci = spec_assoc_first_index(em.contract_info, cid);
    lemma_assoc_first_index(cm.function_info, fid);
    let cj = spec_assoc_first_index(cm.function_info, fid);
    lemma_assoc_first_index(fm.block_info, bid);
    let ck = spec_assoc_first_index(fm.block_info, bid);
    let fm_new = FunctionModel { block_info: spec_assoc_put(fm.block_info, bid, bm_new) };
    let cm_new = ContractModel { function_info: spec_assoc_put(cm.function_info, fid, fm_new) };
    lemma_assoc_put_update(em.contract_info, cid, cm_new, ci);
    lemma_assoc_put_update(cm.function_info, fid, fm_new, cj);
    lemma_assoc_put_update(fm.block_info, bid, bm_new, ck);
    assert forall|i: int, j: int, k: int|
        spec_block_path_valid(em2, i, j, k) && (#[trigger] spec_bm_at(
            em2,
            i,
            j,
            k,
        )).makes_post_external_call_assignment implies spec_call_danger(
        em2.contract_info[i].1.function_info[j].1,
        spec_bm_at(em2, i, j, k),
    ) by {
        if i != ci {
            assert(em2.contract_info[i] == em.contract_info[i]);
            assert(spec_bm_at(em2, i, j, k) == spec_bm_at(em, i, j, k));
        } else if j != cj {
            assert(em2.contract_info[i].1.function_info[j]
                == em.contract_info[i].1.function_info[j]);
            assert(spec_bm_at(em2, i, j, k) == spec_bm_at(em, i, j, k));
            assert(spec_block_path_valid(em, i, j, k));
        } else {
            assert(em2.contract_info[i].1.function_info[j].1 == fm_new);
            assert(em.contract_info[i].1.function_info[j].1 == fm);
            if k != ck {
                assert(spec_bm_at(em2, i, j, k) == spec_bm_at(em, i, j, k));
                assert(spec_block_path_valid(em, i, j, k));
                let bm = spec_bm_at(em, i, j, k);
                assert(spec_call_danger(fm, bm));
                lemma_danger_transfer(fm, bid, bm_new, bm, bm);
            } else {
                assert(spec_bm_at(em2, i, j, k) == bm_new);
                assert(spec_bm_at(em, i, j, k) == bm_old);
                assert(spec_block_path_valid(em, i, j, k));
                if bm_old.makes_post_external_call_assignment {
                    assert(spec_call_danger(fm, bm_old));
                }
                lemma_danger_transfer(fm, bid, bm_new, bm_old, bm_new);
            }
        }
    }
}

/// An identifier or member-access event preserves the invariant: it can
/// only raise a block's external-call flag.
pub proof fn lemma_invariant_on_identifier_ref(
    em: EffectsModel,
    units: Seq<SourceUnit>,
    cid: NodeID,
    dn: ContractDefinitionNode,
    blocks: Seq<NodeID>,
    rid: NodeID,
)
    requires
        spec_flagged_implies_call_danger(em),
    ensures
        spec_flagged_implies_call_danger(
            spec_on_identifier_ref(em, units, cid, dn, blocks, rid),
        ),
{
    if blocks.len() != 0 {
        match spec_definition_id(dn) {
            None => {},
            Some(fid) => match spec_em_function(em, cid, fid) {
                None => {},
                Some(fm) => match spec_assoc_get(fm.block_info, blocks.last()) {
                    None => {},
                    Some(bm) => {
                        if !bm.makes_external_call && spec_is_external_function_reference(
                            units,
                            rid,
                        ) {
                            lemma_invariant_em_set_block(
                                em,
                                cid,
                                fid,
                                blocks.last(),
                                spec_with_flag(bm, false),
                            );
                        }
                    },
                },
            },
        }
    }
}

/// The reporting tail preserves the invariant: when it flags a block, the
/// scope was in call danger.
proof fn lemma_invariant_check_tail(
    em: EffectsModel,
    units: Seq<SourceUnit>,
    contract: ContractDefinition,
    fid: NodeID,
    bid: NodeID,
    refs: Seq<NodeID>,
    line: usize,
)
    requires
        spec_flagged_implies_call_danger(em),
        ({
            match spec_em_function(em, contract.id, fid) {
                Some(fm) => match spec_assoc_get(fm.block_info, bid) {
                    Some(bm) => spec_call_danger(fm, bm),
                    None => true,
                },
                None => true,
            }
        }),
    ensures
        spec_flagged_implies_call_danger(
            spec_check_tail(em, units, contract, fid, bid, refs, line),
        ),
{
    let em2 = spec_check_tail(em, units, contract, fid, bid, refs, line);
    match spec_em_function(em, contract.id, fid) {
        None => {},
        Some(fm) => {
            if spec_any_resolves(units, contract, fm, bid, refs) {
                match spec_assoc_get(fm.block_info, bid) {
                    None => {},
                    Some(bm) => {
                        lemma_invariant_em_set_block(
                            em,
                            contract.id,
                            fid,
                            bid,
                            spec_with_flag(bm, true),
                        );
                        let set = spec_em_set_block(
                            em,
                            contract.id,
                            fid,
                            bid,
                            spec_with_flag(bm, true),
                        );
                        assert(em2.contract_info == set.contract_info);
                        assert forall|i: int, j: int, k: int|
                            spec_block_path_valid(em2, i, j, k) && (#[trigger] spec_bm_at(
                                em2,
                                i,
                                j,
                                k,
                            )).makes_post_external_call_assignment implies spec_call_danger(
                            em2.contract_info[i].1.function_info[j].1,
                            spec_bm_at(em2, i, j, k),
                        ) by {
                            assert(spec_bm_at(em2, i, j, k) == spec_bm_at(set, i, j, k));
                        }
                    },
                }
            }
        },
    }
}

/// An assignment event preserves the invariant.
pub proof fn lemma_invariant_on_assignment(
    em: EffectsModel,
    units: Seq<SourceUnit>,
    su: SourceUnit,
    contract: ContractDefinition,
    dn: ContractDefinitionNode,
    blocks: Seq<NodeID>,
    assignment: Assignment,
    em2: EffectsModel,
)
    requires
        spec_flagged_implies_call_danger(em),
        spec_on_assignment(em, units, su, contract, dn, blocks, assignment) == Some(em2),
    ensures
        spec_flagged_implies_call_danger(em2),
{
    match spec_mutation_scope(em, contract.id, dn, blocks) {
        None => {},
        Some(scope) => {
            if !scope.2.makes_post_external_call_assignment && spec_call_danger(
                scope.1,
                scope.2,
            ) {
                match spec_source_line(su, spec_str_bytes(assignment.src@)) {
                    None => {},
                    Some(line) => {
                        lemma_invariant_check_tail(
                            em,
                            units,
                            contract,
                            scope.0,
                            blocks.last(),
                            spec_referenced_declarations(*assignment.left_hand_side),
                            line as usize,
                        );
                    },
                }
            }
        },
    }
}

/// An increment, decrement or delete-like event preserves the invariant.
pub proof fn lemma_invariant_on_unary_operation(
    em: EffectsModel,
    units: Seq<SourceUnit>,
    su: SourceUnit,
    contract: ContractDefinition,
    dn: ContractDefinitionNode,
    blocks: Seq<NodeID>,
    unary: UnaryOperation,
    em2: EffectsModel,
)
    requires
        spec_flagged_implies_call_danger(em),
        spec_on_unary_operation(em, units, su, contract, dn, blocks, unary) == Some(em2),
    ensures
        spec_flagged_implies_call_danger(em2),
{
    match spec_mutation_scope(em, contract.id, dn, blocks) {
        None => {},
        Some(scope) => {
            if !scope.2.makes_post_external_call_assignment && spec_call_danger(
                scope.1,
                scope.2,
            ) {
                match spec_source_line(su, spec_str_bytes(unary.src@)) {
                    None => {},
                    Some(line) => {
                        lemma_invariant_check_tail(
                            em,
                            units,
                            contract,
                            scope.0,
                            blocks.last(),
                            spec_referenced_declarations(*unary.sub_expression),
                            line as usize,
                        );
                    },
                }
            }
        },
    }
}

/// An array-mutator call event preserves the invariant.
pub proof fn lemma_invariant_on_function_call(
    em: EffectsModel,
    units: Seq<SourceUnit>,
    su: SourceUnit,
    contract: ContractDefinition,
    dn: ContractDefinitionNode,
    blocks: Seq<NodeID>,
    call: FunctionCall,
    em2: EffectsModel,
)
    requires
        spec_flagged_implies_call_danger(em),
        spec_on_function_call(em, units, su, contract, dn, blocks, call) == Some(em2),
    ensures
        spec_flagged_implies_call_danger(em2),
{
    match spec_mutation_scope(em, contract.id, dn, blocks) {
        None => {},
        Some(scope) => {
            if !scope.2.makes_post_external_call_assignment && spec_call_danger(
                scope.1,
                scope.2,
            ) {
                match *call.expression {
                    Expression::MemberAccess(ma) => {
                        if ma.referenced_declaration is None && (spec_str_bytes(ma.member_name@)
                            == spec_str_bytes("push"@) || spec_str_bytes(ma.member_name@)
                            == spec_str_bytes("pop"@)) {
                            match spec_source_line(su, spec_str_bytes(call.src@)) {
                                None => {},
                                Some(line) => {
                                    lemma_invariant_check_tail(
                                        em,
                                        units,
                                        contract,
                                        scope.0,
                                        blocks.last(),
                                        spec_referenced_declarations(*ma.expression),
                                        line as usize,
                                    );
                                },
                            }
                        }
                    },
                    _ => {},
                }
            }
        },
    }
}

/// Recording a storage alias preserves the invariant: it touches only the
/// bindings, which call danger never reads.
proof fn lemma_invariant_em_record(
    em: EffectsModel,
    cid: NodeID,
    fid: NodeID,
    bid: NodeID,
    sv: NodeID,
    local: NodeID,
)
    requires
        spec_flagged_implies_call_danger(em),
    ensures
        spec_flagged_implies_call_danger(spec_em_record(em, cid, fid, bid, sv, local)),
{
    match spec_em_block(em, cid, fid, bid) {
        None => {},
        Some(bm) => {
            lemma_invariant_em_set_block(em, cid, fid, bid, spec_with_binding(bm, sv, local));
        },
    }
}

proof fn lemma_invariant_record_tuple(
    em: EffectsModel,
    units: Seq<SourceUnit>,
    contract: ContractDefinition,
    fid: NodeID,
    bid: NodeID,
    components: Seq<Option<Expression>>,
    declarations: Seq<Option<VariableDeclaration>>,
    idx: int,
)
    requires
        spec_flagged_implies_call_danger(em),
    ensures
        spec_flagged_implies_call_danger(
            spec_record_tuple(em, units, contract, fid, bid, components, declarations, idx),
        ),
    decreases components.len() - idx,
{
    if 0 <= idx < components.len() {
        let em1 = spec_tuple_component_step(
            em,
            units,
            contract,
            fid,
            bid,
            components[idx],
            declarations[idx],
        );
        lemma_invariant_tuple_component(em, units, contract, fid, bid, components[idx], declarations[idx]);
        lemma_invariant_record_tuple(
            em1,
            units,
            contract,
            fid,
            bid,
            components,
            declarations,
            idx + 1,
        );
    }
}

proof fn lemma_invariant_tuple_component(
    em: EffectsModel,
    units: Seq<SourceUnit>,
    contract: ContractDefinition,
    fid: NodeID,
    bid: NodeID,
    component: Option<Expression>,
    declaration: Option<VariableDeclaration>,
)
    requires
        spec_flagged_implies_call_danger(em),
    ensures
        spec_flagged_implies_call_danger(
            spec_tuple_component_step(em, units, contract, fid, bid, component, declaration),
        ),
{
    match component {
        None => {},
        Some(comp) => match spec_root_expression(comp) {
            Some(Expression::Identifier(ident)) => match declaration {
                Some(vd) => {
                    if vd.storage_location == StorageLocation::Storage {
                        match spec_em_function(em, contract.id, fid) {
                            None => {},
                            Some(fm) => match spec_resolve_state_variable(
                                units,
                                contract,
                                fm,
                                bid,
                                ident.referenced_declaration,
                            ) {
                                None => {},
                                Some(sv) => {
                                    lemma_invariant_em_record(
                                        em,
                                        contract.id,
                                        fid,
                                        bid,
                                        sv,
                                        vd.id,
                                    );
                                },
                            },
                        }
                    }
                },
                None => {},
            },
            _ => {},
        },
    }
}

/// A declaration-statement event preserves the invariant.
pub proof fn lemma_invariant_on_variable_declaration_statement(
    em: EffectsModel,
    units: Seq<SourceUnit>,
    contract: ContractDefinition,
    dn: ContractDefinitionNode,
    blocks: Seq<NodeID>,
    vds: VariableDeclarationStatement,
    em2: EffectsModel,
)
    requires
        spec_flagged_implies_call_danger(em),
        spec_on_variable_declaration_statement(em, units, contract, dn, blocks, vds) == Some(em2),
    ensures
        spec_flagged_implies_call_danger(em2),
{
    if blocks.len() != 0 {
        match spec_definition_id(dn) {
            None => {},
            Some(fid) => match spec_em_function(em, contract.id, fid) {
                None => {},
                Some(fm) => match vds.initial_value {
                    None => {},
                    Some(iv) => match spec_root_expression(iv) {
                        Some(Expression::Identifier(ident)) => {
                            if vds.declarations@.len() == 1 {
                                match vds.declarations@[0] {
                                    Some(vd) => {
                                        if vd.storage_location == StorageLocation::Storage {
                                            match spec_resolve_state_variable(
                                                units,
                                                contract,
                                                fm,
                                                blocks.last(),
                                                ident.referenced_declaration,
                                            ) {
                                                None => {},
                                                Some(sv) => {
                                                    lemma_invariant_em_record(
                                                        em,
                                                        contract.id,
                                                        fid,
                                                        blocks.last(),
                                                        sv,
                                                        vd.id,
                                                    );
                                                },
                                            }
                                        }
                                    },
                                    None => {},
                                }
                            }
                        },
                        Some(Expression::TupleExpression(tuple)) => {
                            if tuple.components@.len() == vds.declarations@.len() {
                                lemma_invariant_record_tuple(
                                    em,
                                    units,
                                    contract,
                                    fid,
                                    blocks.last(),
                                    tuple.components@,
                                    vds.declarations@,
                                    0,
                                );
                            }
                        },
                        _ => {},
                    },
                },
            },
        }
    }
}

/// A member-access event preserves the invariant.
pub proof fn lemma_invariant_on_member_access(
    em: EffectsModel,
    units: Seq<SourceUnit>,
    cid: NodeID,
    dn: ContractDefinitionNode,
    blocks: Seq<NodeID>,
    rid: Option<NodeID>,
)
    requires
        spec_flagged_implies_call_danger(em),
    ensures
        spec_flagged_implies_call_danger(spec_on_member_access(em, units, cid, dn, blocks, rid)),
{
    match rid {
        None => {},
        Some(r) => {
            lemma_invariant_on_identifier_ref(em, units, cid, dn, blocks, r);
        },
    }
}

/// The invariant read back as the reported property: in any state a run can
/// reach, a block flagged as violating has an external call recorded on
/// itself or on an ancestor of its chain.
pub proof fn lemma_flagged_block_follows_a_call(em: EffectsModel, i: int, j: int, k: int)
    requires
        spec_flagged_implies_call_danger(em),
        spec_block_path_valid(em, i, j, k),
        spec_bm_at(em, i, j, k).makes_post_external_call_assignment,
    ensures
        spec_call_danger(em.contract_info[i].1.function_info[j].1, spec_bm_at(em, i, j, k)),
{
}

} // verus!
