//! The resolved abstract syntax tree that the analyses walk: node identities,
//! declarations, contracts and source units, together with the lookup
//! operations the passes rely on (declaration search across source units and
//! offset-to-line recovery from span markers).
use vstd::prelude::*;
use vstd::string::StringSliceAdditionalSpecFns;

use crate::functions::{FunctionDefinition, ModifierDefinition};
use crate::text::{parse_span_offset, spec_span_offset};

verus! {

/// Identity assigned to every node by the upstream compiler; unique within a
/// compilation and the only safe way to refer to "the same declaration".
pub type NodeID = i64;

/// Node categories that the tree keeps only to skip over.
#[derive(Clone, Copy, Debug, PartialEq, Eq, Structural)]
pub enum NodeType {
    PlaceholderStatement,
    Break,
    Continue,
    Other,
}

/// Where a declared variable lives.
#[derive(Clone, Copy, Debug, PartialEq, Eq, Structural)]
pub enum StorageLocation {
    Default,
    Storage,
    Memory,
    CallData,
}

/// Declared visibility of a function, modifier or state variable.
#[derive(Clone, Copy, Debug, PartialEq, Eq, Structural)]
pub enum Visibility {
    External,
    Public,
    Internal,
    Private,
}

/// Mutability a function declares towards the contract state.
#[derive(Clone, Copy, Debug, PartialEq, Eq, Structural)]
pub enum StateMutability {
    NonPayable,
    Payable,
    View,
    Pure,
}

/// What a contract-level definition is.
#[derive(Clone, Copy, Debug, PartialEq, Eq, Structural)]
pub enum ContractKind {
    Contract,
    Interface,
    Library,
}

/// The failures an analysis run can abort with.
#[derive(Clone, Copy, Debug, PartialEq, Eq, Structural)]
pub enum AnalysisError {
    /// A node's span marker could not be read back as a byte offset.
    InvalidSourceSpan,
    /// The tree violated a structural invariant the upstream compiler
    /// guarantees, such as mismatched declaration and component counts.
    MalformedTree,
}

/// A variable declaration: a state variable when it stands directly among a
/// contract's members, a local otherwise.
pub struct VariableDeclaration {
    pub constant: bool,
    pub name: String,
    pub state_variable: bool,
    pub storage_location: StorageLocation,
    pub visibility: Visibility,
    pub src: String,
    pub id: NodeID,
}

/// A member of a contract; the analyses care about the function, modifier and
/// state-variable members and skip the rest.
pub enum ContractDefinitionNode {
    FunctionDefinition(FunctionDefinition),
    ModifierDefinition(ModifierDefinition),
    VariableDeclaration(VariableDeclaration),
    UnhandledNode { node_type: NodeType, src: Option<String>, id: Option<NodeID> },
}

/// A named contract, interface or library with its members and its declared
/// inheritance order (most derived first, the contract itself included).
pub struct ContractDefinition {
    pub name: String,
    pub kind: ContractKind,
    pub linearized_base_contracts: Vec<NodeID>,
    pub nodes: Vec<ContractDefinitionNode>,
    pub scope: NodeID,
    pub src: String,
    pub id: NodeID,
}

/// One compiled file: its contracts, and the byte offset at which each source
/// line starts, kept so span markers can be mapped back to 1-based lines.
pub struct SourceUnit {
    pub absolute_path: Option<String>,
    pub line_starts: Vec<usize>,
    pub contracts: Vec<ContractDefinition>,
    pub src: String,
    pub id: NodeID,
}

/// The first function member with the given identity, if any.
pub open spec fn spec_function_in_nodes(nodes: Seq<ContractDefinitionNode>, id: NodeID) -> Option<
    FunctionDefinition,
>
    decreases nodes.len(),
{
    if nodes.len() == 0 {
        None
    } else {
        match nodes[0] {
            ContractDefinitionNode::FunctionDefinition(f) => {
                if f.id == id {
                    Some(f)
                } else {
                    spec_function_in_nodes(nodes.skip(1), id)
                }
            },
            _ => spec_function_in_nodes(nodes.skip(1), id),
        }
    }
}

/// The first variable member with the given identity, if any.
pub open spec fn spec_variable_in_nodes(nodes: Seq<ContractDefinitionNode>, id: NodeID) -> Option<
    VariableDeclaration,
>
    decreases nodes.len(),
{
    if nodes.len() == 0 {
        None
    } else {
        match nodes[0] {
            ContractDefinitionNode::VariableDeclaration(v) => {
                if v.id == id {
                    Some(v)
                } else {
                    spec_variable_in_nodes(nodes.skip(1), id)
                }
            },
            _ => spec_variable_in_nodes(nodes.skip(1), id),
        }
    }
}

/// The first contract in the list that declares a function with the given
/// identity, paired with that function.
pub open spec fn spec_function_and_contract_in_contracts(
    contracts: Seq<ContractDefinition>,
    id: NodeID,
) -> Option<(ContractDefinition, FunctionDefinition)>
    decreases contracts.len(),
{
    if contracts.len() == 0 {
        None
    } else {
        match spec_function_in_nodes(contracts[0].nodes@, id) {
            Some(f) => Some((contracts[0], f)),
            None => spec_function_and_contract_in_contracts(contracts.skip(1), id),
        }
    }
}

/// The first contract in the list with the given identity, if any.
pub open spec fn spec_contract_in_contracts(
    contracts: Seq<ContractDefinition>,
    id: NodeID,
) -> Option<ContractDefinition>
    decreases contracts.len(),
{
    if contracts.len() == 0 {
        None
    } else if contracts[0].id == id {
        Some(contracts[0])
    } else {
        spec_contract_in_contracts(contracts.skip(1), id)
    }
}

pub open spec fn spec_su_function_and_contract(su: SourceUnit, id: NodeID) -> Option<
    (ContractDefinition, FunctionDefinition),
> {
    spec_function_and_contract_in_contracts(su.contracts@, id)
}

pub open spec fn spec_su_function_definition(su: SourceUnit, id: NodeID) -> Option<
    FunctionDefinition,
> {
    match spec_su_function_and_contract(su, id) {
        Some(pair) => Some(pair.1),
        None => None,
    }
}

/// The first contract with the given identity across the source units, in
/// unit order.
pub open spec fn spec_find_contract(units: Seq<SourceUnit>, id: NodeID) -> Option<
    ContractDefinition,
>
    decreases units.len(),
{
    if units.len() == 0 {
        None
    } else {
        match spec_contract_in_contracts(units[0].contracts@, id) {
            Some(c) => Some(c),
            None => spec_find_contract(units.skip(1), id),
        }
    }
}

/// The first function definition with the given identity across the source
/// units, paired with its owning contract, in unit order.
pub open spec fn spec_find_function_and_contract(units: Seq<SourceUnit>, id: NodeID) -> Option<
    (ContractDefinition, FunctionDefinition),
>
    decreases units.len(),
{
    if units.len() == 0 {
        None
    } else {
        match spec_su_function_and_contract(units[0], id) {
            Some(pair) => Some(pair),
            None => spec_find_function_and_contract(units.skip(1), id),
        }
    }
}

/// Whether the identity resolves, in some source unit, to a function declared
/// with external visibility: the mark of a call that leaves the current
/// execution context.
pub open spec fn spec_is_external_function_reference(units: Seq<SourceUnit>, id: NodeID) -> bool {
    exists|i: int|
        0 <= i < units.len() && (match spec_su_function_definition(#[trigger] units[i], id) {
            Some(f) => f.visibility == Visibility::External,
            None => false,
        })
}

/// Whether the base contract with identity `base` declares a variable with
/// identity `id` among its members.
pub open spec fn spec_base_declares_variable(
    units: Seq<SourceUnit>,
    base: NodeID,
    id: NodeID,
) -> bool {
    match spec_find_contract(units, base) {
        Some(b) => spec_variable_in_nodes(b.nodes@, id) is Some,
        None => false,
    }
}

/// Whether the identity names a state variable declared anywhere in the
/// contract's linearized inheritance hierarchy.
pub open spec fn spec_hierarchy_contains_state_variable(
    units: Seq<SourceUnit>,
    contract: ContractDefinition,
    id: NodeID,
) -> bool {
    exists|k: int|
        0 <= k < contract.linearized_base_contracts@.len() && spec_base_declares_variable(
            units,
            #[trigger] contract.linearized_base_contracts@[k],
            id,
        )
}

/// How many recorded line starts lie at or before the offset: the 1-based
/// line number when the offsets are the starts of lines 1, 2, ... in order.
pub open spec fn spec_line_number(starts: Seq<usize>, offset: usize) -> int
    decreases starts.len(),
{
    if starts.len() == 0 {
        0
    } else {
        spec_line_number(starts.drop_last(), offset) + (if starts.last() <= offset {
            1int
        } else {
            0int
        })
    }
}

/// The line a span marker points at, when its byte offset can be read back.
pub open spec fn spec_source_line(su: SourceUnit, src: Seq<u8>) -> Option<int> {
    match spec_span_offset(src) {
        Some(offset) => Some(spec_line_number(su.line_starts@, offset as usize)),
        None => None,
    }
}

/// The identity of the function or modifier a definition node is, if it is
/// one.
pub open spec fn spec_definition_id(dn: ContractDefinitionNode) -> Option<NodeID> {
    match dn {
        ContractDefinitionNode::FunctionDefinition(f) => Some(f.id),
        ContractDefinitionNode::ModifierDefinition(m) => Some(m.id),
        _ => None,
    }
}

/// The identity of the function or modifier this definition node is, if it
/// is one.
pub fn definition_id(dn: &ContractDefinitionNode) -> (r: Option<NodeID>)
    ensures
        r == spec_definition_id(*dn),
{
    match dn {
        ContractDefinitionNode::FunctionDefinition(f) => Some(f.id),
        ContractDefinitionNode::ModifierDefinition(m) => Some(m.id),
        _ => None,
    }
}

impl ContractDefinition {
    /// Finds the function member with the given identity.
    pub fn function_definition(&self, id: NodeID) -> (r: Option<&FunctionDefinition>)
        ensures
            match r {
                Some(f) => spec_function_in_nodes(self.nodes@, id) == Some(*f),
                None => spec_function_in_nodes(self.nodes@, id) is None,
            },
    {
        let mut i: usize = 0;
        proof {
            assert(self.nodes@.skip(0) =~= self.nodes@);
        }
        while i < self.nodes.len()
            invariant
                i <= self.nodes.len(),
                spec_function_in_nodes(self.nodes@, id) == spec_function_in_nodes(
                    self.nodes@.skip(i as int),
                    id,
                ),
            decreases self.nodes.len() - i,
        {
            proof {
                assert(self.nodes@.skip(i as int)[0] == self.nodes@[i as int]);
                assert(self.nodes@.skip(i as int).skip(1) =~= self.nodes@.skip(i as int + 1));
            }
            match &self.nodes[i] {
                ContractDefinitionNode::FunctionDefinition(f) => {
                    if f.id == id {
                        return Some(f);
                    }
                },
                _ => {},
            }
            i = i + 1;
        }
        proof {
            assert(self.nodes@.skip(self.nodes@.len() as int)
                =~= Seq::<ContractDefinitionNode>::empty());
        }
        None
    }

    /// Finds the variable member with the given identity.
    pub fn variable_declaration(&self, id: NodeID) -> (r: Option<&VariableDeclaration>)
        ensures
            match r {
                Some(v) => spec_variable_in_nodes(self.nodes@, id) == Some(*v),
                None => spec_variable_in_nodes(self.nodes@, id) is None,
            },
    {
        let mut i: usize = 0;
        proof {
            assert(self.nodes@.skip(0) =~= self.nodes@);
        }
        while i < self.nodes.len()
            invariant
                i <= self.nodes.len(),
                spec_variable_in_nodes(self.nodes@, id) == spec_variable_in_nodes(
                    self.nodes@.skip(i as int),
                    id,
                ),
            decreases self.nodes.len() - i,
        {
            proof {
                assert(self.nodes@.skip(i as int)[0] == self.nodes@[i as int]);
                assert(self.nodes@.skip(i as int).skip(1) =~= self.nodes@.skip(i as int + 1));
            }
            match &self.nodes[i] {
                ContractDefinitionNode::VariableDeclaration(v) => {
                    if v.id == id {
                        return Some(v);
                    }
                },
                _ => {},
            }
            i = i + 1;
        }
        proof {
            assert(self.nodes@.skip(self.nodes@.len() as int)
                =~= Seq::<ContractDefinitionNode>::empty());
        }
        None
    }

    /// Whether the identity names a state variable anywhere in this
    /// contract's linearized inheritance hierarchy, searched across all
    /// source units.
    pub fn hierarchy_contains_state_variable(
        &self,
        source_units: &Vec<SourceUnit>,
        id: NodeID,
    ) -> (r: bool)
        ensures
            r == spec_hierarchy_contains_state_variable(source_units@, *self, id),
    {
        let mut k: usize = 0;
        while k < self.linearized_base_contracts.len()
            invariant
                k <= self.linearized_base_contracts.len(),
                forall|j: int|
                    0 <= j < k ==> !spec_base_declares_variable(
                        source_units@,
                        #[trigger] self.linearized_base_contracts@[j],
                        id,
                    ),
            decreases self.linearized_base_contracts.len() - k,
        {
            let base = self.linearized_base_contracts[k];
            match find_contract_definition(source_units, base) {
                Some(b) => {
                    if b.variable_declaration(id).is_some() {
                        return true;
                    }
                },
                None => {},
            }
            k = k + 1;
        }
        false
    }
}

impl SourceUnit {
    /// Finds the function definition with the given identity among this
    /// unit's contracts, paired with its owning contract.
    pub fn function_and_contract_definition(&self, id: NodeID) -> (r: Option<
        (&ContractDefinition, &FunctionDefinition),
    >)
        ensures
            match r {
                Some(pair) => spec_su_function_and_contract(*self, id) == Some(
                    (*pair.0, *pair.1),
                ),
                None => spec_su_function_and_contract(*self, id) is None,
            },
    {
        let mut i: usize = 0;
        proof {
            assert(self.contracts@.skip(0) =~= self.contracts@);
        }
        while i < self.contracts.len()
            invariant
                i <= self.contracts.len(),
                spec_function_and_contract_in_contracts(self.contracts@, id)
                    == spec_function_and_contract_in_contracts(
                    self.contracts@.skip(i as int),
                    id,
                ),
            decreases self.contracts.len() - i,
        {
            proof {
                assert(self.contracts@.skip(i as int)[0] == self.contracts@[i as int]);
                assert(self.contracts@.skip(i as int).skip(1) =~= self.contracts@.skip(
                    i as int + 1,
                ));
            }
            let contract = &self.contracts[i];
            match contract.function_definition(id) {
                Some(f) => {
                    return Some((contract, f));
                },
                None => {},
            }
            i = i + 1;
        }
        proof {
            assert(self.contracts@.skip(self.contracts@.len() as int)
                =~= Seq::<ContractDefinition>::empty());
        }
        None
    }

    /// Finds the function definition with the given identity among this
    /// unit's contracts.
    pub fn function_definition(&self, id: NodeID) -> (r: Option<&FunctionDefinition>)
        ensures
            match r {
                Some(f) => spec_su_function_definition(*self, id) == Some(*f),
                None => spec_su_function_definition(*self, id) is None,
            },
    {
        match self.function_and_contract_definition(id) {
            Some(pair) => Some(pair.1),
            None => None,
        }
    }

    /// Finds the contract with the given identity in this unit.
    pub fn contract_definition(&self, id: NodeID) -> (r: Option<&ContractDefinition>)
        ensures
            match r {
                Some(c) => spec_contract_in_contracts(self.contracts@, id) == Some(*c),
                None => spec_contract_in_contracts(self.contracts@, id) is None,
            },
    {
        let mut i: usize = 0;
        proof {
            assert(self.contracts@.skip(0) =~= self.contracts@);
        }
        while i < self.contracts.len()
            invariant
                i <= self.contracts.len(),
                spec_contract_in_contracts(self.contracts@, id) == spec_contract_in_contracts(
                    self.contracts@.skip(i as int),
                    id,
                ),
            decreases self.contracts.len() - i,
        {
            proof {
                assert(self.contracts@.skip(i as int)[0] == self.contracts@[i as int]);
                assert(self.contracts@.skip(i as int).skip(1) =~= self.contracts@.skip(
                    i as int + 1,
                ));
            }
            if self.contracts[i].id == id {
                return Some(&self.contracts[i]);
            }
            i = i + 1;
        }
        proof {
            assert(self.contracts@.skip(self.contracts@.len() as int)
                =~= Seq::<ContractDefinition>::empty());
        }
        None
    }

    /// Maps a node's span marker to the 1-based source line it starts on;
    /// fails when the marker's byte offset cannot be read back.
    pub fn source_line(&self, src: &str) -> (r: Result<usize, AnalysisError>)
        ensures
            match r {
                Ok(line) => spec_source_line(*self, src.spec_bytes()) == Some(line as int),
                Err(e) => spec_source_line(*self, src.spec_bytes()) is None && e
                    == AnalysisError::InvalidSourceSpan,
            },
    {
        let offset = match parse_span_offset(src) {
            Some(offset) => offset,
            None => {
                return Err(AnalysisError::InvalidSourceSpan);
            },
        };
        let mut line: usize = 0;
        let mut i: usize = 0;
        while i < self.line_starts.len()
            invariant
                i <= self.line_starts.len(),
                line == spec_line_number(self.line_starts@.take(i as int), offset),
                line <= i,
            decreases self.line_starts.len() - i,
        {
            proof {
                assert(self.line_starts@.take(i as int + 1).drop_last() =~= self.line_starts@.take(
                    i as int,
                ));
                assert(self.line_starts@.take(i as int + 1).last() == self.line_starts@[i as int]);
            }
            if self.line_starts[i] <= offset {
                line = line + 1;
            }
            i = i + 1;
        }
        proof {
            assert(self.line_starts@.take(self.line_starts@.len() as int) =~= self.line_starts@);
        }
        Ok(line)
    }
}

/// Finds the contract with the given identity across all source units.
pub fn find_contract_definition(units: &Vec<SourceUnit>, id: NodeID) -> (r: Option<
    &ContractDefinition,
>)
    ensures
        match r {
            Some(c) => spec_find_contract(units@, id) == Some(*c),
            None => spec_find_contract(units@, id) is None,
        },
{
    let mut i: usize = 0;
    proof {
        assert(units@.skip(0) =~= units@);
    }
    while i < units.len()
        invariant
            i <= units.len(),
            spec_find_contract(units@, id) == spec_find_contract(units@.skip(i as int), id),
        decreases units.len() - i,
    {
        proof {
            assert(units@.skip(i as int)[0] == units@[i as int]);
            assert(units@.skip(i as int).skip(1) =~= units@.skip(i as int + 1));
        }
        match units[i].contract_definition(id) {
            Some(c) => {
                return Some(c);
            },
            None => {},
        }
        i = i + 1;
    }
    proof {
        assert(units@.skip(units@.len() as int) =~= Seq::<SourceUnit>::empty());
    }
    None
}

/// Finds the function definition with the given identity across all source
/// units, paired with its owning contract.
pub fn find_function_and_contract(units: &Vec<SourceUnit>, id: NodeID) -> (r: Option<
    (&ContractDefinition, &FunctionDefinition),
>)
    ensures
        match r {
            Some(pair) => spec_find_function_and_contract(units@, id) == Some((*pair.0, *pair.1)),
            None => spec_find_function_and_contract(units@, id) is None,
        },
{
    let mut i: usize = 0;
    proof {
        assert(units@.skip(0) =~= units@);
    }
    while i < units.len()
        invariant
            i <= units.len(),
            spec_find_function_and_contract(units@, id) == spec_find_function_and_contract(
                units@.skip(i as int),
                id,
            ),
        decreases units.len() - i,
    {
        proof {
            assert(units@.skip(i as int)[0] == units@[i as int]);
            assert(units@.skip(i as int).skip(1) =~= units@.skip(i as int + 1));
        }
        match units[i].function_and_contract_definition(id) {
            Some(pair) => {
                return Some(pair);
            },
            None => {},
        }
        i = i + 1;
    }
    proof {
        assert(units@.skip(units@.len() as int) =~= Seq::<SourceUnit>::empty());
    }
    None
}

/// Whether the identity resolves, in some source unit, to a function declared
/// with external visibility.
pub fn is_external_function_reference(units: &Vec<SourceUnit>, id: NodeID) -> (r: bool)
    ensures
        r == spec_is_external_function_reference(units@, id),
{
    let mut i: usize = 0;
    while i < units.len()
        invariant
            i <= units.len(),
            forall|j: int|
                0 <= j < i ==> !(match spec_su_function_definition(#[trigger] units@[j], id) {
                    Some(f) => f.visibility == Visibility::External,
                    None => false,
                }),
        decreases units.len() - i,
    {
        match units[i].function_definition(id) {
            Some(f) => {
                if f.visibility == Visibility::External {
                    return true;
                }
            },
            None => {},
        }
        i = i + 1;
    }
    false
}

} // verus!
