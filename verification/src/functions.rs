//! Function and modifier definitions: the callable members of a contract,
//! their parameter lists, and the query that finds which of a function's
//! declared return variables an expression assigns to.
use vstd::prelude::*;

use crate::ast::{ContractDefinition, ContractDefinitionNode, NodeID, SourceUnit, StateMutability,
    VariableDeclaration, Visibility};
use crate::expressions::Expression;
use crate::statements::Block;

verus! {

#[derive(Clone, Copy, Debug, PartialEq, Eq, Structural)]
pub enum FunctionKind {
    Constructor,
    Function,
    Receive,
    Fallback,
}

pub struct ParameterList {
    pub parameters: Vec<VariableDeclaration>,
    pub src: String,
    pub id: NodeID,
}

pub struct OverrideSpecifier {
    pub overrides: Vec<String>,
    pub src: String,
    pub id: NodeID,
}

pub struct ModifierInvocation {
    pub arguments: Option<Vec<Expression>>,
    pub modifier_name: String,
    pub src: String,
    pub id: NodeID,
}

pub struct FunctionDefinition {
    pub base_functions: Option<Vec<NodeID>>,
    pub body: Option<Block>,
    pub documentation: Option<String>,
    pub function_selector: Option<String>,
    pub implemented: bool,
    pub kind: FunctionKind,
    pub modifiers: Vec<ModifierInvocation>,
    pub name: String,
    pub name_location: Option<String>,
    pub overrides: Option<OverrideSpecifier>,
    pub parameters: ParameterList,
    pub return_parameters: ParameterList,
    pub scope: NodeID,
    pub state_mutability: StateMutability,
    pub super_function: Option<NodeID>,
    pub is_virtual: Option<bool>,
    pub visibility: Visibility,
    pub src: String,
    pub id: NodeID,
}

pub struct ModifierDefinition {
    pub body: Option<Block>,
    pub documentation: Option<String>,
    pub name: String,
    pub overrides: Option<OverrideSpecifier>,
    pub parameters: ParameterList,
    pub is_virtual: Option<bool>,
    pub visibility: Visibility,
    pub src: String,
    pub id: NodeID,
}

/// Whether the parameter list declares a parameter with the given identity.
pub open spec fn spec_parameter_with_id(params: Seq<VariableDeclaration>, id: NodeID) -> bool {
    exists|i: int| 0 <= i < params.len() && params[i].id == id
}

/// The declared return variables of `f` that `e` assigns into: an identifier
/// counts when it resolves to a return parameter, and assignments, index and
/// member accesses are searched through their written-to side.
pub open spec fn spec_assigned_return_variables(f: FunctionDefinition, e: Expression) -> Seq<
    NodeID,
>
    decreases e,
{
    match e {
        Expression::Identifier(identifier) => {
            if spec_parameter_with_id(
                f.return_parameters.parameters@,
                identifier.referenced_declaration,
            ) {
                seq![identifier.referenced_declaration]
            } else {
                Seq::empty()
            }
        },
        Expression::Assignment(assignment) => spec_assigned_return_variables(
            f,
            *assignment.left_hand_side,
        ),
        Expression::IndexAccess(ia) => spec_assigned_return_variables(f, *ia.base_expression),
        Expression::IndexRangeAccess(ira) => spec_assigned_return_variables(
            f,
            *ira.base_expression,
        ),
        Expression::MemberAccess(ma) => spec_assigned_return_variables(f, *ma.expression),
        Expression::TupleExpression(tuple) => spec_assigned_return_variables_components(
            f,
            tuple.components@,
        ),
        _ => Seq::empty(),
    }
}

pub open spec fn spec_assigned_return_variables_components(
    f: FunctionDefinition,
    components: Seq<Option<Expression>>,
) -> Seq<NodeID>
    decreases components,
{
    if components.len() == 0 {
        Seq::empty()
    } else {
        (match components[0] {
            Some(component) => spec_assigned_return_variables(f, component),
            None => Seq::empty(),
        }) + spec_assigned_return_variables_components(f, components.skip(1))
    }
}

proof fn lemma_assigned_components_step(
    f: FunctionDefinition,
    components: Seq<Option<Expression>>,
    i: int,
)
    requires
        0 <= i < components.len(),
    ensures
        spec_assigned_return_variables_components(f, components.take(i + 1))
            == spec_assigned_return_variables_components(f, components.take(i)) + (
        match components[i] {
            Some(component) => spec_assigned_return_variables(f, component),
            None => Seq::<NodeID>::empty(),
        }),
    decreases i,
{
    let at = |j: int| match components[j] {
        Some(component) => spec_assigned_return_variables(f, component),
        None => Seq::<NodeID>::empty(),
    };
    if i == 0 {
        assert(components.take(1).skip(1) =~= Seq::<Option<Expression>>::empty());
        assert(components.take(1)[0] == components[0]);
        assert(components.take(0) =~= Seq::<Option<Expression>>::empty());
        assert(spec_assigned_return_variables_components(f, components.take(0)) + at(0) =~= at(0)
            + Seq::<NodeID>::empty());
    } else {
        lemma_assigned_components_step(f, components.skip(1), i - 1);
        assert(components.take(i + 1).skip(1) =~= components.skip(1).take(i));
        assert(components.take(i).skip(1) =~= components.skip(1).take(i - 1));
        assert(components.take(i + 1)[0] == components[0]);
        assert(components.take(i)[0] == components[0]);
        assert(components.skip(1)[i - 1] == components[i]);
        assert(spec_assigned_return_variables_components(f, components.take(i + 1))
            =~= spec_assigned_return_variables_components(f, components.take(i)) + at(i));
    }
}

impl ParameterList {
    /// Whether a parameter with the given identity is declared here.
    pub fn contains_parameter(&self, id: NodeID) -> (r: bool)
        ensures
            r == spec_parameter_with_id(self.parameters@, id),
    {
        let mut i: usize = 0;
        while i < self.parameters.len()
            invariant
                i <= self.parameters.len(),
                forall|j: int| 0 <= j < i ==> self.parameters@[j].id != id,
            decreases self.parameters.len() - i,
        {
            if self.parameters[i].id == id {
                return true;
            }
            i = i + 1;
        }
        false
    }
}

impl FunctionDefinition {
    /// The declared return variables of this function that `expression`
    /// assigns into.
    pub fn get_assigned_return_variables(&self, expression: &Expression) -> (r: Vec<NodeID>)
        ensures
            r@ == spec_assigned_return_variables(*self, *expression),
    {
        let mut out: Vec<NodeID> = Vec::new();
        self.collect_assigned_return_variables(expression, &mut out);
        out
    }

    fn collect_assigned_return_variables(&self, expression: &Expression, out: &mut Vec<NodeID>)
        ensures
            final(out)@ == old(out)@ + spec_assigned_return_variables(*self, *expression),
        decreases *expression,
    {
        match expression {
            Expression::Identifier(identifier) => {
                if self.return_parameters.contains_parameter(identifier.referenced_declaration) {
                    out.push(identifier.referenced_declaration);
                }
            },
            Expression::Assignment(assignment) => {
                self.collect_assigned_return_variables(&assignment.left_hand_side, out);
            },
            Expression::IndexAccess(ia) => {
                self.collect_assigned_return_variables(&ia.base_expression, out);
            },
            Expression::IndexRangeAccess(ira) => {
                self.collect_assigned_return_variables(&ira.base_expression, out);
            },
            Expression::MemberAccess(ma) => {
                self.collect_assigned_return_variables(&ma.expression, out);
            },
            Expression::TupleExpression(tuple) => {
                let ghost orig = out@;
                let mut i: usize = 0;
                while i < tuple.components.len()
                    invariant
                        i <= tuple.components.len(),
                        *expression == Expression::TupleExpression(*tuple),
                        out@ == orig + spec_assigned_return_variables_components(
                            *self,
                            tuple.components@.take(i as int),
                        ),
                    decreases tuple.components.len() - i,
                {
                    proof {
                        lemma_assigned_components_step(*self, tuple.components@, i as int);
                    }
                    match &tuple.components[i] {
                        Some(component) => {
                            proof {
                                assert(decreases_to!(*expression => *component)) by {
                                    assert(expression->TupleExpression_0 == *tuple);
                                    assert(decreases_to!(
                                        *expression => expression->TupleExpression_0));
                                    assert(decreases_to!(*tuple => tuple.components));
                                    assert(decreases_to!(tuple.components => tuple.components@));
                                    assert(decreases_to!(
                                        tuple.components@ => tuple.components@[i as int]));
                                    assert(tuple.components@[i as int] == Some(*component));
                                    assert(decreases_to!(
                                        tuple.components@[i as int] => *component));
                                }
                            }
                            self.collect_assigned_return_variables(component, out);
                        },
                        None => {},
                    }
                    i = i + 1;
                }
                proof {
                    assert(tuple.components@.take(tuple.components@.len() as int)
                        =~= tuple.components@);
                }
            },
            _ => {},
        }
    }
}

pub struct FunctionDefinitionContext<'a> {
    pub source_units: &'a Vec<SourceUnit>,
    pub current_source_unit: &'a SourceUnit,
    pub contract_definition: &'a ContractDefinition,
    pub definition_node: &'a ContractDefinitionNode,
    pub function_definition: &'a FunctionDefinition,
}

pub struct ModifierDefinitionContext<'a> {
    pub source_units: &'a Vec<SourceUnit>,
    pub current_source_unit: &'a SourceUnit,
    pub contract_definition: &'a ContractDefinition,
    pub definition_node: &'a ContractDefinitionNode,
    pub modifier_definition: &'a ModifierDefinition,
}

} // verus!
