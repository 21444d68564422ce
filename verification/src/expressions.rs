//! Expression nodes and the two queries the analyses ask of an expression:
//! the set of declarations it references, in left-to-right textual order, and
//! the root expression left after stripping index and call-option wrappers.
use vstd::prelude::*;

use crate::ast::NodeID;

verus! {

pub struct Identifier {
    pub name: String,
    pub referenced_declaration: NodeID,
    pub src: String,
    pub id: NodeID,
}

pub struct MemberAccess {
    pub expression: Box<Expression>,
    pub member_name: String,
    pub referenced_declaration: Option<NodeID>,
    pub src: String,
    pub id: NodeID,
}

pub struct Assignment {
    pub left_hand_side: Box<Expression>,
    pub operator: String,
    pub right_hand_side: Box<Expression>,
    pub src: String,
    pub id: NodeID,
}

pub struct UnaryOperation {
    pub operator: String,
    pub prefix: bool,
    pub sub_expression: Box<Expression>,
    pub src: String,
    pub id: NodeID,
}

pub struct BinaryOperation {
    pub left_expression: Box<Expression>,
    pub operator: String,
    pub right_expression: Box<Expression>,
    pub src: String,
    pub id: NodeID,
}

pub struct Conditional {
    pub condition: Box<Expression>,
    pub true_expression: Box<Expression>,
    pub false_expression: Box<Expression>,
    pub src: String,
    pub id: NodeID,
}

pub struct FunctionCall {
    pub arguments: Vec<Expression>,
    pub expression: Box<Expression>,
    pub src: String,
    pub id: NodeID,
}

pub struct FunctionCallOptions {
    pub expression: Box<Expression>,
    pub names: Vec<String>,
    pub options: Vec<Expression>,
    pub src: String,
    pub id: NodeID,
}

pub struct IndexAccess {
    pub base_expression: Box<Expression>,
    pub index_expression: Option<Box<Expression>>,
    pub src: String,
    pub id: NodeID,
}

pub struct IndexRangeAccess {
    pub base_expression: Box<Expression>,
    pub start_expression: Option<Box<Expression>>,
    pub end_expression: Option<Box<Expression>>,
    pub src: String,
    pub id: NodeID,
}

pub struct Literal {
    pub value: Option<String>,
    pub src: String,
    pub id: NodeID,
}

pub struct TupleExpression {
    pub components: Vec<Option<Expression>>,
    pub src: String,
    pub id: NodeID,
}

/// The tagged union of expression shapes the analyses recognise, with a
/// catch-all variant that carries just enough to skip over an unknown node.
pub enum Expression {
    Literal(Literal),
    Identifier(Identifier),
    UnaryOperation(UnaryOperation),
    BinaryOperation(BinaryOperation),
    Conditional(Conditional),
    Assignment(Assignment),
    FunctionCall(FunctionCall),
    FunctionCallOptions(FunctionCallOptions),
    IndexAccess(IndexAccess),
    IndexRangeAccess(IndexRangeAccess),
    MemberAccess(MemberAccess),
    TupleExpression(TupleExpression),
    UnhandledExpression { node_type: String, src: Option<String>, id: Option<NodeID> },
}

/// The base expression left after stripping index-access, index-range-access
/// and call-option wrappers; identifiers, member accesses and tuples are
/// themselves roots, every other shape has none.
pub open spec fn spec_root_expression(e: Expression) -> Option<Expression>
    decreases e,
{
    match e {
        Expression::Identifier(_) => Some(e),
        Expression::MemberAccess(_) => Some(e),
        Expression::TupleExpression(_) => Some(e),
        Expression::IndexAccess(ia) => spec_root_expression(*ia.base_expression),
        Expression::IndexRangeAccess(ira) => spec_root_expression(*ira.base_expression),
        Expression::FunctionCallOptions(fco) => spec_root_expression(*fco.expression),
        _ => None,
    }
}

/// Every declaration the expression references, in left-to-right textual
/// order; a member access lists its base expression's references before its
/// own resolved member.
pub open spec fn spec_referenced_declarations(e: Expression) -> Seq<NodeID>
    decreases e,
{
    match e {
        Expression::Literal(_) => Seq::empty(),
        Expression::Identifier(identifier) => seq![identifier.referenced_declaration],
        Expression::UnaryOperation(unary) => spec_referenced_declarations(
            *unary.sub_expression,
        ),
        Expression::BinaryOperation(binary) => spec_referenced_declarations(
            *binary.left_expression,
        ) + spec_referenced_declarations(*binary.right_expression),
        Expression::Conditional(cond) => spec_referenced_declarations(*cond.condition)
            + spec_referenced_declarations(*cond.true_expression)
            + spec_referenced_declarations(*cond.false_expression),
        Expression::Assignment(assignment) => spec_referenced_declarations(
            *assignment.left_hand_side,
        ) + spec_referenced_declarations(*assignment.right_hand_side),
        Expression::FunctionCall(call) => spec_referenced_declarations(*call.expression)
            + spec_referenced_declarations_seq(call.arguments@),
        Expression::FunctionCallOptions(fco) => spec_referenced_declarations(*fco.expression)
            + spec_referenced_declarations_seq(fco.options@),
        Expression::IndexAccess(ia) => spec_referenced_declarations(*ia.base_expression)
            + (match ia.index_expression {
                Some(index) => spec_referenced_declarations(*index),
                None => Seq::empty(),
            }),
        Expression::IndexRangeAccess(ira) => spec_referenced_declarations(*ira.base_expression)
            + (match ira.start_expression {
                Some(start) => spec_referenced_declarations(*start),
                None => Seq::empty(),
            }) + (match ira.end_expression {
                Some(end) => spec_referenced_declarations(*end),
                None => Seq::empty(),
            }),
        Expression::MemberAccess(ma) => spec_referenced_declarations(*ma.expression)
            + (match ma.referenced_declaration {
                Some(id) => seq![id],
                None => Seq::empty(),
            }),
        Expression::TupleExpression(tuple) => spec_referenced_declarations_opt_seq(
            tuple.components@,
        ),
        Expression::UnhandledExpression { .. } => Seq::empty(),
    }
}

pub open spec fn spec_referenced_declarations_seq(es: Seq<Expression>) -> Seq<NodeID>
    decreases es,
{
    if es.len() == 0 {
        Seq::empty()
    } else {
        spec_referenced_declarations(es[0]) + spec_referenced_declarations_seq(es.skip(1))
    }
}

pub open spec fn spec_referenced_declarations_opt_seq(es: Seq<Option<Expression>>) -> Seq<NodeID>
    decreases es,
{
    if es.len() == 0 {
        Seq::empty()
    } else {
        (match es[0] {
            Some(e) => spec_referenced_declarations(e),
            None => Seq::empty(),
        }) + spec_referenced_declarations_opt_seq(es.skip(1))
    }
}

proof fn lemma_refs_seq_step(es: Seq<Expression>, i: int)
    requires
        0 <= i < es.len(),
    ensures
        spec_referenced_declarations_seq(es.take(i + 1)) == spec_referenced_declarations_seq(
            es.take(i),
        ) + spec_referenced_declarations(es[i]),
    decreases i,
{
    if i == 0 {
        assert(es.take(1).skip(1) =~= Seq::<Expression>::empty());
        assert(es.take(1)[0] == es[0]);
        assert(es.take(0) =~= Seq::<Expression>::empty());
        assert(spec_referenced_declarations_seq(Seq::<Expression>::empty())
            == Seq::<NodeID>::empty());
        assert(spec_referenced_declarations_seq(es.take(1)) == spec_referenced_declarations(
            es[0],
        ) + Seq::<NodeID>::empty());
        assert(spec_referenced_declarations_seq(es.take(0)) + spec_referenced_declarations(es[0])
            =~= spec_referenced_declarations_seq(es.take(1)));
    } else {
        lemma_refs_seq_step(es.skip(1), i - 1);
        assert(es.take(i + 1).skip(1) =~= es.skip(1).take(i));
        assert(es.take(i).skip(1) =~= es.skip(1).take(i - 1));
        assert(es.take(i + 1)[0] == es[0]);
        assert(es.take(i)[0] == es[0]);
        assert(es.skip(1)[i - 1] == es[i]);
        assert(spec_referenced_declarations_seq(es.take(i + 1))
            == spec_referenced_declarations_seq(es.take(i)) + spec_referenced_declarations(es[i]))
            by {
            assert(spec_referenced_declarations(es.take(i + 1)[0])
                + spec_referenced_declarations_seq(es.skip(1).take(i))
                =~= spec_referenced_declarations(es.take(i)[0]) + (
            spec_referenced_declarations_seq(es.skip(1).take(i - 1))
                + spec_referenced_declarations(es[i])));
        }
    }
}

proof fn lemma_refs_opt_seq_step(es: Seq<Option<Expression>>, i: int)
    requires
        0 <= i < es.len(),
    ensures
        spec_referenced_declarations_opt_seq(es.take(i + 1))
            == spec_referenced_declarations_opt_seq(es.take(i)) + (match es[i] {
            Some(e) => spec_referenced_declarations(e),
            None => Seq::<NodeID>::empty(),
        }),
    decreases i,
{
    let refs_at = |j: int| match es[j] {
        Some(e) => spec_referenced_declarations(e),
        None => Seq::<NodeID>::empty(),
    };
    if i == 0 {
        assert(es.take(1).skip(1) =~= Seq::<Option<Expression>>::empty());
        assert(es.take(1)[0] == es[0]);
        assert(es.take(0) =~= Seq::<Option<Expression>>::empty());
        assert(spec_referenced_declarations_opt_seq(es.take(0)) + refs_at(0) =~= refs_at(0)
            + Seq::<NodeID>::empty());
    } else {
        lemma_refs_opt_seq_step(es.skip(1), i - 1);
        assert(es.take(i + 1).skip(1) =~= es.skip(1).take(i));
        assert(es.take(i).skip(1) =~= es.skip(1).take(i - 1));
        assert(es.take(i + 1)[0] == es[0]);
        assert(es.take(i)[0] == es[0]);
        assert(es.skip(1)[i - 1] == es[i]);
        assert(spec_referenced_declarations_opt_seq(es.take(i + 1))
            =~= spec_referenced_declarations_opt_seq(es.take(i)) + refs_at(i));
    }
}

impl Expression {
    /// Strips index, index-range and call-option wrappers down to the base
    /// identifier, member access or tuple, if the expression has one.
    pub fn root_expression(&self) -> (r: Option<&Expression>)
        ensures
            match r {
                Some(root) => spec_root_expression(*self) == Some(*root),
                None => spec_root_expression(*self) is None,
            },
        decreases *self,
    {
        match self {
            Expression::Identifier(_) => Some(self),
            Expression::MemberAccess(_) => Some(self),
            Expression::TupleExpression(_) => Some(self),
            Expression::IndexAccess(ia) => ia.base_expression.root_expression(),
            Expression::IndexRangeAccess(ira) => ira.base_expression.root_expression(),
            Expression::FunctionCallOptions(fco) => fco.expression.root_expression(),
            _ => None,
        }
    }

    /// Every declaration this expression references, in textual order.
    pub fn referenced_declarations(&self) -> (r: Vec<NodeID>)
        ensures
            r@ == spec_referenced_declarations(*self),
    {
        let mut out: Vec<NodeID> = Vec::new();
        self.collect_referenced_declarations(&mut out);
        out
    }

    fn collect_referenced_declarations(&self, out: &mut Vec<NodeID>)
        ensures
            final(out)@ == old(out)@ + spec_referenced_declarations(*self),
        decreases *self,
    {
        match self {
            Expression::Literal(_) => {},
            Expression::Identifier(identifier) => {
                out.push(identifier.referenced_declaration);
            },
            Expression::UnaryOperation(unary) => {
                unary.sub_expression.collect_referenced_declarations(out);
            },
            Expression::BinaryOperation(binary) => {
                binary.left_expression.collect_referenced_declarations(out);
                binary.right_expression.collect_referenced_declarations(out);
            },
            Expression::Conditional(cond) => {
                cond.condition.collect_referenced_declarations(out);
                cond.true_expression.collect_referenced_declarations(out);
                cond.false_expression.collect_referenced_declarations(out);
            },
            Expression::Assignment(assignment) => {
                assignment.left_hand_side.collect_referenced_declarations(out);
                assignment.right_hand_side.collect_referenced_declarations(out);
            },
            Expression::FunctionCall(call) => {
                call.expression.collect_referenced_declarations(out);
                Self::collect_from_expressions(self, &call.arguments, out);
            },
            Expression::FunctionCallOptions(fco) => {
                fco.expression.collect_referenced_declarations(out);
                Self::collect_from_expressions(self, &fco.options, out);
            },
            Expression::IndexAccess(ia) => {
                ia.base_expression.collect_referenced_declarations(out);
                match &ia.index_expression {
                    Some(index) => index.collect_referenced_declarations(out),
                    None => {},
                }
            },
            Expression::IndexRangeAccess(ira) => {
                ira.base_expression.collect_referenced_declarations(out);
                match &ira.start_expression {
                    Some(start) => start.collect_referenced_declarations(out),
                    None => {},
                }
                match &ira.end_expression {
                    Some(end) => end.collect_referenced_declarations(out),
                    None => {},
                }
            },
            Expression::MemberAccess(ma) => {
                ma.expression.collect_referenced_declarations(out);
                match ma.referenced_declaration {
                    Some(id) => out.push(id),
                    None => {},
                }
            },
            Expression::TupleExpression(tuple) => {
                let ghost orig = out@;
                let mut i: usize = 0;
                while i < tuple.components.len()
                    invariant
                        i <= tuple.components.len(),
                        *self == Expression::TupleExpression(*tuple),
                        out@ == orig + spec_referenced_declarations_opt_seq(
                            tuple.components@.take(i as int),
                        ),
                    decreases tuple.components.len() - i,
                {
                    proof {
                        lemma_refs_opt_seq_step(tuple.components@, i as int);
                    }
                    match &tuple.components[i] {
                        Some(component) => {
                            proof {
                                assert(decreases_to!(*self => component)) by {
                                    assert(self->TupleExpression_0 == *tuple);
                                    assert(decreases_to!(*self => self->TupleExpression_0));
                                    assert(decreases_to!(*tuple => tuple.components));
                                    assert(decreases_to!(tuple.components => tuple.components@));
                                    assert(decreases_to!(tuple.components@ => tuple.components@[i as int]));
                                    assert(tuple.components@[i as int] == Some(*component));
                                    assert(decreases_to!(tuple.components@[i as int] => *component));
                                }
                            }
                            component.collect_referenced_declarations(out);
                        },
                        None => {},
                    }
                    i = i + 1;
                }
                proof {
                    assert(tuple.components@.take(tuple.components@.len() as int)
                        =~= tuple.components@);
                }
            },
            Expression::UnhandledExpression { .. } => {},
        }
    }

    /// Appends the references of each expression in the list, left to right.
    fn collect_from_expressions(whole: &Expression, list: &Vec<Expression>, out: &mut Vec<NodeID>)
        requires
            decreases_to!(*whole => list@),
        ensures
            final(out)@ == old(out)@ + spec_referenced_declarations_seq(list@),
        decreases *whole, 1int,
    {
        let ghost orig = out@;
        let mut i: usize = 0;
        while i < list.len()
            invariant
                i <= list.len(),
                decreases_to!(*whole => list@),
                out@ == orig + spec_referenced_declarations_seq(list@.take(i as int)),
            decreases list.len() - i,
        {
            proof {
                lemma_refs_seq_step(list@, i as int);
                assert(decreases_to!(list@ => list@[i as int]));
            }
            list[i].collect_referenced_declarations(out);
            i = i + 1;
        }
        proof {
            assert(list@.take(list@.len() as int) =~= list@);
        }
    }
}

} // verus!
