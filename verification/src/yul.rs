//! Inline-assembly nodes: the tree is kept only so the walk can carry it, and
//! the unhandled variants record just enough to skip over unknown shapes.
use vstd::prelude::*;

use crate::ast::NodeID;

verus! {

pub enum ExternalReference {
    Untagged(ExternalReferenceData),
    Tagged(Vec<(String, ExternalReferenceData)>),
}

pub struct ExternalReferenceData {
    pub declaration: NodeID,
    pub is_offset: bool,
    pub is_slot: bool,
    pub src: String,
    pub value_size: NodeID,
}

pub enum YulExpression {
    YulLiteral(YulLiteral),
    YulIdentifier(YulIdentifier),
    YulFunctionCall(YulFunctionCall),
    UnhandledYulExpression { node_type: String, src: Option<String>, id: Option<NodeID> },
}

pub struct YulLiteral {
    pub kind: YulLiteralKind,
    pub value: Option<String>,
    pub hex_value: Option<String>,
}

#[derive(Clone, Copy, Debug, PartialEq, Eq, Structural)]
pub enum YulLiteralKind {
    Bool,
    Number,
    String,
    HexString,
    Address,
}

pub struct YulIdentifier {
    pub name: String,
}

pub struct YulFunctionCall {
    pub function_name: YulIdentifier,
    pub arguments: Vec<YulExpression>,
}

pub struct YulBlock {
    pub statements: Vec<YulStatement>,
}

pub struct YulBlockContext<'a> {
    pub yul_blocks: &'a Vec<&'a YulBlock>,
    pub yul_block: &'a YulBlock,
}

pub enum YulStatement {
    YulIf(YulIf),
    YulSwitch(YulSwitch),
    YulAssignment(YulAssignment),
    YulVariableDeclaration(YulVariableDeclaration),
    YulExpressionStatement(YulExpressionStatement),
    UnhandledYulStatement { node_type: String, src: Option<String>, id: Option<NodeID> },
}

pub struct YulIf {
    pub condition: YulExpression,
    pub body: YulBlock,
}

pub struct YulSwitch {
    pub cases: Vec<YulCase>,
    pub expression: YulExpression,
}

pub struct YulCase {
    pub body: YulBlock,
    pub value: YulExpression,
}

pub struct YulAssignment {
    pub value: YulExpression,
    pub variable_names: Vec<YulIdentifier>,
}

pub struct YulVariableDeclaration {
    pub value: YulExpression,
    pub variables: Vec<YulTypedName>,
}

pub struct YulTypedName {
    pub declared_type: String,
    pub name: String,
}

pub struct YulExpressionStatement {
    pub expression: YulExpression,
}

} // verus!
