use solast::ast::{AnalysisError, ContractDefinition, ContractKind, NodeID, SourceUnit,
    StateMutability, StorageLocation, VariableDeclaration, Visibility};
use solast::diagnostics::{Diagnostic, Erc20Function, Finding};
use solast::expressions::{Assignment, Expression, FunctionCall, Identifier, IndexAccess, Literal,
    MemberAccess};
use solast::functions::{FunctionDefinition, FunctionKind, ModifierDefinition, ParameterList};
use solast::statements::{Block, BlockOrStatement, ExpressionStatement, IfStatement, Return,
    Statement, VariableDeclarationStatement};
use solast::walker::analyze;

fn state_variable(name: &str, id: NodeID) -> VariableDeclaration {
    VariableDeclaration {
        constant: false,
        name: name.to_string(),
        state_variable: true,
        storage_location: StorageLocation::Default,
        visibility: Visibility::Internal,
        src: "0:1:0".to_string(),
        id,
    }
}

fn local_variable(name: &str, id: NodeID, location: StorageLocation) -> VariableDeclaration {
    VariableDeclaration {
        constant: false,
        name: name.to_string(),
        state_variable: false,
        storage_location: location,
        visibility: Visibility::Internal,
        src: "0:1:0".to_string(),
        id,
    }
}

fn parameters(params: Vec<VariableDeclaration>, id: NodeID) -> ParameterList {
    ParameterList { parameters: params, src: "0:1:0".to_string(), id }
}

fn function(
    name: &str,
    id: NodeID,
    visibility: Visibility,
    body: Option<Block>,
    returns: Vec<VariableDeclaration>,
) -> FunctionDefinition {
    FunctionDefinition {
        base_functions: None,
        body,
        documentation: None,
        function_selector: None,
        implemented: true,
        kind: FunctionKind::Function,
        modifiers: Vec::new(),
        name: name.to_string(),
        name_location: None,
        overrides: None,
        parameters: parameters(Vec::new(), id * 100 + 1),
        return_parameters: parameters(returns, id * 100 + 2),
        scope: 0,
        state_mutability: StateMutability::NonPayable,
        super_function: None,
        is_virtual: None,
        visibility,
        src: "0:1:0".to_string(),
        id,
    }
}

fn contract(
    name: &str,
    id: NodeID,
    nodes: Vec<solast::ast::ContractDefinitionNode>,
) -> ContractDefinition {
    ContractDefinition {
        name: name.to_string(),
        kind: ContractKind::Contract,
        linearized_base_contracts: vec![id],
        nodes,
        scope: 0,
        src: "0:1:0".to_string(),
        id,
    }
}

fn source_unit(contracts: Vec<ContractDefinition>) -> SourceUnit {
    SourceUnit {
        absolute_path: Some("example.sol".to_string()),
        line_starts: vec![0, 15, 30, 45, 60],
        contracts,
        src: "0:1:0".to_string(),
        id: 1000,
    }
}

fn identifier(name: &str, referenced: NodeID, id: NodeID) -> Expression {
    Expression::Identifier(Identifier {
        name: name.to_string(),
        referenced_declaration: referenced,
        src: "0:1:0".to_string(),
        id,
    })
}

fn number_literal(id: NodeID) -> Expression {
    Expression::Literal(Literal { value: Some("1".to_string()), src: "0:1:0".to_string(), id })
}

fn call_statement(callee: Expression, src: &str, id: NodeID) -> Statement {
    Statement::ExpressionStatement(ExpressionStatement {
        expression: Expression::FunctionCall(FunctionCall {
            arguments: Vec::new(),
            expression: Box::new(callee),
            src: src.to_string(),
            id,
        }),
    })
}

fn assign_statement(lhs: Expression, src: &str, id: NodeID) -> Statement {
    Statement::ExpressionStatement(ExpressionStatement {
        expression: Expression::Assignment(Assignment {
            left_hand_side: Box::new(lhs),
            operator: "=".to_string(),
            right_hand_side: Box::new(number_literal(id + 1)),
            src: src.to_string(),
            id,
        }),
    })
}

/// A second contract holding an externally visible function the examples can
/// call.
fn external_library() -> ContractDefinition {
    contract(
        "Other",
        9,
        vec![solast::ast::ContractDefinitionNode::FunctionDefinition(function(
            "ping",
            10,
            Visibility::External,
            None,
            Vec::new(),
        ))],
    )
}

/// State variable `x` (2); function `f` (3) calls `ping()` then runs
/// `x = 1;`: exactly one violation, citing the assignment's line.
fn call_then_assign_units() -> Vec<SourceUnit> {
    let body = Block {
        statements: vec![
            call_statement(identifier("ping", 10, 21), "10:5:0", 20),
            assign_statement(identifier("x", 2, 23), "20:5:0", 22),
        ],
        src: "5:30:0".to_string(),
        id: 4,
    };
    let c = contract(
        "Example",
        1,
        vec![
            solast::ast::ContractDefinitionNode::VariableDeclaration(state_variable("x", 2)),
            solast::ast::ContractDefinitionNode::FunctionDefinition(function(
                "f",
                3,
                Visibility::Public,
                Some(body),
                Vec::new(),
            )),
        ],
    );
    vec![source_unit(vec![c, external_library()])]
}

#[test]
fn reports_state_assignment_after_external_call() {
    let units = call_then_assign_units();
    let diagnostics = analyze(&units).unwrap();
    assert_eq!(
        diagnostics,
        vec![Diagnostic {
            contract: 1,
            definition: 3,
            line: Some(2),
            finding: Finding::PostExternalCallStateMutation { block: 4 },
        }]
    );
}

#[test]
fn analysis_is_deterministic_across_runs() {
    let units = call_then_assign_units();
    let first = analyze(&units).unwrap();
    let second = analyze(&units).unwrap();
    assert_eq!(first, second);
}

#[test]
fn assignment_before_external_call_is_clean() {
    let body = Block {
        statements: vec![
            assign_statement(identifier("x", 2, 22), "10:5:0", 23),
            call_statement(identifier("ping", 10, 21), "20:5:0", 20),
        ],
        src: "5:30:0".to_string(),
        id: 4,
    };
    let c = contract(
        "Example",
        1,
        vec![
            solast::ast::ContractDefinitionNode::VariableDeclaration(state_variable("x", 2)),
            solast::ast::ContractDefinitionNode::FunctionDefinition(function(
                "f",
                3,
                Visibility::Public,
                Some(body),
                Vec::new(),
            )),
        ],
    );
    let units = vec![source_unit(vec![c, external_library()])];
    assert_eq!(analyze(&units).unwrap(), Vec::new());
}

fn storage_alias_units(location: StorageLocation) -> Vec<SourceUnit> {
    let declaration = Statement::VariableDeclarationStatement(VariableDeclarationStatement {
        assignments: vec![Some(31)],
        declarations: vec![Some(local_variable("s", 31, location))],
        initial_value: Some(Expression::IndexAccess(IndexAccess {
            base_expression: Box::new(identifier("structs", 2, 32)),
            index_expression: Some(Box::new(number_literal(33))),
            src: "6:10:0".to_string(),
            id: 34,
        })),
        src: "5:12:0".to_string(),
        id: 30,
    });
    let mutation = Statement::ExpressionStatement(ExpressionStatement {
        expression: Expression::Assignment(Assignment {
            left_hand_side: Box::new(Expression::MemberAccess(MemberAccess {
                expression: Box::new(identifier("s", 31, 35)),
                member_name: "field".to_string(),
                referenced_declaration: None,
                src: "31:7:0".to_string(),
                id: 36,
            })),
            operator: "=".to_string(),
            right_hand_side: Box::new(number_literal(37)),
            src: "31:11:0".to_string(),
            id: 38,
        }),
    });
    let body = Block {
        statements: vec![
            declaration,
            call_statement(identifier("ping", 10, 21), "16:5:0", 20),
            mutation,
        ],
        src: "5:40:0".to_string(),
        id: 4,
    };
    let c = contract(
        "Vault",
        1,
        vec![
            solast::ast::ContractDefinitionNode::VariableDeclaration(state_variable("structs", 2)),
            solast::ast::ContractDefinitionNode::FunctionDefinition(function(
                "f",
                3,
                Visibility::Public,
                Some(body),
                Vec::new(),
            )),
        ],
    );
    vec![source_unit(vec![c, external_library()])]
}

#[test]
fn reports_mutation_through_storage_alias() {
    let units = storage_alias_units(StorageLocation::Storage);
    let diagnostics = analyze(&units).unwrap();
    assert_eq!(
        diagnostics,
        vec![Diagnostic {
            contract: 1,
            definition: 3,
            line: Some(3),
            finding: Finding::PostExternalCallStateMutation { block: 4 },
        }]
    );
}

#[test]
fn memory_local_is_never_a_state_mutation() {
    let units = storage_alias_units(StorageLocation::Memory);
    assert_eq!(analyze(&units).unwrap(), Vec::new());
}

#[test]
fn sibling_branch_does_not_inherit_call_flag() {
    let true_body = Block {
        statements: vec![call_statement(identifier("ping", 10, 21), "20:5:0", 20)],
        src: "18:10:0".to_string(),
        id: 5,
    };
    let false_body = Block {
        statements: vec![assign_statement(identifier("x", 2, 23), "35:5:0", 22)],
        src: "33:10:0".to_string(),
        id: 6,
    };
    let branch = Statement::IfStatement(IfStatement {
        condition: number_literal(40),
        true_body: BlockOrStatement::Block(Box::new(true_body)),
        false_body: Some(BlockOrStatement::Block(Box::new(false_body))),
        src: "16:30:0".to_string(),
        id: 41,
    });
    let body = Block { statements: vec![branch], src: "5:45:0".to_string(), id: 4 };
    let c = contract(
        "Example",
        1,
        vec![
            solast::ast::ContractDefinitionNode::VariableDeclaration(state_variable("x", 2)),
            solast::ast::ContractDefinitionNode::FunctionDefinition(function(
                "f",
                3,
                Visibility::Public,
                Some(body),
                Vec::new(),
            )),
        ],
    );
    let units = vec![source_unit(vec![c, external_library()])];
    assert_eq!(analyze(&units).unwrap(), Vec::new());
}

#[test]
fn nested_block_sees_enclosing_call() {
    let inner = Block {
        statements: vec![assign_statement(identifier("x", 2, 23), "35:5:0", 22)],
        src: "33:10:0".to_string(),
        id: 5,
    };
    let branch = Statement::IfStatement(IfStatement {
        condition: number_literal(40),
        true_body: BlockOrStatement::Block(Box::new(inner)),
        false_body: None,
        src: "30:20:0".to_string(),
        id: 41,
    });
    let body = Block {
        statements: vec![call_statement(identifier("ping", 10, 21), "16:5:0", 20), branch],
        src: "5:50:0".to_string(),
        id: 4,
    };
    let c = contract(
        "Example",
        1,
        vec![
            solast::ast::ContractDefinitionNode::VariableDeclaration(state_variable("x", 2)),
            solast::ast::ContractDefinitionNode::FunctionDefinition(function(
                "f",
                3,
                Visibility::Public,
                Some(body),
                Vec::new(),
            )),
        ],
    );
    let units = vec![source_unit(vec![c, external_library()])];
    let diagnostics = analyze(&units).unwrap();
    assert_eq!(
        diagnostics,
        vec![Diagnostic {
            contract: 1,
            definition: 3,
            line: Some(3),
            finding: Finding::PostExternalCallStateMutation { block: 5 },
        }]
    );
}

#[test]
fn two_asserts_report_once_per_definition() {
    let body = Block {
        statements: vec![
            call_statement(identifier("assert", -5, 21), "10:8:0", 20),
            call_statement(identifier("assert", -5, 23), "20:8:0", 22),
        ],
        src: "5:30:0".to_string(),
        id: 4,
    };
    let c = contract(
        "Example",
        1,
        vec![solast::ast::ContractDefinitionNode::FunctionDefinition(function(
            "f",
            3,
            Visibility::Public,
            Some(body),
            Vec::new(),
        ))],
    );
    let units = vec![source_unit(vec![c])];
    let diagnostics = analyze(&units).unwrap();
    assert_eq!(
        diagnostics,
        vec![Diagnostic { contract: 1, definition: 3, line: Some(1), finding: Finding::AssertUsage }]
    );
}

#[test]
fn redundant_getter_is_reported() {
    let body = Block {
        statements: vec![Statement::Return(Return {
            function_return_parameters: 302,
            expression: Some(identifier("_balance", 2, 50)),
            src: "20:10:0".to_string(),
            id: 51,
        })],
        src: "5:30:0".to_string(),
        id: 4,
    };
    let getter = function(
        "balance",
        3,
        Visibility::Public,
        Some(body),
        vec![local_variable("", 60, StorageLocation::Default)],
    );
    let c = contract(
        "Example",
        1,
        vec![
            solast::ast::ContractDefinitionNode::VariableDeclaration(state_variable("_balance", 2)),
            solast::ast::ContractDefinitionNode::FunctionDefinition(getter),
        ],
    );
    let units = vec![source_unit(vec![c])];
    let diagnostics = analyze(&units).unwrap();
    assert_eq!(
        diagnostics,
        vec![Diagnostic {
            contract: 1,
            definition: 3,
            line: Some(1),
            finding: Finding::RedundantGetter { state_variable: 2 },
        }]
    );
}

#[test]
fn erc20_transfer_and_discarded_return_are_reported() {
    let token = contract(
        "ERC20",
        5,
        vec![solast::ast::ContractDefinitionNode::FunctionDefinition(function(
            "transfer",
            6,
            Visibility::Public,
            None,
            vec![local_variable("ok", 61, StorageLocation::Default)],
        ))],
    );
    let callee = Expression::MemberAccess(MemberAccess {
        expression: Box::new(identifier("token", 50, 51)),
        member_name: "transfer".to_string(),
        referenced_declaration: Some(6),
        src: "10:14:0".to_string(),
        id: 52,
    });
    let body = Block {
        statements: vec![call_statement(callee, "10:20:0", 53)],
        src: "5:30:0".to_string(),
        id: 4,
    };
    let c = contract(
        "Example",
        1,
        vec![solast::ast::ContractDefinitionNode::FunctionDefinition(function(
            "f",
            3,
            Visibility::Public,
            Some(body),
            Vec::new(),
        ))],
    );
    let units = vec![source_unit(vec![c, token])];
    let diagnostics = analyze(&units).unwrap();
    assert_eq!(
        diagnostics,
        vec![
            Diagnostic {
                contract: 1,
                definition: 3,
                line: Some(1),
                finding: Finding::Erc20UnsafeCall { function: Erc20Function::Transfer },
            },
            Diagnostic {
                contract: 1,
                definition: 3,
                line: None,
                finding: Finding::UnusedReturn { called: 6 },
            },
        ]
    );
}

#[test]
fn explicit_local_return_is_reported() {
    let declaration = Statement::VariableDeclarationStatement(VariableDeclarationStatement {
        assignments: vec![Some(70)],
        declarations: vec![Some(local_variable("result", 70, StorageLocation::Default))],
        initial_value: Some(number_literal(71)),
        src: "10:10:0".to_string(),
        id: 72,
    });
    let ret = Statement::Return(Return {
        function_return_parameters: 302,
        expression: Some(identifier("result", 70, 73)),
        src: "20:13:0".to_string(),
        id: 74,
    });
    let body = Block { statements: vec![declaration, ret], src: "5:30:0".to_string(), id: 4 };
    let c = contract(
        "Example",
        1,
        vec![solast::ast::ContractDefinitionNode::FunctionDefinition(function(
            "f",
            3,
            Visibility::Public,
            Some(body),
            Vec::new(),
        ))],
    );
    let units = vec![source_unit(vec![c])];
    let diagnostics = analyze(&units).unwrap();
    assert_eq!(
        diagnostics,
        vec![Diagnostic {
            contract: 1,
            definition: 3,
            line: Some(2),
            finding: Finding::ExplicitLocalReturn { tuple: false },
        }]
    );
}

#[test]
fn unreadable_span_aborts_the_walk() {
    let body = Block {
        statements: vec![
            call_statement(identifier("ping", 10, 21), "10:5:0", 20),
            assign_statement(identifier("x", 2, 23), "oops", 22),
        ],
        src: "5:30:0".to_string(),
        id: 4,
    };
    let c = contract(
        "Example",
        1,
        vec![
            solast::ast::ContractDefinitionNode::VariableDeclaration(state_variable("x", 2)),
            solast::ast::ContractDefinitionNode::FunctionDefinition(function(
                "f",
                3,
                Visibility::Public,
                Some(body),
                Vec::new(),
            )),
        ],
    );
    let units = vec![source_unit(vec![c, external_library()])];
    assert_eq!(analyze(&units), Err(AnalysisError::InvalidSourceSpan));
}

#[test]
fn mismatched_tuple_declaration_is_malformed() {
    let declaration = Statement::VariableDeclarationStatement(VariableDeclarationStatement {
        assignments: vec![Some(31), None],
        declarations: vec![
            Some(local_variable("a", 31, StorageLocation::Storage)),
            None,
        ],
        initial_value: Some(Expression::TupleExpression(solast::expressions::TupleExpression {
            components: vec![Some(identifier("structs", 2, 32))],
            src: "10:10:0".to_string(),
            id: 33,
        })),
        src: "10:14:0".to_string(),
        id: 30,
    });
    let body = Block { statements: vec![declaration], src: "5:30:0".to_string(), id: 4 };
    let c = contract(
        "Vault",
        1,
        vec![
            solast::ast::ContractDefinitionNode::VariableDeclaration(state_variable("structs", 2)),
            solast::ast::ContractDefinitionNode::FunctionDefinition(function(
                "f",
                3,
                Visibility::Public,
                Some(body),
                Vec::new(),
            )),
        ],
    );
    let units = vec![source_unit(vec![c])];
    assert_eq!(analyze(&units), Err(AnalysisError::MalformedTree));
}

#[test]
fn empty_input_reports_nothing() {
    let units: Vec<SourceUnit> = Vec::new();
    assert_eq!(analyze(&units).unwrap(), Vec::new());
}

#[test]
fn modifier_bodies_are_analyzed_like_functions() {
    let body = Block {
        statements: vec![
            call_statement(identifier("ping", 10, 21), "10:5:0", 20),
            assign_statement(identifier("x", 2, 23), "20:5:0", 22),
        ],
        src: "5:30:0".to_string(),
        id: 4,
    };
    let guard = ModifierDefinition {
        body: Some(body),
        documentation: None,
        name: "guard".to_string(),
        overrides: None,
        parameters: ParameterList { parameters: Vec::new(), src: "0:1:0".to_string(), id: 301 },
        is_virtual: None,
        visibility: Visibility::Internal,
        src: "0:1:0".to_string(),
        id: 3,
    };
    let c = contract(
        "Example",
        1,
        vec![
            solast::ast::ContractDefinitionNode::VariableDeclaration(state_variable("x", 2)),
            solast::ast::ContractDefinitionNode::ModifierDefinition(guard),
        ],
    );
    let units = vec![source_unit(vec![c, external_library()])];
    let diagnostics = analyze(&units).unwrap();
    assert_eq!(
        diagnostics,
        vec![Diagnostic {
            contract: 1,
            definition: 3,
            line: Some(2),
            finding: Finding::PostExternalCallStateMutation { block: 4 },
        }]
    );
}
