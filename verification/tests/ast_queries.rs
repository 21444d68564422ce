use solast::ast::{ContractDefinition, ContractDefinitionNode, ContractKind, NodeID, SourceUnit,
    StateMutability, StorageLocation, VariableDeclaration, Visibility};
use solast::expressions::{Assignment, Expression, Identifier, IndexAccess, Literal, MemberAccess,
    TupleExpression};
use solast::functions::{FunctionDefinition, FunctionKind, ParameterList};
use solast::statements::{Block, BlockOrStatement, IfStatement, Return, Statement};
use solast::text::{getter_name_matches, parse_span_offset, str_eq, str_eq_ignore_ascii_case};

fn identifier(name: &str, referenced: NodeID, id: NodeID) -> Expression {
    Expression::Identifier(Identifier {
        name: name.to_string(),
        referenced_declaration: referenced,
        src: "0:1:0".to_string(),
        id,
    })
}

fn number_literal(id: NodeID) -> Expression {
    Expression::Literal(Literal { value: Some("1".to_string()), src: "0:1:0".to_string(), id })
}

fn return_statement(expression: Option<Expression>, id: NodeID) -> Statement {
    Statement::Return(Return {
        function_return_parameters: 0,
        expression,
        src: "0:1:0".to_string(),
        id,
    })
}

#[test]
fn span_offsets_parse_exactly() {
    assert_eq!(parse_span_offset("141:15:0"), Some(141));
    assert_eq!(parse_span_offset("0:0:0"), Some(0));
    assert_eq!(parse_span_offset("7"), Some(7));
    assert_eq!(parse_span_offset(""), None);
    assert_eq!(parse_span_offset(":1:0"), None);
    assert_eq!(parse_span_offset("a1:0:0"), None);
    assert_eq!(parse_span_offset("99999999999999999999999999:0:0"), None);
}

#[test]
fn source_lines_count_starts_at_or_before_offset() {
    let unit = SourceUnit {
        absolute_path: None,
        line_starts: vec![0, 10, 25],
        contracts: Vec::new(),
        src: "0:1:0".to_string(),
        id: 1,
    };
    assert_eq!(unit.source_line("0:4:0"), Ok(1));
    assert_eq!(unit.source_line("9:1:0"), Ok(1));
    assert_eq!(unit.source_line("10:1:0"), Ok(2));
    assert_eq!(unit.source_line("500:1:0"), Ok(3));
    assert!(unit.source_line("nope").is_err());
}

#[test]
fn string_comparisons() {
    assert!(str_eq("transfer", "transfer"));
    assert!(!str_eq("transfer", "transferFrom"));
    assert!(str_eq_ignore_ascii_case("IERC20", "ierc20"));
    assert!(!str_eq_ignore_ascii_case("IERC20", "erc20"));
    assert!(getter_name_matches("balance", "balance"));
    assert!(getter_name_matches("_balance", "balance"));
    assert!(!getter_name_matches("__balance", "balance"));
    assert!(!getter_name_matches("balanceOf", "balance"));
}

#[test]
fn root_expression_strips_wrappers() {
    let e = Expression::IndexAccess(IndexAccess {
        base_expression: Box::new(identifier("xs", 7, 1)),
        index_expression: Some(Box::new(number_literal(2))),
        src: "0:1:0".to_string(),
        id: 3,
    });
    match e.root_expression() {
        Some(Expression::Identifier(ident)) => assert_eq!(ident.referenced_declaration, 7),
        other => panic!("unexpected root: {:?}", other.is_some()),
    }
    assert!(number_literal(4).root_expression().is_none());
}

#[test]
fn referenced_declarations_in_textual_order() {
    let e = Expression::Assignment(Assignment {
        left_hand_side: Box::new(Expression::MemberAccess(MemberAccess {
            expression: Box::new(identifier("a", 11, 1)),
            member_name: "f".to_string(),
            referenced_declaration: Some(12),
            src: "0:1:0".to_string(),
            id: 2,
        })),
        operator: "=".to_string(),
        right_hand_side: Box::new(identifier("b", 13, 3)),
        src: "0:1:0".to_string(),
        id: 4,
    });
    assert_eq!(e.referenced_declarations(), vec![11, 12, 13]);
}

#[test]
fn is_return_statement_matches_only_returns() {
    assert!(return_statement(None, 1).is_return_statement());
    let other = Statement::UnhandledStatement {
        node_type: solast::ast::NodeType::Break,
        src: None,
        id: None,
    };
    assert!(!other.is_return_statement());
}

#[test]
fn contains_returns_requires_both_branches() {
    let both = BlockOrStatement::Statement(Box::new(Statement::IfStatement(IfStatement {
        condition: number_literal(1),
        true_body: BlockOrStatement::Statement(Box::new(return_statement(None, 2))),
        false_body: Some(BlockOrStatement::Statement(Box::new(return_statement(None, 3)))),
        src: "0:1:0".to_string(),
        id: 4,
    })));
    assert!(both.contains_returns());

    let one_sided = BlockOrStatement::Statement(Box::new(Statement::IfStatement(IfStatement {
        condition: number_literal(1),
        true_body: BlockOrStatement::Statement(Box::new(return_statement(None, 2))),
        false_body: Some(BlockOrStatement::Statement(Box::new(
            Statement::UnhandledStatement {
                node_type: solast::ast::NodeType::Continue,
                src: None,
                id: None,
            },
        ))),
        src: "0:1:0".to_string(),
        id: 4,
    })));
    assert!(!one_sided.contains_returns());

    let block_last = BlockOrStatement::Block(Box::new(Block {
        statements: vec![
            Statement::UnhandledStatement {
                node_type: solast::ast::NodeType::Break,
                src: None,
                id: None,
            },
            return_statement(None, 5),
        ],
        src: "0:1:0".to_string(),
        id: 6,
    }));
    assert!(block_last.contains_returns());

    let empty_block = BlockOrStatement::Block(Box::new(Block {
        statements: Vec::new(),
        src: "0:1:0".to_string(),
        id: 7,
    }));
    assert!(!empty_block.contains_returns());
}

#[test]
fn assigned_return_variables_find_only_return_parameters() {
    let ret_param = VariableDeclaration {
        constant: false,
        name: "out".to_string(),
        state_variable: false,
        storage_location: StorageLocation::Default,
        visibility: Visibility::Internal,
        src: "0:1:0".to_string(),
        id: 40,
    };
    let f = FunctionDefinition {
        base_functions: None,
        body: None,
        documentation: None,
        function_selector: None,
        implemented: true,
        kind: FunctionKind::Function,
        modifiers: Vec::new(),
        name: "f".to_string(),
        name_location: None,
        overrides: None,
        parameters: ParameterList { parameters: Vec::new(), src: "0:1:0".to_string(), id: 41 },
        return_parameters: ParameterList {
            parameters: vec![ret_param],
            src: "0:1:0".to_string(),
            id: 42,
        },
        scope: 0,
        state_mutability: StateMutability::NonPayable,
        super_function: None,
        is_virtual: None,
        visibility: Visibility::Public,
        src: "0:1:0".to_string(),
        id: 43,
    };
    let e = Expression::TupleExpression(TupleExpression {
        components: vec![
            Some(identifier("out", 40, 1)),
            None,
            Some(identifier("other", 44, 2)),
        ],
        src: "0:1:0".to_string(),
        id: 3,
    });
    assert_eq!(f.get_assigned_return_variables(&e), vec![40]);
}

#[test]
fn hierarchy_search_spans_base_contracts() {
    let base = ContractDefinition {
        name: "Base".to_string(),
        kind: ContractKind::Contract,
        linearized_base_contracts: vec![8],
        nodes: vec![ContractDefinitionNode::VariableDeclaration(VariableDeclaration {
            constant: false,
            name: "owner".to_string(),
            state_variable: true,
            storage_location: StorageLocation::Default,
            visibility: Visibility::Internal,
            src: "0:1:0".to_string(),
            id: 80,
        })],
        scope: 0,
        src: "0:1:0".to_string(),
        id: 8,
    };
    let derived = ContractDefinition {
        name: "Derived".to_string(),
        kind: ContractKind::Contract,
        linearized_base_contracts: vec![9, 8],
        nodes: Vec::new(),
        scope: 0,
        src: "0:1:0".to_string(),
        id: 9,
    };
    let units = vec![SourceUnit {
        absolute_path: None,
        line_starts: vec![0],
        contracts: vec![base, derived],
        src: "0:1:0".to_string(),
        id: 1000,
    }];
    let derived_ref = &units[0].contracts[1];
    assert!(derived_ref.hierarchy_contains_state_variable(&units, 80));
    assert!(!derived_ref.hierarchy_contains_state_variable(&units, 81));
}
