use compiler::syntactic::actions::{parse_bound, run_action};
use compiler::{
    ActionKind, AstNode, ErrorKind, InternalError, LexError, OperatorKind, ParseError, ParseTable,
    Parser, RelopKind, Symbol, SymbolTable, Token, TokenType, Type,
};

fn parse(source: &str, start_symbol: &str) -> Result<AstNode, ParseError> {
    let mut symbol_table = SymbolTable::new();
    let parse_table = ParseTable::create_parse_table(start_symbol);
    let mut parser = Parser::new(source.to_string(), parse_table, &mut symbol_table);
    let parsed = parser.parse();
    if parsed.is_ok() {
        assert!(parser.stack.is_empty());
    }
    parsed
}

fn id(name: &str) -> AstNode {
    AstNode::Identifier { name: name.to_string() }
}

fn number(value: &str) -> AstNode {
    AstNode::Number { value: value.to_string() }
}

fn binary(op: OperatorKind, left: AstNode, right: AstNode) -> AstNode {
    AstNode::BinaryOp { op, left: Box::new(left), right: Box::new(right) }
}

fn assign(name: &str, expr: AstNode) -> AstNode {
    AstNode::Assignment { id: name.to_string(), expr: Box::new(expr) }
}

#[test]
fn source_without_blank_at_its_end() {
    assert_eq!(parse("-6", "E"), Ok(AstNode::UnaryOp { expr: Box::new(number("6")) }));
    assert_eq!(parse("x", "E"), Ok(id("x")));
    assert_eq!(parse("x:=y;", "cmd_atrib"), Ok(assign("x", id("y"))));
}

#[test]
fn operators_of_one_level_group_to_the_left() {
    assert_eq!(
        parse("a - b + c", "E"),
        Ok(binary(OperatorKind::Sum, binary(OperatorKind::Sub, id("a"), id("b")), id("c")))
    );
    assert_eq!(
        parse("a / b * c", "E"),
        Ok(binary(OperatorKind::Mult, binary(OperatorKind::Div, id("a"), id("b")), id("c")))
    );
    assert_eq!(
        parse("a ** b ** c", "E"),
        Ok(binary(OperatorKind::Exp, binary(OperatorKind::Exp, id("a"), id("b")), id("c")))
    );
}

#[test]
fn products_bind_tighter_than_sums_and_powers_tighter_than_products() {
    assert_eq!(
        parse("a + b * c ** d", "E"),
        Ok(binary(
            OperatorKind::Sum,
            id("a"),
            binary(OperatorKind::Mult, id("b"), binary(OperatorKind::Exp, id("c"), id("d")))
        ))
    );
    assert_eq!(
        parse("(a + b) * c", "E"),
        Ok(binary(OperatorKind::Mult, binary(OperatorKind::Sum, id("a"), id("b")), id("c")))
    );
}

#[test]
fn negation_applies_to_one_operand() {
    assert_eq!(
        parse("-x * 2", "E"),
        Ok(binary(
            OperatorKind::Mult,
            AstNode::UnaryOp { expr: Box::new(id("x")) },
            number("2")
        ))
    );
    assert_eq!(
        parse("a - -b", "E"),
        Ok(binary(OperatorKind::Sub, id("a"), AstNode::UnaryOp { expr: Box::new(id("b")) }))
    );
    assert_eq!(
        parse("--a", "E"),
        Ok(AstNode::UnaryOp { expr: Box::new(AstNode::UnaryOp { expr: Box::new(id("a")) }) })
    );
}

#[test]
fn character_literal_is_an_operand() {
    assert_eq!(parse("c := 'a';", "cmd_atrib"), Ok(assign("c", AstNode::Literal { value: 'a' })));
}

#[test]
fn every_relational_operator() {
    let cases = [
        ("a > b", RelopKind::GT),
        ("a < b", RelopKind::LT),
        ("a >= b", RelopKind::GE),
        ("a <= b", RelopKind::LE),
        ("a == b", RelopKind::EQ),
        ("a != b", RelopKind::NE),
    ];
    for (source, relop) in cases {
        assert_eq!(
            parse(source, "cond"),
            Ok(AstNode::BinaryComp { relop, left: Box::new(id("a")), right: Box::new(id("b")) })
        );
    }
}

#[test]
fn declarations_and_statements_keep_their_order() {
    let parsed = parse("[int a, b, c; char d; x := 1; y := 2; z := 3;]", "bloco");
    assert_eq!(
        parsed,
        Ok(AstNode::Block {
            decls: vec![
                AstNode::VarDecl {
                    kind: Type::Int,
                    names: vec!["a".to_string(), "b".to_string(), "c".to_string()],
                },
                AstNode::VarDecl { kind: Type::Char, names: vec!["d".to_string()] },
            ],
            stmts: vec![
                assign("x", number("1")),
                assign("y", number("2")),
                assign("z", number("3")),
            ],
        })
    );
}

#[test]
fn empty_block() {
    assert_eq!(parse("[]", "bloco"), Ok(AstNode::Block { decls: vec![], stmts: vec![] }));
    assert_eq!(
        parse("[[]]", "bloco"),
        Ok(AstNode::Block {
            decls: vec![],
            stmts: vec![AstNode::Block { decls: vec![], stmts: vec![] }],
        })
    );
}

#[test]
fn conditional_as_last_statement_of_a_block() {
    let cond = AstNode::BinaryComp {
        relop: RelopKind::LT,
        left: Box::new(id("a")),
        right: Box::new(id("b")),
    };
    assert_eq!(
        parse("[if (a < b) then x := 1;]", "bloco"),
        Ok(AstNode::Block {
            decls: vec![],
            stmts: vec![AstNode::If {
                cond: Box::new(cond),
                then_block: Box::new(assign("x", number("1"))),
                else_block: None,
            }],
        })
    );
}

#[test]
fn alternative_belongs_to_the_nearest_conditional() {
    let cond = |name: &str| AstNode::BinaryComp {
        relop: RelopKind::GT,
        left: Box::new(id(name)),
        right: Box::new(number("0")),
    };
    assert_eq!(
        parse("if (a > 0) then if (b > 0) then x := 1; else x := 2;", "cmd_if"),
        Ok(AstNode::If {
            cond: Box::new(cond("a")),
            then_block: Box::new(AstNode::If {
                cond: Box::new(cond("b")),
                then_block: Box::new(assign("x", number("1"))),
                else_block: Some(Box::new(assign("x", number("2")))),
            }),
            else_block: None,
        })
    );
}

#[test]
fn chain_of_alternatives_without_a_last_one() {
    let cond = |name: &str| AstNode::BinaryComp {
        relop: RelopKind::GT,
        left: Box::new(id(name)),
        right: Box::new(number("0")),
    };
    assert_eq!(
        parse("if (a > 0) then x := 1; elsif (b > 0) then x := 2;", "cmd_if"),
        Ok(AstNode::If {
            cond: Box::new(cond("a")),
            then_block: Box::new(assign("x", number("1"))),
            else_block: Some(Box::new(AstNode::If {
                cond: Box::new(cond("b")),
                then_block: Box::new(assign("x", number("2"))),
                else_block: None,
            })),
        })
    );
}

#[test]
fn whole_program_of_every_type() {
    for (word, kind) in
        [("int", Type::Int), ("float", Type::Float), ("char", Type::Char), ("void", Type::Void)]
    {
        assert_eq!(
            parse(&format!("{} main() []", word), "inicio"),
            Ok(AstNode::Program {
                kind,
                body: Box::new(AstNode::Block { decls: vec![], stmts: vec![] }),
            })
        );
    }
}

#[test]
fn bounds_of_a_counting_loop() {
    let parsed = parse("for(i;007;4294967295;i) x := i;", "cmd_for");
    assert_eq!(
        parsed,
        Ok(AstNode::For {
            id: "i".to_string(),
            start: 7,
            end: 4294967295,
            step: Box::new(id("i")),
            body: Box::new(assign("x", id("i"))),
        })
    );
}

#[test]
fn bound_that_is_no_integer_fails() {
    let sources =
        ["for(i;1.5;10;i) x := i;", "for(i;0;4294967296;i) x := i;", "for(i;0;1E3;i) x := i;"];
    for source in sources {
        assert_eq!(
            parse(source, "cmd_for"),
            Err(ParseError::Internal {
                fault: InternalError::WrongOperand(ActionKind::CreateFor),
                found: Token::Eof,
            })
        );
    }
}

#[test]
fn bound_is_read_in_base_ten() {
    assert_eq!(parse_bound(&"0".to_string()), Some(0));
    assert_eq!(parse_bound(&"10".to_string()), Some(10));
    assert_eq!(parse_bound(&"000123".to_string()), Some(123));
    assert_eq!(parse_bound(&"4294967295".to_string()), Some(u32::MAX));
    assert_eq!(parse_bound(&"4294967296".to_string()), None);
    assert_eq!(parse_bound(&"99999999999999999999999999".to_string()), None);
    assert_eq!(parse_bound(&"".to_string()), None);
    assert_eq!(parse_bound(&"1.5".to_string()), None);
    assert_eq!(parse_bound(&"+5".to_string()), None);
    assert_eq!(parse_bound(&"5a".to_string()), None);
}

#[test]
fn token_of_another_category_fails() {
    assert_eq!(
        parse("x 5;", "cmd_atrib"),
        Err(ParseError::UnexpectedToken {
            expected: TokenType::AssignPunctuation,
            found: Token::Number {
                value: "5".to_string(),
                kind: compiler::NumberKind::Integer,
                line: 1,
                column: 3
            },
        })
    );
    assert_eq!(
        parse("while (a < b) x := 1;", "cmd_while"),
        Err(ParseError::UnexpectedToken {
            expected: TokenType::DoKeyword,
            found: Token::Id { value: "x".to_string(), line: 1, column: 15 },
        })
    );
}

#[test]
fn token_without_a_production_fails() {
    assert_eq!(
        parse("x := ;", "cmd_atrib"),
        Err(ParseError::NoTableEntry {
            non_terminal: "E".to_string(),
            found: Token::Punctuation {
                kind: compiler::PunctuationKind::EndExp,
                line: 1,
                column: 6
            },
        })
    );
    assert_eq!(
        parse("", "inicio"),
        Err(ParseError::NoTableEntry { non_terminal: "inicio".to_string(), found: Token::Eof })
    );
    assert_eq!(
        parse("x", "no_such_symbol"),
        Err(ParseError::NoTableEntry {
            non_terminal: "no_such_symbol".to_string(),
            found: Token::Id { value: "x".to_string(), line: 1, column: 1 },
        })
    );
}

#[test]
fn source_that_goes_on_fails() {
    assert_eq!(
        parse("int int", "tipo"),
        Err(ParseError::ExpectedEndOfInput {
            found: Token::Keyword { kind: compiler::KeywordKind::Int, line: 1, column: 5 },
        })
    );
}

#[test]
fn source_that_ends_early_fails() {
    assert_eq!(
        parse("x := 5", "cmd_atrib"),
        Err(ParseError::UnexpectedToken {
            expected: TokenType::SemiColonPunctuation,
            found: Token::Eof,
        })
    );
}

#[test]
fn lexical_failure_ends_the_parse() {
    assert_eq!(
        parse("x := 3.;", "cmd_atrib"),
        Err(ParseError::Lexical(LexError {
            value: "3.".to_string(),
            kind: ErrorKind::FractionEndedWithADot,
            line: 1,
            column: 6,
        }))
    );
    assert_eq!(
        parse("@", "E"),
        Err(ParseError::Lexical(LexError {
            value: "@".to_string(),
            kind: ErrorKind::UnknownToken,
            line: 1,
            column: 1,
        }))
    );
}

#[test]
fn parse_enters_what_it_reads_in_the_symbol_table() {
    let mut symbol_table = SymbolTable::new();
    {
        let parse_table = ParseTable::create_parse_table("cmd_atrib");
        let source = "x := x + 10 * 'c';".to_string();
        let mut parser = Parser::new(source, parse_table, &mut symbol_table);
        assert!(parser.parse().is_ok());
    }
    assert_eq!(symbol_table.len(), 3);
    assert!(symbol_table.contains("x"));
    assert!(symbol_table.contains("10"));
    assert!(symbol_table.contains("c"));
    {
        let parse_table = ParseTable::create_parse_table("cmd_atrib");
        let mut parser = Parser::new("y := 1 2".to_string(), parse_table, &mut symbol_table);
        assert!(parser.parse().is_err());
    }
    assert_eq!(symbol_table.len(), 6);
    assert!(symbol_table.contains("2"));
}

#[test]
fn table_of_ones_own() {
    let mut table = ParseTable::new("S");
    assert_eq!(table.start_symbol, "S");
    assert!(table.get_entry("S", &TokenType::Id).is_none());
    table.set_entry(
        "S",
        TokenType::Id,
        vec![Symbol::Terminal(TokenType::Id), Symbol::NonTerminal("S".to_string())],
    );
    table.set_entry("S", TokenType::Eof, vec![Symbol::Epsilon]);
    table.set_entry("T", TokenType::Id, vec![Symbol::End]);
    assert_eq!(
        table.get_entry("S", &TokenType::Id),
        Some(&vec![Symbol::Terminal(TokenType::Id), Symbol::NonTerminal("S".to_string())])
    );
    assert_eq!(table.get_entry("S", &TokenType::Eof), Some(&vec![Symbol::Epsilon]));
    assert_eq!(table.get_entry("T", &TokenType::Id), Some(&vec![Symbol::End]));
    assert_eq!(table.get_entry("T", &TokenType::Eof), None);
    assert_eq!(table.get_entry("S", &TokenType::Number), None);
    table.set_entry("S", TokenType::Id, vec![Symbol::Terminal(TokenType::Id)]);
    assert_eq!(table.get_entry("S", &TokenType::Id), Some(&vec![Symbol::Terminal(TokenType::Id)]));
    assert_eq!(table.get_entry("S", &TokenType::Eof), Some(&vec![Symbol::Epsilon]));
}

#[test]
fn parse_with_a_table_of_ones_own() {
    let mut table = ParseTable::new("S");
    table.set_entry(
        "S",
        TokenType::Id,
        vec![
            Symbol::Terminal(TokenType::Id),
            Symbol::Epsilon,
            Symbol::Terminal(TokenType::Id),
            Symbol::Action(ActionKind::Math(OperatorKind::Div)),
        ],
    );
    let mut symbol_table = SymbolTable::new();
    let mut parser = Parser::new("a b".to_string(), table, &mut symbol_table);
    assert_eq!(parser.parse(), Ok(binary(OperatorKind::Div, id("a"), id("b"))));
}

#[test]
fn action_without_its_operands_fails() {
    let mut table = ParseTable::new("S");
    table.set_entry(
        "S",
        TokenType::Id,
        vec![Symbol::Terminal(TokenType::Id), Symbol::Action(ActionKind::Math(OperatorKind::Sum))],
    );
    let mut symbol_table = SymbolTable::new();
    let mut parser = Parser::new("a".to_string(), table, &mut symbol_table);
    assert_eq!(
        parser.parse(),
        Err(ParseError::Internal {
            fault: InternalError::MissingOperand(ActionKind::Math(OperatorKind::Sum)),
            found: Token::Eof,
        })
    );
}

#[test]
fn action_on_a_node_of_another_shape_fails() {
    let mut table = ParseTable::new("S");
    table.set_entry(
        "S",
        TokenType::Number,
        vec![
            Symbol::Terminal(TokenType::Number),
            Symbol::Terminal(TokenType::Number),
            Symbol::Action(ActionKind::Assign),
        ],
    );
    let mut symbol_table = SymbolTable::new();
    let mut parser = Parser::new("1 2".to_string(), table, &mut symbol_table);
    assert_eq!(
        parser.parse(),
        Err(ParseError::Internal {
            fault: InternalError::WrongOperand(ActionKind::Assign),
            found: Token::Eof,
        })
    );
}

#[test]
fn parse_that_leaves_no_single_tree_fails() {
    let mut table = ParseTable::new("S");
    table.set_entry("S", TokenType::Eof, vec![Symbol::Epsilon]);
    table.set_entry(
        "S",
        TokenType::Id,
        vec![Symbol::Terminal(TokenType::Id), Symbol::NonTerminal("S".to_string())],
    );
    table.set_entry("S", TokenType::IntKeyword, vec![Symbol::Terminal(TokenType::IntKeyword)]);
    for source in ["", "a b", "int"] {
        let mut symbol_table = SymbolTable::new();
        let mut table_for_source = ParseTable::new("S");
        for category in [TokenType::Eof, TokenType::Id, TokenType::IntKeyword] {
            if let Some(symbols) = table.get_entry("S", &category) {
                table_for_source.set_entry("S", category, symbols.clone());
            }
        }
        let mut parser = Parser::new(source.to_string(), table_for_source, &mut symbol_table);
        assert_eq!(
            parser.parse(),
            Err(ParseError::Internal { fault: InternalError::NotOneRoot, found: Token::Eof })
        );
    }
    let mut symbol_table = SymbolTable::new();
    let mut parser = Parser::new("a".to_string(), table, &mut symbol_table);
    assert_eq!(parser.parse(), Ok(id("a")));
}

#[test]
fn actions_on_a_stack_of_nodes() {
    let mut nodes = vec![id("a")];
    assert_eq!(run_action(ActionKind::MakeList, &mut nodes), Ok(()));
    assert_eq!(run_action(ActionKind::AppendList, &mut nodes), Ok(()));
    assert_eq!(nodes, vec![AstNode::List(vec![id("a")])]);
    nodes.insert(0, id("b"));
    assert_eq!(run_action(ActionKind::AppendList, &mut nodes), Ok(()));
    assert_eq!(nodes, vec![AstNode::List(vec![id("b"), id("a")])]);
    nodes.insert(0, AstNode::TypeWrapper(Type::Float));
    assert_eq!(run_action(ActionKind::CreateDecl, &mut nodes), Ok(()));
    assert_eq!(
        nodes,
        vec![AstNode::VarDecl { kind: Type::Float, names: vec!["b".to_string(), "a".to_string()] }]
    );

    let mut nodes = vec![id("x"), id("body"), id("cond")];
    assert_eq!(run_action(ActionKind::CreateDoWhile, &mut nodes), Ok(()));
    assert_eq!(
        nodes,
        vec![id("x"), AstNode::DoWhile { body: Box::new(id("body")), cond: Box::new(id("cond")) }]
    );

    let mut nodes = vec![AstNode::List(vec![number("1")]), AstNode::TypeWrapper(Type::Int)];
    assert_eq!(
        run_action(ActionKind::CreateDecl, &mut nodes),
        Err(InternalError::WrongOperand(ActionKind::CreateDecl))
    );
    let mut nodes = vec![AstNode::TypeWrapper(Type::Int), AstNode::List(vec![number("1")])];
    assert_eq!(
        run_action(ActionKind::CreateDecl, &mut nodes),
        Err(InternalError::WrongOperand(ActionKind::CreateDecl))
    );
    let mut nodes = vec![id("a"), AstNode::CondWrapper(RelopKind::EQ)];
    assert_eq!(
        run_action(ActionKind::Math(OperatorKind::Sum), &mut nodes),
        Err(InternalError::WrongOperand(ActionKind::Math(OperatorKind::Sum)))
    );
    let mut nodes = vec![id("a"), id("b")];
    assert_eq!(
        run_action(ActionKind::CreateCond, &mut nodes),
        Err(InternalError::MissingOperand(ActionKind::CreateCond))
    );
    let mut nodes: Vec<AstNode> = vec![];
    assert_eq!(
        run_action(ActionKind::CreateUnaryOp, &mut nodes),
        Err(InternalError::MissingOperand(ActionKind::CreateUnaryOp))
    );
}

#[test]
fn symbols_tell_what_they_are() {
    let terminal = Symbol::Terminal(TokenType::Id);
    let non_terminal = Symbol::NonTerminal("E".to_string());
    let action = Symbol::Action(ActionKind::Assign);
    assert!(terminal.is_terminal() && !terminal.is_non_terminal());
    assert!(!terminal.is_epsilon() && !terminal.is_end());
    assert!(non_terminal.is_non_terminal() && !non_terminal.is_terminal());
    assert!(Symbol::Epsilon.is_epsilon() && !Symbol::Epsilon.is_end());
    assert!(Symbol::End.is_end() && !Symbol::End.is_epsilon());
    assert!(!action.is_terminal() && !action.is_non_terminal());
    assert!(!action.is_epsilon() && !action.is_end());
    assert_eq!(terminal.as_terminal(), Some(TokenType::Id));
    assert_eq!(non_terminal.as_terminal(), None);
    assert_eq!(non_terminal.as_non_terminal(), Some(&"E".to_string()));
    assert_eq!(terminal.as_non_terminal(), None);
    assert_eq!(Symbol::End.as_non_terminal(), None);
    assert_eq!(non_terminal.duplicate(), non_terminal);
}

#[test]
fn grammar_has_one_production_for_a_cell() {
    let table = ParseTable::create_parse_table("inicio");
    assert_eq!(table.start_symbol, "inicio");
    assert_eq!(
        table.get_entry("E", &TokenType::Id),
        Some(&vec![Symbol::NonTerminal("T".to_string()), Symbol::NonTerminal("E'".to_string())])
    );
    assert_eq!(
        table.get_entry("cmd_ou_bloco", &TokenType::BeginBlockPunctuation),
        Some(&vec![Symbol::NonTerminal("bloco".to_string())])
    );
    assert_eq!(
        table.get_entry("cmd_if'", &TokenType::EndBlockPunctuation),
        Some(&vec![Symbol::Epsilon, Symbol::Action(ActionKind::CreateIf)])
    );
    assert_eq!(
        table.get_entry("F'", &TokenType::ExpOperator),
        Some(&vec![
            Symbol::Terminal(TokenType::ExpOperator),
            Symbol::NonTerminal("U".to_string()),
            Symbol::Action(ActionKind::Math(OperatorKind::Exp)),
            Symbol::NonTerminal("F'".to_string()),
        ])
    );
    assert_eq!(table.get_entry("E", &TokenType::PlusOperator), None);
    assert_eq!(table.get_entry("tipo", &TokenType::Id), None);
}

#[test]
fn table_that_expands_without_end_runs_out_of_steps() {
    let mut table = ParseTable::new("S");
    table.set_entry("S", TokenType::Id, vec![Symbol::NonTerminal("S".to_string())]);
    let mut symbol_table = SymbolTable::new();
    let mut parser = Parser::new("a".to_string(), table, &mut symbol_table);
    assert_eq!(parser.step_limit, u64::MAX);
    parser.step_limit = 1000;
    assert_eq!(
        parser.parse(),
        Err(ParseError::Internal {
            fault: InternalError::StepLimit,
            found: Token::Id { value: "a".to_string(), line: 1, column: 1 },
        })
    );
    assert_eq!(parser.stack, vec![Symbol::End, Symbol::NonTerminal("S".to_string())]);
}

#[test]
fn language_needs_few_steps_for_a_character() {
    let sources = [
        ("x", "E"),
        ("", "decls"),
        ("((((((((a))))))))", "E"),
        ("-----a", "E"),
        ("a+b*c**d-e/f", "E"),
        ("[[[[[[]]]]]]", "bloco"),
        ("if(a<b)then if(c<d)then x:=1;else y:=2;", "cmd_if"),
        (
            "int main()[int a,b,c;float d;a:=1;for(i;0;9;i+1)[b:=b*a;]do c:=c+1;while(c<9);]",
            "inicio",
        ),
    ];
    for (source, start) in sources {
        let mut symbol_table = SymbolTable::new();
        let parse_table = ParseTable::create_parse_table(start);
        let mut parser = Parser::new(source.to_string(), parse_table, &mut symbol_table);
        parser.step_limit = 14 * source.chars().count() as u64 + 31;
        let parsed = parser.parse();
        assert_eq!(parsed.is_ok(), start != "decls", "{}: {:?}", source, parsed);
        assert!(!matches!(
            parsed,
            Err(ParseError::Internal { fault: InternalError::StepLimit, .. })
        ));
    }
}

#[test]
fn language_fails_on_the_source_only() {
    let words = [
        "x", "1", "2.5", "'c'", "+", "-", "*", "**", "/", "(", ")", ":=", ",", ";", "[", "]", "<",
        "==", "if", "then", "else", "elsif", "while", "do", "for", "int", "main", "@", "",
    ];
    let starts = ["E", "cond", "comando", "bloco", "decl", "inicio", "cmd_for", "cmd_if"];
    let mut parsed_well = 0;
    for first in words {
        for second in words {
            for third in words {
                let source = format!("{} {} {}", first, second, third);
                for start in starts {
                    let mut symbol_table = SymbolTable::new();
                    let parse_table = ParseTable::create_parse_table(start);
                    let mut parser = Parser::new(source.clone(), parse_table, &mut symbol_table);
                    parser.step_limit = 14 * source.chars().count() as u64 + 31;
                    match parser.parse() {
                        Ok(_) => {
                            parsed_well += 1;
                            assert!(parser.stack.is_empty());
                        }
                        Err(ParseError::Internal { fault, .. }) => {
                            panic!("{:?} on {:?} from {}", fault, source, start)
                        }
                        Err(_) => {}
                    }
                }
            }
        }
    }
    assert!(parsed_well > 50);
}
