use compiler::lexer::display::decimal_text;
use compiler::{
    ErrorKind, KeywordKind, LexError, Lexer, NumberKind, OperatorKind, PunctuationKind,
    RelopKind, SymbolTable, Token, TokenType,
};

fn tokens_of(source: &str) -> (Vec<Token>, Option<LexError>) {
    let mut symbol_table = SymbolTable::new();
    let mut lexer = Lexer::new(source.to_string(), &mut symbol_table);
    let mut tokens = Vec::new();
    loop {
        match lexer.get_next_token() {
            Ok(Token::Eof) => {
                tokens.push(Token::Eof);
                return (tokens, None);
            }
            Ok(token) => tokens.push(token),
            Err(error) => return (tokens, Some(error)),
        }
    }
}

fn only_token(source: &str) -> Token {
    let (tokens, error) = tokens_of(source);
    assert_eq!(error, None);
    assert_eq!(tokens.len(), 2, "one token and the end of input");
    assert_eq!(tokens[1], Token::Eof);
    tokens[0].clone()
}

fn failure_of(source: &str) -> LexError {
    let (tokens, error) = tokens_of(source);
    assert!(tokens.is_empty());
    error.unwrap()
}

#[test]
fn single_operators_are_read_whole() {
    let cases = [
        (")", OperatorKind::Pardir),
        ("(", OperatorKind::Paresq),
        ("*", OperatorKind::Mult),
        ("**", OperatorKind::Exp),
        ("/", OperatorKind::Div),
        ("+", OperatorKind::Sum),
        ("-", OperatorKind::Sub),
    ];
    for (source, kind) in cases {
        assert_eq!(only_token(source), Token::Operator { kind, line: 1, column: 1 });
    }
}

#[test]
fn operator_leaves_nothing_pending() {
    let mut symbol_table = SymbolTable::new();
    let mut lexer = Lexer::new(")".to_string(), &mut symbol_table);
    assert_eq!(
        lexer.get_next_token(),
        Ok(Token::Operator { kind: OperatorKind::Pardir, line: 1, column: 1 })
    );
    assert_eq!(lexer.prox, 1);
    assert_eq!(lexer.prox_char(), None);
    assert_eq!(lexer.get_next_token(), Ok(Token::Eof));
    assert_eq!(lexer.get_next_token(), Ok(Token::Eof));
}

#[test]
fn star_gives_back_the_character_behind_it() {
    let (tokens, error) = tokens_of("*x");
    assert_eq!(error, None);
    assert_eq!(
        tokens,
        vec![
            Token::Operator { kind: OperatorKind::Mult, line: 1, column: 1 },
            Token::Id { value: "x".to_string(), line: 1, column: 2 },
            Token::Eof,
        ]
    );
}

#[test]
fn three_stars_are_a_power_and_a_product() {
    let (tokens, _) = tokens_of("***");
    assert_eq!(
        tokens,
        vec![
            Token::Operator { kind: OperatorKind::Exp, line: 1, column: 1 },
            Token::Operator { kind: OperatorKind::Mult, line: 1, column: 3 },
            Token::Eof,
        ]
    );
}

#[test]
fn relational_operators_of_two_characters() {
    let cases = [
        ("!=", RelopKind::NE),
        ("<=", RelopKind::LE),
        (">=", RelopKind::GE),
        ("==", RelopKind::EQ),
        ("<", RelopKind::LT),
        (">", RelopKind::GT),
    ];
    for (source, kind) in cases {
        assert_eq!(only_token(source), Token::Relop { kind, line: 1, column: 1 });
    }
}

#[test]
fn relational_operator_falls_back_to_one_character() {
    let (tokens, _) = tokens_of("<x>2");
    assert_eq!(
        tokens,
        vec![
            Token::Relop { kind: RelopKind::LT, line: 1, column: 1 },
            Token::Id { value: "x".to_string(), line: 1, column: 2 },
            Token::Relop { kind: RelopKind::GT, line: 1, column: 3 },
            Token::Number { value: "2".to_string(), kind: NumberKind::Integer, line: 1, column: 4 },
            Token::Eof,
        ]
    );
}

#[test]
fn lone_exclamation_mark_fails() {
    let expected = LexError {
        value: "!".to_string(),
        kind: ErrorKind::InvalidTokenAfterExclamation,
        line: 1,
        column: 1,
    };
    assert_eq!(failure_of("!"), expected);
    assert_eq!(failure_of("!x"), expected);
}

#[test]
fn lone_equal_sign_fails() {
    let expected =
        LexError { value: "=".to_string(), kind: ErrorKind::MissingEqual, line: 1, column: 1 };
    assert_eq!(failure_of("="), expected);
    assert_eq!(failure_of("= 1"), expected);
}

#[test]
fn lone_colon_fails() {
    assert_eq!(
        failure_of(":"),
        LexError { value: ":".to_string(), kind: ErrorKind::MissingEqual, line: 1, column: 1 }
    );
    assert_eq!(
        only_token(":="),
        Token::Punctuation { kind: PunctuationKind::Assigment, line: 1, column: 1 }
    );
}

#[test]
fn punctuation_marks() {
    let cases = [
        (",", PunctuationKind::Comma),
        (";", PunctuationKind::EndExp),
        ("[", PunctuationKind::BeginBlock),
        ("]", PunctuationKind::EndBlock),
    ];
    for (source, kind) in cases {
        assert_eq!(only_token(source), Token::Punctuation { kind, line: 1, column: 1 });
    }
}

#[test]
fn float_keeps_its_text() {
    assert_eq!(
        only_token("3.14E-2"),
        Token::Number {
            value: "3.14E-2".to_string(),
            kind: NumberKind::Float,
            line: 1,
            column: 1
        }
    );
}

#[test]
fn numbers_of_every_shape() {
    let cases = [
        ("0", NumberKind::Integer),
        ("0042", NumberKind::Integer),
        ("3.5", NumberKind::Float),
        ("3E5", NumberKind::Float),
        ("3E+5", NumberKind::Float),
        ("54.90E-22", NumberKind::Float),
    ];
    for (source, kind) in cases {
        assert_eq!(
            only_token(source),
            Token::Number { value: source.to_string(), kind, line: 1, column: 1 }
        );
    }
}

#[test]
fn lower_case_e_is_no_exponent() {
    let (tokens, _) = tokens_of("3e5");
    assert_eq!(
        tokens,
        vec![
            Token::Number { value: "3".to_string(), kind: NumberKind::Integer, line: 1, column: 1 },
            Token::Id { value: "e5".to_string(), line: 1, column: 2 },
            Token::Eof,
        ]
    );
}

#[test]
fn fraction_without_digits_fails() {
    let expected = LexError {
        value: "3.".to_string(),
        kind: ErrorKind::FractionEndedWithADot,
        line: 1,
        column: 1,
    };
    assert_eq!(failure_of("3."), expected);
    assert_eq!(failure_of("3.x"), expected);
    assert_eq!(failure_of("3.E5"), expected);
}

#[test]
fn exponent_without_digits_fails() {
    assert_eq!(
        failure_of("3E"),
        LexError {
            value: "3E".to_string(),
            kind: ErrorKind::EndedWithEExpoent,
            line: 1,
            column: 1
        }
    );
    assert_eq!(
        failure_of("3.5E;"),
        LexError {
            value: "3.5E".to_string(),
            kind: ErrorKind::EndedWithEExpoent,
            line: 1,
            column: 1
        }
    );
}

#[test]
fn exponent_sign_without_digits_fails() {
    assert_eq!(
        failure_of("3E+"),
        LexError {
            value: "3E+".to_string(),
            kind: ErrorKind::EndedAfterExpoentSign,
            line: 1,
            column: 1
        }
    );
    assert_eq!(
        failure_of("3E-x"),
        LexError {
            value: "3E-".to_string(),
            kind: ErrorKind::EndedAfterExpoentSign,
            line: 1,
            column: 1
        }
    );
}

#[test]
fn character_literals() {
    assert_eq!(only_token("'a'"), Token::Char { value: 'a', line: 1, column: 1 });
    assert_eq!(only_token("' '"), Token::Char { value: ' ', line: 1, column: 1 });
}

#[test]
fn unclosed_character_literals_fail() {
    let cases = [("'", "'"), ("'a", "'a"), ("'ab'", "'a"), ("''", "''"), ("'''", "''")];
    for (source, value) in cases {
        assert_eq!(
            failure_of(source),
            LexError {
                value: value.to_string(),
                kind: ErrorKind::UnclosedChar,
                line: 1,
                column: 1
            }
        );
    }
}

#[test]
fn unknown_characters_fail() {
    let cases = ["@", "{", "{x", "}", "%", "#", ".", "é"];
    for source in cases {
        let first: String = source.chars().take(1).collect();
        assert_eq!(
            failure_of(source),
            LexError { value: first, kind: ErrorKind::UnknownToken, line: 1, column: 1 }
        );
    }
}

#[test]
fn every_keyword_is_recognised() {
    let cases = [
        ("if", KeywordKind::If),
        ("int", KeywordKind::Int),
        ("float", KeywordKind::Float),
        ("char", KeywordKind::Char),
        ("then", KeywordKind::Then),
        ("tipo", KeywordKind::Type),
        ("else", KeywordKind::Else),
        ("elsif", KeywordKind::Elsif),
        ("while", KeywordKind::While),
        ("for", KeywordKind::For),
        ("do", KeywordKind::Do),
        ("main", KeywordKind::Main),
        ("void", KeywordKind::Void),
    ];
    for (source, kind) in cases {
        assert_eq!(only_token(source), Token::Keyword { kind, line: 1, column: 1 });
    }
}

#[test]
fn longer_words_are_identifiers() {
    let cases = ["iffy", "i", "in", "int_", "mainx", "elsi", "elsif2", "While", "_", "_x1", "x_1"];
    for source in cases {
        assert_eq!(
            only_token(source),
            Token::Id { value: source.to_string(), line: 1, column: 1 }
        );
    }
}

#[test]
fn blanks_separate_tokens() {
    let (tokens, error) = tokens_of(" \t x\r\n\x0C y ");
    assert_eq!(error, None);
    assert_eq!(
        tokens,
        vec![
            Token::Id { value: "x".to_string(), line: 1, column: 4 },
            Token::Id { value: "y".to_string(), line: 2, column: 3 },
            Token::Eof,
        ]
    );
}

#[test]
fn comment_over_several_lines_is_skipped() {
    let (tokens, error) = tokens_of("{% one\n % } two %%}\n x");
    assert_eq!(error, None);
    assert_eq!(
        tokens,
        vec![Token::Id { value: "x".to_string(), line: 3, column: 2 }, Token::Eof]
    );
}

#[test]
fn comments_between_tokens() {
    let (tokens, error) = tokens_of("a{%%}b {%x%}{%y%} c");
    assert_eq!(error, None);
    assert_eq!(
        tokens,
        vec![
            Token::Id { value: "a".to_string(), line: 1, column: 1 },
            Token::Id { value: "b".to_string(), line: 1, column: 6 },
            Token::Id { value: "c".to_string(), line: 1, column: 19 },
            Token::Eof,
        ]
    );
}

#[test]
fn unclosed_comment_runs_to_the_end() {
    let (tokens, error) = tokens_of("x {% never closed\n y");
    assert_eq!(error, None);
    assert_eq!(
        tokens,
        vec![Token::Id { value: "x".to_string(), line: 1, column: 1 }, Token::Eof]
    );
}

#[test]
fn empty_source_is_the_end_of_input() {
    let (tokens, error) = tokens_of("");
    assert_eq!(error, None);
    assert_eq!(tokens, vec![Token::Eof]);
}

#[test]
fn failure_carries_its_place() {
    let (tokens, error) = tokens_of("x :=\n  3.;");
    assert_eq!(tokens.len(), 2);
    assert_eq!(
        error,
        Some(LexError {
            value: "3.".to_string(),
            kind: ErrorKind::FractionEndedWithADot,
            line: 2,
            column: 3
        })
    );
}

#[test]
fn reading_goes_on_behind_a_failure() {
    let mut symbol_table = SymbolTable::new();
    let mut lexer = Lexer::new("3.x".to_string(), &mut symbol_table);
    assert!(lexer.get_next_token().is_err());
    assert_eq!(
        lexer.get_next_token(),
        Ok(Token::Id { value: "x".to_string(), line: 1, column: 3 })
    );
}

#[test]
fn cursor_counts_lines_and_columns() {
    let mut symbol_table = SymbolTable::new();
    let mut lexer = Lexer::new("a\nbc".to_string(), &mut symbol_table);
    assert_eq!((lexer.line, lexer.column), (1, 1));
    assert_eq!(lexer.prox_char(), Some('a'));
    assert_eq!((lexer.line, lexer.column), (1, 2));
    assert_eq!(lexer.prox_char(), Some('\n'));
    assert_eq!((lexer.line, lexer.column), (2, 1));
    assert_eq!(lexer.prox_char(), Some('b'));
    assert_eq!(lexer.prox_char(), Some('c'));
    assert_eq!((lexer.line, lexer.column), (2, 3));
    assert_eq!(lexer.prox_char(), None);
    assert_eq!((lexer.line, lexer.column), (2, 3));
}

#[test]
fn symbol_table_keeps_the_first_occurrence() {
    let mut symbol_table = SymbolTable::new();
    {
        let mut lexer = Lexer::new("x 12 'c' x if 12 + c".to_string(), &mut symbol_table);
        loop {
            match lexer.get_next_token() {
                Ok(Token::Eof) => break,
                Ok(_) => {}
                Err(error) => panic!("{:?}", error),
            }
        }
    }
    assert_eq!(symbol_table.len(), 3);
    assert_eq!(
        symbol_table.get("x"),
        Some(&Token::Id { value: "x".to_string(), line: 1, column: 1 })
    );
    assert_eq!(
        symbol_table.get("12"),
        Some(&Token::Number {
            value: "12".to_string(),
            kind: NumberKind::Integer,
            line: 1,
            column: 3
        })
    );
    assert_eq!(symbol_table.get("c"), Some(&Token::Char { value: 'c', line: 1, column: 6 }));
    assert!(!symbol_table.contains("if"));
    assert!(!symbol_table.contains("+"));
}

#[test]
fn symbol_table_is_shared_by_lexers() {
    let mut symbol_table = SymbolTable::new();
    {
        let mut lexer = Lexer::new("a".to_string(), &mut symbol_table);
        assert!(lexer.get_next_token().is_ok());
    }
    {
        let mut lexer = Lexer::new("\n a b".to_string(), &mut symbol_table);
        assert!(lexer.get_next_token().is_ok());
        assert!(lexer.get_next_token().is_ok());
    }
    assert_eq!(symbol_table.len(), 2);
    assert_eq!(
        symbol_table.get("a"),
        Some(&Token::Id { value: "a".to_string(), line: 1, column: 1 })
    );
    assert_eq!(
        symbol_table.get("b"),
        Some(&Token::Id { value: "b".to_string(), line: 2, column: 4 })
    );
}

#[test]
fn symbol_table_enters_only_what_is_absent() {
    let mut symbol_table = SymbolTable::new();
    assert_eq!(symbol_table.len(), 0);
    symbol_table.insert_if_absent("k".to_string(), Token::Eof);
    let later = Token::Id { value: "k".to_string(), line: 1, column: 1 };
    symbol_table.insert_if_absent("k".to_string(), later);
    assert_eq!(symbol_table.len(), 1);
    assert_eq!(symbol_table.get("k"), Some(&Token::Eof));
    assert_eq!(symbol_table.get("other"), None);
}

#[test]
fn text_of_a_token_reads_as_the_same_category() {
    let source = "int main() [ x := 'a'; y := 3.5E-1 ** 2; if (x <= y) then z := x / 2; \
                  while (a != b) do [ ] for do else elsif float char void tipo then \
                  a >= b == c < d > e , - + * ]";
    let (tokens, error) = tokens_of(source);
    assert_eq!(error, None);
    assert!(tokens.len() > 50);
    for token in tokens {
        let (again, error) = tokens_of(&token.lexeme());
        assert_eq!(error, None);
        assert_eq!(again[0].token_type(), token.token_type());
        assert_eq!(again[0].lexeme(), token.lexeme());
        if token != Token::Eof {
            assert_eq!(again.len(), 2);
        }
    }
}

#[test]
fn texts_of_tokens() {
    assert_eq!(Token::Char { value: 'q', line: 4, column: 2 }.lexeme(), "'q'");
    assert_eq!(Token::Id { value: "abc".to_string(), line: 1, column: 1 }.lexeme(), "abc");
    assert_eq!(Token::Relop { kind: RelopKind::NE, line: 1, column: 1 }.lexeme(), "!=");
    assert_eq!(Token::Operator { kind: OperatorKind::Exp, line: 1, column: 1 }.lexeme(), "**");
    assert_eq!(
        Token::Punctuation { kind: PunctuationKind::Assigment, line: 1, column: 1 }.lexeme(),
        ":="
    );
    assert_eq!(Token::Keyword { kind: KeywordKind::Type, line: 1, column: 1 }.lexeme(), "tipo");
    assert_eq!(Token::Eof.lexeme(), "");
}

#[test]
fn categories_of_tokens() {
    assert_eq!(
        TokenType::from(Token::Id { value: "a".to_string(), line: 1, column: 1 }),
        TokenType::Id
    );
    assert_eq!(
        TokenType::from(Token::Char { value: 'a', line: 1, column: 1 }),
        TokenType::CharValue
    );
    assert_eq!(
        TokenType::from(Token::Number {
            value: "1.5".to_string(),
            kind: NumberKind::Float,
            line: 1,
            column: 1
        }),
        TokenType::Number
    );
    assert_eq!(
        TokenType::from(Token::Relop { kind: RelopKind::GE, line: 1, column: 1 }),
        TokenType::GEOperator
    );
    assert_eq!(
        TokenType::from(Token::Operator { kind: OperatorKind::Paresq, line: 1, column: 1 }),
        TokenType::LParenOperator
    );
    assert_eq!(
        TokenType::from(Token::Punctuation { kind: PunctuationKind::EndExp, line: 1, column: 1 }),
        TokenType::SemiColonPunctuation
    );
    assert_eq!(
        TokenType::from(Token::Keyword { kind: KeywordKind::Elsif, line: 1, column: 1 }),
        TokenType::ElsifKeyword
    );
    assert_eq!(TokenType::from(Token::Eof), TokenType::Eof);
    assert_eq!(ErrorKind::UnknownToken.token_type(), TokenType::UknownTokenErr);
    assert_eq!(ErrorKind::MissingEqual.token_type(), TokenType::MissingEqualErr);
}

#[test]
fn tokens_shown_to_a_reader() {
    assert_eq!(
        Token::Id { value: "abc".to_string(), line: 1, column: 1 }.to_text(),
        "<Id, value='abc', line=1, column=1>"
    );
    assert_eq!(
        Token::Char { value: 'q', line: 12, column: 340 }.to_text(),
        "<Char, value='q', line=12, column=340>"
    );
    assert_eq!(
        Token::Number {
            value: "3.14E-2".to_string(),
            kind: NumberKind::Float,
            line: 1000,
            column: 9
        }
        .to_text(),
        "<Number, value='3.14E-2', kind=Float, line=1000, column=9>"
    );
    assert_eq!(
        Token::Relop { kind: RelopKind::LE, line: 7, column: 10 }.to_text(),
        "<Relop, value='<=', kind=LE, line=7, column=10>"
    );
    assert_eq!(
        Token::Operator { kind: OperatorKind::Paresq, line: 2, column: 101 }.to_text(),
        "<Operator, value='(', kind=Paresq, line=2, column=101>"
    );
    assert_eq!(
        Token::Punctuation { kind: PunctuationKind::Assigment, line: 3, column: 4 }.to_text(),
        "<Punctuation, value=':=', kind=Assigment, line=3, column=4>"
    );
    assert_eq!(
        Token::Keyword { kind: KeywordKind::Type, line: 5, column: 6 }.to_text(),
        "<Keyword, value='tipo', kind=Type, line=5, column=6>"
    );
    assert_eq!(Token::Eof.to_text(), "End of file");
    assert_eq!(
        LexError {
            value: "3.".to_string(),
            kind: ErrorKind::FractionEndedWithADot,
            line: 18446744073709551615,
            column: 0
        }
        .to_text(),
        "<Error, value='3.', kind=FractionEndedWithADot, line=18446744073709551615, column=0>"
    );
}

#[test]
fn names_of_kinds() {
    assert_eq!(NumberKind::Integer.name(), "Integer");
    assert_eq!(RelopKind::NE.name(), "NE");
    assert_eq!(OperatorKind::Pardir.name(), "Pardir");
    assert_eq!(PunctuationKind::EndBlock.name(), "EndBlock");
    assert_eq!(KeywordKind::Elsif.name(), "Elsif");
    assert_eq!(ErrorKind::EndedWithEExpoent.name(), "EndedWithEExpoent");
    for kind in [KeywordKind::If, KeywordKind::Main, KeywordKind::Void, KeywordKind::Do] {
        assert_eq!(kind.name(), format!("{:?}", kind));
    }
}

#[test]
fn numbers_written_in_base_ten() {
    assert_eq!(decimal_text(0), "0");
    assert_eq!(decimal_text(9), "9");
    assert_eq!(decimal_text(10), "10");
    assert_eq!(decimal_text(1234567890), "1234567890");
    assert_eq!(decimal_text(usize::MAX), usize::MAX.to_string());
}
