use cereal::lexer::Lexer;
use cereal::lexer::TokenType;

fn assert_tokens(input: &str, expected: Vec<(TokenType, &str)>) {
    let mut lexer = Lexer::new(input);
    let tokens = lexer.tokenize().unwrap();

    assert_eq!(
        tokens.len(),
        expected.len(),
        "Expected {} tokens, got {}",
        expected.len(),
        tokens.len()
    );

    for (token, (expected_type, expected_value)) in tokens.iter().zip(expected.iter()) {
        assert_eq!(
            token.token_type, *expected_type,
            "Expected token type {:?}, got {:?}",
            expected_type, token.token_type
        );
        assert_eq!(
            token.value, *expected_value,
            "Expected token value {}, got {}",
            expected_value, token.value
        );
    }
}

#[test]
fn test_empty_input() {
    assert_tokens("", vec![]);
    assert_tokens("    ", vec![]);
    assert_tokens("\n\t\r", vec![]);
}

#[test]
fn test_commands() {
    assert_tokens("DEF", vec![(TokenType::Command, "DEF")]);
    assert_tokens("MOV", vec![(TokenType::Command, "MOV")]);
    assert_tokens("EXEC", vec![(TokenType::Command, "EXEC")]);
}

#[test]
fn test_identifiers() {
    assert_tokens("x", vec![(TokenType::Identifier, "x")]);
    assert_tokens("variable_name", vec![(TokenType::Identifier, "variable_name")]);
    assert_tokens("abc123", vec![(TokenType::Identifier, "abc123")]);
}

#[test]
fn test_strings() {
    assert_tokens("\"Hello\"", vec![(TokenType::String, "Hello")]);
    assert_tokens("\"Hello, World!\"", vec![(TokenType::String, "Hello, World!")]);
    assert_tokens(
        "\"Escaped \\\"quote\\\"\"",
        vec![(TokenType::String, "Escaped \"quote\"")],
    );
}

#[test]
fn test_variables() {
    assert_tokens("$x", vec![(TokenType::Variable, "$x")]);
    assert_tokens("$var_name", vec![(TokenType::Variable, "$var_name")]);
    assert_tokens("$abc123", vec![(TokenType::Variable, "$abc123")]);
}

#[test]
fn test_macros() {
    assert_tokens(
        "!macro",
        vec![(TokenType::Macro, "!"), (TokenType::Identifier, "macro")],
    );
}

#[test]
fn lexer_test_test_comments() {
    assert_tokens("// This is a comment", vec![]);
    assert_tokens("-- This is also a comment", vec![]);
    assert_tokens(
        "DEF x // with comment",
        vec![(TokenType::Command, "DEF"), (TokenType::Identifier, "x")],
    );
}

#[test]
fn test_complex_line() {
    assert_tokens(
        "DEF greeting \"Hello, $name!\"",
        vec![
            (TokenType::Command, "DEF"),
            (TokenType::Identifier, "greeting"),
            (TokenType::String, "Hello, $name!"),
        ],
    );
}

#[test]
fn test_invalid_string() {
    let mut lexer = Lexer::new("\"Unterminated string");
    assert!(lexer.tokenize().is_err());

    let mut lexer = Lexer::new("\"Invalid \\z escape\"");
    assert!(lexer.tokenize().is_err());
}

#[test]
fn test_multiple_tokens_per_line() {
    assert_tokens(
        "MOV x $value",
        vec![
            (TokenType::Command, "MOV"),
            (TokenType::Identifier, "x"),
            (TokenType::Variable, "$value"),
        ],
    );
}

#[test]
fn test_lexer_error_messages() {
    let mut lexer = Lexer::new("\"oops");
    assert_eq!(lexer.tokenize().unwrap_err(), "Unterminated string literal");

    let mut lexer = Lexer::new("\"bad \\q\"");
    assert_eq!(lexer.tokenize().unwrap_err(), "Invalid escape sequence: \\q");
}

#[test]
fn test_string_escapes() {
    assert_tokens("\"a\\nb\\tc\\rd\\\\e\"", vec![(TokenType::String, "a\nb\tc\rd\\e")]);
}

#[test]
fn test_symbols_and_digits() {
    assert_tokens(
        "( 1",
        vec![
            (TokenType::Symbol('('), "("),
            (TokenType::Symbol('1'), "1"),
        ],
    );
}

#[test]
fn test_tokenize_repeated_runs_agree() {
    let input = "DEF greeting \"Hello, $name!\" // tail";
    let first = Lexer::new(input).tokenize().unwrap();
    let second = Lexer::new(input).tokenize().unwrap();
    assert_eq!(first.len(), second.len());
    for (a, b) in first.iter().zip(second.iter()) {
        assert_eq!(a.token_type, b.token_type);
        assert_eq!(a.value, b.value);
    }
}
