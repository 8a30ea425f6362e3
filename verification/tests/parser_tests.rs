use cereal::command::Command;
use cereal::parser::Parser;

fn assert_command_name(result: Result<Option<Command>, String>, expected_name: &str) {
    match result {
        Ok(Some(command)) => assert_eq!(command.name(), expected_name),
        Ok(None) => panic!("Expected command, got None"),
        Err(e) => panic!("Expected command, got error: {}", e),
    }
}

fn assert_is_none(result: Result<Option<Command>, String>) {
    match result {
        Ok(None) => (),
        Ok(Some(command)) => panic!("Expected None, got command: {}", command.name()),
        Err(e) => panic!("Expected None, got error: {}", e),
    }
}

#[test]
fn test_empty_line() {
    let mut parser = Parser::new();
    assert_is_none(parser.parse_line(""));
    assert_is_none(parser.parse_line("   "));
}

#[test]
fn parser_test_test_comments() {
    let mut parser = Parser::new();
    assert_is_none(parser.parse_line("// comment"));
    assert_is_none(parser.parse_line("-- comment"));
    assert_is_none(parser.parse_line("   // comment"));
}

#[test]
fn test_basic_commands() {
    let mut parser = Parser::new();

    assert_command_name(parser.parse_line("MOV x 42"), "MOV");
    assert_command_name(parser.parse_line("DEF var value"), "DEF");
    assert_command_name(parser.parse_line("EXEC echo hello"), "EXEC");
}

#[test]
fn test_macro_expansion() {
    let mut parser = Parser::new();
    let result = parser.parse_line("$httpget https://example.com").unwrap().unwrap();

    // A macro expands to a composite command.
    assert_eq!(result.name(), "MULTI");
}

#[test]
fn test_invalid_commands() {
    let mut parser = Parser::new();

    assert!(parser.parse_line("INVALID_COMMAND").is_err());

    assert!(parser.parse_line("MOV").is_err());
    assert!(parser.parse_line("DEF").is_err());
}

#[test]
fn test_argument_handling() {
    let mut parser = Parser::new();

    parser.parse_line("MOV x 42").unwrap();
    let args = parser.get_last_args().unwrap();
    assert_eq!(args, vec!["MOV", "x", "42"]);
}

#[test]
fn test_command_with_spaces() {
    let mut parser = Parser::new();

    assert_command_name(parser.parse_line("DEF greeting Hello, World!"), "DEF");
    assert_command_name(parser.parse_line("EXEC echo   multiple   spaces"), "EXEC");
}

#[test]
fn test_line_number_tracking() {
    let mut parser = Parser::new();

    parser.parse_line("MOV x 42").unwrap();
    parser.parse_line("").unwrap();
    parser.parse_line("// comment").unwrap();
    parser.parse_line("DEF var value").unwrap();

    let result = parser.parse_line("EXEC echo test").unwrap();
    assert!(result.is_some());
}

#[test]
fn test_factory_error_messages() {
    let mut parser = Parser::new();
    assert_eq!(
        parser.parse_line("DEF x").err().unwrap(),
        "DEF requires variable name and value"
    );
    assert_eq!(parser.parse_line("MOV x").err().unwrap(), "MOV requires two arguments");
    assert_eq!(parser.parse_line("EQ a").err().unwrap(), "EQ requires two arguments");
    assert_eq!(
        parser.parse_line("NEQ a b c").err().unwrap(),
        "NEQ requires two arguments"
    );
    assert_eq!(
        parser.parse_line("IF x EQUALS y").err().unwrap(),
        "IF requires a condition variable"
    );
    assert_eq!(
        parser.parse_line("FN broken").err().unwrap(),
        "Function definition must be in format: FN name DO"
    );
    assert_eq!(parser.parse_line("CALL").err().unwrap(), "CALL requires a function name");
    assert_eq!(
        parser.parse_line("INPUT").err().unwrap(),
        "INPUT requires a variable name"
    );
    assert_eq!(
        parser.parse_line("LIBCALL").err().unwrap(),
        "LIBCALL requires a library name"
    );
    assert_eq!(
        parser.parse_line("UNHEARD_OF x").err().unwrap(),
        "Unknown command: UNHEARD_OF"
    );
    assert_eq!(parser.parse_line("!").err().unwrap(), "Empty macro");
}

#[test]
fn test_keyword_lookup_is_case_insensitive() {
    let mut parser = Parser::new();
    assert_command_name(parser.parse_line("def x 1"), "DEF");
    assert_command_name(parser.parse_line("pRiNt hello"), "PRINT");
}

#[test]
fn test_bang_macro_expansion() {
    let mut parser = Parser::new();
    let result = parser.parse_line("!greet World").unwrap().unwrap();
    assert_eq!(result.name(), "MULTI");
}
