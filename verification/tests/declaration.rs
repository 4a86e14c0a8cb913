use serde_versioned::declaration::{
    extract_versions, Attribute, Data, DeriveInput, Fields, Malformed, Meta, Problem, Slot,
    SyntaxError, SyntaxErrorKind, VersionsList,
};
use serde_versioned::token::{visible_tokens, Delimiter, Token};

fn word(text: &str) -> Token {
    Token::Ident(text.to_string())
}

fn comma() -> Token {
    Token::Punct(',')
}

fn open() -> Token {
    Token::Open(Delimiter::Bracket)
}

fn close() -> Token {
    Token::Close(Delimiter::Bracket)
}

fn head() -> Vec<Token> {
    vec![word("versions"), Token::Punct('='), open()]
}

fn list(items: Vec<Token>) -> Vec<Token> {
    let mut tokens = head();
    tokens.extend(items);
    tokens.push(close());
    tokens
}

fn slot(tag: &str, shape: &str) -> Slot {
    Slot { tag: tag.to_string(), shape: shape.to_string() }
}

fn syntax(kind: SyntaxErrorKind, at: usize) -> Result<VersionsList, SyntaxError> {
    Err(SyntaxError { kind, at })
}

fn versioned(tokens: Vec<Token>) -> Attribute {
    Attribute { path: "versioned".to_string(), meta: Meta::List(tokens) }
}

fn declaration(attrs: Vec<Attribute>) -> DeriveInput {
    DeriveInput {
        attrs,
        vis: "pub".to_string(),
        ident: "Setting".to_string(),
        data: Data::Struct(Fields::Named(vec!["value".to_string()])),
    }
}

#[test]
fn parses_names_in_order_and_numbers_them_from_one() {
    let parsed = VersionsList::parse(&list(vec![word("UserV1"), comma(), word("UserV2")]));
    assert_eq!(
        parsed,
        Ok(VersionsList { versions: vec![slot("1", "UserV1"), slot("2", "UserV2")] })
    );
}

#[test]
fn parses_a_single_name() {
    let parsed = VersionsList::parse(&list(vec![word("Only")]));
    assert_eq!(parsed, Ok(VersionsList { versions: vec![slot("1", "Only")] }));
}

#[test]
fn parses_a_trailing_comma() {
    let parsed = VersionsList::parse(&list(vec![word("A"), comma(), word("B"), comma()]));
    assert_eq!(parsed, Ok(VersionsList { versions: vec![slot("1", "A"), slot("2", "B")] }));
}

#[test]
fn parses_an_empty_list_as_no_slots() {
    let parsed = VersionsList::parse(&list(vec![]));
    assert_eq!(parsed, Ok(VersionsList { versions: vec![] }));
}

#[test]
fn numbers_past_nine_slots_in_decimal() {
    let mut items = Vec::new();
    for i in 0..12 {
        if i > 0 {
            items.push(comma());
        }
        items.push(word(&format!("V{}", i + 1)));
    }
    let parsed = VersionsList::parse(&list(items)).unwrap();
    assert_eq!(parsed.versions.len(), 12);
    assert_eq!(parsed.versions[8], slot("9", "V9"));
    assert_eq!(parsed.versions[9], slot("10", "V10"));
    assert_eq!(parsed.versions[11], slot("12", "V12"));
}

#[test]
fn rejects_no_tokens() {
    assert_eq!(VersionsList::parse(&vec![]), syntax(SyntaxErrorKind::MissingName, 0));
}

#[test]
fn rejects_a_list_that_starts_with_no_word() {
    let tokens = vec![Token::Literal("\"versions\"".to_string()), Token::Punct('='), open(), close()];
    assert_eq!(VersionsList::parse(&tokens), syntax(SyntaxErrorKind::MissingName, 0));
    let tokens = vec![open(), word("A"), close()];
    assert_eq!(VersionsList::parse(&tokens), syntax(SyntaxErrorKind::MissingName, 0));
}

#[test]
fn rejects_another_name_than_versions() {
    let tokens = vec![word("version"), Token::Punct('='), open(), word("A"), close()];
    assert_eq!(VersionsList::parse(&tokens), syntax(SyntaxErrorKind::WrongName, 0));
    let tokens = vec![word("Versions"), Token::Punct('='), open(), word("A"), close()];
    assert_eq!(VersionsList::parse(&tokens), syntax(SyntaxErrorKind::WrongName, 0));
}

#[test]
fn rejects_a_missing_equals_sign() {
    let tokens = vec![word("versions")];
    assert_eq!(VersionsList::parse(&tokens), syntax(SyntaxErrorKind::MissingEquals, 1));
    let tokens = vec![word("versions"), open(), word("A"), close()];
    assert_eq!(VersionsList::parse(&tokens), syntax(SyntaxErrorKind::MissingEquals, 1));
    let tokens = vec![word("versions"), Token::Punct(':'), open(), word("A"), close()];
    assert_eq!(VersionsList::parse(&tokens), syntax(SyntaxErrorKind::MissingEquals, 1));
}

#[test]
fn rejects_a_missing_bracket() {
    let tokens = vec![word("versions"), Token::Punct('=')];
    assert_eq!(VersionsList::parse(&tokens), syntax(SyntaxErrorKind::MissingBracket, 2));
    let tokens = vec![word("versions"), Token::Punct('='), word("A")];
    assert_eq!(VersionsList::parse(&tokens), syntax(SyntaxErrorKind::MissingBracket, 2));
    let tokens = vec![
        word("versions"),
        Token::Punct('='),
        Token::Open(Delimiter::Parenthesis),
        word("A"),
        Token::Close(Delimiter::Parenthesis),
    ];
    assert_eq!(VersionsList::parse(&tokens), syntax(SyntaxErrorKind::MissingBracket, 2));
}

#[test]
fn rejects_what_is_no_bare_type_name() {
    let tokens = list(vec![Token::Literal("1".to_string())]);
    assert_eq!(VersionsList::parse(&tokens), syntax(SyntaxErrorKind::ExpectedTypeName, 3));
    let tokens = list(vec![word("A"), comma(), Token::Literal("\"B\"".to_string())]);
    assert_eq!(VersionsList::parse(&tokens), syntax(SyntaxErrorKind::ExpectedTypeName, 5));
    let tokens = list(vec![comma()]);
    assert_eq!(VersionsList::parse(&tokens), syntax(SyntaxErrorKind::ExpectedTypeName, 3));
    let tokens = list(vec![word("A"), comma(), comma(), word("B")]);
    assert_eq!(VersionsList::parse(&tokens), syntax(SyntaxErrorKind::ExpectedTypeName, 5));
}

#[test]
fn rejects_a_qualified_or_generic_name() {
    let tokens = list(vec![word("old"), Token::Punct(':'), Token::Punct(':'), word("UserV1")]);
    assert_eq!(VersionsList::parse(&tokens), syntax(SyntaxErrorKind::ExpectedComma, 4));
    let tokens = list(vec![word("UserV1"), Token::Punct('<'), word("T"), Token::Punct('>')]);
    assert_eq!(VersionsList::parse(&tokens), syntax(SyntaxErrorKind::ExpectedComma, 4));
    let tokens = list(vec![word("A"), word("B")]);
    assert_eq!(VersionsList::parse(&tokens), syntax(SyntaxErrorKind::ExpectedComma, 4));
}

#[test]
fn rejects_an_unclosed_list() {
    let tokens = head();
    assert_eq!(VersionsList::parse(&tokens), syntax(SyntaxErrorKind::Unclosed, 3));
    let mut tokens = head();
    tokens.push(word("A"));
    assert_eq!(VersionsList::parse(&tokens), syntax(SyntaxErrorKind::Unclosed, 4));
    tokens.push(comma());
    assert_eq!(VersionsList::parse(&tokens), syntax(SyntaxErrorKind::Unclosed, 5));
}

#[test]
fn rejects_tokens_behind_the_list() {
    let mut tokens = list(vec![word("A")]);
    tokens.push(comma());
    assert_eq!(VersionsList::parse(&tokens), syntax(SyntaxErrorKind::TrailingTokens, 5));
    let mut tokens = list(vec![]);
    tokens.push(word("more"));
    assert_eq!(VersionsList::parse(&tokens), syntax(SyntaxErrorKind::TrailingTokens, 4));
}

#[test]
fn rejects_a_wrong_closing_delimiter() {
    let mut tokens = head();
    tokens.push(word("A"));
    tokens.push(Token::Close(Delimiter::Brace));
    assert_eq!(VersionsList::parse(&tokens), syntax(SyntaxErrorKind::ExpectedComma, 4));
    let mut tokens = head();
    tokens.push(Token::Close(Delimiter::Parenthesis));
    assert_eq!(VersionsList::parse(&tokens), syntax(SyntaxErrorKind::ExpectedTypeName, 3));
}

#[test]
fn extracts_the_declared_slots() {
    let input = declaration(vec![versioned(list(vec![word("SettingV1"), comma(), word("SettingV2")]))]);
    assert_eq!(
        extract_versions(&input),
        Ok(vec![slot("1", "SettingV1"), slot("2", "SettingV2")])
    );
}

#[test]
fn extracts_nothing_without_a_versioned_attribute() {
    assert_eq!(extract_versions(&declaration(vec![])), Ok(vec![]));
    let other = Attribute { path: "derive".to_string(), meta: Meta::List(vec![word("Clone")]) };
    assert_eq!(extract_versions(&declaration(vec![other])), Ok(vec![]));
}

#[test]
fn passes_over_other_attributes() {
    let doc = Attribute { path: "doc".to_string(), meta: Meta::NameValue };
    let serde = Attribute {
        path: "serde".to_string(),
        meta: Meta::List(vec![word("versions"), Token::Punct('='), word("broken")]),
    };
    let qualified = Attribute {
        path: "other :: versioned".to_string(),
        meta: Meta::List(vec![word("nothing")]),
    };
    let input = declaration(vec![doc, versioned(list(vec![word("A")])), serde, qualified]);
    assert_eq!(extract_versions(&input), Ok(vec![slot("1", "A")]));
}

#[test]
fn the_last_versioned_attribute_counts() {
    let input = declaration(vec![
        versioned(list(vec![word("A"), comma(), word("B")])),
        versioned(list(vec![word("C")])),
    ]);
    assert_eq!(extract_versions(&input), Ok(vec![slot("1", "C")]));
}

#[test]
fn a_malformed_versioned_attribute_is_an_error() {
    let input = declaration(vec![versioned(vec![word("version"), Token::Punct('='), open(), close()])]);
    assert_eq!(
        extract_versions(&input),
        Err(Malformed {
            attribute: 0,
            problem: Problem::Syntax(SyntaxError { kind: SyntaxErrorKind::WrongName, at: 0 }),
        })
    );
}

#[test]
fn a_malformed_attribute_is_not_mended_by_a_later_one() {
    let doc = Attribute { path: "doc".to_string(), meta: Meta::NameValue };
    let input = declaration(vec![
        doc,
        versioned(list(vec![Token::Literal("1".to_string())])),
        versioned(list(vec![word("A")])),
    ]);
    assert_eq!(
        extract_versions(&input),
        Err(Malformed {
            attribute: 1,
            problem: Problem::Syntax(SyntaxError { kind: SyntaxErrorKind::ExpectedTypeName, at: 3 }),
        })
    );
}

#[test]
fn the_first_malformed_attribute_is_reported() {
    let input = declaration(vec![
        versioned(list(vec![word("A")])),
        Attribute { path: "versioned".to_string(), meta: Meta::Path },
        versioned(vec![]),
    ]);
    assert_eq!(
        extract_versions(&input),
        Err(Malformed { attribute: 1, problem: Problem::NotAList })
    );
}

#[test]
fn a_versioned_attribute_without_a_list_is_malformed() {
    let input = declaration(vec![Attribute { path: "versioned".to_string(), meta: Meta::Path }]);
    assert_eq!(
        extract_versions(&input),
        Err(Malformed { attribute: 0, problem: Problem::NotAList })
    );
    let input = declaration(vec![Attribute { path: "versioned".to_string(), meta: Meta::NameValue }]);
    assert_eq!(
        extract_versions(&input),
        Err(Malformed { attribute: 0, problem: Problem::NotAList })
    );
}

#[test]
fn problems_are_described_in_words() {
    assert_eq!(Problem::NotAList.describe(), "expected an argument list");
    let of = |kind| Problem::Syntax(SyntaxError { kind, at: 0 }).describe();
    assert_eq!(of(SyntaxErrorKind::MissingName), "expected `versions`");
    assert_eq!(of(SyntaxErrorKind::WrongName), "expected `versions`, found another name");
    assert_eq!(of(SyntaxErrorKind::MissingEquals), "expected `=` after `versions`");
    assert_eq!(of(SyntaxErrorKind::MissingBracket), "expected `[` after `=`");
    assert_eq!(of(SyntaxErrorKind::ExpectedTypeName), "expected a bare type name");
    assert_eq!(of(SyntaxErrorKind::ExpectedComma), "expected `,` or `]` after a type name");
    assert_eq!(of(SyntaxErrorKind::Unclosed), "expected `]`");
    assert_eq!(of(SyntaxErrorKind::TrailingTokens), "unexpected tokens after `]`");
}

#[test]
fn invisible_groups_are_transparent() {
    let tokens = list(vec![
        Token::Open(Delimiter::Invisible),
        word("A"),
        Token::Close(Delimiter::Invisible),
        comma(),
        word("B"),
    ]);
    assert_eq!(
        VersionsList::parse(&tokens),
        Ok(VersionsList { versions: vec![slot("1", "A"), slot("2", "B")] })
    );
    let mut wrapped = vec![Token::Open(Delimiter::Invisible)];
    wrapped.extend(list(vec![word("A")]));
    wrapped.push(Token::Close(Delimiter::Invisible));
    assert_eq!(VersionsList::parse(&wrapped), Ok(VersionsList { versions: vec![slot("1", "A")] }));
}

#[test]
fn positions_count_visible_tokens_only() {
    let tokens = list(vec![
        Token::Open(Delimiter::Invisible),
        word("A"),
        Token::Close(Delimiter::Invisible),
        word("B"),
    ]);
    assert_eq!(VersionsList::parse(&tokens), syntax(SyntaxErrorKind::ExpectedComma, 4));
}

#[test]
fn only_invisible_delimiters_are_left_out() {
    let tokens = vec![
        Token::Open(Delimiter::Invisible),
        word("a"),
        Token::Open(Delimiter::Parenthesis),
        Token::Literal("1".to_string()),
        Token::Close(Delimiter::Invisible),
        Token::Punct(';'),
        Token::Close(Delimiter::Parenthesis),
        Token::Open(Delimiter::Brace),
        Token::Close(Delimiter::Brace),
        Token::Open(Delimiter::Bracket),
        Token::Close(Delimiter::Bracket),
    ];
    assert_eq!(
        visible_tokens(&tokens),
        vec![
            word("a"),
            Token::Open(Delimiter::Parenthesis),
            Token::Literal("1".to_string()),
            Token::Punct(';'),
            Token::Close(Delimiter::Parenthesis),
            Token::Open(Delimiter::Brace),
            Token::Close(Delimiter::Brace),
            Token::Open(Delimiter::Bracket),
            Token::Close(Delimiter::Bracket),
        ]
    );
    assert_eq!(visible_tokens(&[]), Vec::<Token>::new());
}

#[test]
fn a_misspelled_key_is_named_in_the_message() {
    let tokens = vec![word("version"), Token::Punct('='), open(), word("UserV1"), close()];
    let error = VersionsList::parse(&tokens).unwrap_err();
    assert_eq!(error, SyntaxError { kind: SyntaxErrorKind::WrongName, at: 0 });
    assert_eq!(
        error.message(&tokens),
        "Expected `versions`, found `version`. The correct syntax is: #[versioned(versions = [Version1, Version2, ...])]"
    );
    assert!(error.message(&tokens).contains("Expected `versions`, found `version`"));
}

#[test]
fn the_word_found_is_read_behind_invisible_delimiters() {
    let tokens = vec![
        Token::Open(Delimiter::Invisible),
        word("Versions"),
        Token::Close(Delimiter::Invisible),
        Token::Punct('='),
        open(),
        close(),
    ];
    let error = VersionsList::parse(&tokens).unwrap_err();
    assert_eq!(
        error.message(&tokens),
        "Expected `versions`, found `Versions`. The correct syntax is: #[versioned(versions = [Version1, Version2, ...])]"
    );
}

#[test]
fn other_syntax_errors_are_described() {
    let tokens = vec![word("versions"), word("UserV1")];
    let error = VersionsList::parse(&tokens).unwrap_err();
    assert_eq!(
        error.message(&tokens),
        "Malformed `versions` list: expected `=` after `versions`. The correct syntax is: #[versioned(versions = [Version1, Version2, ...])]"
    );
    let tokens = list(vec![word("A"), word("B")]);
    let error = VersionsList::parse(&tokens).unwrap_err();
    assert_eq!(
        error.message(&tokens),
        "Malformed `versions` list: expected `,` or `]` after a type name. The correct syntax is: #[versioned(versions = [Version1, Version2, ...])]"
    );
    let error = VersionsList::parse(&[]).unwrap_err();
    assert_eq!(
        error.message(&[]),
        "Malformed `versions` list: expected `versions`. The correct syntax is: #[versioned(versions = [Version1, Version2, ...])]"
    );
}

#[test]
fn a_wrong_name_that_is_not_in_the_tokens_is_described() {
    let error = SyntaxError { kind: SyntaxErrorKind::WrongName, at: 7 };
    assert_eq!(
        error.message(&[word("version")]),
        "Malformed `versions` list: expected `versions`, found another name. The correct syntax is: #[versioned(versions = [Version1, Version2, ...])]"
    );
    let error = SyntaxError { kind: SyntaxErrorKind::WrongName, at: 0 };
    assert_eq!(
        error.message(&[Token::Punct('=')]),
        "Malformed `versions` list: expected `versions`, found another name. The correct syntax is: #[versioned(versions = [Version1, Version2, ...])]"
    );
}
