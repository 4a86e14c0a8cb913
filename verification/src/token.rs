//! The tokens of an attribute's argument list, as plain values.
//!
//! A delimited group is flattened: its opening and closing delimiter are
//! tokens of their own around the tokens it holds. An invisible group is
//! transparent to a grammar: its tokens read as if they stood in its place.

use vstd::prelude::*;

verus! {

/// The kind of bracket around a group of tokens.
#[derive(Clone, Copy, Debug, PartialEq, Eq, Structural)]
pub enum Delimiter {
    /// `( ... )`
    Parenthesis,
    /// `{ ... }`
    Brace,
    /// `[ ... ]`
    Bracket,
    /// An invisible group.
    Invisible,
}

/// One token.
#[derive(Clone, Debug, PartialEq, Eq)]
pub enum Token {
    /// A word: a name or a keyword.
    Ident(String),
    /// One punctuation character.
    Punct(char),
    /// A literal, kept as written.
    Literal(String),
    /// The opening delimiter of a group.
    Open(Delimiter),
    /// The closing delimiter of a group.
    Close(Delimiter),
}

/// What a token is, over mathematical text.
pub enum TokenView {
    Ident(Seq<char>),
    Punct(char),
    Literal(Seq<char>),
    Open(Delimiter),
    Close(Delimiter),
}

impl View for Token {
    type V = TokenView;

    open spec fn view(&self) -> TokenView {
        match self {
            Token::Ident(text) => TokenView::Ident(text@),
            Token::Punct(c) => TokenView::Punct(*c),
            Token::Literal(text) => TokenView::Literal(text@),
            Token::Open(d) => TokenView::Open(*d),
            Token::Close(d) => TokenView::Close(*d),
        }
    }
}

/// The views of a run of tokens, in order.
pub open spec fn token_views(tokens: Seq<Token>) -> Seq<TokenView> {
    Seq::new(tokens.len(), |i: int| tokens[i]@)
}

impl Token {
    /// Whether this token is the word `word`.
    pub fn is_word(&self, word: &str) -> (yes: bool)
        ensures
            yes == (self@ == TokenView::Ident(word@)),
    {
        match self {
            Token::Ident(text) => {
                let expected = String::from_str(word);
                *text == expected
            },
            _ => false,
        }
    }

    /// Whether this token is the punctuation character `c`.
    pub fn is_punct(&self, c: char) -> (yes: bool)
        ensures
            yes == (self@ == TokenView::Punct(c)),
    {
        match self {
            Token::Punct(p) => *p == c,
            _ => false,
        }
    }

    /// Whether this token opens a group delimited by `delimiter`.
    pub fn opens(&self, delimiter: Delimiter) -> (yes: bool)
        ensures
            yes == (self@ == TokenView::Open(delimiter)),
    {
        match self {
            Token::Open(d) => *d == delimiter,
            _ => false,
        }
    }

    /// Whether this token closes a group delimited by `delimiter`.
    pub fn closes(&self, delimiter: Delimiter) -> (yes: bool)
        ensures
            yes == (self@ == TokenView::Close(delimiter)),
    {
        match self {
            Token::Close(d) => *d == delimiter,
            _ => false,
        }
    }
}

/// Whether a token is a delimiter of an invisible group.
pub open spec fn is_invisible(token: TokenView) -> bool {
    token == TokenView::Open(Delimiter::Invisible) || token == TokenView::Close(
        Delimiter::Invisible,
    )
}

/// The tokens that a grammar reads: all of them in order, but for the
/// delimiters of invisible groups.
pub open spec fn visible(tokens: Seq<TokenView>) -> Seq<TokenView>
    decreases tokens.len(),
{
    if tokens.len() == 0 {
        Seq::empty()
    } else if is_invisible(tokens.last()) {
        visible(tokens.drop_last())
    } else {
        visible(tokens.drop_last()).push(tokens.last())
    }
}

/// Tokens without invisible delimiters are all visible.
pub proof fn lemma_visible_unchanged(tokens: Seq<TokenView>)
    requires
        forall|i: int| 0 <= i < tokens.len() ==> !is_invisible(#[trigger] tokens[i]),
    ensures
        visible(tokens) == tokens,
    decreases tokens.len(),
{
    if tokens.len() > 0 {
        let front = tokens.drop_last();
        assert forall|i: int| 0 <= i < front.len() implies !is_invisible(#[trigger] front[i]) by {
            assert(front[i] == tokens[i]);
        }
        lemma_visible_unchanged(front);
        assert(front.push(tokens.last()) =~= tokens);
    } else {
        assert(tokens =~= Seq::empty());
    }
}

/// Copies the tokens that a grammar reads: the delimiters of invisible
/// groups are left out.
pub fn visible_tokens(tokens: &[Token]) -> (kept: Vec<Token>)
    ensures
        token_views(kept@) == visible(token_views(tokens@)),
{
    let ghost views = token_views(tokens@);
    let mut kept: Vec<Token> = Vec::new();
    let mut i: usize = 0;
    assert(views.subrange(0, 0) =~= Seq::empty());
    assert(token_views(kept@) =~= Seq::empty());
    while i < tokens.len()
        invariant
            views == token_views(tokens@),
            0 <= i <= tokens.len(),
            token_views(kept@) == visible(views.subrange(0, i as int)),
        decreases tokens.len() - i,
    {
        let ghost before = token_views(kept@);
        let ghost longer = views.subrange(0, i as int + 1);
        proof {
            assert(longer.drop_last() =~= views.subrange(0, i as int));
            assert(longer.last() == tokens@[i as int]@);
        }
        match &tokens[i] {
            Token::Ident(text) => {
                kept.push(Token::Ident(text.clone()));
                assert(token_views(kept@) =~= before.push(tokens@[i as int]@));
            },
            Token::Punct(c) => {
                kept.push(Token::Punct(*c));
                assert(token_views(kept@) =~= before.push(tokens@[i as int]@));
            },
            Token::Literal(text) => {
                kept.push(Token::Literal(text.clone()));
                assert(token_views(kept@) =~= before.push(tokens@[i as int]@));
            },
            Token::Open(d) => {
                if !(*d == Delimiter::Invisible) {
                    kept.push(Token::Open(*d));
                    assert(token_views(kept@) =~= before.push(tokens@[i as int]@));
                }
            },
            Token::Close(d) => {
                if !(*d == Delimiter::Invisible) {
                    kept.push(Token::Close(*d));
                    assert(token_views(kept@) =~= before.push(tokens@[i as int]@));
                }
            },
        }
        i = i + 1;
    }
    assert(views.subrange(0, tokens.len() as int) =~= views);
    kept
}

} // verus!
