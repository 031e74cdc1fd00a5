//! Tokens, and a cursor over a stream of them.

use vstd::prelude::*;

verus! {

/// One token of a schema, as the host's lexer hands it over.
#[derive(Debug, Clone, PartialEq, Eq)]
pub enum Token {
    /// An identifier, with its text.
    Ident(String),
    /// `:`
    Colon,
    /// `/`
    Slash,
    /// `<-`
    LArrow,
    /// `,`
    Comma,
    /// Any token that the schema grammar has no use for.
    Other,
}

/// The mathematical value of a [`Token`]: an identifier carries its characters.
pub enum SpecToken {
    Ident(Seq<char>),
    Colon,
    Slash,
    LArrow,
    Comma,
    Other,
}

impl View for Token {
    type V = SpecToken;

    open spec fn view(&self) -> SpecToken {
        match self {
            Token::Ident(text) => SpecToken::Ident(text@),
            Token::Colon => SpecToken::Colon,
            Token::Slash => SpecToken::Slash,
            Token::LArrow => SpecToken::LArrow,
            Token::Comma => SpecToken::Comma,
            Token::Other => SpecToken::Other,
        }
    }
}

/// A character that may start an identifier: an ASCII letter or an underscore.
pub open spec fn spec_starts_identifier(c: char) -> bool {
    'a' <= c <= 'z' || 'A' <= c <= 'Z' || c == '_'
}

/// A character that may go on an identifier: one that may start it, or a digit.
pub open spec fn spec_continues_identifier(c: char) -> bool {
    spec_starts_identifier(c) || '0' <= c <= '9'
}

/// Whether `text` is an identifier: not empty, a letter or an underscore
/// first, then letters, digits and underscores.
pub open spec fn spec_is_identifier(text: Seq<char>) -> bool {
    &&& text.len() > 0
    &&& spec_starts_identifier(text[0])
    &&& forall|i: int| 0 <= i < text.len() ==> spec_continues_identifier(#[trigger] text[i])
}

/// Whether every identifier token of a stream holds an identifier.
pub open spec fn spec_holds_identifiers(tokens: Seq<SpecToken>) -> bool {
    forall|i: int|
        0 <= i < tokens.len() ==> (#[trigger] tokens[i] matches SpecToken::Ident(text)
            ==> spec_is_identifier(text))
}

/// The values of a sequence of tokens, in order.
pub open spec fn spec_tokens(tokens: Seq<Token>) -> Seq<SpecToken> {
    tokens.map_values(|t: Token| t@)
}

/// The token at `pos`, or `None` at and past the end of input.
pub open spec fn token_at(tokens: Seq<SpecToken>, pos: int) -> Option<SpecToken> {
    if 0 <= pos < tokens.len() {
        Some(tokens[pos])
    } else {
        None
    }
}

/// The position after one step forward: the end of input is never left.
pub open spec fn next_position(tokens: Seq<SpecToken>, pos: int) -> int {
    if pos < tokens.len() {
        pos + 1
    } else {
        pos
    }
}

impl Token {
    /// Whether two tokens have the same value.
    pub fn same_as(&self, other: &Token) -> (r: bool)
        ensures
            r == (self@ == other@),
    {
        match (self, other) {
            (Token::Ident(a), Token::Ident(b)) => *a == *b,
            (Token::Colon, Token::Colon) => true,
            (Token::Slash, Token::Slash) => true,
            (Token::LArrow, Token::LArrow) => true,
            (Token::Comma, Token::Comma) => true,
            (Token::Other, Token::Other) => true,
            _ => false,
        }
    }
}

/// A cursor over a token stream with one token of lookahead.
#[derive(Debug)]
pub struct TokenCursor {
    tokens: Vec<Token>,
    pos: usize,
}

impl TokenCursor {
    #[verifier::type_invariant]
    spec fn in_bounds(&self) -> bool {
        self.pos <= self.tokens@.len()
    }

    /// The whole token stream, consumed tokens included.
    pub closed spec fn tokens(&self) -> Seq<SpecToken> {
        spec_tokens(self.tokens@)
    }

    /// The number of tokens consumed so far.
    pub closed spec fn position(&self) -> int {
        if self.pos <= self.tokens@.len() {
            self.pos as int
        } else {
            self.tokens@.len() as int
        }
    }

    /// The token under the cursor, `None` at the end of input.
    pub open spec fn current(&self) -> Option<SpecToken> {
        token_at(self.tokens(), self.position())
    }

    /// The cursor never runs past the end of its stream.
    pub proof fn lemma_position_in_bounds(&self)
        ensures
            0 <= self.position() <= self.tokens().len(),
    {
    }

    /// A cursor at the start of `tokens`.
    pub fn new(tokens: Vec<Token>) -> (cursor: TokenCursor)
        ensures
            cursor.tokens() == spec_tokens(tokens@),
            cursor.position() == 0,
    {
        TokenCursor { tokens, pos: 0 }
    }

    /// The token under the cursor.
    pub fn peek(&self) -> (t: Option<&Token>)
        ensures
            match t {
                Some(token) => self.current() == Some(token@),
                None => self.current().is_none(),
            },
    {
        proof {
            use_type_invariant(self);
        }
        if self.pos < self.tokens.len() {
            Some(&self.tokens[self.pos])
        } else {
            None
        }
    }

    /// Whether every token has been consumed.
    pub fn at_end(&self) -> (r: bool)
        ensures
            r == self.current().is_none(),
    {
        proof {
            use_type_invariant(self);
        }
        self.pos >= self.tokens.len()
    }

    /// Steps over the token under the cursor; at the end of input the cursor stays.
    pub fn advance(&mut self)
        ensures
            final(self).tokens() == old(self).tokens(),
            final(self).position() == next_position(old(self).tokens(), old(self).position()),
    {
        proof {
            use_type_invariant(&*self);
        }
        if self.pos < self.tokens.len() {
            self.pos = self.pos + 1;
        }
    }

    /// Consumes the token under the cursor if it is `expected`, and says whether it did.
    pub fn eat(&mut self, expected: &Token) -> (eaten: bool)
        ensures
            eaten == (old(self).current() == Some(expected@)),
            final(self).tokens() == old(self).tokens(),
            final(self).position() == if eaten {
                old(self).position() + 1
            } else {
                old(self).position()
            },
    {
        let found = match self.peek() {
            Some(token) => token.same_as(expected),
            None => false,
        };
        if found {
            self.advance();
        }
        found
    }
}

} // verus!
