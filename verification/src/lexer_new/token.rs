//! Token kinds and tokens produced by the automaton-driven lexer.

use vstd::prelude::*;

verus! {

/// The kinds of token the lexer recognizes: keywords, statement function
/// names, directions, operators, delimiters, literals and bookkeeping kinds.
#[derive(Debug, Clone, Copy, PartialEq, Eq, Hash, Structural)]
pub enum TokenType {
    // Reserved words
    Programa,
    Define,
    Maquinas,
    Concentradores,
    Coaxial,
    Segmento,
    Modulo,
    Inicio,
    Fin,
    Si,
    Sino,
    // Statement function names
    Coloca,
    ColocaCoaxial,
    ColocaCoaxialConcentrador,
    UneMaquinaPuerto,
    AsignaPuerto,
    MaquinaCoaxial,
    AsignaMaquinaCoaxial,
    Escribe,
    // Directions
    Arriba,
    Abajo,
    Izquierda,
    Derecha,
    // Relational operators
    Equal,
    Less,
    Greater,
    LessEqual,
    GreaterEqual,
    NotEqual,
    // Logical operators
    And,
    Or,
    Not,
    // Delimiters
    Comma,
    Semicolon,
    Dot,
    LParen,
    RParen,
    LBracket,
    RBracket,
    // Literals
    Identifier,
    Number,
    Cadena,
    // Bookkeeping
    Whitespace,
    Comment,
    Eof,
}

impl TokenType {
    /// A short human-readable name for error messages.
    pub fn as_str(&self) -> (r: &'static str) {
        match self {
            TokenType::Programa => "programa",
            TokenType::Define => "define",
            TokenType::Maquinas => "maquinas",
            TokenType::Concentradores => "concentradores",
            TokenType::Coaxial => "coaxial",
            TokenType::Segmento => "segmento",
            TokenType::Modulo => "modulo",
            TokenType::Inicio => "inicio",
            TokenType::Fin => "fin",
            TokenType::Si => "si",
            TokenType::Sino => "sino",
            TokenType::Coloca => "coloca",
            TokenType::ColocaCoaxial => "colocaCoaxial",
            TokenType::ColocaCoaxialConcentrador => "colocaCoaxialConcentrador",
            TokenType::UneMaquinaPuerto => "uneMaquinaPuerto",
            TokenType::AsignaPuerto => "asignaPuerto",
            TokenType::MaquinaCoaxial => "maquinaCoaxial",
            TokenType::AsignaMaquinaCoaxial => "asignaMaquinaCoaxial",
            TokenType::Escribe => "escribe",
            TokenType::Arriba => "arriba",
            TokenType::Abajo => "abajo",
            TokenType::Izquierda => "izquierda",
            TokenType::Derecha => "derecha",
            TokenType::Equal => "=",
            TokenType::Less => "<",
            TokenType::Greater => ">",
            TokenType::LessEqual => "<=",
            TokenType::GreaterEqual => ">=",
            TokenType::NotEqual => "<>",
            TokenType::And => "&&",
            TokenType::Or => "||",
            TokenType::Not => "!",
            TokenType::Comma => ",",
            TokenType::Semicolon => ";",
            TokenType::Dot => ".",
            TokenType::LParen => "(",
            TokenType::RParen => ")",
            TokenType::LBracket => "[",
            TokenType::RBracket => "]",
            TokenType::Identifier => "identificador",
            TokenType::Number => "número",
            TokenType::Cadena => "cadena",
            TokenType::Whitespace => "espacio",
            TokenType::Comment => "comentario",
            TokenType::Eof => "fin de archivo",
        }
    }

    /// Token kinds the parser never sees: blanks and comments.
    pub open spec fn spec_should_ignore(self) -> bool {
        self == TokenType::Whitespace || self == TokenType::Comment
    }

    /// Whether the scanner discards tokens of this kind before handing the
    /// stream to the parser.
    pub fn should_ignore(&self) -> (r: bool)
        ensures
            r == self.spec_should_ignore(),
    {
        match self {
            TokenType::Whitespace | TokenType::Comment => true,
            _ => false,
        }
    }
}

/// The mathematical content of a token: its kind, its text as a character
/// sequence, and its 1-based source position.
pub ghost struct GToken {
    pub kind: TokenType,
    pub lexeme: Seq<char>,
    pub line: int,
    pub column: int,
    pub length: int,
}

/// A classified token: its kind, the original text, and its 1-based source
/// position. The length counts the characters of the lexeme.
#[derive(Debug, Clone, PartialEq)]
pub struct Token {
    pub token_type: TokenType,
    pub lexeme: String,
    pub line: usize,
    pub column: usize,
    pub length: usize,
}

impl View for Token {
    type V = GToken;

    open spec fn view(&self) -> GToken {
        GToken {
            kind: self.token_type,
            lexeme: self.lexeme@,
            line: self.line as int,
            column: self.column as int,
            length: self.length as int,
        }
    }
}

impl Token {
    /// Builds a token; the recorded length is the character count of the
    /// lexeme.
    pub fn new(token_type: TokenType, lexeme: String, line: usize, column: usize) -> (r: Token)
        ensures
            r@ == (GToken {
                kind: token_type,
                lexeme: lexeme@,
                line: line as int,
                column: column as int,
                length: lexeme@.len() as int,
            }),
    {
        let length = lexeme.as_str().unicode_len();
        Token { token_type, lexeme, line, column, length }
    }

    /// The synthetic end-of-input token.
    pub fn eof(line: usize, column: usize) -> (r: Token)
        ensures
            r@ == (GToken {
                kind: TokenType::Eof,
                lexeme: Seq::<char>::empty(),
                line: line as int,
                column: column as int,
                length: 0,
            }),
    {
        let r = Token {
            token_type: TokenType::Eof,
            lexeme: String::new(),
            line,
            column,
            length: 0,
        };
        r
    }
}

} // verus!
