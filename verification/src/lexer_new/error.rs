//! Lexical errors: an exact source position plus a message.

use vstd::prelude::*;
use crate::texto::{empujar_char, spec_decimal, usize_a_cadena};

verus! {

/// The mathematical content of a lexical error.
pub ghost struct GLexError {
    pub message: Seq<char>,
    pub line: int,
    pub column: int,
    pub length: int,
}

/// An error found while scanning, with the 1-based position and the length of
/// the offending text.
#[derive(Debug, Clone, PartialEq)]
pub struct LexicalError {
    pub message: String,
    pub line: usize,
    pub column: usize,
    pub length: usize,
}

impl View for LexicalError {
    type V = GLexError;

    open spec fn view(&self) -> GLexError {
        GLexError {
            message: self.message@,
            line: self.line as int,
            column: self.column as int,
            length: self.length as int,
        }
    }
}

impl LexicalError {
    /// Builds an error from its parts.
    pub fn new(message: String, line: usize, column: usize, length: usize) -> (r: LexicalError)
        ensures
            r == (LexicalError { message, line, column, length }),
    {
        LexicalError { message, line, column, length }
    }

    /// The message reported for a character no automaton transition accepts.
    pub open spec fn spec_mensaje_invalid_char(ch: char) -> Seq<char> {
        "Carácter inválido: '"@ + seq![ch] + "'"@
    }

    /// The error for a character that starts no valid token.
    pub fn invalid_char(ch: char, line: usize, column: usize) -> (r: LexicalError)
        ensures
            r.message@ == Self::spec_mensaje_invalid_char(ch),
            r.line == line,
            r.column == column,
            r.length == 1,
    {
        let mut m = String::from_str("Carácter inválido: '");
        empujar_char(&mut m, ch);
        let m2 = m.concat("'");
        proof {
            assert(m2@ =~= Self::spec_mensaje_invalid_char(ch));
        }
        LexicalError { message: m2, line, column, length: 1 }
    }

    /// The error for a string literal missing its closing quote.
    pub fn unterminated_string(line: usize, column: usize) -> (r: LexicalError)
        ensures
            r.message@ == "Cadena sin cerrar (falta comilla final)"@,
            r.line == line,
            r.column == column,
            r.length == 1,
    {
        LexicalError {
            message: String::from_str("Cadena sin cerrar (falta comilla final)"),
            line,
            column,
            length: 1,
        }
    }

    /// The message reported for a malformed number literal.
    pub open spec fn spec_mensaje_invalid_number(lexeme: Seq<char>) -> Seq<char> {
        "Número inválido: '"@ + lexeme + "'"@
    }

    /// The error for a malformed number literal; the reported length is the
    /// byte length of the lexeme.
    pub fn invalid_number(lexeme: String, line: usize, column: usize) -> (r: LexicalError)
        ensures
            r.message@ == Self::spec_mensaje_invalid_number(lexeme@),
            r.line == line,
            r.column == column,
    {
        let length = lexeme.as_str().len();
        let m = String::from_str("Número inválido: '").concat(lexeme.as_str()).concat("'");
        proof {
            assert(m@ =~= Self::spec_mensaje_invalid_number(lexeme@));
        }
        LexicalError { message: m, line, column, length }
    }

    /// The full report line, as the diagnostic printer shows it.
    pub fn display_string(&self) -> (r: String)
        ensures
            r@ == "Error léxico en "@ + spec_decimal(self.line as nat) + ":"@ + spec_decimal(
                self.column as nat) + ": "@ + self.message@,
    {
        let r = String::from_str("Error léxico en ").concat(usize_a_cadena(self.line).as_str())
            .concat(":").concat(usize_a_cadena(self.column).as_str()).concat(": ").concat(
            self.message.as_str());
        proof {
            assert(r@ =~= "Error léxico en "@ + spec_decimal(self.line as nat) + ":"@
                + spec_decimal(self.column as nat) + ": "@ + self.message@);
        }
        r
    }
}

} // verus!
