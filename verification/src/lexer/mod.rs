//! The lexer: a cursor over the characters of the source that reads one token at a time.

use vstd::prelude::*;
use crate::lexer::scan::{
    Form, LexErrorView, Reading, column_at, comment_end, digits_end, has_char, is_digit,
    is_word_char,
    keyword_of, lemma_comment_end_bounds, lemma_skip_blank_bounds, line_at, read_char_literal,
    read_lexeme, read_number, read_word, scan_token, skip_blank, token_of, word_end,
};
use crate::lexer::symbols::{SymbolTable, recorded};
use crate::lexer::text::{
    chars_of, is_ascii_digit, is_ascii_letter, is_blank, is_letter_digit_or_underscore, text_of,
    text_of_char,
};
use crate::lexer::token::{
    ErrorKind, KeywordKind, NumberKind, OperatorKind, PunctuationKind, RelopKind, Token,
    TokenView,
};

pub mod display;
pub mod laws;
pub mod scan;
pub mod symbols;
pub mod text;
pub mod token;

verus! {

/// A lexical failure: the text read before the character that broke the lexeme, the kind
/// of the failure, and the line and column of the first character of that text.
#[derive(Debug, Clone, PartialEq, Eq)]
pub struct LexError {
    pub value: String,
    pub kind: ErrorKind,
    pub line: usize,
    pub column: usize,
}

impl View for LexError {
    type V = LexErrorView;

    open spec fn view(&self) -> LexErrorView {
        LexErrorView {
            value: self.value@,
            kind: self.kind,
            line: self.line as nat,
            column: self.column as nat,
        }
    }
}

/// The mathematical value of what reading one token gave.
pub open spec fn found_view(found: Result<Token, LexError>) -> Result<TokenView, LexErrorView> {
    match found {
        Ok(token) => Ok(token@),
        Err(error) => Err(error@),
    }
}

/// The symbol table after reading one token gave `found`.
pub open spec fn symbols_after(
    table: Map<Seq<char>, TokenView>,
    found: Result<TokenView, LexErrorView>,
) -> Map<Seq<char>, TokenView> {
    match found {
        Ok(token) => recorded(table, token),
        Err(_) => table,
    }
}

/// The lexer: a cursor over the characters of the source, and the symbol table that the
/// tokens it reads are entered in.
pub struct Lexer<'a> {
    pub file_content: Vec<char>,
    pub ini: usize,
    pub prox: usize,
    pub line: usize,
    pub column: usize,
    pub prev_line: usize,
    pub prev_column: usize,
    pub stepped: bool,
    pub symbol_table: &'a mut SymbolTable,
}

/// The number `n`, or the largest number that the machine counts to where `n` is beyond it.
pub open spec fn clipped(n: nat) -> nat {
    if n > usize::MAX {
        usize::MAX as nat
    } else {
        n
    }
}

/// Lines and columns count from 1, and no further than the characters before them.
pub proof fn lemma_place_bounds(source: Seq<char>, at: int)
    requires
        0 <= at,
    ensures
        1 <= line_at(source, at) <= at + 1,
        1 <= column_at(source, at) <= at + 1,
    decreases at,
{
    if at > 0 {
        lemma_place_bounds(source, at - 1);
    }
}

impl<'a> Lexer<'a> {
    /// The characters of the source.
    pub open spec fn source(&self) -> Seq<char> {
        self.file_content@
    }

    /// The index of the next character to read.
    pub open spec fn position(&self) -> int {
        self.prox as int
    }

    /// Whether the character read last can be given back.
    pub open spec fn can_push_back(&self) -> bool {
        self.stepped
    }

    /// The cursor stands inside the source, and its line and column are those of the next
    /// character, as far as the machine can count.
    pub open spec fn wf(&self) -> bool {
        &&& self.prox <= self.file_content.len()
        &&& self.line == clipped(line_at(self.file_content@, self.prox as int))
        &&& self.column == clipped(column_at(self.file_content@, self.prox as int))
        &&& self.stepped ==> {
            &&& self.prox > 0
            &&& self.prev_line == line_at(self.file_content@, self.prox - 1)
            &&& self.prev_column == column_at(self.file_content@, self.prox - 1)
        }
    }

    /// The entries of the symbol table.
    pub open spec fn symbols(&self) -> Map<Seq<char>, TokenView> {
        self.symbol_table@
    }

    /// A lexer at the start of `content`.
    pub fn new(content: String, symbol_table: &'a mut SymbolTable) -> (lexer: Self)
        ensures
            lexer.wf(),
            lexer.source() == content@,
            lexer.position() == 0,
            !lexer.can_push_back(),
            lexer.symbols() == old(symbol_table)@,
            *final(lexer.symbol_table) == *final(symbol_table),
    {
        Lexer {
            file_content: chars_of(content.as_str()),
            ini: 0,
            prox: 0,
            line: 1,
            column: 1,
            prev_line: 0,
            prev_column: 0,
            stepped: false,
            symbol_table,
        }
    }

    /// Reads the next character: gives it and steps over it, onto the next line behind a
    /// line feed and onto the next column behind any other character. At the end of the
    /// source it gives nothing and stays.
    pub fn prox_char(&mut self) -> (c: Option<char>)
        requires
            old(self).wf(),
        ensures
            final(self).wf(),
            final(self).source() == old(self).source(),
            final(self).symbol_table == old(self).symbol_table,
            final(self).ini == old(self).ini,
            c == if old(self).position() < old(self).source().len() {
                Some(old(self).source()[old(self).position()])
            } else {
                None
            },
            final(self).position() == if c is Some {
                old(self).position() + 1
            } else {
                old(self).position()
            },
            final(self).can_push_back() == (c is Some || old(self).can_push_back()),
    {
        if self.prox < self.file_content.len() {
            proof {
                lemma_place_bounds(self.file_content@, self.prox as int);
            }
            let ch = self.file_content[self.prox];
            self.prox = self.prox + 1;
            self.prev_column = self.column;
            self.prev_line = self.line;
            self.stepped = true;
            if ch == '\n' {
                if self.line < usize::MAX {
                    self.line = self.line + 1;
                }
                self.column = 1;
            } else if self.column < usize::MAX {
                self.column = self.column + 1;
            }
            Some(ch)
        } else {
            None
        }
    }

    /// The next character, which stays unread.
    fn peek_char(&self) -> (c: Option<char>)
        requires
            self.wf(),
        ensures
            c == if self.position() < self.source().len() {
                Some(self.source()[self.position()])
            } else {
                None
            },
    {
        if self.prox < self.file_content.len() {
            Some(self.file_content[self.prox])
        } else {
            None
        }
    }

    /// Gives back the character read last: the cursor stands on it again, at its line and
    /// column. Only one character can be given back.
    fn trata_lookahead(&mut self)
        requires
            old(self).wf(),
            old(self).can_push_back(),
        ensures
            final(self).wf(),
            final(self).source() == old(self).source(),
            final(self).symbol_table == old(self).symbol_table,
            final(self).ini == old(self).ini,
            final(self).position() == old(self).position() - 1,
            !final(self).can_push_back(),
    {
        self.prox = self.prox - 1;
        self.column = self.prev_column;
        self.line = self.prev_line;
        self.stepped = false;
    }

    /// Steps over the rest of a comment whose opening pair was read.
    fn skip_comment(&mut self)
        requires
            old(self).wf(),
        ensures
            final(self).wf(),
            final(self).source() == old(self).source(),
            final(self).symbol_table == old(self).symbol_table,
            final(self).position() == comment_end(old(self).source(), old(self).position()),
    {
        loop
            invariant_except_break
                comment_end(self.source(), self.position()) == comment_end(
                    old(self).source(),
                    old(self).position(),
                ),
            invariant
                self.wf(),
                self.source() == old(self).source(),
                self.symbol_table == old(self).symbol_table,
                old(self).position() <= self.position(),
            ensures
                self.wf(),
                self.source() == old(self).source(),
                self.symbol_table == old(self).symbol_table,
                self.position() == comment_end(old(self).source(), old(self).position()),
            decreases self.source().len() - self.position(),
        {
            match self.prox_char() {
                None => {
                    break ;
                },
                Some(c) => {
                    if c == '%' {
                        let next = self.peek_char();
                        if next == Some('}') {
                            self.prox_char();
                            break ;
                        }
                    }
                },
            }
        }
    }

    /// Steps over the blanks and comments that stand before the next lexeme, which then
    /// begins at the cursor.
    fn ignore_spaces_and_commentaries(&mut self)
        requires
            old(self).wf(),
        ensures
            final(self).wf(),
            final(self).source() == old(self).source(),
            final(self).symbol_table == old(self).symbol_table,
            final(self).position() == skip_blank(old(self).source(), old(self).position()),
            final(self).ini == final(self).prox,
    {
        loop
            invariant
                self.wf(),
                self.source() == old(self).source(),
                self.symbol_table == old(self).symbol_table,
                skip_blank(self.source(), self.position()) == skip_blank(
                    old(self).source(),
                    old(self).position(),
                ),
            ensures
                self.wf(),
                self.source() == old(self).source(),
                self.symbol_table == old(self).symbol_table,
                self.position() == skip_blank(old(self).source(), old(self).position()),
            decreases self.source().len() - self.position(),
        {
            match self.peek_char() {
                None => {
                    break ;
                },
                Some(c) => {
                    if is_blank(c) {
                        self.prox_char();
                    } else if c == '{' {
                        self.prox_char();
                        let next = self.peek_char();
                        if next == Some('%') {
                            self.prox_char();
                            proof {
                                lemma_comment_end_bounds(self.source(), self.position());
                            }
                            self.skip_comment();
                        } else {
                            self.trata_lookahead();
                            break ;
                        }
                    } else {
                        break ;
                    }
                },
            }
        }
        self.ini = self.prox;
    }

    /// The text of the lexeme read so far.
    fn get_value(&self) -> (text: String)
        requires
            self.wf(),
            self.ini <= self.prox,
        ensures
            text@ == self.source().subrange(self.ini as int, self.position()),
    {
        text_of(&self.file_content, self.ini, self.prox)
    }

    /// Whether the lexeme read so far spells `word`.
    fn spells(&self, word: &str) -> (b: bool)
        requires
            self.wf(),
            self.ini <= self.prox,
        ensures
            b == (self.source().subrange(self.ini as int, self.position()) == word@),
    {
        let n = word.unicode_len();
        let ghost text = self.source().subrange(self.ini as int, self.position());
        if self.prox - self.ini != n {
            return false;
        }
        let mut i: usize = 0;
        while i < n
            invariant
                self.wf(),
                self.ini <= self.prox,
                n == word@.len(),
                n == self.prox - self.ini,
                i <= n,
                text == self.source().subrange(self.ini as int, self.position()),
                forall|j: int| 0 <= j < i ==> text[j] == word@[j],
            decreases n - i,
        {
            if self.file_content[self.ini + i] != word.get_char(i) {
                assert(text[i as int] != word@[i as int]);
                return false;
            }
            i = i + 1;
        }
        assert(text =~= word@);
        true
    }

    /// The keyword that the lexeme read so far spells, if it spells one.
    fn keyword(&self) -> (kind: Option<KeywordKind>)
        requires
            self.wf(),
            self.ini <= self.prox,
        ensures
            kind == keyword_of(self.source().subrange(self.ini as int, self.position())),
    {
        if self.spells(KeywordKind::If.text()) {
            Some(KeywordKind::If)
        } else if self.spells(KeywordKind::Int.text()) {
            Some(KeywordKind::Int)
        } else if self.spells(KeywordKind::Float.text()) {
            Some(KeywordKind::Float)
        } else if self.spells(KeywordKind::Char.text()) {
            Some(KeywordKind::Char)
        } else if self.spells(KeywordKind::Then.text()) {
            Some(KeywordKind::Then)
        } else if self.spells(KeywordKind::Type.text()) {
            Some(KeywordKind::Type)
        } else if self.spells(KeywordKind::Else.text()) {
            Some(KeywordKind::Else)
        } else if self.spells(KeywordKind::Elsif.text()) {
            Some(KeywordKind::Elsif)
        } else if self.spells(KeywordKind::While.text()) {
            Some(KeywordKind::While)
        } else if self.spells(KeywordKind::For.text()) {
            Some(KeywordKind::For)
        } else if self.spells(KeywordKind::Do.text()) {
            Some(KeywordKind::Do)
        } else if self.spells(KeywordKind::Main.text()) {
            Some(KeywordKind::Main)
        } else if self.spells(KeywordKind::Void.text()) {
            Some(KeywordKind::Void)
        } else {
            None
        }
    }

    /// Reads the next character if it is `wanted`, and says whether it was.
    fn follows(&mut self, wanted: char) -> (b: bool)
        requires
            old(self).wf(),
        ensures
            final(self).wf(),
            final(self).source() == old(self).source(),
            final(self).symbol_table == old(self).symbol_table,
            final(self).ini == old(self).ini,
            b == has_char(old(self).source(), old(self).position(), wanted),
            final(self).position() == if b {
                old(self).position() + 1
            } else {
                old(self).position()
            },
    {
        match self.prox_char() {
            None => false,
            Some(c) => {
                if c == wanted {
                    true
                } else {
                    self.trata_lookahead();
                    false
                }
            },
        }
    }

    /// Reads the longest run of digits that begins at the cursor.
    fn read_digits(&mut self)
        requires
            old(self).wf(),
        ensures
            final(self).wf(),
            final(self).source() == old(self).source(),
            final(self).symbol_table == old(self).symbol_table,
            final(self).ini == old(self).ini,
            final(self).position() == digits_end(old(self).source(), old(self).position()),
            final(self).position() >= old(self).position(),
    {
        loop
            invariant
                self.wf(),
                self.source() == old(self).source(),
                self.symbol_table == old(self).symbol_table,
                self.ini == old(self).ini,
                self.position() >= old(self).position(),
                digits_end(self.source(), self.position()) == digits_end(
                    old(self).source(),
                    old(self).position(),
                ),
            ensures
                self.wf(),
                self.source() == old(self).source(),
                self.symbol_table == old(self).symbol_table,
                self.ini == old(self).ini,
                self.position() >= old(self).position(),
                self.position() == digits_end(old(self).source(), old(self).position()),
            decreases self.source().len() - self.position(),
        {
            match self.prox_char() {
                None => {
                    break ;
                },
                Some(c) => {
                    if !is_ascii_digit(c) {
                        self.trata_lookahead();
                        break ;
                    }
                },
            }
        }
    }

    /// Reads the longest run of letters, digits and underscores that begins at the cursor.
    fn read_word_chars(&mut self)
        requires
            old(self).wf(),
        ensures
            final(self).wf(),
            final(self).source() == old(self).source(),
            final(self).symbol_table == old(self).symbol_table,
            final(self).ini == old(self).ini,
            final(self).position() == word_end(old(self).source(), old(self).position()),
            final(self).position() >= old(self).position(),
    {
        loop
            invariant
                self.wf(),
                self.source() == old(self).source(),
                self.symbol_table == old(self).symbol_table,
                self.ini == old(self).ini,
                self.position() >= old(self).position(),
                word_end(self.source(), self.position()) == word_end(
                    old(self).source(),
                    old(self).position(),
                ),
            ensures
                self.wf(),
                self.source() == old(self).source(),
                self.symbol_table == old(self).symbol_table,
                self.ini == old(self).ini,
                self.position() >= old(self).position(),
                self.position() == word_end(old(self).source(), old(self).position()),
            decreases self.source().len() - self.position(),
        {
            match self.prox_char() {
                None => {
                    break ;
                },
                Some(c) => {
                    if !is_letter_digit_or_underscore(c) {
                        self.trata_lookahead();
                        break ;
                    }
                },
            }
        }
    }

    /// Reads the rest of a number whose first digit was read.
    fn read_number(&mut self) -> (form: Form)
        requires
            old(self).wf(),
            old(self).position() >= 1,
            is_digit(old(self).source()[old(self).position() - 1]),
        ensures
            final(self).wf(),
            final(self).source() == old(self).source(),
            final(self).symbol_table == old(self).symbol_table,
            final(self).ini == old(self).ini,
            final(self).position() >= old(self).position(),
            (Reading { end: final(self).position(), form }) == read_number(
                old(self).source(),
                old(self).position() - 1,
            ),
    {
        self.read_digits();
        let mut fraction = false;
        if self.follows('.') {
            let before = self.prox;
            self.read_digits();
            if self.prox == before {
                return Form::Error(ErrorKind::FractionEndedWithADot);
            }
            fraction = true;
        }
        if self.follows('E') {
            let signed = if self.follows('+') {
                true
            } else {
                self.follows('-')
            };
            let before = self.prox;
            self.read_digits();
            if self.prox > before {
                Form::Number(NumberKind::Float)
            } else if signed {
                Form::Error(ErrorKind::EndedAfterExpoentSign)
            } else {
                Form::Error(ErrorKind::EndedWithEExpoent)
            }
        } else if fraction {
            Form::Number(NumberKind::Float)
        } else {
            Form::Number(NumberKind::Integer)
        }
    }

    /// Reads the rest of a character literal whose opening quote was read.
    fn read_char_literal(&mut self) -> (form: Form)
        requires
            old(self).wf(),
            old(self).position() >= 1,
        ensures
            final(self).wf(),
            final(self).source() == old(self).source(),
            final(self).symbol_table == old(self).symbol_table,
            final(self).ini == old(self).ini,
            final(self).position() >= old(self).position(),
            (Reading { end: final(self).position(), form }) == read_char_literal(
                old(self).source(),
                old(self).position() - 1,
            ),
    {
        match self.prox_char() {
            None => Form::Error(ErrorKind::UnclosedChar),
            Some(c) => {
                if c != '\'' && self.follows('\'') {
                    Form::Char(c)
                } else {
                    Form::Error(ErrorKind::UnclosedChar)
                }
            },
        }
    }

    /// Reads the rest of an identifier or keyword whose first character was read.
    fn read_word(&mut self) -> (form: Form)
        requires
            old(self).wf(),
            old(self).position() >= 1,
            old(self).ini == old(self).position() - 1,
            is_word_char(old(self).source()[old(self).position() - 1]),
        ensures
            final(self).wf(),
            final(self).source() == old(self).source(),
            final(self).symbol_table == old(self).symbol_table,
            final(self).ini == old(self).ini,
            final(self).position() >= old(self).position(),
            (Reading { end: final(self).position(), form }) == read_word(
                old(self).source(),
                old(self).position() - 1,
            ),
    {
        self.read_word_chars();
        match self.keyword() {
            Some(kind) => Form::Keyword(kind),
            None => Form::Id,
        }
    }

    /// Reads the lexeme that begins at the cursor, where no blank and no comment stands.
    fn read_lexeme(&mut self) -> (form: Form)
        requires
            old(self).wf(),
            old(self).ini == old(self).prox,
        ensures
            final(self).wf(),
            final(self).source() == old(self).source(),
            final(self).symbol_table == old(self).symbol_table,
            final(self).ini == old(self).ini,
            final(self).position() >= old(self).position(),
            (Reading { end: final(self).position(), form }) == read_lexeme(
                old(self).source(),
                old(self).position(),
            ),
    {
        match self.prox_char() {
            None => Form::Eof,
            Some(c) => {
                if c == ')' {
                    Form::Operator(OperatorKind::Pardir)
                } else if c == '(' {
                    Form::Operator(OperatorKind::Paresq)
                } else if c == '/' {
                    Form::Operator(OperatorKind::Div)
                } else if c == '-' {
                    Form::Operator(OperatorKind::Sub)
                } else if c == '+' {
                    Form::Operator(OperatorKind::Sum)
                } else if c == ',' {
                    Form::Punctuation(PunctuationKind::Comma)
                } else if c == ';' {
                    Form::Punctuation(PunctuationKind::EndExp)
                } else if c == '[' {
                    Form::Punctuation(PunctuationKind::BeginBlock)
                } else if c == ']' {
                    Form::Punctuation(PunctuationKind::EndBlock)
                } else if c == '*' {
                    if self.follows('*') {
                        Form::Operator(OperatorKind::Exp)
                    } else {
                        Form::Operator(OperatorKind::Mult)
                    }
                } else if c == '<' {
                    if self.follows('=') {
                        Form::Relop(RelopKind::LE)
                    } else {
                        Form::Relop(RelopKind::LT)
                    }
                } else if c == '>' {
                    if self.follows('=') {
                        Form::Relop(RelopKind::GE)
                    } else {
                        Form::Relop(RelopKind::GT)
                    }
                } else if c == '!' {
                    if self.follows('=') {
                        Form::Relop(RelopKind::NE)
                    } else {
                        Form::Error(ErrorKind::InvalidTokenAfterExclamation)
                    }
                } else if c == '=' {
                    if self.follows('=') {
                        Form::Relop(RelopKind::EQ)
                    } else {
                        Form::Error(ErrorKind::MissingEqual)
                    }
                } else if c == ':' {
                    if self.follows('=') {
                        Form::Punctuation(PunctuationKind::Assigment)
                    } else {
                        Form::Error(ErrorKind::MissingEqual)
                    }
                } else if c == '\'' {
                    self.read_char_literal()
                } else if is_ascii_digit(c) {
                    self.read_number()
                } else if is_ascii_letter(c) || c == '_' {
                    self.read_word()
                } else {
                    Form::Error(ErrorKind::UnknownToken)
                }
            },
        }
    }

    /// Enters an identifier, a character literal or a number in the symbol table, unless
    /// its text is there already.
    fn insert_table(&mut self, token: &Token)
        requires
            old(self).wf(),
            token@.symbol_key() is Some,
        ensures
            final(self).wf(),
            final(self).source() == old(self).source(),
            final(self).position() == old(self).position(),
            final(self).ini == old(self).ini,
            final(self).symbols() == recorded(old(self).symbols(), token@),
            *final(final(self).symbol_table) == *final(old(self).symbol_table),
    {
        match token {
            Token::Id { value, .. } => {
                self.symbol_table.insert_if_absent(value.clone(), token.duplicate());
            },
            Token::Char { value, .. } => {
                self.symbol_table.insert_if_absent(text_of_char(*value), token.duplicate());
            },
            Token::Number { value, .. } => {
                self.symbol_table.insert_if_absent(value.clone(), token.duplicate());
            },
            _ => {},
        }
    }

    /// Makes the token or the failure that the lexeme read last stands for, and enters the
    /// token in the symbol table where it is one that the table holds.
    fn emit(&mut self, form: Form, line: usize, column: usize) -> (found: Result<Token, LexError>)
        requires
            old(self).wf(),
            old(self).ini <= old(self).prox,
        ensures
            final(self).wf(),
            final(self).source() == old(self).source(),
            final(self).position() == old(self).position(),
            final(self).ini == old(self).ini,
            found_view(found) == token_of(
                form,
                old(self).source().subrange(old(self).ini as int, old(self).position()),
                line as nat,
                column as nat,
            ),
            final(self).symbols() == symbols_after(old(self).symbols(), found_view(found)),
            *final(final(self).symbol_table) == *final(old(self).symbol_table),
    {
        match form {
            Form::Id => {
                let token = Token::Id { value: self.get_value(), line, column };
                self.insert_table(&token);
                Ok(token)
            },
            Form::Char(value) => {
                let token = Token::Char { value, line, column };
                self.insert_table(&token);
                Ok(token)
            },
            Form::Number(kind) => {
                let token = Token::Number { value: self.get_value(), kind, line, column };
                self.insert_table(&token);
                Ok(token)
            },
            Form::Relop(kind) => Ok(Token::Relop { kind, line, column }),
            Form::Operator(kind) => Ok(Token::Operator { kind, line, column }),
            Form::Punctuation(kind) => Ok(Token::Punctuation { kind, line, column }),
            Form::Keyword(kind) => Ok(Token::Keyword { kind, line, column }),
            Form::Eof => Ok(Token::Eof),
            Form::Error(kind) => Err(LexError { value: self.get_value(), kind, line, column }),
        }
    }

    /// Reads the next token: steps over blanks and comments, reads the lexeme that
    /// follows, and enters an identifier, a character literal or a number in the symbol
    /// table. At the end of the source the token is `Eof`. A malformed lexeme is a failure;
    /// the cursor then stands behind what was read of it.
    pub fn get_next_token(&mut self) -> (found: Result<Token, LexError>)
        requires
            old(self).wf(),
        ensures
            final(self).wf(),
            final(self).source() == old(self).source(),
            found_view(found) == scan_token(old(self).source(), old(self).position()).found,
            final(self).position() == scan_token(old(self).source(), old(self).position()).end,
            final(self).ini == skip_blank(old(self).source(), old(self).position()),
            final(self).symbols() == symbols_after(old(self).symbols(), found_view(found)),
            *final(final(self).symbol_table) == *final(old(self).symbol_table),
    {
        self.ignore_spaces_and_commentaries();
        let line = self.line;
        let column = self.column;
        proof {
            lemma_skip_blank_bounds(old(self).source(), old(self).position());
            lemma_place_bounds(self.source(), self.position());
        }
        let form = self.read_lexeme();
        self.emit(form, line, column)
    }
}

} // verus!
