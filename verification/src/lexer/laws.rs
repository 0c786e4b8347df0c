//! What holds of reading tokens: a token read again from its own text is the same token,
//! comments are stepped over whole, and reading goes on.

use vstd::prelude::*;
use crate::lexer::scan::{
    Form, LexErrorView, Reading, closes_comment, comment_end, digits_end, is_digit, is_letter,
    is_word_char, keyword_of, lemma_digits_end_bounds, lemma_skip_blank_bounds,
    lemma_word_end_bounds, line_at, opens_comment, read_lexeme, read_number, read_word,
    scan_token, skip_blank, word_end,
};
use crate::lexer::symbols::recorded;
use crate::lexer::token::{
    KeywordKind, OperatorKind, PunctuationKind, RelopKind, TokenView, keyword_text,
    operator_text, punctuation_text, relop_text,
};

verus! {

/// A run of digits inside a window of the source ends where it ends in the source, or
/// where the window ends.
pub proof fn lemma_digits_end_in_window(source: Seq<char>, from: int, to: int, at: int)
    requires
        0 <= from <= at <= to <= source.len(),
    ensures
        digits_end(source.subrange(from, to), at - from) == (if digits_end(source, at) < to {
            digits_end(source, at)
        } else {
            to
        }) - from,
    decreases to - at,
{
    let window = source.subrange(from, to);
    if at < to {
        assert(window[at - from] == source[at]);
        if is_digit(source[at]) {
            lemma_digits_end_in_window(source, from, to, at + 1);
        }
    } else {
        lemma_digits_end_bounds(source, at);
    }
}

/// A text made of word characters from `at` on is one word from `at` on.
pub proof fn lemma_word_end_of_word(text: Seq<char>, at: int)
    requires
        0 <= at <= text.len(),
        forall|i: int| at <= i < text.len() ==> is_word_char(#[trigger] text[i]),
    ensures
        word_end(text, at) == text.len(),
    decreases text.len() - at,
{
    if at < text.len() {
        lemma_word_end_of_word(text, at + 1);
    }
}

/// The texts of the keywords, character by character.
pub proof fn lemma_keyword_texts()
    ensures
        "if"@.len() == 2 && "if"@[0] == 'i' && "if"@[1] == 'f',
        "int"@.len() == 3 && "int"@[0] == 'i' && "int"@[1] == 'n' && "int"@[2] == 't',
        "float"@.len() == 5 && "float"@[0] == 'f' && "float"@[1] == 'l' && "float"@[2] == 'o'
            && "float"@[3] == 'a' && "float"@[4] == 't',
        "char"@.len() == 4 && "char"@[0] == 'c' && "char"@[1] == 'h' && "char"@[2] == 'a'
            && "char"@[3] == 'r',
        "then"@.len() == 4 && "then"@[0] == 't' && "then"@[1] == 'h' && "then"@[2] == 'e'
            && "then"@[3] == 'n',
        "tipo"@.len() == 4 && "tipo"@[0] == 't' && "tipo"@[1] == 'i' && "tipo"@[2] == 'p'
            && "tipo"@[3] == 'o',
        "else"@.len() == 4 && "else"@[0] == 'e' && "else"@[1] == 'l' && "else"@[2] == 's'
            && "else"@[3] == 'e',
        "elsif"@.len() == 5 && "elsif"@[0] == 'e' && "elsif"@[1] == 'l' && "elsif"@[2] == 's'
            && "elsif"@[3] == 'i' && "elsif"@[4] == 'f',
        "while"@.len() == 5 && "while"@[0] == 'w' && "while"@[1] == 'h' && "while"@[2] == 'i'
            && "while"@[3] == 'l' && "while"@[4] == 'e',
        "for"@.len() == 3 && "for"@[0] == 'f' && "for"@[1] == 'o' && "for"@[2] == 'r',
        "do"@.len() == 2 && "do"@[0] == 'd' && "do"@[1] == 'o',
        "main"@.len() == 4 && "main"@[0] == 'm' && "main"@[1] == 'a' && "main"@[2] == 'i'
            && "main"@[3] == 'n',
        "void"@.len() == 4 && "void"@[0] == 'v' && "void"@[1] == 'o' && "void"@[2] == 'i'
            && "void"@[3] == 'd',
{
    reveal_strlit("if");
    reveal_strlit("int");
    reveal_strlit("float");
    reveal_strlit("char");
    reveal_strlit("then");
    reveal_strlit("tipo");
    reveal_strlit("else");
    reveal_strlit("elsif");
    reveal_strlit("while");
    reveal_strlit("for");
    reveal_strlit("do");
    reveal_strlit("main");
    reveal_strlit("void");
}

/// The texts of the operators and punctuation marks, character by character.
pub proof fn lemma_mark_texts()
    ensures
        ">"@.len() == 1 && ">"@[0] == '>',
        "<"@.len() == 1 && "<"@[0] == '<',
        "<="@.len() == 2 && "<="@[0] == '<' && "<="@[1] == '=',
        ">="@.len() == 2 && ">="@[0] == '>' && ">="@[1] == '=',
        "=="@.len() == 2 && "=="@[0] == '=' && "=="@[1] == '=',
        "!="@.len() == 2 && "!="@[0] == '!' && "!="@[1] == '=',
        "+"@.len() == 1 && "+"@[0] == '+',
        "-"@.len() == 1 && "-"@[0] == '-',
        "*"@.len() == 1 && "*"@[0] == '*',
        "/"@.len() == 1 && "/"@[0] == '/',
        "**"@.len() == 2 && "**"@[0] == '*' && "**"@[1] == '*',
        "("@.len() == 1 && "("@[0] == '(',
        ")"@.len() == 1 && ")"@[0] == ')',
        ":="@.len() == 2 && ":="@[0] == ':' && ":="@[1] == '=',
        ","@.len() == 1 && ","@[0] == ',',
        ";"@.len() == 1 && ";"@[0] == ';',
        "["@.len() == 1 && "["@[0] == '[',
        "]"@.len() == 1 && "]"@[0] == ']',
{
    reveal_strlit(">");
    reveal_strlit("<");
    reveal_strlit("<=");
    reveal_strlit(">=");
    reveal_strlit("==");
    reveal_strlit("!=");
    reveal_strlit("+");
    reveal_strlit("-");
    reveal_strlit("*");
    reveal_strlit("/");
    reveal_strlit("**");
    reveal_strlit("(");
    reveal_strlit(")");
    reveal_strlit(":=");
    reveal_strlit(",");
    reveal_strlit(";");
    reveal_strlit("[");
    reveal_strlit("]");
}

/// The text of a keyword is one word that spells that keyword.
pub proof fn lemma_keyword_spells_itself(kind: KeywordKind)
    ensures
        keyword_text(kind).len() > 0,
        is_letter(keyword_text(kind)[0]),
        word_end(keyword_text(kind), 0) == keyword_text(kind).len(),
        keyword_of(keyword_text(kind)) == Some(kind),
{
    lemma_keyword_texts();
    lemma_word_end_of_word(keyword_text(kind), 0);
}

/// Reading a number again from its own text gives the same number, and takes the whole
/// text.
proof fn lemma_number_again(source: Seq<char>, start: int)
    requires
        0 <= start < source.len(),
        is_digit(source[start]),
        read_number(source, start).form is Number,
    ensures
        start < read_number(source, start).end <= source.len(),
        ({
            let reading = read_number(source, start);
            let text = source.subrange(start, reading.end);
            &&& is_digit(text[0])
            &&& read_number(text, 0).form == reading.form
            &&& read_number(text, 0).end == text.len()
        }),
{
    let reading = read_number(source, start);
    let end = reading.end;
    lemma_digits_end_bounds(source, start);
    let whole = digits_end(source, start);
    assert(whole > start);
    if whole < source.len() {
        lemma_digits_end_bounds(source, whole + 1);
    }
    if whole + 2 <= source.len() {
        lemma_digits_end_bounds(source, whole + 2);
    }
    let frac = digits_end(source, whole + 1);
    if 0 <= frac && frac + 1 <= source.len() {
        lemma_digits_end_bounds(source, frac + 1);
    }
    if 0 <= frac && frac + 2 <= source.len() {
        lemma_digits_end_bounds(source, frac + 2);
    }
    assert(start < end <= source.len());
    let text = source.subrange(start, end);
    assert(text[0] == source[start]);
    lemma_digits_end_in_window(source, start, end, start);
    if whole + 1 <= end {
        lemma_digits_end_in_window(source, start, end, whole + 1);
    }
    if whole + 2 <= end {
        lemma_digits_end_in_window(source, start, end, whole + 2);
    }
    if whole < source.len() && frac + 1 <= end {
        lemma_digits_end_in_window(source, start, end, frac + 1);
    }
    if whole < source.len() && frac + 2 <= end {
        lemma_digits_end_in_window(source, start, end, frac + 2);
    }
    assert forall|i: int| 0 <= i < text.len() implies #[trigger] text[i] == source[start + i] by {}
}

/// Whether `text` is one lexeme that spells `form`: no blank stands before it, and
/// reading it takes the whole text.
pub open spec fn reads_as(text: Seq<char>, form: Form) -> bool {
    &&& skip_blank(text, 0) == 0
    &&& read_lexeme(text, 0) == (Reading { end: text.len() as int, form })
}

/// The text of a relational operator reads as that operator.
pub proof fn lemma_relop_reads_as(kind: RelopKind)
    ensures
        reads_as(relop_text(kind), Form::Relop(kind)),
{
    lemma_mark_texts();
}

/// The text of an arithmetic operator or parenthesis reads as that operator.
pub proof fn lemma_operator_reads_as(kind: OperatorKind)
    ensures
        reads_as(operator_text(kind), Form::Operator(kind)),
{
    lemma_mark_texts();
}

/// The text of a punctuation mark reads as that mark.
pub proof fn lemma_punctuation_reads_as(kind: PunctuationKind)
    ensures
        reads_as(punctuation_text(kind), Form::Punctuation(kind)),
{
    lemma_mark_texts();
}

/// The text of a keyword reads as that keyword.
pub proof fn lemma_keyword_reads_as(kind: KeywordKind)
    ensures
        reads_as(keyword_text(kind), Form::Keyword(kind)),
{
    let text = keyword_text(kind);
    lemma_keyword_spells_itself(kind);
    assert(text.subrange(0, text.len() as int) =~= text);
    assert(read_word(text, 0) == (Reading { end: text.len() as int, form: Form::Keyword(kind) }));
}

/// A character literal reads as that literal.
pub proof fn lemma_char_reads_as(c: char)
    requires
        c != '\'',
    ensures
        reads_as(seq!['\'', c, '\''], Form::Char(c)),
{
    let text = seq!['\'', c, '\''];
    assert(text.len() == 3 && text[0] == '\'' && text[1] == c && text[2] == '\'');
}

/// A word that is no keyword reads as an identifier.
pub proof fn lemma_word_reads_as(text: Seq<char>)
    requires
        text.len() > 0,
        is_letter(text[0]) || text[0] == '_',
        forall|i: int| 0 <= i < text.len() ==> is_word_char(#[trigger] text[i]),
        keyword_of(text) is None,
    ensures
        reads_as(text, Form::Id),
{
    lemma_word_end_of_word(text, 0);
    assert(text.subrange(0, text.len() as int) =~= text);
    assert(read_word(text, 0) == (Reading { end: text.len() as int, form: Form::Id }));
}

/// The text of a number reads as a number of the same kind.
pub proof fn lemma_number_reads_as(source: Seq<char>, start: int)
    requires
        0 <= start < source.len(),
        is_digit(source[start]),
        read_number(source, start).form is Number,
    ensures
        start < read_number(source, start).end <= source.len(),
        reads_as(
            source.subrange(start, read_number(source, start).end),
            read_number(source, start).form,
        ),
{
    lemma_number_again(source, start);
}

/// Reading the exact text of a token again gives a token of the same category, with the
/// same text, and takes the whole text.
pub proof fn lemma_token_read_again(source: Seq<char>, from: int)
    requires
        0 <= from <= source.len(),
        scan_token(source, from).found is Ok,
    ensures
        ({
            let token = scan_token(source, from).found->Ok_0;
            let again = scan_token(token.lexeme(), 0);
            &&& again.found is Ok
            &&& again.found->Ok_0.category() == token.category()
            &&& again.found->Ok_0.lexeme() == token.lexeme()
            &&& again.end == token.lexeme().len()
        }),
{
    lemma_skip_blank_bounds(source, from);
    let start = skip_blank(source, from);
    let reading = read_lexeme(source, start);
    let token = scan_token(source, from).found->Ok_0;
    let text = token.lexeme();
    assert(reads_as(text, reading.form)) by {
        match reading.form {
            Form::Eof => {
                assert(text.len() == 0);
            },
            Form::Relop(kind) => {
                lemma_relop_reads_as(kind);
            },
            Form::Operator(kind) => {
                lemma_operator_reads_as(kind);
            },
            Form::Punctuation(kind) => {
                lemma_punctuation_reads_as(kind);
            },
            Form::Keyword(kind) => {
                lemma_keyword_reads_as(kind);
            },
            Form::Id => {
                lemma_word_end_bounds(source, start);
                assert(text == source.subrange(start, word_end(source, start)));
                assert(text[0] == source[start]);
                lemma_word_reads_as(text);
            },
            Form::Number(_) => {
                lemma_number_reads_as(source, start);
            },
            Form::Char(c) => {
                lemma_char_reads_as(c);
            },
            Form::Error(_) => {},
        }
    }
    assert(text.subrange(0, text.len() as int) =~= text);
}

/// A comment is stepped over whole: where a comment opens at `at`, and `body` characters
/// behind its opening pair the first closing pair stands, reading goes on behind that
/// closing pair as if the comment were not there. The lines that the comment takes count
/// for what follows it.
pub proof fn lemma_comment_skipped(source: Seq<char>, at: int, body: int)
    requires
        0 <= at,
        0 <= body,
        opens_comment(source, at),
        closes_comment(source, at + 2 + body),
        forall|i: int| at + 2 <= i < at + 2 + body ==> !closes_comment(source, i),
    ensures
        skip_blank(source, at) == skip_blank(source, at + 2 + body + 2),
        scan_token(source, at) == scan_token(source, at + 2 + body + 2),
{
    lemma_comment_end_found(source, at + 2, at + 2 + body);
}

/// A comment ends behind the first closing pair.
pub proof fn lemma_comment_end_found(source: Seq<char>, from: int, close: int)
    requires
        0 <= from <= close,
        closes_comment(source, close),
        forall|i: int| from <= i < close ==> !closes_comment(source, i),
    ensures
        comment_end(source, from) == close + 2,
    decreases close - from,
{
    if from < close {
        lemma_comment_end_found(source, from + 1, close);
    }
}

/// A comment that nothing closes takes the rest of the source: the token behind it is
/// the end of input.
pub proof fn lemma_unclosed_comment(source: Seq<char>, at: int)
    requires
        opens_comment(source, at),
        forall|i: int| at + 2 <= i < source.len() ==> !closes_comment(source, i),
    ensures
        skip_blank(source, at) == source.len(),
        scan_token(source, at).found == Ok::<TokenView, LexErrorView>(
            TokenView::Eof,
        ),
{
    lemma_comment_end_unclosed(source, at + 2);
    assert(skip_blank(source, source.len() as int) == source.len());
}

/// A comment that nothing closes ends with the source.
pub proof fn lemma_comment_end_unclosed(source: Seq<char>, from: int)
    requires
        0 <= from <= source.len(),
        forall|i: int| from <= i < source.len() ==> !closes_comment(source, i),
    ensures
        comment_end(source, from) == source.len(),
    decreases source.len() - from,
{
    if from < source.len() {
        lemma_comment_end_unclosed(source, from + 1);
    }
}

/// The line of a character is one more than the number of line feeds before it: it grows
/// by one with each line feed, wherever that stands.
pub proof fn lemma_line_counts_line_feeds(source: Seq<char>, from: int, to: int)
    requires
        0 <= from <= to <= source.len(),
    ensures
        line_at(source, to) == line_at(source, from) + source.subrange(from, to).filter(
            |c: char| c == '\n',
        ).len(),
    decreases to - from,
{
    let newline = |c: char| c == '\n';
    reveal(Seq::filter);
    if from < to {
        lemma_line_counts_line_feeds(source, from, to - 1);
        assert(source.subrange(from, to).drop_last() =~= source.subrange(from, to - 1));
    }
}

/// Every lexeme ends inside the source, and behind its start unless the source ends there.
pub proof fn lemma_read_lexeme_bounds(source: Seq<char>, start: int)
    requires
        0 <= start <= source.len(),
    ensures
        start <= read_lexeme(source, start).end <= source.len(),
        start < source.len() ==> start < read_lexeme(source, start).end,
        read_lexeme(source, start).form is Eof <==> start == source.len(),
{
    if start < source.len() {
        lemma_digits_end_bounds(source, start);
        lemma_word_end_bounds(source, start);
        let whole = digits_end(source, start);
        if whole < source.len() {
            lemma_digits_end_bounds(source, whole + 1);
            let frac = digits_end(source, whole + 1);
            if frac + 1 <= source.len() {
                lemma_digits_end_bounds(source, frac + 1);
            }
            if frac + 2 <= source.len() {
                lemma_digits_end_bounds(source, frac + 2);
            }
            lemma_digits_end_bounds(source, whole + 1);
            if whole + 2 <= source.len() {
                lemma_digits_end_bounds(source, whole + 2);
            }
        }
    }
}

/// Reading a token leaves the source behind it: the reader never goes back, and it goes
/// on unless it stands at the end of the source behind the blanks and comments.
pub proof fn lemma_scan_goes_on(source: Seq<char>, from: int)
    requires
        0 <= from <= source.len(),
    ensures
        from <= scan_token(source, from).end <= source.len(),
        scan_token(source, from).found != Ok::<TokenView, LexErrorView>(TokenView::Eof) ==> from
            < scan_token(source, from).end,
        scan_token(source, from).found == Ok::<TokenView, LexErrorView>(TokenView::Eof)
            ==> scan_token(source, from).end == source.len(),
{
    lemma_skip_blank_bounds(source, from);
    lemma_read_lexeme_bounds(source, skip_blank(source, from));
}

/// The first occurrence wins: reading a token changes no entry that the symbol table
/// holds.
pub proof fn lemma_recorded_keeps_entries(table: Map<Seq<char>, TokenView>, token: TokenView)
    ensures
        table.submap_of(recorded(table, token)),
{
}

} // verus!
