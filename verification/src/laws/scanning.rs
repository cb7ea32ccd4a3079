//! Facts that hold of every scan.

use vstd::prelude::*;
use crate::error::{LexicalError, LexicalErrorKind};
use crate::lexical::{
    closing_quote, comparison, eof_token, errors_from, errors_of, item_at, item_end,
    lemma_item_end, lemma_run_end, lemma_same_line, line_after, punctuation, run_end, token_at,
    tokens_from, tokens_of, CharClass, Lexed,
};
use crate::token::{TokenType, TokenView};

verus! {


/// The kind of the operator that the single character `c` is, if it is one.
pub open spec fn single_operator(c: char) -> Option<TokenType> {
    if punctuation(c) is Some {
        punctuation(c)
    } else if comparison(c, false) is Some {
        comparison(c, false)
    } else if c == '/' {
        Some(TokenType::Slash)
    } else {
        None
    }
}

/// A text that is one single-character operator scans to exactly one token
/// of that operator's kind, then the end-of-file token, with no fault.
pub proof fn lemma_single_operator(c: char)
    requires
        single_operator(c) is Some,
    ensures
        tokens_of(seq![c]) == seq![
            TokenView {
                token_type: single_operator(c)->0,
                lexeme: seq![c],
                literal: None,
                line: 1,
            },
            eof_token(1),
        ],
        errors_of(seq![c]) == Seq::<LexicalError>::empty(),
{
    let src = seq![c];
    assert(item_end(src, 0) == 1);
    assert(item_at(src, 0) == Lexed::Token(single_operator(c)->0));
    lemma_same_line(src, 0, 1, 1);
    assert(tokens_from(src, 1, 1) == seq![eof_token(1)]);
    assert(errors_from(src, 1, 1) == Seq::<LexicalError>::empty());
    assert(src.subrange(0, 1) =~= src);
    assert(tokens_of(src) =~= seq![token_at(src, 0, 1, single_operator(c)->0, 1)] + seq![
        eof_token(1),
    ]);
    assert(tokens_of(src) =~= seq![
        TokenView { token_type: single_operator(c)->0, lexeme: seq![c], literal: None, line: 1 },
        eof_token(1),
    ]);
    assert(errors_of(src) =~= Seq::<LexicalError>::empty());
}

/// No lexical item is an end-of-file token.
pub proof fn lemma_item_is_not_eof(src: Seq<char>, pos: int)
    requires
        0 <= pos < src.len(),
    ensures
        item_at(src, pos) != Lexed::Token(TokenType::Eof),
{
}

/// Every token sequence ends with the end-of-file token, and holds no other
/// one.
pub proof fn lemma_ends_with_eof(src: Seq<char>, pos: int, line: usize)
    requires
        0 <= pos <= src.len(),
    ensures
        tokens_from(src, pos, line).len() >= 1,
        tokens_from(src, pos, line).last().token_type == TokenType::Eof,
        forall|i: int|
            0 <= i < tokens_from(src, pos, line).len() - 1 ==> (#[trigger] tokens_from(
                src,
                pos,
                line,
            )[i]).token_type != TokenType::Eof,
    decreases src.len() - pos,
{
    if pos < src.len() {
        lemma_item_end(src, pos);
        lemma_item_is_not_eof(src, pos);
        let end = item_end(src, pos);
        lemma_ends_with_eof(src, end, line_after(src, pos, end, line));
    }
}

/// A line comment yields no token and no fault: a text that is `//` and
/// then anything without a line feed scans to the end-of-file token alone.
pub proof fn lemma_comment_is_skipped(text: Seq<char>)
    requires
        forall|i: int| 0 <= i < text.len() ==> text[i] != '\n',
    ensures
        tokens_of(seq!['/', '/'] + text) == seq![eof_token(1)],
        errors_of(seq!['/', '/'] + text) == Seq::<LexicalError>::empty(),
{
    let src = seq!['/', '/'] + text;
    lemma_run_end(src, 2, CharClass::SameLine);
    let end = run_end(src, 2, CharClass::SameLine);
    if end < src.len() {
        assert(src[end] == text[end - 2]);
    }
    assert(end == src.len());
    assert(item_end(src, 0) == end);
    assert(item_at(src, 0) == Lexed::Blank);
    assert forall|i: int| 0 <= i < src.len() implies #[trigger] src[i] != '\n' by {
        if i >= 2 {
            assert(src[i] == text[i - 2]);
        }
    }
    lemma_same_line(src, 0, end, 1);
    assert(tokens_from(src, end, 1) == seq![eof_token(1)]);
    assert(errors_from(src, end, 1) == Seq::<LexicalError>::empty());
    assert(tokens_of(src) =~= seq![eof_token(1)]);
    assert(errors_of(src) =~= Seq::<LexicalError>::empty());
}

/// A string that is never closed yields no token and exactly one fault, at
/// the line the string starts on; the token sequence is still closed by the
/// end-of-file token.
pub proof fn lemma_unterminated_string(text: Seq<char>)
    requires
        closing_quote(seq!['"'] + text, 1) == text.len() + 1,
    ensures
        tokens_of(seq!['"'] + text) == seq![
            eof_token(line_after(seq!['"'] + text, 0, text.len() as int + 1, 1)),
        ],
        errors_of(seq!['"'] + text) == seq![
            LexicalError { kind: LexicalErrorKind::UnterminatedString, line: 1 },
        ],
{
    let src = seq!['"'] + text;
    assert(item_end(src, 0) == src.len());
    assert(item_at(src, 0) == Lexed::Fault(LexicalErrorKind::UnterminatedString));
    let line = line_after(src, 0, src.len() as int, 1);
    assert(tokens_from(src, src.len() as int, line) == seq![eof_token(line)]);
    assert(errors_from(src, src.len() as int, line) == Seq::<LexicalError>::empty());
    assert(tokens_of(src) =~= seq![eof_token(line)]);
    assert(errors_of(src) =~= seq![
        LexicalError { kind: LexicalErrorKind::UnterminatedString, line: 1 },
    ]);
}

/// The number of line feeds in `src[from..to]`.
pub open spec fn line_feeds(src: Seq<char>, from: int, to: int) -> nat
    decreases to - from,
{
    if from >= to {
        0
    } else if src[to - 1] == '\n' {
        1 + line_feeds(src, from, to - 1)
    } else {
        line_feeds(src, from, to - 1)
    }
}

/// Lines are counted by line feeds: as long as the count fits the machine,
/// the line reached after reading a stretch of text is the line before it
/// plus the number of line feeds in the stretch.
pub proof fn lemma_lines_count_line_feeds(src: Seq<char>, from: int, to: int, line: usize)
    requires
        0 <= from <= to <= src.len(),
        line + line_feeds(src, from, to) <= usize::MAX,
    ensures
        line_after(src, from, to, line) == line + line_feeds(src, from, to),
    decreases to - from,
{
    if from < to {
        lemma_lines_count_line_feeds(src, from, to - 1, line);
    }
}

/// A stretch of text holds no more line feeds than characters.
pub proof fn lemma_line_feeds_bound(src: Seq<char>, from: int, to: int)
    requires
        0 <= from <= to <= src.len(),
    ensures
        line_feeds(src, from, to) <= to - from,
    decreases to - from,
{
    if from < to {
        lemma_line_feeds_bound(src, from, to - 1);
    }
}

/// Every token but the end-of-file token has a lexeme that is not empty,
/// and the lexeme is a stretch of the source.
pub proof fn lemma_lexemes_are_stretches(src: Seq<char>, pos: int, line: usize)
    requires
        0 <= pos <= src.len(),
    ensures
        forall|i: int|
            0 <= i < tokens_from(src, pos, line).len() - 1 ==> {
                let token = #[trigger] tokens_from(src, pos, line)[i];
                &&& token.lexeme.len() > 0
                &&& exists|from: int, to: int|
                    pos <= from < to <= src.len() && token.lexeme == src.subrange(from, to)
            },
    decreases src.len() - pos,
{
    if pos < src.len() {
        lemma_item_end(src, pos);
        let end = item_end(src, pos);
        let below = line_after(src, pos, end, line);
        let rest = tokens_from(src, end, below);
        lemma_lexemes_are_stretches(src, end, below);
        lemma_ends_with_eof(src, end, below);
        let all = tokens_from(src, pos, line);
        assert forall|i: int| 0 <= i < all.len() - 1 implies {
            let token = #[trigger] all[i];
            &&& token.lexeme.len() > 0
            &&& exists|from: int, to: int|
                pos <= from < to <= src.len() && token.lexeme == src.subrange(from, to)
        } by {
            match item_at(src, pos) {
                Lexed::Token(kind) => {
                    if i == 0 {
                        assert(all[0] == token_at(src, pos, end, kind, line));
                        assert(pos <= pos < end <= src.len() && all[0].lexeme == src.subrange(
                            pos,
                            end,
                        ));
                    } else {
                        assert(all[i] == rest[i - 1]);
                        let token = rest[i - 1];
                        let (from, to) = choose|from: int, to: int|
                            end <= from < to <= src.len() && token.lexeme == src.subrange(
                                from,
                                to,
                            );
                        assert(pos <= from < to <= src.len() && all[i].lexeme == src.subrange(
                            from,
                            to,
                        ));
                    }
                },
                _ => {
                    assert(all[i] == rest[i]);
                    let token = rest[i];
                    let (from, to) = choose|from: int, to: int|
                        end <= from < to <= src.len() && token.lexeme == src.subrange(from, to);
                    assert(pos <= from < to <= src.len() && all[i].lexeme == src.subrange(
                        from,
                        to,
                    ));
                },
            }
        }
    }
}

} // verus!
