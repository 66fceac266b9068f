//! Shell-word tokenizer.
//!
//! A command line is split into words the way a POSIX-like shell would read
//! it: unquoted whitespace separates words; single quotes keep their content
//! verbatim; double quotes allow backslash escapes of `$`, a backtick, `"`,
//! `\` (a backslash before any other character is kept literally, and a
//! backslash before a newline is not allowed inside double quotes); an
//! unquoted backslash escapes the next character, except that a backslash at
//! the end of the input or before a newline stands for itself. A quote that
//! is opened and never closed is a `MismatchedQuotes` error.
//!
//! The meaning of the tokenizer is given by a character-at-a-time scanner:
//! [`scan_step`] is the transition of one character, [`scan_run`] folds it
//! over the input, and [`tokenize`] reads the result off the final state.

use vstd::prelude::*;

use crate::strutil::push_char;

verus! {

/// Error of [`split_words`]: a quote was opened and never closed.
#[derive(Clone, Copy, Debug, PartialEq, Eq, Structural)]
pub struct MismatchedQuotes;

/// Where the scanner stands inside the input.
#[derive(Clone, Copy, Debug, PartialEq, Eq, Structural)]
pub enum ScanMode {
    /// Outside any quote.
    Plain,
    /// Inside single quotes.
    Single,
    /// Inside double quotes.
    Double,
    /// Inside double quotes, right after a backslash.
    DoubleEscape,
    /// Outside quotes, right after a backslash.
    Escape,
    /// The input can no longer tokenize, whatever follows.
    Failed,
}

/// Full scanner state: the words already finished, the word in progress
/// (`cur` is `Some` exactly while a word has been started), and the mode.
pub struct ScanState {
    pub words: Seq<Seq<char>>,
    pub cur: Option<Seq<char>>,
    pub mode: ScanMode,
}

/// Word-separating whitespace: ASCII space, tab, newline, carriage return,
/// vertical tab and form feed.
pub open spec fn is_space_char(c: char) -> bool {
    c == ' ' || c == '\t' || c == '\n' || c == '\r' || c == '\u{b}' || c == '\u{c}'
}

/// A character with no special meaning to the tokenizer.
pub open spec fn plain_char(c: char) -> bool {
    !is_space_char(c) && c != '\'' && c != '"' && c != '\\'
}

/// A non-empty word made only of plain characters.
pub open spec fn plain_word(w: Seq<char>) -> bool {
    w.len() > 0 && (forall|j: int| 0 <= j < w.len() ==> plain_char(#[trigger] w[j]))
}

/// The word in progress, empty if none has been started.
pub open spec fn cur_word(cur: Option<Seq<char>>) -> Seq<char> {
    match cur {
        Option::Some(w) => w,
        Option::None => Seq::empty(),
    }
}

/// Characters that a backslash escapes inside double quotes.
pub open spec fn double_quote_escapable(c: char) -> bool {
    c == '$' || c == '`' || c == '"' || c == '\\'
}

/// One character of scanning.
pub open spec fn scan_step(st: ScanState, c: char) -> ScanState {
    match st.mode {
        ScanMode::Plain => {
            if is_space_char(c) {
                match st.cur {
                    Option::Some(w) => (ScanState {
                        words: st.words.push(w),
                        cur: Option::None,
                        mode: ScanMode::Plain,
                    }),
                    Option::None => st,
                }
            } else if c == '\'' {
                (ScanState { cur: Option::Some(cur_word(st.cur)), mode: ScanMode::Single, ..st })
            } else if c == '"' {
                (ScanState { cur: Option::Some(cur_word(st.cur)), mode: ScanMode::Double, ..st })
            } else if c == '\\' {
                (ScanState { cur: Option::Some(cur_word(st.cur)), mode: ScanMode::Escape, ..st })
            } else {
                (ScanState { cur: Option::Some(cur_word(st.cur).push(c)), ..st })
            }
        },
        ScanMode::Single => {
            if c == '\'' {
                (ScanState { mode: ScanMode::Plain, ..st })
            } else {
                (ScanState { cur: Option::Some(cur_word(st.cur).push(c)), ..st })
            }
        },
        ScanMode::Double => {
            if c == '"' {
                (ScanState { mode: ScanMode::Plain, ..st })
            } else if c == '\\' {
                (ScanState { mode: ScanMode::DoubleEscape, ..st })
            } else {
                (ScanState { cur: Option::Some(cur_word(st.cur).push(c)), ..st })
            }
        },
        ScanMode::DoubleEscape => {
            if c == '\n' {
                (ScanState { mode: ScanMode::Failed, ..st })
            } else if double_quote_escapable(c) {
                (ScanState {
                    cur: Option::Some(cur_word(st.cur).push(c)),
                    mode: ScanMode::Double,
                    ..st
                })
            } else {
                (ScanState {
                    cur: Option::Some(cur_word(st.cur).push('\\').push(c)),
                    mode: ScanMode::Double,
                    ..st
                })
            }
        },
        ScanMode::Escape => {
            if c == '\n' {
                (ScanState {
                    words: st.words.push(cur_word(st.cur).push('\\')),
                    cur: Option::None,
                    mode: ScanMode::Plain,
                })
            } else {
                (ScanState { cur: Option::Some(cur_word(st.cur).push(c)), mode: ScanMode::Plain, ..st })
            }
        },
        ScanMode::Failed => st,
    }
}

/// The scanner folded over a whole character sequence.
pub open spec fn scan_run(st: ScanState, cs: Seq<char>) -> ScanState
    decreases cs.len(),
{
    if cs.len() == 0 {
        st
    } else {
        scan_step(scan_run(st, cs.drop_last()), cs.last())
    }
}

/// The state the scanner starts from.
pub open spec fn init_scan() -> ScanState {
    ScanState { words: Seq::empty(), cur: Option::None, mode: ScanMode::Plain }
}

/// Reading the words off a final state. `None` means mismatched quotes.
pub open spec fn finalize_scan(st: ScanState) -> Option<Seq<Seq<char>>> {
    match st.mode {
        ScanMode::Plain => match st.cur {
            Option::Some(w) => Option::Some(st.words.push(w)),
            Option::None => Option::Some(st.words),
        },
        ScanMode::Escape => Option::Some(st.words.push(cur_word(st.cur).push('\\'))),
        _ => Option::None,
    }
}

/// What [`split_words`] returns: the word sequence of `s`, or `None` when a
/// quote is left open.
pub open spec fn tokenize(s: Seq<char>) -> Option<Seq<Seq<char>>> {
    finalize_scan(scan_run(init_scan(), s))
}

/// View of a vector of words.
pub open spec fn words_view(v: Seq<String>) -> Seq<Seq<char>> {
    v.map_values(|s: String| s@)
}

/// The words joined back into one line, with a single space between two
/// neighbouring words.
pub open spec fn join_words(toks: Seq<Seq<char>>) -> Seq<char>
    decreases toks.len(),
{
    if toks.len() == 0 {
        Seq::empty()
    } else if toks.len() == 1 {
        toks[0]
    } else {
        join_words(toks.drop_last()) + seq![' '] + toks.last()
    }
}

/// Scanning distributes over concatenation of the input.
pub proof fn lemma_scan_run_concat(st: ScanState, a: Seq<char>, b: Seq<char>)
    ensures
        scan_run(st, a + b) == scan_run(scan_run(st, a), b),
    decreases b.len(),
{
    if b.len() == 0 {
        assert(a + b =~= a);
    } else {
        lemma_scan_run_concat(st, a, b.drop_last());
        assert((a + b).drop_last() =~= a + b.drop_last());
        assert((a + b).last() == b.last());
    }
}

/// A run of plain characters only extends the word in progress.
proof fn lemma_scan_plain_append(words: Seq<Seq<char>>, p: Seq<char>, w: Seq<char>)
    requires
        forall|j: int| 0 <= j < w.len() ==> plain_char(#[trigger] w[j]),
    ensures
        scan_run(
            ScanState { words: words, cur: Option::Some(p), mode: ScanMode::Plain },
            w,
        ) == (ScanState { words: words, cur: Option::Some(p + w), mode: ScanMode::Plain }),
    decreases w.len(),
{
    if w.len() == 0 {
        assert(p + w =~= p);
    } else {
        lemma_scan_plain_append(words, p, w.drop_last());
        assert((p + w.drop_last()).push(w.last()) =~= p + w);
    }
}

/// A plain word scanned from between words becomes the word in progress.
proof fn lemma_scan_plain_word(words: Seq<Seq<char>>, w: Seq<char>)
    requires
        plain_word(w),
    ensures
        scan_run(
            ScanState { words: words, cur: Option::None, mode: ScanMode::Plain },
            w,
        ) == (ScanState { words: words, cur: Option::Some(w), mode: ScanMode::Plain }),
{
    let st = ScanState { words: words, cur: Option::None, mode: ScanMode::Plain };
    let first = seq![w[0]];
    let rest = w.drop_first();
    assert(w =~= first + rest);
    assert(scan_run(st, first) == (ScanState {
        words: words,
        cur: Option::Some(Seq::empty().push(w[0])),
        mode: ScanMode::Plain,
    })) by {
        reveal_with_fuel(scan_run, 2);
        assert(first.drop_last() =~= Seq::<char>::empty());
        assert(first.last() == w[0]);
    }
    lemma_scan_run_concat(st, first, rest);
    assert(forall|j: int| 0 <= j < rest.len() ==> plain_char(#[trigger] rest[j]));
    lemma_scan_plain_append(words, Seq::empty().push(w[0]), rest);
    assert(Seq::empty().push(w[0]) + rest =~= w);
}

/// Scanning the joined words, starting between words, finishes every word but
/// the last and leaves the last one in progress.
proof fn lemma_scan_join(words: Seq<Seq<char>>, toks: Seq<Seq<char>>)
    requires
        toks.len() > 0,
        forall|i: int| 0 <= i < toks.len() ==> plain_word(#[trigger] toks[i]),
    ensures
        scan_run(
            ScanState { words: words, cur: Option::None, mode: ScanMode::Plain },
            join_words(toks),
        ) == (ScanState {
            words: words + toks.drop_last(),
            cur: Option::Some(toks.last()),
            mode: ScanMode::Plain,
        }),
    decreases toks.len(),
{
    let st = ScanState { words: words, cur: Option::None, mode: ScanMode::Plain };
    if toks.len() == 1 {
        lemma_scan_plain_word(words, toks[0]);
        assert(words + toks.drop_last() =~= words);
    } else {
        let pre = toks.drop_last();
        let w = toks.last();
        lemma_scan_join(words, pre);
        let st1 = ScanState {
            words: words + pre.drop_last(),
            cur: Option::Some(pre.last()),
            mode: ScanMode::Plain,
        };
        let st2 = ScanState {
            words: (words + pre.drop_last()).push(pre.last()),
            cur: Option::None,
            mode: ScanMode::Plain,
        };
        lemma_scan_run_concat(st, join_words(pre), seq![' ']);
        assert(scan_run(st1, seq![' ']) == st2) by {
            reveal_with_fuel(scan_run, 2);
            assert(seq![' '].drop_last() =~= Seq::<char>::empty());
            assert(seq![' '].last() == ' ');
        }
        lemma_scan_run_concat(st, join_words(pre) + seq![' '], w);
        lemma_scan_plain_word(st2.words, w);
        assert((words + pre.drop_last()).push(pre.last()) =~= words + pre);
        assert(words + pre =~= words + toks.drop_last());
    }
}

/// Law: tokenizing is a left inverse of joining. Any sequence of non-empty
/// words that contain no whitespace, quote or backslash characters is
/// recovered exactly by tokenizing its single-space join.
pub proof fn lemma_tokenize_round_trip(toks: Seq<Seq<char>>)
    requires
        forall|i: int| 0 <= i < toks.len() ==> plain_word(#[trigger] toks[i]),
    ensures
        tokenize(join_words(toks)) == Option::Some(toks),
{
    if toks.len() == 0 {
        assert(tokenize(join_words(toks)) == Option::Some(Seq::<Seq<char>>::empty()));
        assert(Seq::<Seq<char>>::empty() =~= toks);
    } else {
        lemma_scan_join(Seq::empty(), toks);
        assert(Seq::empty() + toks.drop_last() =~= toks.drop_last());
        assert(toks.drop_last().push(toks.last()) =~= toks);
    }
}

fn is_space(c: char) -> (r: bool)
    ensures
        r == is_space_char(c),
{
    c == ' ' || c == '\t' || c == '\n' || c == '\r' || c == '\u{b}' || c == '\u{c}'
}

/// Splits a command line into shell words; errors on an unclosed quote.
pub fn split_words(input: &str) -> (r: Result<Vec<String>, MismatchedQuotes>)
    ensures
        r is Ok <==> tokenize(input@) is Some,
        r matches Ok(v) ==> Option::Some(words_view(v@)) == tokenize(input@),
{
    let n = input.unicode_len();
    let mut words: Vec<String> = Vec::new();
    let mut cur = String::new();
    let mut has_cur = false;
    let mut mode = ScanMode::Plain;
    let mut i: usize = 0;
    proof {
        assert(input@.take(0) =~= Seq::<char>::empty());
        assert(words_view(words@) =~= Seq::<Seq<char>>::empty());
    }
    while i < n
        invariant
            n == input@.len(),
            0 <= i <= n,
            (mode is Single || mode is Double || mode is DoubleEscape || mode is Escape)
                ==> has_cur,
            scan_run(init_scan(), input@.take(i as int)) == (ScanState {
                words: words_view(words@),
                cur: if has_cur {
                    Option::Some(cur@)
                } else {
                    Option::None
                },
                mode: mode,
            }),
            !has_cur ==> cur@ == Seq::<char>::empty(),
        decreases n - i,
    {
        let ghost st0 = scan_run(init_scan(), input@.take(i as int));
        let c = input.get_char(i);
        proof {
            assert(input@.take(i + 1).drop_last() =~= input@.take(i as int));
            assert(input@.take(i + 1).last() == input@[i as int]);
        }
        match mode {
            ScanMode::Plain => {
                if is_space(c) {
                    if has_cur {
                        words.push(cur);
                        cur = String::new();
                        has_cur = false;
                        proof {
                            assert(words_view(words@) =~= st0.words.push(cur_word(st0.cur)));
                        }
                    }
                } else if c == '\'' {
                    has_cur = true;
                    mode = ScanMode::Single;
                } else if c == '"' {
                    has_cur = true;
                    mode = ScanMode::Double;
                } else if c == '\\' {
                    has_cur = true;
                    mode = ScanMode::Escape;
                } else {
                    has_cur = true;
                    push_char(&mut cur, c);
                }
            },
            ScanMode::Single => {
                if c == '\'' {
                    mode = ScanMode::Plain;
                } else {
                    push_char(&mut cur, c);
                }
            },
            ScanMode::Double => {
                if c == '"' {
                    mode = ScanMode::Plain;
                } else if c == '\\' {
                    mode = ScanMode::DoubleEscape;
                } else {
                    push_char(&mut cur, c);
                }
            },
            ScanMode::DoubleEscape => {
                if c == '\n' {
                    mode = ScanMode::Failed;
                } else if c == '$' || c == '`' || c == '"' || c == '\\' {
                    push_char(&mut cur, c);
                    mode = ScanMode::Double;
                } else {
                    push_char(&mut cur, '\\');
                    push_char(&mut cur, c);
                    mode = ScanMode::Double;
                }
            },
            ScanMode::Escape => {
                if c == '\n' {
                    push_char(&mut cur, '\\');
                    words.push(cur);
                    cur = String::new();
                    has_cur = false;
                    mode = ScanMode::Plain;
                    proof {
                        assert(words_view(words@) =~= st0.words.push(cur_word(st0.cur).push('\\')));
                    }
                } else {
                    push_char(&mut cur, c);
                    mode = ScanMode::Plain;
                }
            },
            ScanMode::Failed => {},
        }
        i += 1;
    }
    proof {
        assert(input@.take(n as int) =~= input@);
    }
    match mode {
        ScanMode::Plain => {
            if has_cur {
                words.push(cur);
                proof {
                    assert(words_view(words@) =~= tokenize(input@)->Some_0);
                }
            }
            Result::Ok(words)
        },
        ScanMode::Escape => {
            push_char(&mut cur, '\\');
            words.push(cur);
            proof {
                assert(words_view(words@) =~= tokenize(input@)->Some_0);
            }
            Result::Ok(words)
        },
        _ => Result::Err(MismatchedQuotes),
    }
}

} // verus!
