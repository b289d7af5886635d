//! Quoting of text for a POSIX shell.
use vstd::prelude::*;
use crate::text::{chars_of, joined, owned};

verus! {

/// Whether the standard library's `char::is_alphanumeric` holds of a character.
pub uninterp spec fn unicode_alphanumeric(c: char) -> bool;

/// Calls the standard library's `char::is_alphanumeric`, whose tables follow the Unicode
/// properties `Alphabetic` and `Nd`, `Nl`, `No`. The result is named by `unicode_alphanumeric`.
#[verifier::external_body]
fn is_unicode_alphanumeric(c: char) -> (r: bool)
    ensures
        r == unicode_alphanumeric(c),
{
    c.is_alphanumeric()
}

/// A letter or a digit. Among the ASCII characters these are `a` to `z`, `A` to `Z` and `0` to
/// `9`; beyond them the Unicode tables decide.
pub open spec fn alphanumeric(c: char) -> bool {
    if c <= '\u{7f}' {
        ('a' <= c <= 'z') || ('A' <= c <= 'Z') || ('0' <= c <= '9')
    } else {
        unicode_alphanumeric(c)
    }
}

/// The characters that a shell reads as themselves without quotes.
pub open spec fn safe_char(c: char) -> bool {
    alphanumeric(c) || c == '_' || c == '-' || c == '.' || c == '/' || c == ':'
}

/// Every character of `s` is safe.
pub open spec fn all_safe(s: Seq<char>) -> bool {
    forall|i: int| 0 <= i < s.len() ==> safe_char(#[trigger] s[i])
}

/// A single quote inside single quotes: the quotes are closed, the quote stands escaped, and they
/// are opened again.
pub open spec fn quote_escape() -> Seq<char> {
    seq!['\'', '\\', '\'', '\'']
}

/// `s` with every single quote written as `quote_escape`.
pub open spec fn quotes_escaped(s: Seq<char>) -> Seq<char>
    decreases s.len(),
{
    if s.len() == 0 {
        Seq::empty()
    } else if s.last() == '\'' {
        quotes_escaped(s.drop_last()) + quote_escape()
    } else {
        quotes_escaped(s.drop_last()).push(s.last())
    }
}

/// `s` as one shell word: unchanged if all its characters are safe, else in single quotes.
pub open spec fn escaped(s: Seq<char>) -> Seq<char> {
    if all_safe(s) {
        s
    } else {
        seq!['\''] + quotes_escaped(s) + seq!['\'']
    }
}

/// Where a shell stands while it reads a word.
pub enum Quoting {
    /// Outside quotes.
    Plain,
    /// Behind a backslash outside quotes.
    Backslash,
    /// Inside single quotes.
    Single,
}

/// How a POSIX shell reads `word` on top of what it has `read` so far. Outside quotes a single
/// quote opens a quoted part, a backslash makes the next character literal, and a safe character
/// stands for itself; inside single quotes every character but the single quote does. `None` if a
/// character outside quotes is one that the shell could act on, or if the word ends too early.
pub open spec fn shell_reads(word: Seq<char>, state: Quoting, read: Seq<char>) -> Option<Seq<char>>
    decreases word.len(),
{
    if word.len() == 0 {
        match state {
            Quoting::Plain => Some(read),
            _ => None,
        }
    } else {
        let c = word[0];
        let rest = word.skip(1);
        match state {
            Quoting::Plain => {
                if c == '\'' {
                    shell_reads(rest, Quoting::Single, read)
                } else if c == '\\' {
                    shell_reads(rest, Quoting::Backslash, read)
                } else if safe_char(c) {
                    shell_reads(rest, Quoting::Plain, read.push(c))
                } else {
                    None
                }
            },
            Quoting::Backslash => shell_reads(rest, Quoting::Plain, read.push(c)),
            Quoting::Single => {
                if c == '\'' {
                    shell_reads(rest, Quoting::Plain, read)
                } else {
                    shell_reads(rest, Quoting::Single, read.push(c))
                }
            },
        }
    }
}

/// How a POSIX shell reads the words of `line`, with `word` as the word that it is in and `words` as
/// those behind it. Spaces outside quotes end a word; otherwise words are read as `shell_reads`
/// reads them. `None` if a character outside quotes is one that the shell could act on, or if the
/// line ends too early.
pub open spec fn shell_splits(
    line: Seq<char>,
    state: Quoting,
    word: Option<Seq<char>>,
    words: Seq<Seq<char>>,
) -> Option<Seq<Seq<char>>>
    decreases line.len(),
{
    let begun = match word {
        Some(w) => w,
        None => Seq::empty(),
    };
    let ended = match word {
        Some(w) => words.push(w),
        None => words,
    };
    if line.len() == 0 {
        match state {
            Quoting::Plain => Some(ended),
            _ => None,
        }
    } else {
        let c = line[0];
        let rest = line.skip(1);
        match state {
            Quoting::Plain => {
                if c == ' ' {
                    shell_splits(rest, Quoting::Plain, None, ended)
                } else if c == '\'' {
                    shell_splits(rest, Quoting::Single, Some(begun), words)
                } else if c == '\\' {
                    shell_splits(rest, Quoting::Backslash, Some(begun), words)
                } else if safe_char(c) {
                    shell_splits(rest, Quoting::Plain, Some(begun.push(c)), words)
                } else {
                    None
                }
            },
            Quoting::Backslash => shell_splits(rest, Quoting::Plain, Some(begun.push(c)), words),
            Quoting::Single => {
                if c == '\'' {
                    shell_splits(rest, Quoting::Plain, Some(begun), words)
                } else {
                    shell_splits(rest, Quoting::Single, Some(begun.push(c)), words)
                }
            },
        }
    }
}

/// The words that a POSIX shell reads from `line`.
pub open spec fn shell_words(line: Seq<char>) -> Option<Seq<Seq<char>>> {
    shell_splits(line, Quoting::Plain, None, Seq::empty())
}

/// The words of `list`, escaped, with spaces between them.
pub open spec fn escaped_words(list: Seq<Seq<char>>) -> Seq<char> {
    joined(list.map_values(|w: Seq<char>| escaped(w)), " "@)
}

/// Whether `c` is a letter or a digit.
fn is_alphanumeric(c: char) -> (r: bool)
    ensures
        r == alphanumeric(c),
{
    if c <= '\u{7f}' {
        ('a' <= c && c <= 'z') || ('A' <= c && c <= 'Z') || ('0' <= c && c <= '9')
    } else {
        is_unicode_alphanumeric(c)
    }
}

/// Whether `c` is safe without quotes.
pub fn is_safe_char(c: char) -> (r: bool)
    ensures
        r == safe_char(c),
{
    is_alphanumeric(c) || c == '_' || c == '-' || c == '.' || c == '/' || c == ':'
}

/// Writes `s` as one shell word.
///
/// The result can stand as a value in `export KEY=value` and as an argument of a command. A text
/// of letters, digits, `_`, `-`, `.`, `/` and `:` is left as it is; any other is put in single
/// quotes, with each single quote in it written as `'\''`.
pub fn shell_escape(s: &str) -> (r: String)
    ensures
        r@ == escaped(s@),
{
    let chars = chars_of(s);
    let mut safe = true;
    let mut i: usize = 0;
    while i < chars.len()
        invariant
            i <= chars@.len(),
            safe <==> forall|j: int| 0 <= j < i ==> safe_char(#[trigger] chars@[j]),
        decreases chars@.len() - i,
    {
        safe = safe && is_safe_char(chars[i]);
        i = i + 1;
    }
    if safe {
        return owned(s);
    }
    let mut r = String::new();
    r.push('\'');
    let mut k: usize = 0;
    assert(r@ =~= seq!['\''] + quotes_escaped(s@.take(0)));
    while k < chars.len()
        invariant
            k <= chars@.len(),
            chars@ == s@,
            r@ == seq!['\''] + quotes_escaped(s@.take(k as int)),
        decreases chars@.len() - k,
    {
        let c = chars[k];
        assert(s@.take(k + 1).drop_last() =~= s@.take(k as int));
        if c == '\'' {
            r.push('\'');
            r.push('\\');
            r.push('\'');
            r.push('\'');
        } else {
            r.push(c);
        }
        k = k + 1;
        assert(r@ =~= seq!['\''] + quotes_escaped(s@.take(k as int)));
    }
    r.push('\'');
    assert(s@.take(k as int) =~= s@);
    assert(r@ =~= escaped(s@));
    r
}

proof fn lemma_plain_reads_safe(s: Seq<char>, read: Seq<char>)
    requires
        all_safe(s),
    ensures
        shell_reads(s, Quoting::Plain, read) == Some(read + s),
    decreases s.len(),
{
    if s.len() == 0 {
        assert(read + s =~= read);
    } else {
        assert(safe_char(s[0]));
        assert(all_safe(s.skip(1))) by {
            assert forall|i: int| 0 <= i < s.skip(1).len() implies safe_char(
                #[trigger] s.skip(1)[i],
            ) by {
                assert(safe_char(s[i + 1]));
            }
        }
        lemma_plain_reads_safe(s.skip(1), read.push(s[0]));
        assert(read.push(s[0]) + s.skip(1) =~= read + s);
    }
}

proof fn lemma_single_reads_body(s: Seq<char>, rest: Seq<char>, read: Seq<char>)
    ensures
        shell_reads(quotes_escaped(s) + rest, Quoting::Single, read) == shell_reads(
            rest,
            Quoting::Single,
            read + s,
        ),
    decreases s.len(),
{
    if s.len() == 0 {
        assert(quotes_escaped(s) + rest =~= rest);
        assert(read + s =~= read);
    } else {
        let init = s.drop_last();
        let c = s.last();
        assert(read + s =~= (read + init).push(c));
        if c == '\'' {
            let tail = quote_escape() + rest;
            assert(quotes_escaped(s) + rest =~= quotes_escaped(init) + tail);
            lemma_single_reads_body(init, tail, read);
            let t1 = tail.skip(1);
            let t2 = t1.skip(1);
            let t3 = t2.skip(1);
            assert(t3.skip(1) =~= rest);
            assert(tail[0] == '\'' && t1[0] == '\\' && t2[0] == '\'' && t3[0] == '\'');
            let so_far = read + init;
            assert(shell_reads(tail, Quoting::Single, so_far) == shell_reads(
                t1,
                Quoting::Plain,
                so_far,
            ));
            assert(shell_reads(t1, Quoting::Plain, so_far) == shell_reads(
                t2,
                Quoting::Backslash,
                so_far,
            ));
            assert(shell_reads(t2, Quoting::Backslash, so_far) == shell_reads(
                t3,
                Quoting::Plain,
                so_far.push('\''),
            ));
            assert(shell_reads(t3, Quoting::Plain, so_far.push('\'')) == shell_reads(
                rest,
                Quoting::Single,
                so_far.push('\''),
            ));
        } else {
            let tail = seq![c] + rest;
            assert(quotes_escaped(s) + rest =~= quotes_escaped(init) + tail);
            lemma_single_reads_body(init, tail, read);
            assert(tail.skip(1) =~= rest);
        }
    }
}

/// A shell that reads an escaped text finds no character outside quotes that it could act on, and
/// reads back exactly the text.
pub proof fn shell_reads_escaped_text_back(s: Seq<char>)
    ensures
        shell_reads(escaped(s), Quoting::Plain, Seq::empty()) == Some(s),
{
    if all_safe(s) {
        lemma_plain_reads_safe(s, Seq::empty());
        assert(Seq::<char>::empty() + s =~= s);
    } else {
        let word = escaped(s);
        let close = seq!['\''];
        let body = quotes_escaped(s) + close;
        assert(word.skip(1) =~= body);
        assert(shell_reads(word, Quoting::Plain, Seq::empty()) == shell_reads(
            body,
            Quoting::Single,
            Seq::empty(),
        ));
        lemma_single_reads_body(s, close, Seq::empty());
        assert(Seq::<char>::empty() + s =~= s);
        assert(close.skip(1).len() == 0);
        assert(shell_reads(close.skip(1), Quoting::Plain, s) == Some(s));
    }
}

proof fn lemma_split_safe(s: Seq<char>, rest: Seq<char>, read: Seq<char>, words: Seq<Seq<char>>)
    requires
        all_safe(s),
    ensures
        shell_splits(s + rest, Quoting::Plain, Some(read), words) == shell_splits(
            rest,
            Quoting::Plain,
            Some(read + s),
            words,
        ),
    decreases s.len(),
{
    if s.len() == 0 {
        assert(s + rest =~= rest);
        assert(read + s =~= read);
    } else {
        assert(safe_char(s[0]));
        assert forall|i: int| 0 <= i < s.skip(1).len() implies safe_char(#[trigger] s.skip(1)[i]) by {
            assert(safe_char(s[i + 1]));
        }
        assert((s + rest).skip(1) =~= s.skip(1) + rest);
        lemma_split_safe(s.skip(1), rest, read.push(s[0]), words);
        assert(read.push(s[0]) + s.skip(1) =~= read + s);
    }
}

proof fn lemma_split_quoted(s: Seq<char>, rest: Seq<char>, read: Seq<char>, words: Seq<Seq<char>>)
    ensures
        shell_splits(quotes_escaped(s) + rest, Quoting::Single, Some(read), words) == shell_splits(
            rest,
            Quoting::Single,
            Some(read + s),
            words,
        ),
    decreases s.len(),
{
    if s.len() == 0 {
        assert(quotes_escaped(s) + rest =~= rest);
        assert(read + s =~= read);
    } else {
        let init = s.drop_last();
        let c = s.last();
        let so_far = read + init;
        assert(read + s =~= so_far.push(c));
        if c == '\'' {
            let tail = quote_escape() + rest;
            assert(quotes_escaped(s) + rest =~= quotes_escaped(init) + tail);
            lemma_split_quoted(init, tail, read, words);
            let t1 = tail.skip(1);
            let t2 = t1.skip(1);
            let t3 = t2.skip(1);
            assert(t3.skip(1) =~= rest);
            assert(tail[0] == '\'' && t1[0] == '\\' && t2[0] == '\'' && t3[0] == '\'');
            assert(shell_splits(tail, Quoting::Single, Some(so_far), words) == shell_splits(
                t1,
                Quoting::Plain,
                Some(so_far),
                words,
            ));
            assert(shell_splits(t1, Quoting::Plain, Some(so_far), words) == shell_splits(
                t2,
                Quoting::Backslash,
                Some(so_far),
                words,
            ));
            assert(shell_splits(t2, Quoting::Backslash, Some(so_far), words) == shell_splits(
                t3,
                Quoting::Plain,
                Some(so_far.push('\'')),
                words,
            ));
            assert(shell_splits(t3, Quoting::Plain, Some(so_far.push('\'')), words)
                == shell_splits(rest, Quoting::Single, Some(so_far.push('\'')), words));
        } else {
            let tail = seq![c] + rest;
            assert(quotes_escaped(s) + rest =~= quotes_escaped(init) + tail);
            lemma_split_quoted(init, tail, read, words);
            assert(tail.skip(1) =~= rest);
        }
    }
}

proof fn lemma_split_word(s: Seq<char>, rest: Seq<char>, words: Seq<Seq<char>>)
    requires
        s.len() > 0,
    ensures
        shell_splits(escaped(s) + rest, Quoting::Plain, None, words) == shell_splits(
            rest,
            Quoting::Plain,
            Some(s),
            words,
        ),
{
    let line = escaped(s) + rest;
    let none = Seq::<char>::empty();
    if all_safe(s) {
        assert(safe_char(s[0]));
        assert forall|i: int| 0 <= i < s.skip(1).len() implies safe_char(#[trigger] s.skip(1)[i]) by {
            assert(safe_char(s[i + 1]));
        }
        assert(line.skip(1) =~= s.skip(1) + rest);
        lemma_split_safe(s.skip(1), rest, none.push(s[0]), words);
        assert(none.push(s[0]) + s.skip(1) =~= s);
    } else {
        let close = seq!['\''] + rest;
        assert(line.skip(1) =~= quotes_escaped(s) + close);
        lemma_split_quoted(s, close, none, words);
        assert(none + s =~= s);
        assert(close.skip(1) =~= rest);
    }
}

proof fn lemma_split_words(list: Seq<Seq<char>>, rest: Seq<char>)
    requires
        list.len() > 0,
        forall|i: int| 0 <= i < list.len() ==> (#[trigger] list[i]).len() > 0,
    ensures
        shell_splits(escaped_words(list) + rest, Quoting::Plain, None, Seq::empty())
            == shell_splits(rest, Quoting::Plain, Some(list.last()), list.drop_last()),
    decreases list.len(),
{
    reveal_strlit(" ");
    let parts = list.map_values(|w: Seq<char>| escaped(w));
    let init = list.drop_last();
    let word = list.last();
    assert(word == list[list.len() - 1]);
    assert(parts.last() == escaped(word));
    assert(parts.drop_last() =~= init.map_values(|w: Seq<char>| escaped(w)));
    if list.len() == 1 {
        assert(escaped_words(list) =~= escaped(word));
        lemma_split_word(word, rest, Seq::empty());
        assert(init =~= Seq::<Seq<char>>::empty());
    } else {
        let tail = " "@ + (escaped(word) + rest);
        assert(escaped_words(list) + rest =~= escaped_words(init) + tail);
        assert forall|i: int| 0 <= i < init.len() implies (#[trigger] init[i]).len() > 0 by {
            assert(list[i].len() > 0);
        }
        lemma_split_words(init, tail);
        assert(tail[0] == ' ');
        assert(tail.skip(1) =~= escaped(word) + rest);
        assert(init.drop_last().push(init.last()) =~= init);
        lemma_split_word(word, rest, init);
    }
}

/// A shell that reads escaped words with spaces between them reads back exactly these words, if
/// none of them is empty.
pub proof fn shell_reads_escaped_words_back(list: Seq<Seq<char>>)
    requires
        forall|i: int| 0 <= i < list.len() ==> (#[trigger] list[i]).len() > 0,
    ensures
        shell_words(escaped_words(list)) == Some(list),
{
    let none = Seq::<char>::empty();
    if list.len() == 0 {
        assert(escaped_words(list) =~= none);
        assert(list =~= Seq::<Seq<char>>::empty());
    } else {
        lemma_split_words(list, none);
        assert(escaped_words(list) + none =~= escaped_words(list));
        assert(list.drop_last().push(list.last()) =~= list);
    }
}

/// Different texts never become the same shell word.
pub proof fn escaping_is_injective(a: Seq<char>, b: Seq<char>)
    requires
        escaped(a) == escaped(b),
    ensures
        a == b,
{
    shell_reads_escaped_text_back(a);
    shell_reads_escaped_text_back(b);
}

/// A text with a character that is not safe comes out in single quotes.
pub proof fn unsafe_text_is_quoted(s: Seq<char>)
    requires
        !all_safe(s),
    ensures
        escaped(s).len() >= 2,
        escaped(s)[0] == '\'',
        escaped(s).last() == '\'',
{
}

} // verus!
