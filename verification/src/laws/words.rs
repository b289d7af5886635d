//! What reading and writing texts does.
use vstd::prelude::*;
use crate::build::clock::{build_name, injected_name, layer_name};
use crate::build::error::BuildError;
use crate::build::initramfs::{
    build_script, BUILD_SCRIPT_MOUNT, BUILD_SCRIPT_START, BUILD_SCRIPT_TAIL, BUILD_SCRIPT_TIMEOUT,
};
use crate::build::measure::{json_string, json_text};
use crate::cgroups::{CPU_PERIOD, QUOTA_PER_PERCENT};
use crate::number::{decimal, read_digits, read_u64, signed_decimal, NumberError};
use crate::privdrop::PrivDropError;
use crate::shell::{escaped, safe_char, unicode_alphanumeric};
use crate::text::{
    joined, lemma_span, lemma_span_unique, lines, span, trimmed, trimmed_end, trimmed_start,
    white_space, without_prefixes, words,
};

verus! {

/// Among the ASCII characters, white space is the space and what lies from the tab to the carriage
/// return.
pub proof fn ascii_white_space(c: char)
    requires
        c <= '\u{7f}',
    ensures
        white_space(c) <==> c == ' ' || ('\t' <= c <= '\r'),
{
}

/// What is left of a trimmed text has no white space at its ends, and what was taken off is nothing
/// else.
pub proof fn trimming_takes_off_white_space(s: Seq<char>)
    ensures
        ({
            let t = trimmed(s);
            &&& t.len() > 0 ==> !white_space(t[0]) && !white_space(t.last())
            &&& exists|a: int|
                {
                    &&& 0 <= a <= s.len() - t.len()
                    &&& #[trigger] s.subrange(a, a + t.len()) == t
                    &&& forall|i: int| 0 <= i < a ==> white_space(#[trigger] s[i])
                    &&& forall|i: int| a + t.len() <= i < s.len() ==> white_space(#[trigger] s[i])
                }
        }),
{
    let stop = |c: char| !white_space(c);
    lemma_span(s, stop);
    let a = span(s, stop) as int;
    let u = trimmed_start(s);
    lemma_trimmed_end(u);
    let t = trimmed(s);
    assert forall|i: int| 0 <= i < a implies white_space(#[trigger] s[i]) by {
        assert(!stop(s[i]));
    }
    assert(s.subrange(a, a + t.len()) =~= t) by {
        assert forall|i: int| 0 <= i < t.len() implies s[a + i] == t[i] by {
            assert(u[i] == t[i]);
        }
    }
    assert forall|i: int| a + t.len() <= i < s.len() implies white_space(#[trigger] s[i]) by {
        assert(white_space(u[i - a]));
    }
    if t.len() > 0 {
        assert(t[0] == u[0]);
        assert(stop(s[a]));
    }
}

proof fn lemma_trimmed_end(s: Seq<char>)
    ensures
        ({
            let t = trimmed_end(s);
            &&& t.len() <= s.len()
            &&& t == s.take(t.len() as int)
            &&& t.len() > 0 ==> !white_space(t.last())
            &&& forall|i: int| t.len() <= i < s.len() ==> white_space(#[trigger] s[i])
        }),
    decreases s.len(),
{
    if s.len() > 0 && white_space(s.last()) {
        let u = s.drop_last();
        lemma_trimmed_end(u);
        let t = trimmed_end(u);
        assert(u.take(t.len() as int) =~= s.take(t.len() as int));
        assert forall|i: int| t.len() <= i < s.len() implies white_space(#[trigger] s[i]) by {
            if i < u.len() {
                assert(white_space(u[i]));
            }
        }
    } else {
        assert(s.take(s.len() as int) =~= s);
    }
}

/// A word that is followed by white space is the first of the words, and white space in front of a text
/// does not matter to its words.
pub proof fn words_stand_between_white_space(word: Seq<char>, c: char, s: Seq<char>)
    requires
        white_space(c),
    ensures
        words(seq![c] + s) == words(s),
        words(Seq::<char>::empty()).len() == 0,
        word.len() > 0 && (forall|i: int| 0 <= i < word.len() ==> !white_space(#[trigger] word[i]))
            ==> words(word + seq![c] + s) == seq![word] + words(s) && words(word) == seq![word],
{
    let stop = |x: char| !white_space(x);
    let white = |x: char| white_space(x);
    let t = seq![c] + s;
    assert(t.skip(1) =~= s);
    lemma_span(s, stop);
    assert(span(t, stop) == 1 + span(s, stop));
    assert(trimmed_start(t) =~= trimmed_start(s));
    assert(words(t) == words(s));
    if word.len() > 0 && (forall|i: int| 0 <= i < word.len() ==> !white_space(#[trigger] word[i])) {
        let n = word.len();
        let all = word + seq![c] + s;
        assert(all[0] == word[0]);
        lemma_span_unique(all, stop, 0);
        assert(trimmed_start(all) =~= all);
        assert forall|i: int| 0 <= i < n implies !white(#[trigger] all[i]) by {
            assert(all[i] == word[i]);
        }
        assert(all[n as int] == c);
        lemma_span_unique(all, white, n);
        assert(all.take(n as int) =~= word);
        assert(all.skip(n as int) =~= t);
        lemma_span_unique(word, stop, 0);
        assert(trimmed_start(word) =~= word);
        lemma_span_unique(word, white, n);
        assert(word.take(n as int) =~= word);
        assert(word.skip(n as int) =~= Seq::<char>::empty());
        lemma_no_words();
        assert(words(word) =~= seq![word]);
    }
    lemma_no_words();
}

proof fn lemma_no_words()
    ensures
        words(Seq::<char>::empty()) == Seq::<Seq<char>>::empty(),
{
    let s = Seq::<char>::empty();
    assert(trimmed_start(s).len() == 0);
}

/// A line ends at a newline, and a carriage return before that belongs to it. What stands behind the
/// last newline is a line if it is not empty.
pub proof fn lines_end_at_newlines(line: Seq<char>, s: Seq<char>)
    requires
        !line.contains('\n'),
    ensures
        lines(line + seq!['\n'] + s) == seq![
            if line.len() > 0 && line.last() == '\r' {
                line.drop_last()
            } else {
                line
            },
        ] + lines(s),
        line.len() > 0 ==> lines(line) == seq![line],
        lines(Seq::<char>::empty()).len() == 0,
{
    let stop = |c: char| c == '\n';
    let all = line + seq!['\n'] + s;
    let n = line.len();
    assert forall|i: int| 0 <= i < n implies !stop(#[trigger] all[i]) by {
        assert(all[i] == line[i]);
        assert(line.contains(line[i]));
    }
    assert(all[n as int] == '\n');
    lemma_span_unique(all, stop, n);
    assert(all.take(n as int) =~= line);
    assert(all.skip(n as int + 1) =~= s);
    assert forall|i: int| 0 <= i < n implies !stop(#[trigger] line[i]) by {
        assert(line.contains(line[i]));
    }
    lemma_span_unique(line, stop, n);
}

/// Joined texts stand one behind the other with the separator in between.
pub proof fn separator_stands_between(parts: Seq<Seq<char>>, part: Seq<char>, separator: Seq<char>)
    ensures
        joined(Seq::<Seq<char>>::empty(), separator).len() == 0,
        joined(seq![part], separator) == part,
        parts.len() > 0 ==> joined(parts.push(part), separator) == joined(parts, separator)
            + separator + part,
{
    assert(parts.push(part).drop_last() =~= parts);
}

/// A prefix is taken off as often as it stands there, and nothing else is.
pub proof fn prefix_is_taken_off(s: Seq<char>, prefix: Seq<char>)
    requires
        prefix.len() > 0,
    ensures
        without_prefixes(prefix + s, prefix) == without_prefixes(s, prefix),
        !prefix.is_prefix_of(s) ==> without_prefixes(s, prefix) == s,
{
    let all = prefix + s;
    assert(prefix =~= all.subrange(0, prefix.len() as int));
    assert(all.skip(prefix.len() as int) =~= s);
}

/// One more digit makes a number ten times as large, plus the digit. Anything else makes it no number,
/// and neither does a digit that it has no room for.
pub proof fn digit_adds_to_a_number(s: Seq<char>, value: nat, c: char, n: u64)
    requires
        read_digits(s, value) == Ok::<u64, NumberError>(n),
        value <= u64::MAX,
    ensures
        read_digits(s.push(c), value) == (if !('0' <= c <= '9') {
            Err(NumberError::InvalidDigit)
        } else if n * 10 + (c as int - '0' as int) > u64::MAX {
            Err(NumberError::PosOverflow)
        } else {
            Ok((n * 10 + (c as int - '0' as int)) as u64)
        }),
        read_digits(Seq::<char>::empty(), value) == Ok::<u64, NumberError>(value as u64),
    decreases s.len(),
{
    reveal_with_fuel(read_digits, 2);
    let all = s.push(c);
    if s.len() == 0 {
        assert(all[0] == c);
        assert(all.skip(1).len() == 0);
        assert(value == n);
    } else {
        assert(all[0] == s[0]);
        assert(all.skip(1) =~= s.skip(1).push(c));
        digit_adds_to_a_number(s.skip(1), value * 10 + crate::number::digit_value(s[0]), c, n);
    }
}

/// A number is read from its digits, with or without a plus sign before them; no digits are no number.
pub proof fn number_is_read_from_its_digits(s: Seq<char>)
    ensures
        s.len() > 0 && s[0] != '+' ==> read_u64(s) == read_digits(s, 0),
        s.len() > 0 ==> read_u64(seq!['+'] + s) == read_digits(s, 0),
        read_u64(Seq::<char>::empty()) == Err::<u64, NumberError>(NumberError::Empty),
        read_u64(seq!['+']) == Err::<u64, NumberError>(NumberError::InvalidDigit),
{
    assert((seq!['+'] + s).skip(1) =~= s);
    let plus = seq!['+'];
    assert(plus[0] == '+');
}

/// A number in decimal ends in its last digit, behind the rest of it in decimal.
pub proof fn decimal_ends_in_the_last_digit(n: nat)
    ensures
        decimal(n).last() as int == '0' as int + n % 10,
        n >= 10 ==> decimal(n).drop_last() == decimal(n / 10),
        n < 10 ==> decimal(n).len() == 1,
        signed_decimal(n as int) == decimal(n),
        n > 0 ==> signed_decimal(-n) == seq!['-'] + decimal(n),
{
    if n >= 10 {
        assert(decimal(n).drop_last() =~= decimal(n / 10));
    }
}

/// The characters that a shell reads as themselves: letters, digits and a few signs.
pub proof fn safe_characters(c: char)
    ensures
        c <= '\u{7f}' ==> (safe_char(c) <==> ('a' <= c <= 'z') || ('A' <= c <= 'Z') || ('0' <= c
            <= '9') || c == '_' || c == '-' || c == '.' || c == '/' || c == ':'),
        c > '\u{7f}' ==> (safe_char(c) <==> unicode_alphanumeric(c)),
{
}

/// A text of such characters is a word as it is, and any other stands in single quotes.
pub proof fn unsafe_text_stands_in_quotes(s: Seq<char>)
    ensures
        (forall|i: int| 0 <= i < s.len() ==> safe_char(#[trigger] s[i])) ==> escaped(s) == s,
        (exists|i: int| 0 <= i < s.len() && !safe_char(#[trigger] s[i])) ==> escaped(s).len()
            >= s.len() + 2 && escaped(s)[0] == '\'' && escaped(s).last() == '\'',
{
    if exists|i: int| 0 <= i < s.len() && !safe_char(#[trigger] s[i]) {
        lemma_quotes_len(s);
    }
}

proof fn lemma_quotes_len(s: Seq<char>)
    ensures
        crate::shell::quotes_escaped(s).len() >= s.len(),
    decreases s.len(),
{
    if s.len() > 0 {
        lemma_quotes_len(s.drop_last());
    }
}

/// A text in JSON stands in double quotes. Every character stands for itself, but for quotes and
/// backslashes, which have a backslash before them, and control characters, which have a name or a
/// number.
pub proof fn json_escapes_what_it_has_to(s: Seq<char>, c: char)
    ensures
        json_string(s) == seq!['"'] + json_text(s) + seq!['"'],
        json_text(Seq::<char>::empty()).len() == 0,
        ({
            let more = json_text(s.push(c));
            let text = json_text(s);
            &&& c == '"' ==> more == text + seq!['\\', '"']
            &&& c == '\\' ==> more == text + seq!['\\', '\\']
            &&& c == '\u{8}' ==> more == text + seq!['\\', 'b']
            &&& c == '\t' ==> more == text + seq!['\\', 't']
            &&& c == '\n' ==> more == text + seq!['\\', 'n']
            &&& c == '\u{c}' ==> more == text + seq!['\\', 'f']
            &&& c == '\r' ==> more == text + seq!['\\', 'r']
            &&& c >= ' ' && c != '"' && c != '\\' ==> more == text.push(c)
            &&& ' ' > c && c != '\u{8}' && c != '\t' && c != '\n' && c != '\u{c}' && c != '\r' ==> {
                &&& more.len() == text.len() + 6
                &&& more.take(text.len() as int + 4) == text + seq!['\\', 'u', '0', '0']
                &&& more[text.len() as int + 4] == (if c as int >= 16 {
                    '1'
                } else {
                    '0'
                })
                &&& c as int % 16 < 10 ==> more[text.len() as int + 5] as int == '0' as int + c as int % 16
                &&& c as int % 16 >= 10 ==> more[text.len() as int + 5] as int == 'a' as int + c as int % 16
                    - 10
            }
        }),
{
    reveal_strlit("\"");
    reveal_strlit("\\b");
    reveal_strlit("\\t");
    reveal_strlit("\\n");
    reveal_strlit("\\f");
    reveal_strlit("\\r");
    reveal_strlit("\\u00");
    reveal_strlit("0123456789abcdef");
    assert(s.push(c).drop_last() =~= s);
    assert(json_string(s) =~= seq!['"'] + json_text(s) + seq!['"']);
    let more = json_text(s.push(c));
    let text = json_text(s);
    let last = crate::build::measure::json_char(c);
    assert(more == text + last);
    if c == '\u{8}' {
        assert(more =~= text + seq!['\\', 'b']);
    } else if c == '\t' {
        assert(more =~= text + seq!['\\', 't']);
    } else if c == '\n' {
        assert(more =~= text + seq!['\\', 'n']);
    } else if c == '\u{c}' {
        assert(more =~= text + seq!['\\', 'f']);
    } else if c == '\r' {
        assert(more =~= text + seq!['\\', 'r']);
    } else if c >= ' ' && c != '"' && c != '\\' {
        assert(more =~= text.push(c));
    } else if ' ' > c {
        assert(more.take(text.len() as int + 4) =~= text + seq!['\\', 'u', '0', '0']);
        assert(last[4] == "0123456789abcdef"@[c as int / 16]);
        assert(last[5] == "0123456789abcdef"@[c as int % 16]);
    }
}

/// Build scripts differ in their commands alone: the same text stands before every command and the same
/// text behind it. What stands before it mounts the disk and begins a file for the command, and what
/// stands behind it ends that file.
pub proof fn command_stands_in_the_script(command: Seq<char>)
    ensures
        build_script(command) == (BUILD_SCRIPT_START@ + BUILD_SCRIPT_TIMEOUT@ + BUILD_SCRIPT_MOUNT@)
            + command + BUILD_SCRIPT_TAIL@,
        build_script(command).len() == build_script(Seq::<char>::empty()).len() + command.len(),
{
    assert(build_script(command) =~= (BUILD_SCRIPT_START@ + BUILD_SCRIPT_TIMEOUT@
        + BUILD_SCRIPT_MOUNT@) + command + BUILD_SCRIPT_TAIL@);
}

/// The names that carry the time.
pub proof fn names_carry_the_time(time: i64)
    ensures
        build_name(time) == "build-"@ + signed_decimal(time as int),
        layer_name(Some(time)) == "layer_"@ + signed_decimal(time as int) + ".sqfs"@,
        injected_name(time) == "layer_"@ + signed_decimal(time as int) + "_injected.sqfs"@,
{
}

/// A hundred percent of a processor is one processor.
pub proof fn hundred_percent_is_one_processor()
    ensures
        100 * QUOTA_PER_PERCENT == CPU_PERIOD,
        CPU_PERIOD == 100000,
{
}

/// What the errors of a build say.
pub proof fn build_errors_say_what_happened(m: String)
    ensures
        BuildError::ParseError(m).sentence() == "Parse error: "@ + m@,
        BuildError::ExecutionError(m).sentence() == "Execution error: "@ + m@,
        BuildError::VmError(m).sentence() == "VM error: "@ + m@,
        BuildError::InjectionError(m).sentence() == "Injection error: "@ + m@,
        BuildError::IoError(m).sentence() == "IO error: "@ + m@,
{
}

/// What the errors of dropping privileges say.
pub proof fn drop_errors_say_what_happened(m: String)
    ensures
        PrivDropError::UserNotFound(m).sentence() == "User '"@ + m@
            + "' not found. Please ensure the vyoma user exists."@,
        PrivDropError::UserInfoError(m).sentence() == "Failed to get user info: "@ + m@,
        PrivDropError::CapabilityError(m).sentence() == "Failed to set capabilities: "@ + m@,
        PrivDropError::SetgroupsError(m).sentence() == "Failed to set groups: "@ + m@,
        PrivDropError::SetgidError(m).sentence() == "Failed to setgid: "@ + m@,
        PrivDropError::SetuidError(m).sentence() == "Failed to setuid: "@ + m@,
        PrivDropError::VerificationFailed.sentence()
            == "Privilege drop verification failed: still running as root"@,
{
}

} // verus!
