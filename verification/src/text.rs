//! Character-level text operations with exact contracts.
use vstd::prelude::*;
use vstd::string::*;

verus! {

/// `String::push` of the standard library appends the character to the end of the string.
pub assume_specification[ String::push ](s: &mut String, c: char)
    ensures
        final(s)@ == old(s)@.push(c),
;

/// The characters with the Unicode property `White_Space`.
pub open spec fn white_space(c: char) -> bool {
    ||| '\u{9}' <= c <= '\u{d}'
    ||| c == '\u{20}'
    ||| c == '\u{85}'
    ||| c == '\u{a0}'
    ||| c == '\u{1680}'
    ||| '\u{2000}' <= c <= '\u{200a}'
    ||| c == '\u{2028}'
    ||| c == '\u{2029}'
    ||| c == '\u{202f}'
    ||| c == '\u{205f}'
    ||| c == '\u{3000}'
}

/// Length of the longest prefix of `s` that holds no character satisfying `stop`.
pub open spec fn span(s: Seq<char>, stop: spec_fn(char) -> bool) -> nat
    decreases s.len(),
{
    if s.len() == 0 || stop(s[0]) {
        0
    } else {
        1 + span(s.skip(1), stop)
    }
}

/// `s` without its leading white space.
pub open spec fn trimmed_start(s: Seq<char>) -> Seq<char> {
    s.skip(span(s, |c: char| !white_space(c)) as int)
}

/// `s` without its trailing white space.
pub open spec fn trimmed_end(s: Seq<char>) -> Seq<char>
    decreases s.len(),
{
    if s.len() > 0 && white_space(s.last()) {
        trimmed_end(s.drop_last())
    } else {
        s
    }
}

/// `s` without leading and trailing white space.
pub open spec fn trimmed(s: Seq<char>) -> Seq<char> {
    trimmed_end(trimmed_start(s))
}

/// The maximal runs of characters that are not white space, in order.
pub open spec fn words(s: Seq<char>) -> Seq<Seq<char>>
    decreases s.len(),
    via words_decreases
{
    let t = trimmed_start(s);
    if t.len() == 0 {
        Seq::empty()
    } else {
        let n = span(t, |c: char| white_space(c)) as int;
        seq![t.take(n)] + words(t.skip(n))
    }
}

#[via_fn]
proof fn words_decreases(s: Seq<char>) {
    let stop = |c: char| !white_space(c);
    lemma_span(s, stop);
    let t = trimmed_start(s);
    if t.len() > 0 {
        let white = |c: char| white_space(c);
        lemma_span(t, white);
        assert(t[0] == s[span(s, stop) as int]);
        assert(stop(s[span(s, stop) as int]));
        assert(!white(t[0]));
    }
}

/// A line without the carriage return that belongs to its line ending.
pub open spec fn without_cr(line: Seq<char>) -> Seq<char> {
    if line.len() > 0 && line.last() == '\r' {
        line.drop_last()
    } else {
        line
    }
}

/// The lines of `s`. A line ends at `\n` or `\r\n`, or at the end of a text that does not end in
/// `\n`.
pub open spec fn lines(s: Seq<char>) -> Seq<Seq<char>>
    decreases s.len(),
{
    let n = span(s, |c: char| c == '\n') as int;
    if s.len() == 0 {
        Seq::empty()
    } else if n >= s.len() {
        seq![s]
    } else {
        seq![without_cr(s.take(n))] + lines(s.skip(n + 1))
    }
}

/// `s` with every `from` replaced by `to`.
pub open spec fn replaced(s: Seq<char>, from: char, to: char) -> Seq<char> {
    s.map_values(|c: char| if c == from { to } else { c })
}

/// `s` with `prefix` taken off its front as often as it stands there.
pub open spec fn without_prefixes(s: Seq<char>, prefix: Seq<char>) -> Seq<char>
    decreases s.len(),
{
    if prefix.len() > 0 && prefix.is_prefix_of(s) {
        without_prefixes(s.skip(prefix.len() as int), prefix)
    } else {
        s
    }
}

/// The texts of `parts` one after another, with `separator` between neighbours.
pub open spec fn joined(parts: Seq<Seq<char>>, separator: Seq<char>) -> Seq<char>
    decreases parts.len(),
{
    if parts.len() == 0 {
        Seq::empty()
    } else if parts.len() == 1 {
        parts[0]
    } else {
        joined(parts.drop_last(), separator) + separator + parts.last()
    }
}

/// `part` stands somewhere in `s`.
pub open spec fn contains_text(s: Seq<char>, part: Seq<char>) -> bool {
    exists|i: int| 0 <= i <= s.len() - part.len() && #[trigger] s.subrange(i, i + part.len()) == part
}

/// What `span` counts: no character before it stops, and the one at it does.
pub proof fn lemma_span(s: Seq<char>, stop: spec_fn(char) -> bool)
    ensures
        span(s, stop) <= s.len(),
        forall|i: int| 0 <= i < span(s, stop) ==> !stop(#[trigger] s[i]),
        span(s, stop) < s.len() ==> stop(s[span(s, stop) as int]),
    decreases s.len(),
{
    if s.len() > 0 && !stop(s[0]) {
        let r = s.skip(1);
        lemma_span(r, stop);
        assert forall|i: int| 0 <= i < span(s, stop) implies !stop(#[trigger] s[i]) by {
            if i > 0 {
                assert(!stop(r[i - 1]));
            }
        }
    }
}

/// `span` is the only position that `lemma_span` describes.
pub proof fn lemma_span_unique(s: Seq<char>, stop: spec_fn(char) -> bool, n: nat)
    requires
        n <= s.len(),
        forall|i: int| 0 <= i < n ==> !stop(#[trigger] s[i]),
        n < s.len() ==> stop(s[n as int]),
    ensures
        span(s, stop) == n,
{
    lemma_span(s, stop);
    let m = span(s, stop);
    if m < n {
        assert(!stop(s[m as int]));
    } else if n < m {
        assert(!stop(s[n as int]));
    }
}

/// The characters of `s` as a vector.
pub fn chars_of(s: &str) -> (r: Vec<char>)
    ensures
        r@ == s@,
{
    let mut r: Vec<char> = Vec::new();
    for c in it: s.chars()
        invariant
            r@ == it.seq().take(it.index() as int),
            it.seq() == s@,
    {
        r.push(c);
    }
    r
}

/// The string made of `chars[from..to]`.
pub fn substring(chars: &Vec<char>, from: usize, to: usize) -> (r: String)
    requires
        from <= to <= chars@.len(),
    ensures
        r@ == chars@.subrange(from as int, to as int),
{
    let mut r = String::new();
    let mut i: usize = from;
    while i < to
        invariant
            from <= i <= to <= chars@.len(),
            r@ == chars@.subrange(from as int, i as int),
        decreases to - i,
    {
        r.push(chars[i]);
        i = i + 1;
        assert(chars@.subrange(from as int, i as int) =~= chars@.subrange(
            from as int,
            i - 1,
        ).push(chars@[i - 1]));
    }
    r
}

/// An owned copy of `s`.
pub fn owned(s: &str) -> (r: String)
    ensures
        r@ == s@,
{
    s.to_owned()
}

/// `a` followed by `b`.
pub fn concat2(a: &str, b: &str) -> (r: String)
    ensures
        r@ == a@ + b@,
{
    let mut r = owned(a);
    r.append(b);
    r
}

/// `a`, `b` and `c` one after another.
pub fn concat3(a: &str, b: &str, c: &str) -> (r: String)
    ensures
        r@ == a@ + b@ + c@,
{
    let mut r = concat2(a, b);
    r.append(c);
    r
}

/// Whether two texts hold the same characters.
pub fn same_text(a: &str, b: &str) -> (r: bool)
    ensures
        r == (a@ == b@),
{
    let x = chars_of(a);
    let y = chars_of(b);
    if x.len() != y.len() {
        return false;
    }
    let mut i: usize = 0;
    while i < x.len()
        invariant
            i <= x@.len(),
            x@.len() == y@.len(),
            forall|j: int| 0 <= j < i ==> x@[j] == y@[j],
            x@ == a@,
            y@ == b@,
        decreases x@.len() - i,
    {
        if x[i] != y[i] {
            return false;
        }
        i = i + 1;
    }
    assert(a@ =~= b@);
    true
}

/// Whether `c` is white space.
pub fn is_white_space(c: char) -> (r: bool)
    ensures
        r == white_space(c),
{
    ('\u{9}' <= c && c <= '\u{d}') || c == '\u{20}' || c == '\u{85}' || c == '\u{a0}' || c
        == '\u{1680}' || ('\u{2000}' <= c && c <= '\u{200a}') || c == '\u{2028}' || c == '\u{2029}'
        || c == '\u{202f}' || c == '\u{205f}' || c == '\u{3000}'
}

/// Whether `prefix` stands at `at` in `chars`.
fn matches_at(chars: &Vec<char>, at: usize, prefix: &Vec<char>) -> (r: bool)
    requires
        at <= chars@.len(),
    ensures
        r == prefix@.is_prefix_of(chars@.skip(at as int)),
{
    let ghost rest = chars@.skip(at as int);
    if prefix.len() > chars.len() - at {
        return false;
    }
    let size = chars.len();
    let mut i: usize = 0;
    while i < prefix.len()
        invariant
            i <= prefix@.len(),
            at + prefix@.len() <= chars@.len() == size,
            rest == chars@.skip(at as int),
            forall|j: int| 0 <= j < i ==> prefix@[j] == rest[j],
        decreases prefix@.len() - i,
    {
        if chars[at + i] != prefix[i] {
            assert(rest[i as int] == chars@[at + i]);
            assert(rest.subrange(0, prefix@.len() as int)[i as int] == rest[i as int]);
            return false;
        }
        i = i + 1;
    }
    assert(prefix@ =~= rest.subrange(0, prefix@.len() as int));
    true
}

/// Whether `s` begins with `prefix`.
pub fn starts_with(s: &str, prefix: &str) -> (r: bool)
    ensures
        r == prefix@.is_prefix_of(s@),
{
    let chars = chars_of(s);
    assert(chars@.skip(0) =~= chars@);
    matches_at(&chars, 0, &chars_of(prefix))
}

/// What follows `prefix` in `s`, if `s` begins with it.
pub fn strip_prefix(s: &str, prefix: &str) -> (r: Option<String>)
    ensures
        r is Some <==> prefix@.is_prefix_of(s@),
        r matches Some(t) ==> t@ == s@.skip(prefix@.len() as int),
{
    let chars = chars_of(s);
    let head = chars_of(prefix);
    assert(chars@.skip(0) =~= chars@);
    if matches_at(&chars, 0, &head) {
        assert(s@.skip(prefix@.len() as int) =~= s@.subrange(
            prefix@.len() as int,
            s@.len() as int,
        ));
        Some(substring(&chars, head.len(), chars.len()))
    } else {
        None
    }
}

/// `s` with `prefix` taken off its front as often as it stands there.
pub fn trim_start_matches(s: &str, prefix: &str) -> (r: String)
    ensures
        r@ == without_prefixes(s@, prefix@),
{
    let chars = chars_of(s);
    let head = chars_of(prefix);
    let mut at: usize = 0;
    assert(chars@.skip(0) =~= chars@);
    if head.len() > 0 {
        while matches_at(&chars, at, &head)
            invariant
                at <= chars@.len(),
                head@.len() > 0,
                chars@ == s@,
                head@ == prefix@,
                without_prefixes(s@, prefix@) == without_prefixes(s@.skip(at as int), prefix@),
            decreases chars@.len() - at,
        {
            assert(s@.skip(at as int).skip(head@.len() as int) =~= s@.skip(at + head@.len()));
            assert(head@.len() <= chars.len() - at);
            at = at + head.len();
        }
    }
    assert(s@.skip(at as int) =~= s@.subrange(at as int, s@.len() as int));
    substring(&chars, at, chars.len())
}

/// `s` with every `from` replaced by `to`.
pub fn replace_char(s: &str, from: char, to: char) -> (r: String)
    ensures
        r@ == replaced(s@, from, to),
{
    let chars = chars_of(s);
    let mut r = String::new();
    let mut i: usize = 0;
    while i < chars.len()
        invariant
            i <= chars@.len(),
            chars@ == s@,
            r@ == replaced(s@.take(i as int), from, to),
        decreases chars@.len() - i,
    {
        let c = chars[i];
        assert(replaced(s@.take(i + 1), from, to) =~= replaced(s@.take(i as int), from, to).push(
            if c == from {
                to
            } else {
                c
            },
        ));
        r.push(
            if c == from {
                to
            } else {
                c
            },
        );
        i = i + 1;
    }
    assert(s@.take(i as int) =~= s@);
    r
}

/// Position of the first `c` at or after `from`, or the length of `chars`.
fn find_char(chars: &Vec<char>, from: usize, c: char) -> (r: usize)
    requires
        from <= chars@.len(),
    ensures
        from <= r <= chars@.len(),
        r - from == span(chars@.skip(from as int), |x: char| x == c),
{
    let ghost rest = chars@.skip(from as int);
    let mut i: usize = from;
    while i < chars.len() && chars[i] != c
        invariant
            from <= i <= chars@.len(),
            rest == chars@.skip(from as int),
            forall|j: int| 0 <= j < i - from ==> rest[j] != c,
        decreases chars@.len() - i,
    {
        i = i + 1;
    }
    proof {
        lemma_span_unique(rest, |x: char| x == c, (i - from) as nat);
    }
    i
}

/// The parts of `s` before and after its first `separator`, if there is one.
pub fn split_once(s: &str, separator: char) -> (r: Option<(String, String)>)
    ensures
        r is Some <==> s@.contains(separator),
        r matches Some((a, b)) ==> ({
            let n = span(s@, |x: char| x == separator) as int;
            a@ == s@.take(n) && b@ == s@.skip(n + 1)
        }),
{
    let chars = chars_of(s);
    let n = find_char(&chars, 0, separator);
    proof {
        assert(chars@.skip(0) =~= s@);
        lemma_span(s@, |x: char| x == separator);
    }
    if n == chars.len() {
        assert forall|i: int| 0 <= i < s@.len() implies s@[i] != separator by {
            assert(!(|x: char| x == separator)(s@[i]));
        }
        return None;
    }
    assert(s@[n as int] == separator);
    assert(s@.take(n as int) =~= s@.subrange(0, n as int));
    assert(s@.skip(n + 1) =~= s@.subrange(n + 1, s@.len() as int));
    Some((substring(&chars, 0, n), substring(&chars, n + 1, chars.len())))
}

/// Position of the first character at or after `from` that is white space exactly if `white`, or
/// the length of `chars`.
fn find_white(chars: &Vec<char>, from: usize, white: bool) -> (r: usize)
    requires
        from <= chars@.len(),
    ensures
        from <= r <= chars@.len(),
        r - from == span(chars@.skip(from as int), |x: char| white_space(x) == white),
{
    let ghost rest = chars@.skip(from as int);
    let mut i: usize = from;
    while i < chars.len() && is_white_space(chars[i]) != white
        invariant
            from <= i <= chars@.len(),
            rest == chars@.skip(from as int),
            forall|j: int| 0 <= j < i - from ==> white_space(#[trigger] rest[j]) != white,
        decreases chars@.len() - i,
    {
        i = i + 1;
    }
    proof {
        lemma_span_unique(rest, |x: char| white_space(x) == white, (i - from) as nat);
    }
    i
}

/// `s` without leading and trailing white space.
pub fn trim(s: &str) -> (r: String)
    ensures
        r@ == trimmed(s@),
{
    let chars = chars_of(s);
    let from = find_white(&chars, 0, false);
    proof {
        assert(chars@.skip(0) =~= s@);
        assert((|x: char| white_space(x) == false) =~= (|c: char| !white_space(c)));
    }
    let ghost rest = s@.skip(from as int);
    assert(rest == trimmed_start(s@));
    let mut to: usize = chars.len();
    assert(rest =~= s@.subrange(from as int, to as int));
    while to > from && is_white_space(chars[to - 1])
        invariant
            from <= to <= chars@.len(),
            chars@ == s@,
            trimmed_end(rest) == trimmed_end(s@.subrange(from as int, to as int)),
        decreases to,
    {
        assert(s@.subrange(from as int, to as int).drop_last() =~= s@.subrange(
            from as int,
            to - 1,
        ));
        to = to - 1;
    }
    substring(&chars, from, to)
}

/// The views of a vector of strings.
pub open spec fn texts(v: Vec<String>) -> Seq<Seq<char>> {
    v@.map_values(|s: String| s@)
}

/// The words of `s`: its maximal runs of characters that are not white space.
pub fn split_whitespace(s: &str) -> (r: Vec<String>)
    ensures
        texts(r) == words(s@),
{
    let chars = chars_of(s);
    let mut r: Vec<String> = Vec::new();
    let mut at: usize = 0;
    proof {
        assert(s@.skip(0) =~= s@);
        assert((|x: char| white_space(x) == false) =~= (|c: char| !white_space(c)));
        assert((|x: char| white_space(x) == true) =~= (|c: char| white_space(c)));
        assert(texts(r) + words(s@.skip(0)) =~= words(s@));
    }
    loop
        invariant
            at <= chars@.len(),
            chars@ == s@,
            texts(r) + words(s@.skip(at as int)) == words(s@),
        decreases chars@.len() - at,
    {
        let from = find_white(&chars, at, false);
        let ghost rest = s@.skip(at as int);
        proof {
            assert((|x: char| white_space(x) == false) =~= (|c: char| !white_space(c)));
            assert((|x: char| white_space(x) == true) =~= (|c: char| white_space(c)));
            assert(trimmed_start(rest) =~= s@.skip(from as int));
        }
        if from == chars.len() {
            assert(words(rest) =~= Seq::<Seq<char>>::empty());
            assert(texts(r) =~= words(s@));
            return r;
        }
        let to = find_white(&chars, from, true);
        let ghost before = texts(r);
        proof {
            lemma_span(rest, |c: char| !white_space(c));
            lemma_span(s@.skip(from as int), |c: char| white_space(c));
            let t = s@.skip(from as int);
            assert(t[0] == rest[from - at]);
            assert(t.take(to - from) =~= s@.subrange(from as int, to as int));
            assert(t.skip(to - from) =~= s@.skip(to as int));
        }
        r.push(substring(&chars, from, to));
        proof {
            assert(texts(r) =~= before.push(s@.subrange(from as int, to as int)));
            assert(texts(r) + words(s@.skip(to as int)) =~= before + words(rest));
        }
        at = to;
    }
}

/// The lines of `s`.
pub fn split_lines(s: &str) -> (r: Vec<String>)
    ensures
        texts(r) == lines(s@),
{
    let chars = chars_of(s);
    let mut r: Vec<String> = Vec::new();
    let mut at: usize = 0;
    proof {
        assert(s@.skip(0) =~= s@);
        assert(texts(r) + lines(s@.skip(0)) =~= lines(s@));
    }
    while at < chars.len()
        invariant
            at <= chars@.len(),
            chars@ == s@,
            texts(r) + lines(s@.skip(at as int)) == lines(s@),
        decreases chars@.len() - at,
    {
        let ghost rest = s@.skip(at as int);
        let ghost before = texts(r);
        let end = find_char(&chars, at, '\n');
        if end == chars.len() {
            assert(rest =~= s@.subrange(at as int, end as int));
            r.push(substring(&chars, at, end));
            proof {
                assert(texts(r) =~= before.push(rest));
                assert(texts(r) =~= before + lines(rest));
            }
            return r;
        }
        let stop = if end > at && chars[end - 1] == '\r' {
            end - 1
        } else {
            end
        };
        r.push(substring(&chars, at, stop));
        proof {
            let line = rest.take(end - at);
            assert(line =~= s@.subrange(at as int, end as int));
            assert(without_cr(line) =~= s@.subrange(at as int, stop as int));
            assert(rest.skip(end - at + 1) =~= s@.skip(end + 1));
            assert(texts(r) =~= before.push(without_cr(line)));
            assert(texts(r) + lines(s@.skip(end + 1)) =~= before + lines(rest));
        }
        at = end + 1;
    }
    assert(texts(r) =~= lines(s@));
    r
}

/// The strings of `parts` one after another, with `separator` between neighbours.
pub fn join(parts: &Vec<String>, separator: &str) -> (r: String)
    ensures
        r@ == joined(texts(*parts), separator@),
{
    let mut r = String::new();
    let mut i: usize = 0;
    let ghost all = texts(*parts);
    while i < parts.len()
        invariant
            i <= parts@.len(),
            all == texts(*parts),
            r@ == joined(all.take(i as int), separator@),
        decreases parts@.len() - i,
    {
        if i > 0 {
            r.append(separator);
        }
        r.append(parts[i].as_str());
        proof {
            assert(all.take(i + 1).drop_last() =~= all.take(i as int));
            assert(joined(all.take(i + 1), separator@) =~= r@);
        }
        i = i + 1;
    }
    assert(all.take(i as int) =~= all);
    r
}

/// Whether `needle` is one of `list`.
pub fn contains_word(list: &Vec<String>, needle: &str) -> (r: bool)
    ensures
        r == texts(*list).contains(needle@),
{
    let mut i: usize = 0;
    while i < list.len()
        invariant
            i <= list@.len(),
            forall|j: int| 0 <= j < i ==> #[trigger] list@[j]@ != needle@,
        decreases list@.len() - i,
    {
        if same_text(list[i].as_str(), needle) {
            assert(texts(*list)[i as int] == needle@);
            return true;
        }
        i = i + 1;
    }
    assert forall|j: int| 0 <= j < texts(*list).len() implies texts(*list)[j] != needle@ by {
        assert(list@[j]@ != needle@);
    }
    false
}

/// A copy of a vector of strings.
pub fn copy_texts(list: &Vec<String>) -> (r: Vec<String>)
    ensures
        texts(r) == texts(*list),
{
    let mut r: Vec<String> = Vec::new();
    let mut i: usize = 0;
    while i < list.len()
        invariant
            i <= list@.len(),
            texts(r) == texts(*list).take(i as int),
        decreases list@.len() - i,
    {
        let ghost before = texts(r);
        r.push(list[i].clone());
        assert(texts(r) =~= before.push(list@[i as int]@));
        i = i + 1;
        assert(texts(r) =~= texts(*list).take(i as int));
    }
    assert(texts(r) =~= texts(*list));
    r
}

} // verus!
