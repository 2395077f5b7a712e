//! Character-level helpers shared by the parsers and the renderers:
//! conversion between strings and characters, searching, lines and words.
use vstd::prelude::*;
use vstd::std_specs::iter::IteratorSpec;

verus! {

/// The characters of `s`, in order.
pub fn chars_of(s: &str) -> (out: Vec<char>)
    ensures
        out@ == s@,
{
    broadcast use vstd::string::group_string_axioms;

    let mut out: Vec<char> = Vec::new();
    let mut it = s.chars();
    loop
        invariant
            s@ == out@ + it.remaining(),
            it.obeys_prophetic_iter_laws(),
            it.decrease() is Some,
        decreases it.decrease()->0,
    {
        match it.next() {
            Some(c) => {
                out.push(c);
                assert(s@ =~= out@ + it.remaining());
            },
            None => {
                assert(s@ =~= out@);
                return out;
            },
        }
    }
}

/// `String::push` of the standard library, which appends one character to
/// the end of the string and leaves the rest as it was.
pub assume_specification[ String::push ](s: &mut String, c: char)
    ensures
        final(s)@ == old(s)@.push(c),
;

/// The string that holds the characters `s`.
pub fn string_of(s: &[char]) -> (out: String)
    ensures
        out@ == s@,
{
    let mut out = String::new();
    let mut i: usize = 0;
    while i < s.len()
        invariant
            0 <= i <= s.len(),
            out@ == s@.take(i as int),
        decreases s.len() - i,
    {
        out.push(s[i]);
        assert(s@.take(i + 1) =~= s@.take(i as int).push(s@[i as int]));
        i = i + 1;
    }
    assert(s@.take(i as int) =~= s@);
    out
}

/// Whether `a` and `b` hold the same characters.
pub fn same_chars(a: &[char], b: &[char]) -> (r: bool)
    ensures
        r == (a@ == b@),
{
    if a.len() != b.len() {
        return false;
    }
    let mut i: usize = 0;
    while i < a.len()
        invariant
            0 <= i <= a.len(),
            a.len() == b.len(),
            forall|j: int| 0 <= j < i ==> a@[j] == b@[j],
        decreases a.len() - i,
    {
        if a[i] != b[i] {
            return false;
        }
        i = i + 1;
    }
    assert(a@ =~= b@);
    true
}

/// Whether the characters `s` spell the text `t`.
pub fn same_text(s: &[char], t: &str) -> (r: bool)
    ensures
        r == (s@ == t@),
{
    let other = chars_of(t);
    same_chars(s, other.as_slice())
}

/// Whether `s` begins with `prefix`.
pub open spec fn starts_with(s: Seq<char>, prefix: Seq<char>) -> bool {
    prefix.len() <= s.len() && s.take(prefix.len() as int) == prefix
}

/// Whether `s` begins with `prefix`.
pub fn has_prefix(s: &[char], prefix: &[char]) -> (r: bool)
    ensures
        r == starts_with(s@, prefix@),
{
    if prefix.len() > s.len() {
        return false;
    }
    let head = vstd::slice::slice_subrange(s, 0, prefix.len());
    assert(head@ =~= s@.take(prefix@.len() as int));
    same_chars(head, prefix)
}

/// The place of the first `c` in `s`, or the length of `s` where it has none.
pub open spec fn first_index<T>(s: Seq<T>, c: T) -> int
    decreases s.len(),
{
    if s.len() == 0 {
        0
    } else if s[0] == c {
        0
    } else {
        1 + first_index(s.drop_first(), c)
    }
}

/// `first_index` is the one place before which no `c` stands and at which,
/// unless it is the end, a `c` stands.
pub proof fn first_index_is<T>(s: Seq<T>, c: T, i: int)
    requires
        0 <= i <= s.len(),
        forall|j: int| 0 <= j < i ==> s[j] != c,
        i < s.len() ==> s[i] == c,
    ensures
        first_index(s, c) == i,
    decreases s.len(),
{
    if s.len() != 0 && i > 0 {
        assert(s[0] != c);
        let t = s.drop_first();
        assert forall|j: int| 0 <= j < i - 1 implies t[j] != c by {
            assert(t[j] == s[j + 1]);
        }
        first_index_is(t, c, i - 1);
    }
}

/// `first_index` stays within the sequence.
pub proof fn first_index_bounds<T>(s: Seq<T>, c: T)
    ensures
        0 <= first_index(s, c) <= s.len(),
        forall|j: int| 0 <= j < first_index(s, c) ==> s[j] != c,
        first_index(s, c) < s.len() ==> s[first_index(s, c)] == c,
    decreases s.len(),
{
    if s.len() != 0 && s[0] != c {
        let t = s.drop_first();
        first_index_bounds(t, c);
        assert forall|j: int| 0 <= j < first_index(s, c) implies s[j] != c by {
            if j > 0 {
                assert(t[j - 1] == s[j]);
            }
        }
    }
}

/// `first_index` is short of the end exactly where the sequence holds `c`.
pub proof fn first_index_contains<T>(s: Seq<T>, c: T)
    ensures
        first_index(s, c) < s.len() <==> s.contains(c),
{
    first_index_bounds(s, c);
    if s.contains(c) {
        let i = choose|i: int| 0 <= i < s.len() && s[i] == c;
        if first_index(s, c) >= s.len() {
            assert(s[i] != c);
        }
    }
}

/// Finds the first `c` in `s`.
pub fn find_char(s: &[char], c: char) -> (i: usize)
    ensures
        i == first_index(s@, c),
        i <= s@.len(),
{
    let mut i: usize = 0;
    while i < s.len() && s[i] != c
        invariant
            0 <= i <= s.len(),
            forall|j: int| 0 <= j < i ==> s@[j] != c,
        decreases s.len() - i,
    {
        i = i + 1;
    }
    proof {
        first_index_is(s@, c, i as int);
    }
    i
}

/// The lines of `s`: the runs between its line feeds, in order. A text of
/// `n` line feeds has `n + 1` lines, the last one empty where the text ends
/// in a line feed.
pub open spec fn lines(s: Seq<char>) -> Seq<Seq<char>>
    decreases s.len(),
{
    let i = first_index(s, '\n');
    if 0 <= i < s.len() {
        seq![s.take(i)] + lines(s.skip(i + 1))
    } else {
        seq![s]
    }
}

/// The character sequences that the vectors of `v` hold, in order.
pub open spec fn views(v: Seq<Vec<char>>) -> Seq<Seq<char>> {
    Seq::new(v.len(), |i: int| v[i]@)
}

/// Splits `s` at its line feeds.
pub fn split_lines(s: &[char]) -> (out: Vec<Vec<char>>)
    ensures
        views(out@) == lines(s@),
{
    let mut out: Vec<Vec<char>> = Vec::new();
    let mut start: usize = 0;
    assert(views(out@) + lines(s@.skip(0)) =~= lines(s@)) by {
        assert(s@.skip(0) =~= s@);
    }
    loop
        invariant
            0 <= start <= s.len(),
            lines(s@) == views(out@) + lines(s@.skip(start as int)),
        decreases s.len() - start,
    {
        let rest = vstd::slice::slice_subrange(s, start, s.len());
        assert(rest@ =~= s@.skip(start as int));
        let i = find_char(rest, '\n');
        let line = vstd::slice::slice_to_vec(vstd::slice::slice_subrange(rest, 0, i));
        assert(line@ =~= rest@.take(i as int));
        let ghost before = views(out@);
        out.push(line);
        assert(views(out@) =~= before.push(line@));
        if i >= rest.len() {
            proof {
                assert(rest@.take(i as int) =~= rest@);
                assert(lines(rest@) =~= seq![rest@]);
                assert(before + lines(rest@) =~= before.push(line@));
            }
            return out;
        }
        proof {
            assert(rest@.skip(i + 1) =~= s@.skip(start + i + 1));
            assert(before + (seq![rest@.take(i as int)] + lines(rest@.skip(i + 1)))
                =~= before.push(line@) + lines(rest@.skip(i + 1)));
        }
        start = start + i + 1;
    }
}

/// The line `l` without the carriage return that may end it.
pub open spec fn without_cr(l: Seq<char>) -> Seq<char> {
    if l.len() > 0 && l.last() == '\r' {
        l.drop_last()
    } else {
        l
    }
}

/// The lines of a report: the lines of `s`, each without the carriage
/// return that may end it.
pub open spec fn report_lines(s: Seq<char>) -> Seq<Seq<char>> {
    Seq::new(lines(s).len(), |i: int| without_cr(lines(s)[i]))
}

/// Splits a report into its lines.
pub fn split_report(s: &str) -> (out: Vec<Vec<char>>)
    ensures
        views(out@) == report_lines(s@),
{
    let all = chars_of(s);
    let raw = split_lines(all.as_slice());
    let mut out: Vec<Vec<char>> = Vec::new();
    let mut i: usize = 0;
    while i < raw.len()
        invariant
            0 <= i <= raw.len(),
            views(raw@) == lines(s@),
            out@.len() == i,
            forall|j: int| 0 <= j < i ==> (#[trigger] out@[j])@ == without_cr(lines(s@)[j]),
        decreases raw.len() - i,
    {
        let l = &raw[i];
        assert(l@ == views(raw@)[i as int]);
        let n = l.len();
        let kept = if n > 0 && l[n - 1] == '\r' {
            vstd::slice::slice_to_vec(vstd::slice::slice_subrange(l.as_slice(), 0, n - 1))
        } else {
            vstd::slice::slice_to_vec(l.as_slice())
        };
        assert(kept@ =~= without_cr(l@));
        out.push(kept);
        i = i + 1;
    }
    assert(views(out@) =~= report_lines(s@));
    out
}

/// The place of the first line among `lines[from..to]` that equals `mark`,
/// or `to` where none does.
pub fn find_line(lines: &Vec<Vec<char>>, from: usize, to: usize, mark: &[char]) -> (i: usize)
    requires
        from <= to <= lines@.len(),
    ensures
        from <= i <= to,
        i - from == first_index(views(lines@).subrange(from as int, to as int), mark@),
{
    let ghost part = views(lines@).subrange(from as int, to as int);
    let mut i: usize = from;
    while i < to && !same_chars(lines[i].as_slice(), mark)
        invariant
            from <= i <= to,
            to <= lines@.len(),
            part == views(lines@).subrange(from as int, to as int),
            forall|j: int| 0 <= j < i - from ==> part[j] != mark@,
        decreases to - i,
    {
        assert(part[i - from] == lines@[i as int]@);
        i = i + 1;
    }
    proof {
        if i < to {
            assert(part[i - from] == lines@[i as int]@);
        }
        first_index_is(part, mark@, i - from);
    }
    i
}

/// The character sequences of the strings of `v`, in order.
pub open spec fn texts(v: Seq<String>) -> Seq<Seq<char>> {
    Seq::new(v.len(), |i: int| v[i]@)
}

/// The words of `words` in one line, a single space between neighbours.
pub open spec fn spaced(words: Seq<Seq<char>>) -> Seq<char>
    decreases words.len(),
{
    if words.len() == 0 {
        Seq::empty()
    } else if words.len() == 1 {
        words[0]
    } else {
        spaced(words.drop_last()) + seq![' '] + words.last()
    }
}

/// Joins `words` into one line, a single space between neighbours.
pub fn join_spaced(words: &Vec<String>) -> (line: String)
    ensures
        line@ == spaced(texts(words@)),
{
    let mut line = String::new();
    let mut i: usize = 0;
    assert(texts(words@).take(0) =~= Seq::<Seq<char>>::empty());
    while i < words.len()
        invariant
            0 <= i <= words.len(),
            line@ == spaced(texts(words@).take(i as int)),
        decreases words.len() - i,
    {
        proof {
            reveal_strlit(" ");
            let next = texts(words@).take(i + 1);
            assert(next.drop_last() =~= texts(words@).take(i as int));
            assert(next.last() == words@[i as int]@);
        }
        if i > 0 {
            line.append(" ");
        }
        line.append(words[i].as_str());
        proof {
            let next = texts(words@).take(i + 1);
            if i == 0 {
                assert(line@ =~= next[0]);
            } else {
                assert(line@ =~= spaced(next.drop_last()) + seq![' '] + next.last());
            }
        }
        i = i + 1;
    }
    assert(texts(words@).take(i as int) =~= texts(words@));
    line
}

/// A sequence that is in a concatenation is in one of its two parts.
pub proof fn contains_concat(a: Seq<Seq<char>>, b: Seq<Seq<char>>, x: Seq<char>)
    ensures
        (a + b).contains(x) <==> a.contains(x) || b.contains(x),
{
    if (a + b).contains(x) {
        let i = choose|i: int| 0 <= i < (a + b).len() && (a + b)[i] == x;
        if i < a.len() {
            assert(a[i] == x);
        } else {
            assert(b[i - a.len()] == x);
        }
    }
    if a.contains(x) {
        let i = choose|i: int| 0 <= i < a.len() && a[i] == x;
        assert((a + b)[i] == x);
    }
    if b.contains(x) {
        let i = choose|i: int| 0 <= i < b.len() && b[i] == x;
        assert((a + b)[i + a.len()] == x);
    }
}

} // verus!
