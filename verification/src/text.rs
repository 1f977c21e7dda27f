//! Text as sequences of characters: splitting a line into tokens and reading
//! numbers out of tokens.
//!
//! Every function here works on a slice of `char`, whose view is the
//! `Seq<char>` that the specifications speak of. [`chars`] and [`string`]
//! lead from and to `str`.
use vstd::prelude::*;

verus! {

/// `String::push` of the standard library: afterwards the string is what it
/// was with `c` at its end.
pub assume_specification[ String::push ](s: &mut String, c: char)
    ensures
        final(s)@ == old(s)@.push(c),
;

/// The characters of `s`, in order.
pub fn chars(s: &str) -> (out: Vec<char>)
    ensures
        out@ == s@,
{
    let mut out: Vec<char> = Vec::new();
    for c in it: s.chars()
        invariant
            out@ == it.seq().take(it.index()),
            it.seq() == s@,
    {
        out.push(c);
    }
    out
}

/// The string made of the characters of `s`.
pub fn string(s: &[char]) -> (out: String)
    ensures
        out@ == s@,
{
    let mut out = String::new();
    let mut i: usize = 0;
    while i < s.len()
        invariant
            i <= s.len(),
            out@ == s@.take(i as int),
        decreases s.len() - i,
    {
        out.push(s[i]);
        i += 1;
    }
    out
}

/// Whether two slices hold the same characters.
pub fn same(a: &[char], b: &[char]) -> (r: bool)
    ensures
        r == (a@ == b@),
{
    if a.len() != b.len() {
        return false;
    }
    let mut i: usize = 0;
    while i < a.len()
        invariant
            i <= a.len(),
            a.len() == b.len(),
            a@.take(i as int) == b@.take(i as int),
        decreases a.len() - i,
    {
        if a[i] != b[i] {
            return false;
        }
        i += 1;
    }
    assert(a@.take(a.len() as int) =~= a@);
    assert(b@.take(b.len() as int) =~= b@);
    true
}

/// Whether two texts hold the same characters.
pub fn same_text(a: &str, b: &str) -> (r: bool)
    ensures
        r == (a@ == b@),
{
    let a = chars(a);
    let b = chars(b);
    same(a.as_slice(), b.as_slice())
}

/// Whether `s` is the text of the literal `lit`.
pub fn is_literal(s: &[char], lit: &str) -> (r: bool)
    ensures
        r == (s@ == lit@),
{
    let l = chars(lit);
    same(s, l.as_slice())
}

/// The code points that Unicode gives the property `White_Space`.
pub open spec fn is_space(c: char) -> bool {
    let n = c as u32;
    ||| 0x09 <= n <= 0x0D
    ||| n == 0x20
    ||| n == 0x85
    ||| n == 0xA0
    ||| n == 0x1680
    ||| 0x2000 <= n <= 0x200A
    ||| n == 0x2028
    ||| n == 0x2029
    ||| n == 0x202F
    ||| n == 0x205F
    ||| n == 0x3000
}

pub fn is_whitespace(c: char) -> (r: bool)
    ensures
        r == is_space(c),
{
    let n: u32 = c as u32;
    (0x09 <= n && n <= 0x0D) || n == 0x20 || n == 0x85 || n == 0xA0 || n == 0x1680 || (0x2000 <= n
        && n <= 0x200A) || n == 0x2028 || n == 0x2029 || n == 0x202F || n == 0x205F || n == 0x3000
}

/// The views of a sequence of slices.
pub open spec fn views(parts: Seq<&[char]>) -> Seq<Seq<char>> {
    Seq::new(parts.len(), |i: int| parts[i]@)
}

/// The number of characters at the start of `s` that are not white space.
pub open spec fn word_len(s: Seq<char>) -> nat
    decreases s.len(),
{
    if s.len() > 0 && !is_space(s[0]) {
        1 + word_len(s.skip(1))
    } else {
        0
    }
}

/// The maximal runs of characters of `s` that are not white space, in order.
pub open spec fn words(s: Seq<char>) -> Seq<Seq<char>>
    decreases s.len(),
    via words_decreases
{
    if s.len() == 0 {
        Seq::empty()
    } else if is_space(s[0]) {
        words(s.skip(1))
    } else {
        let n = word_len(s) as int;
        seq![s.take(n)] + words(s.skip(n))
    }
}

#[via_fn]
proof fn words_decreases(s: Seq<char>) {
    lemma_word_len_bound(s);
}

pub proof fn lemma_word_len_bound(s: Seq<char>)
    ensures
        word_len(s) <= s.len(),
        s.len() > 0 && !is_space(s[0]) ==> word_len(s) >= 1,
        forall|i: int| 0 <= i < word_len(s) ==> !is_space(#[trigger] s[i]),
        word_len(s) < s.len() ==> is_space(s[word_len(s) as int]),
    decreases s.len(),
{
    if s.len() > 0 && !is_space(s[0]) {
        lemma_word_len_bound(s.skip(1));
        assert forall|i: int| 0 <= i < word_len(s) implies !is_space(#[trigger] s[i]) by {
            if i > 0 {
                assert(s[i] == s.skip(1)[i - 1]);
            }
        }
    }
}

/// A run of `n` characters without white space that ends at white space or
/// at the end of `s` is the first word of `s`.
proof fn lemma_word_len_is(s: Seq<char>, n: int)
    requires
        0 <= n <= s.len(),
        forall|i: int| 0 <= i < n ==> !is_space(#[trigger] s[i]),
        n < s.len() ==> is_space(s[n]),
    ensures
        word_len(s) == n,
    decreases n,
{
    if n > 0 {
        let t = s.skip(1);
        lemma_word_len_is(t, n - 1);
    }
}

/// Splits `s` at white space, as `str::split_whitespace` does.
pub fn split_whitespace<'a>(s: &'a [char]) -> (out: Vec<&'a [char]>)
    ensures
        views(out@) == words(s@),
{
    let mut out: Vec<&'a [char]> = Vec::new();
    let mut i: usize = 0;
    assert(s@.skip(0) =~= s@);
    while i < s.len()
        invariant
            i <= s.len(),
            views(out@) + words(s@.skip(i as int)) == words(s@),
        decreases s.len() - i,
    {
        let ghost rest = s@.skip(i as int);
        if is_whitespace(s[i]) {
            i += 1;
            assert(rest.skip(1) =~= s@.skip(i as int));
        } else {
            let start: usize = i;
            while i < s.len() && !is_whitespace(s[i])
                invariant
                    start <= i <= s.len(),
                    forall|k: int| start <= k < i ==> !is_space(#[trigger] s@[k]),
                decreases s.len() - i,
            {
                i += 1;
            }
            let word = vstd::slice::slice_subrange(s, start, i);
            proof {
                let n = i - start;
                lemma_word_len_is(rest, n);
                assert(rest.take(n) =~= word@);
                assert(rest.skip(n) =~= s@.skip(i as int));
            }
            out.push(word);
        }
    }
    out
}

/// The number of characters at the start of `s` that differ from `sep`.
pub open spec fn field_len(s: Seq<char>, sep: char) -> nat
    decreases s.len(),
{
    if s.len() > 0 && s[0] != sep {
        1 + field_len(s.skip(1), sep)
    } else {
        0
    }
}

/// The pieces of `s` between occurrences of `sep`: one more than `sep` occurs,
/// some of them possibly empty.
pub open spec fn fields(s: Seq<char>, sep: char) -> Seq<Seq<char>>
    decreases s.len(),
    via fields_decreases
{
    let n = field_len(s, sep) as int;
    if n >= s.len() {
        seq![s]
    } else {
        seq![s.take(n)] + fields(s.skip(n + 1), sep)
    }
}

#[via_fn]
proof fn fields_decreases(s: Seq<char>, sep: char) {
    lemma_field_len_bound(s, sep);
}

pub proof fn lemma_field_len_bound(s: Seq<char>, sep: char)
    ensures
        field_len(s, sep) <= s.len(),
        forall|i: int| 0 <= i < field_len(s, sep) ==> #[trigger] s[i] != sep,
        field_len(s, sep) < s.len() ==> s[field_len(s, sep) as int] == sep,
    decreases s.len(),
{
    if s.len() > 0 && s[0] != sep {
        let t = s.skip(1);
        lemma_field_len_bound(t, sep);
        assert forall|i: int| 0 <= i < field_len(s, sep) implies #[trigger] s[i] != sep by {
            if i > 0 {
                assert(s[i] == t[i - 1]);
            }
        }
    }
}

proof fn lemma_field_len_is(s: Seq<char>, sep: char, n: int)
    requires
        0 <= n <= s.len(),
        forall|i: int| 0 <= i < n ==> #[trigger] s[i] != sep,
        n < s.len() ==> s[n] == sep,
    ensures
        field_len(s, sep) == n,
    decreases n,
{
    if n > 0 {
        let t = s.skip(1);
        lemma_field_len_is(t, sep, n - 1);
    }
}

/// The first of the pieces of `s` is what stands before its first `sep`.
pub proof fn lemma_first_field(s: Seq<char>, sep: char)
    ensures
        fields(s, sep).len() >= 1,
        fields(s, sep)[0] == s.take(field_len(s, sep) as int),
{
    lemma_field_len_bound(s, sep);
}

/// Splits `s` at every `sep`, as `str::split` does with a character.
pub fn split<'a>(s: &'a [char], sep: char) -> (out: Vec<&'a [char]>)
    ensures
        views(out@) == fields(s@, sep),
        out@.len() >= 1,
{
    let mut out: Vec<&'a [char]> = Vec::new();
    let mut start: usize = 0;
    let mut i: usize = 0;
    assert(s@.skip(0) =~= s@);
    while i < s.len()
        invariant
            start <= i <= s.len(),
            views(out@) + fields(s@.skip(start as int), sep) == fields(s@, sep),
            forall|k: int| start <= k < i ==> #[trigger] s@[k] != sep,
        decreases s.len() - i,
    {
        if s[i] == sep {
            let piece = vstd::slice::slice_subrange(s, start, i);
            proof {
                let rest = s@.skip(start as int);
                let n = i - start;
                lemma_field_len_is(rest, sep, n);
                assert(rest.take(n) =~= piece@);
                assert(rest.skip(n + 1) =~= s@.skip(i + 1));
            }
            out.push(piece);
            start = i + 1;
        }
        i += 1;
    }
    let piece = vstd::slice::slice_subrange(s, start, i);
    proof {
        let rest = s@.skip(start as int);
        let n = i - start;
        lemma_field_len_is(rest, sep, n);
    }
    out.push(piece);
    out
}

/// What is left of `s` before its first `sep`; all of `s` where it has none.
pub fn before<'a>(s: &'a [char], sep: char) -> (out: &'a [char])
    ensures
        out@ == s@.take(field_len(s@, sep) as int),
{
    let mut i: usize = 0;
    while i < s.len() && s[i] != sep
        invariant
            i <= s.len(),
            forall|k: int| 0 <= k < i ==> #[trigger] s@[k] != sep,
        decreases s.len() - i,
    {
        i += 1;
    }
    proof {
        lemma_field_len_is(s@, sep, i as int);
    }
    vstd::slice::slice_subrange(s, 0, i)
}

/// `s` without the white space at its end.
pub open spec fn trimmed_end(s: Seq<char>) -> Seq<char>
    decreases s.len(),
{
    if s.len() > 0 && is_space(s.last()) {
        trimmed_end(s.drop_last())
    } else {
        s
    }
}

/// Removes white space from the end of `s`, as `str::trim_end` does.
pub fn trim_end<'a>(s: &'a [char]) -> (out: &'a [char])
    ensures
        out@ == trimmed_end(s@),
{
    let mut n: usize = s.len();
    assert(s@.take(n as int) =~= s@);
    while n > 0 && is_whitespace(s[n - 1])
        invariant
            n <= s.len(),
            trimmed_end(s@.take(n as int)) == trimmed_end(s@),
        decreases n,
    {
        assert(s@.take(n as int).drop_last() =~= s@.take(n - 1));
        n -= 1;
    }
    vstd::slice::slice_subrange(s, 0, n)
}

/// `s` without the occurrences of `c` at its start.
pub open spec fn without_leading(s: Seq<char>, c: char) -> Seq<char>
    decreases s.len(),
{
    if s.len() > 0 && s[0] == c {
        without_leading(s.skip(1), c)
    } else {
        s
    }
}

/// `s` without the occurrences of `c` at its end.
pub open spec fn without_trailing(s: Seq<char>, c: char) -> Seq<char>
    decreases s.len(),
{
    if s.len() > 0 && s.last() == c {
        without_trailing(s.drop_last(), c)
    } else {
        s
    }
}

/// `s` without the occurrences of `c` at its start and at its end.
pub open spec fn without_surrounding(s: Seq<char>, c: char) -> Seq<char> {
    without_trailing(without_leading(s, c), c)
}

/// Removes `c` from both ends of `s`, as `str::trim_matches` does with a
/// character.
pub fn trim_matches<'a>(s: &'a [char], c: char) -> (out: &'a [char])
    ensures
        out@ == without_surrounding(s@, c),
{
    let mut from: usize = 0;
    assert(s@.skip(0) =~= s@);
    while from < s.len() && s[from] == c
        invariant
            from <= s.len(),
            without_leading(s@.skip(from as int), c) == without_leading(s@, c),
        decreases s.len() - from,
    {
        assert(s@.skip(from as int).skip(1) =~= s@.skip(from + 1));
        from += 1;
    }
    let mut to: usize = s.len();
    while to > from && s[to - 1] == c
        invariant
            from <= to <= s.len(),
            without_trailing(s@.subrange(from as int, to as int), c) == without_surrounding(s@, c),
        decreases to,
    {
        assert(s@.subrange(from as int, to as int).drop_last() =~= s@.subrange(
            from as int,
            to - 1,
        ));
        to -= 1;
    }
    vstd::slice::slice_subrange(s, from, to)
}

/// The pieces `parts` in one run, with one `sep` between neighbours.
pub open spec fn joined(parts: Seq<Seq<char>>, sep: char) -> Seq<char>
    decreases parts.len(),
{
    if parts.len() == 0 {
        Seq::empty()
    } else if parts.len() == 1 {
        parts[0]
    } else {
        joined(parts.drop_last(), sep).push(sep) + parts.last()
    }
}

/// Joins the pieces from index `from` up to index `to` with `sep` between
/// them, as `join` does on a slice of strings.
pub fn join(parts: &Vec<&[char]>, from: usize, to: usize, sep: char) -> (out: Vec<char>)
    requires
        from <= to <= parts.len(),
    ensures
        out@ == joined(views(parts@).subrange(from as int, to as int), sep),
{
    let mut out: Vec<char> = Vec::new();
    let mut i: usize = from;
    while i < to
        invariant
            from <= i <= to <= parts.len(),
            out@ == joined(views(parts@).subrange(from as int, i as int), sep),
        decreases to - i,
    {
        let ghost before = out@;
        if i > from {
            out.push(sep);
        }
        let part = parts[i];
        let mut k: usize = 0;
        while k < part.len()
            invariant
                k <= part.len(),
                out@ == (if i > from {
                    before.push(sep)
                } else {
                    before
                }) + part@.take(k as int),
            decreases part.len() - k,
        {
            out.push(part[k]);
            k += 1;
        }
        proof {
            let next = views(parts@).subrange(from as int, i + 1);
            assert(next.drop_last() =~= views(parts@).subrange(from as int, i as int));
        }
        i += 1;
    }
    out
}

/// Whether `s` begins with the characters of `prefix`.
pub fn starts_with(s: &[char], prefix: &str) -> (r: bool)
    ensures
        r == prefix@.is_prefix_of(s@),
{
    let p = chars(prefix);
    if p.len() > s.len() {
        return false;
    }
    let head = vstd::slice::slice_subrange(s, 0, p.len());
    let r = same(head, p.as_slice());
    r
}

/// `s` in lower case, as `str::to_lowercase` gives it.
pub uninterp spec fn lowercase(s: Seq<char>) -> Seq<char>;

/// `s` in upper case, as `str::to_uppercase` gives it.
pub uninterp spec fn uppercase(s: Seq<char>) -> Seq<char>;

/// `str::to_lowercase`: the lower case of a text depends on that text alone,
/// by the tables of Unicode that the standard library carries.
#[verifier::external_body]
pub(crate) fn to_lowercase(s: &str) -> (r: String)
    ensures
        r@ == lowercase(s@),
{
    s.to_lowercase()
}

/// `str::to_uppercase`: the upper case of a text depends on that text alone,
/// by the tables of Unicode that the standard library carries.
#[verifier::external_body]
pub(crate) fn to_uppercase(s: &str) -> (r: String)
    ensures
        r@ == uppercase(s@),
{
    s.to_uppercase()
}

/// A record that goes by a name.
pub trait Named {
    spec fn name_view(&self) -> Seq<char>;

    fn name(&self) -> (r: &String)
        ensures
            r@ == self.name_view(),
    ;
}

/// The names of the records of `s`, in order.
pub open spec fn names_of<T: Named>(s: Seq<T>) -> Seq<Seq<char>> {
    Seq::new(s.len(), |i: int| s[i].name_view())
}

/// Where `name` stands first among `names`.
pub open spec fn index_of(names: Seq<Seq<char>>, name: Seq<char>) -> Option<int>
    decreases names.len(),
{
    if names.len() == 0 {
        None
    } else {
        match index_of(names.drop_last(), name) {
            Some(i) => Some(i),
            None => if names.last() == name {
                Some(names.len() - 1)
            } else {
                None
            },
        }
    }
}

pub proof fn lemma_index_of(names: Seq<Seq<char>>, name: Seq<char>)
    ensures
        match index_of(names, name) {
            Some(i) => 0 <= i < names.len() && names[i] == name && forall|k: int|
                0 <= k < i ==> #[trigger] names[k] != name,
            None => forall|k: int| 0 <= k < names.len() ==> #[trigger] names[k] != name,
        },
    decreases names.len(),
{
    if names.len() > 0 {
        lemma_index_of(names.drop_last(), name);
        match index_of(names.drop_last(), name) {
            Some(i) => {
                assert forall|k: int| 0 <= k < i implies #[trigger] names[k] != name by {
                    assert(names[k] == names.drop_last()[k]);
                }
            },
            None => {
                assert forall|k: int| 0 <= k < names.len() - 1 implies #[trigger] names[k]
                    != name by {
                    assert(names[k] == names.drop_last()[k]);
                }
            },
        }
    }
}

/// The first index at which `name` stands is the index that [`index_of`]
/// gives.
pub proof fn lemma_index_of_is(names: Seq<Seq<char>>, name: Seq<char>, i: int)
    requires
        0 <= i < names.len(),
        names[i] == name,
        forall|k: int| 0 <= k < i ==> #[trigger] names[k] != name,
    ensures
        index_of(names, name) == Some(i),
{
    lemma_index_of(names, name);
}

pub proof fn lemma_index_of_none(names: Seq<Seq<char>>, name: Seq<char>)
    requires
        forall|k: int| 0 <= k < names.len() ==> #[trigger] names[k] != name,
    ensures
        index_of(names, name) is None,
{
    lemma_index_of(names, name);
}

/// Finds the first record that goes by `name`.
pub fn find<T: Named>(records: &Vec<T>, name: &String) -> (r: Option<usize>)
    ensures
        match r {
            Some(i) => index_of(names_of(records@), name@) == Some(i as int) && i < records.len(),
            None => index_of(names_of(records@), name@) is None,
        },
{
    let mut i: usize = 0;
    while i < records.len()
        invariant
            i <= records.len(),
            forall|k: int| 0 <= k < i ==> #[trigger] names_of(records@)[k] != name@,
        decreases records.len() - i,
    {
        if *records[i].name() == *name {
            proof {
                lemma_index_of_is(names_of(records@), name@, i as int);
            }
            return Some(i);
        }
        i += 1;
    }
    proof {
        lemma_index_of_none(names_of(records@), name@);
    }
    None
}

/// Whether no name occurs twice among `names`.
pub open spec fn distinct(names: Seq<Seq<char>>) -> bool {
    forall|i: int, j: int| 0 <= i < j < names.len() ==> #[trigger] names[i] != #[trigger] names[j]
}

/// Names of which none occurs twice stay such when a name is added that was
/// not among them.
pub proof fn lemma_new_name_keeps_distinct(names: Seq<Seq<char>>, name: Seq<char>)
    requires
        distinct(names),
        index_of(names, name) is None,
    ensures
        distinct(names.push(name)),
{
    lemma_index_of(names, name);
}

} // verus!
