//! Character-level helpers for building and reading object locations.
use vstd::prelude::*;
use vstd::string::*;

verus! {

/// The character of a decimal digit.
pub open spec fn decimal_digit(d: nat) -> char
    recommends
        d < 10,
{
    (48 + d) as char
}

/// The decimal representation of `n`, most significant digit first, without leading zeros.
pub open spec fn decimal(n: nat) -> Seq<char>
    decreases n,
{
    if n < 10 {
        seq![decimal_digit(n)]
    } else {
        decimal(n / 10).push(decimal_digit(n % 10))
    }
}

/// Appends `c` to `s` (`String::push`).
#[verifier::external_body]
pub(crate) fn push_char(s: &mut String, c: char)
    ensures
        final(s)@ == old(s)@.push(c),
{
    s.push(c);
}

/// Appends the decimal representation of `n` to `s`.
pub fn push_decimal(s: &mut String, n: u64)
    ensures
        final(s)@ == old(s)@ + decimal(n as nat),
    decreases n,
{
    if n >= 10 {
        push_decimal(s, n / 10);
    }
    let d: u64 = n % 10;
    let c: char = if d == 0 { '0' } else if d == 1 { '1' } else if d == 2 { '2' } else if d == 3 {
        '3'
    } else if d == 4 { '4' } else if d == 5 { '5' } else if d == 6 { '6' } else if d == 7 {
        '7'
    } else if d == 8 { '8' } else { '9' };
    push_char(s, c);
}

/// The characters of `s`, in order.
pub fn chars_of(s: &str) -> (v: Vec<char>)
    ensures
        v@ == s@,
{
    let mut v: Vec<char> = Vec::new();
    for c in it: s.chars()
        invariant
            v@ == it.seq().take(it.index() as int),
    {
        v.push(c);
    }
    v
}


/// Whether `s` ends with `suffix`.
pub open spec fn ends_with(s: Seq<char>, suffix: Seq<char>) -> bool {
    suffix.len() <= s.len() && s.subrange(s.len() - suffix.len(), s.len() as int) == suffix
}

/// A sequence ends with what was appended to it last.
pub proof fn lemma_ends_with_concat(prefix: Seq<char>, suffix: Seq<char>)
    ensures
        ends_with(prefix + suffix, suffix),
{
    let s = prefix + suffix;
    assert(s.subrange(s.len() - suffix.len(), s.len() as int) =~= suffix);
}

/// A sequence does not end with `suffix` when they differ at the `k`-th character of
/// `suffix`.
pub proof fn lemma_not_ends_with(s: Seq<char>, suffix: Seq<char>, k: int)
    requires
        suffix.len() <= s.len(),
        0 <= k < suffix.len(),
        s[s.len() - suffix.len() + k] != suffix[k],
    ensures
        !ends_with(s, suffix),
{
    assert(s.subrange(s.len() - suffix.len(), s.len() as int)[k] != suffix[k]);
}

/// Decides whether `s` ends with `suffix`.
pub fn chars_end_with(s: &[char], suffix: &[char]) -> (r: bool)
    ensures
        r == ends_with(s@, suffix@),
{
    if suffix.len() > s.len() {
        return false;
    }
    let n: usize = s.len();
    let off: usize = n - suffix.len();
    let mut i: usize = 0;
    while i < suffix.len()
        invariant
            n == s@.len(),
            off + suffix@.len() == s@.len(),
            i <= suffix@.len(),
            forall|j: int| 0 <= j < i ==> s@[off + j] == suffix@[j],
        decreases suffix.len() - i,
    {
        if s[off + i] != suffix[i] {
            assert(s@.subrange(off as int, s@.len() as int)[i as int] != suffix@[i as int]);
            return false;
        }
        i = i + 1;
    }
    assert(s@.subrange(off as int, s@.len() as int) =~= suffix@);
    true
}

/// Appends the characters of `chars` to `s`.
pub fn push_chars(s: &mut String, chars: &[char])
    ensures
        final(s)@ == old(s)@ + chars@,
{
    let mut i: usize = 0;
    while i < chars.len()
        invariant
            i <= chars@.len(),
            s@ == old(s)@ + chars@.take(i as int),
        decreases chars.len() - i,
    {
        push_char(s, chars[i]);
        assert(chars@.take(i + 1) =~= chars@.take(i as int).push(chars@[i as int]));
        i = i + 1;
    }
    assert(chars@.take(chars@.len() as int) =~= chars@);
}

/// The string made of `chars`.
pub fn string_of(chars: &[char]) -> (s: String)
    ensures
        s@ == chars@,
{
    let mut s = String::new();
    push_chars(&mut s, chars);
    s
}


/// The views of a sequence of character vectors.
pub open spec fn views(v: Seq<Vec<char>>) -> Seq<Seq<char>> {
    v.map_values(|p: Vec<char>| p@)
}

/// The pieces of `s` between occurrences of `sep`, in order (`str::split` with a `char`
/// pattern): `n` separators give `n + 1` pieces, empty ones included.
pub open spec fn split_on(s: Seq<char>, sep: char) -> Seq<Seq<char>>
    decreases s.len(),
{
    if s.len() == 0 {
        seq![Seq::<char>::empty()]
    } else {
        let init = split_on(s.drop_last(), sep);
        if s.last() == sep {
            init.push(Seq::<char>::empty())
        } else {
            init.update(init.len() - 1, init.last().push(s.last()))
        }
    }
}

/// `pieces` joined by `sep` (`join` on a slice of strings).
pub open spec fn join_with(pieces: Seq<Seq<char>>, sep: Seq<char>) -> Seq<char>
    decreases pieces.len(),
{
    if pieces.len() == 0 {
        Seq::<char>::empty()
    } else if pieces.len() == 1 {
        pieces[0]
    } else {
        join_with(pieces.drop_last(), sep) + sep + pieces.last()
    }
}

/// Splitting always gives at least one piece.
pub proof fn lemma_split_nonempty(s: Seq<char>, sep: char)
    ensures
        split_on(s, sep).len() >= 1,
    decreases s.len(),
{
    if s.len() > 0 {
        lemma_split_nonempty(s.drop_last(), sep);
    }
}

/// A text without the separator is one piece.
pub proof fn lemma_split_no_sep(s: Seq<char>, sep: char)
    requires
        !s.contains(sep),
    ensures
        split_on(s, sep) == seq![s],
    decreases s.len(),
{
    if s.len() > 0 {
        assert(!s.drop_last().contains(sep)) by {
            if s.drop_last().contains(sep) {
                let k = choose|k: int| 0 <= k < s.drop_last().len() && s.drop_last()[k] == sep;
                assert(s[k] == sep);
            }
        }
        lemma_split_no_sep(s.drop_last(), sep);
        assert(s.last() != sep) by {
            if s.last() == sep {
                assert(s[s.len() - 1] == sep);
            }
        }
        assert(s.drop_last().push(s.last()) =~= s);
        assert(split_on(s, sep) =~= seq![s]);
    } else {
        assert(s =~= Seq::<char>::empty());
    }
}

/// Splitting a text made of two parts around a separator gives the pieces of the first part
/// followed by those of the second.
pub proof fn lemma_split_concat(a: Seq<char>, b: Seq<char>, sep: char)
    ensures
        split_on(a + seq![sep] + b, sep) == split_on(a, sep) + split_on(b, sep),
    decreases b.len(),
{
    let s = a + seq![sep] + b;
    lemma_split_nonempty(a, sep);
    if b.len() == 0 {
        assert(s.drop_last() =~= a);
        assert(split_on(s, sep) =~= split_on(a, sep) + split_on(b, sep));
    } else {
        assert(s.drop_last() =~= a + seq![sep] + b.drop_last());
        lemma_split_concat(a, b.drop_last(), sep);
        lemma_split_nonempty(b.drop_last(), sep);
        let pa = split_on(a, sep);
        let pb = split_on(b.drop_last(), sep);
        if b.last() == sep {
            assert(split_on(s, sep) =~= pa + split_on(b, sep));
        } else {
            assert((pa + pb).update(
                (pa + pb).len() - 1,
                (pa + pb).last().push(b.last()),
            ) =~= pa + pb.update(pb.len() - 1, pb.last().push(b.last())));
            assert(split_on(s, sep) =~= pa + split_on(b, sep));
        }
    }
}

/// Extending the last piece extends the joined text.
pub proof fn lemma_join_extend_last(pieces: Seq<Seq<char>>, sep: Seq<char>, c: char)
    requires
        pieces.len() >= 1,
    ensures
        join_with(pieces.update(pieces.len() - 1, pieces.last().push(c)), sep) == join_with(
            pieces,
            sep,
        ).push(c),
{
    let ext = pieces.update(pieces.len() - 1, pieces.last().push(c));
    if pieces.len() > 1 {
        assert(ext.drop_last() =~= pieces.drop_last());
        assert(join_with(ext, sep) =~= join_with(pieces, sep).push(c));
    }
}

/// Joining the pieces of a text with the separator gives the text back.
pub proof fn lemma_join_split(s: Seq<char>, sep: char)
    ensures
        join_with(split_on(s, sep), seq![sep]) == s,
    decreases s.len(),
{
    if s.len() > 0 {
        lemma_join_split(s.drop_last(), sep);
        lemma_split_nonempty(s.drop_last(), sep);
        let init = split_on(s.drop_last(), sep);
        if s.last() == sep {
            assert(init.push(Seq::<char>::empty()).drop_last() =~= init);
            assert(join_with(split_on(s, sep), seq![sep]) =~= s.drop_last() + seq![sep]);
        } else {
            lemma_join_extend_last(init, seq![sep], s.last());
        }
        assert(s.drop_last().push(s.last()) =~= s);
    }
}

/// Neither part holding the separator, their concatenation does not either.
pub proof fn lemma_no_sep_concat(a: Seq<char>, b: Seq<char>, sep: char)
    requires
        !a.contains(sep),
        !b.contains(sep),
    ensures
        !(a + b).contains(sep),
{
    if (a + b).contains(sep) {
        let k = choose|k: int| 0 <= k < (a + b).len() && (a + b)[k] == sep;
        if k < a.len() {
            assert(a[k] == sep);
        } else {
            assert(b[k - a.len()] == sep);
        }
    }
}

/// Splits `s` at every `sep` (`str::split` with a `char` pattern).
pub fn split_chars(s: &[char], sep: char) -> (r: Vec<Vec<char>>)
    ensures
        views(r@) == split_on(s@, sep),
{
    let mut pieces: Vec<Vec<char>> = Vec::new();
    let mut cur: Vec<char> = Vec::new();
    let mut i: usize = 0;
    while i < s.len()
        invariant
            i <= s@.len(),
            split_on(s@.take(i as int), sep) == views(pieces@).push(cur@),
        decreases s.len() - i,
    {
        let c = s[i];
        let ghost before = s@.take(i as int);
        assert(s@.take(i + 1).drop_last() =~= before);
        assert(s@.take(i + 1).last() == c);
        if c == sep {
            let done = cur;
            pieces.push(done);
            cur = Vec::new();
            assert(views(pieces@).push(cur@) =~= split_on(before, sep).push(Seq::<char>::empty()));
        } else {
            cur.push(c);
            proof {
                lemma_split_nonempty(before, sep);
            }
            assert(views(pieces@).push(cur@) =~= split_on(before, sep).update(
                split_on(before, sep).len() - 1,
                split_on(before, sep).last().push(c),
            ));
        }
        i = i + 1;
    }
    assert(s@.take(s@.len() as int) =~= s@);
    pieces.push(cur);
    assert(views(pieces@) =~= split_on(s@, sep));
    pieces
}

/// Joins the first `count` of `pieces` with `sep` between them.
pub fn join_first(pieces: &[Vec<char>], count: usize, sep: &[char]) -> (r: Vec<char>)
    requires
        count <= pieces@.len(),
    ensures
        r@ == join_with(views(pieces@).take(count as int), sep@),
{
    let mut out: Vec<char> = Vec::new();
    let mut i: usize = 0;
    while i < count
        invariant
            i <= count <= pieces@.len(),
            out@ == join_with(views(pieces@).take(i as int), sep@),
        decreases count - i,
    {
        let ghost prev = out@;
        if i > 0 {
            append_chars(&mut out, sep);
        }
        append_chars(&mut out, pieces[i].as_slice());
        let ghost taken = views(pieces@).take(i + 1);
        assert(taken.drop_last() =~= views(pieces@).take(i as int));
        assert(taken.last() == pieces@[i as int]@);
        if i == 0 {
            assert(out@ =~= taken[0]);
        } else {
            assert(out@ =~= prev + sep@ + taken.last());
        }
        i = i + 1;
    }
    out
}

/// Appends `chars` to `v`.
pub fn append_chars(v: &mut Vec<char>, chars: &[char])
    ensures
        final(v)@ == old(v)@ + chars@,
{
    let mut i: usize = 0;
    while i < chars.len()
        invariant
            i <= chars@.len(),
            v@ == old(v)@ + chars@.take(i as int),
        decreases chars.len() - i,
    {
        v.push(chars[i]);
        assert(chars@.take(i + 1) =~= chars@.take(i as int).push(chars@[i as int]));
        i = i + 1;
    }
    assert(chars@.take(chars@.len() as int) =~= chars@);
}

/// `s` with every non-overlapping occurrence of a non-empty `from`, scanning from the left,
/// replaced by `to` (`str::replace` with a non-empty pattern). The definition gives an empty
/// `from` no meaning of its own (it leaves `s` as it is, unlike `str::replace`); nothing
/// here uses it so.
pub open spec fn replace_all(s: Seq<char>, from: Seq<char>, to: Seq<char>) -> Seq<char>
    decreases s.len(),
{
    if from.len() == 0 || s.len() < from.len() {
        s
    } else if s.take(from.len() as int) == from {
        to + replace_all(s.skip(from.len() as int), from, to)
    } else {
        seq![s[0]] + replace_all(s.drop_first(), from, to)
    }
}

/// Whether `x` is directly followed by `y` somewhere in `s`.
pub open spec fn holds_pair(s: Seq<char>, x: char, y: char) -> bool {
    exists|k: int| 0 <= k && k + 1 < s.len() && #[trigger] s[k] == x && s[k + 1] == y
}

/// Replacing a two-character pattern that does not occur leaves the text as it is.
pub proof fn lemma_replace_absent(s: Seq<char>, x: char, y: char, to: Seq<char>)
    requires
        !holds_pair(s, x, y),
    ensures
        replace_all(s, seq![x, y], to) == s,
    decreases s.len(),
{
    let from = seq![x, y];
    if s.len() >= 2 {
        assert(s.take(2) != from) by {
            if s.take(2) == from {
                assert(s[0] == x && s[1] == y);
            }
        }
        assert(!holds_pair(s.drop_first(), x, y)) by {
            if holds_pair(s.drop_first(), x, y) {
                let k = choose|k: int|
                    0 <= k && k + 1 < s.drop_first().len() && #[trigger] s.drop_first()[k] == x
                        && s.drop_first()[k + 1] == y;
                assert(s[k + 1] == x && s[k + 2] == y);
            }
        }
        lemma_replace_absent(s.drop_first(), x, y, to);
        assert(seq![s[0]] + s.drop_first() =~= s);
    }
}

/// Replacing a two-character pattern in two texts put together is replacing it in each,
/// when the pattern does not straddle the place where they meet.
pub proof fn lemma_replace_concat(a: Seq<char>, b: Seq<char>, x: char, y: char, to: Seq<char>)
    requires
        !(a.len() > 0 && b.len() > 0 && a.last() == x && b[0] == y),
    ensures
        replace_all(a + b, seq![x, y], to) == replace_all(a, seq![x, y], to) + replace_all(
            b,
            seq![x, y],
            to,
        ),
    decreases a.len(),
{
    let from = seq![x, y];
    let s = a + b;
    if a.len() == 0 {
        assert(s =~= b);
    } else if s.len() < 2 {
        assert(b.len() == 0);
        assert(s =~= a);
    } else if s.take(2) == from {
        if a.len() == 1 {
            assert(s[0] == a.last() && s[1] == b[0]);
        }
        assert(a.take(2) =~= s.take(2));
        assert(s.skip(2) =~= a.skip(2) + b);
        if a.len() > 2 {
            assert(a.skip(2).last() == a.last());
        }
        lemma_replace_concat(a.skip(2), b, x, y, to);
    } else {
        assert(s.drop_first() =~= a.drop_first() + b);
        if a.len() >= 2 {
            assert(a.take(2) =~= s.take(2));
            if a.len() > 1 {
                assert(a.drop_first().last() == a.last());
            }
            lemma_replace_concat(a.drop_first(), b, x, y, to);
            assert(seq![s[0]] + (replace_all(a.drop_first(), from, to) + replace_all(b, from, to))
                =~= (seq![a[0]] + replace_all(a.drop_first(), from, to)) + replace_all(b, from, to));
        } else {
            assert(a.drop_first().len() == 0);
            assert(s.drop_first() =~= b);
            assert(replace_all(a, from, to) == a);
            assert(seq![s[0]] + replace_all(b, from, to) =~= a + replace_all(b, from, to));
        }
    }
}

/// A pair in two texts put together lies in one of them or where they meet.
pub proof fn lemma_pair_concat(a: Seq<char>, b: Seq<char>, x: char, y: char)
    requires
        !holds_pair(a, x, y),
        !holds_pair(b, x, y),
        !(a.len() > 0 && b.len() > 0 && a.last() == x && b[0] == y),
    ensures
        !holds_pair(a + b, x, y),
{
    let s = a + b;
    if holds_pair(s, x, y) {
        let k = choose|k: int| 0 <= k && k + 1 < s.len() && #[trigger] s[k] == x && s[k + 1] == y;
        if k + 1 < a.len() {
            assert(a[k] == x && a[k + 1] == y);
        } else if k >= a.len() {
            assert(b[k - a.len()] == x && b[k - a.len() + 1] == y);
        } else {
            assert(a[k] == x && b[0] == y);
        }
    }
}

/// Replacing the block directory name "_b" by "_vb" leaves no "_b" behind, and keeps the
/// first character.
pub proof fn lemma_replace_block_dir(s: Seq<char>)
    ensures
        !holds_pair(replace_all(s, seq!['_', 'b'], seq!['_', 'v', 'b']), '_', 'b'),
        s.len() > 0 ==> replace_all(s, seq!['_', 'b'], seq!['_', 'v', 'b']).len() > 0
            && replace_all(s, seq!['_', 'b'], seq!['_', 'v', 'b'])[0] == s[0],
    decreases s.len(),
{
    let from = seq!['_', 'b'];
    let to = seq!['_', 'v', 'b'];
    if s.len() < 2 {
        assert(replace_all(s, from, to) == s);
    } else if s.take(2) == from {
        lemma_replace_block_dir(s.skip(2));
        assert(s[0] == '_');
        assert(!holds_pair(to, '_', 'b')) by {
            if holds_pair(to, '_', 'b') {
                let k = choose|k: int| 0 <= k && k + 1 < to.len() && #[trigger] to[k] == '_'
                    && to[k + 1] == 'b';
            }
        }
        lemma_pair_concat(to, replace_all(s.skip(2), from, to), '_', 'b');
    } else {
        lemma_replace_block_dir(s.drop_first());
        let head = seq![s[0]];
        let rest = replace_all(s.drop_first(), from, to);
        assert(!holds_pair(head, '_', 'b')) by {
            if holds_pair(head, '_', 'b') {
                let k = choose|k: int| 0 <= k && k + 1 < head.len() && #[trigger] head[k] == '_'
                    && head[k + 1] == 'b';
            }
        }
        assert(rest[0] == s[1]);
        assert(!(s[0] == '_' && s[1] == 'b')) by {
            if s[0] == '_' && s[1] == 'b' {
                assert(s.take(2) =~= from);
            }
        }
        lemma_pair_concat(head, rest, '_', 'b');
    }
}

/// Whether `pattern` occurs in `s` at position `at`.
pub fn occurs_at(s: &[char], at: usize, pattern: &[char]) -> (r: bool)
    requires
        at <= s@.len(),
    ensures
        r == (pattern@.len() <= s@.len() - at && s@.skip(at as int).take(pattern@.len() as int)
            == pattern@),
{
    let n: usize = s.len();
    if pattern.len() > n - at {
        return false;
    }
    let mut j: usize = 0;
    while j < pattern.len()
        invariant
            n == s@.len(),
            at + pattern@.len() <= n,
            j <= pattern@.len(),
            forall|k: int| 0 <= k < j ==> s@[at + k] == pattern@[k],
        decreases pattern.len() - j,
    {
        if s[at + j] != pattern[j] {
            assert(s@.skip(at as int).take(pattern@.len() as int)[j as int] != pattern@[j as int]);
            return false;
        }
        j = j + 1;
    }
    assert(s@.skip(at as int).take(pattern@.len() as int) =~= pattern@);
    true
}

/// Replaces every non-overlapping occurrence of `from` in `s` by `to` (`str::replace`).
pub fn replace_chars(s: &[char], from: &[char], to: &[char]) -> (r: Vec<char>)
    requires
        from@.len() > 0,
    ensures
        r@ == replace_all(s@, from@, to@),
{
    let mut out: Vec<char> = Vec::new();
    let mut i: usize = 0;
    assert(s@.skip(0) =~= s@);
    assert(out@ + replace_all(s@, from@, to@) =~= replace_all(s@, from@, to@));
    while i < s.len()
        invariant
            i <= s@.len(),
            from@.len() > 0,
            replace_all(s@, from@, to@) == out@ + replace_all(s@.skip(i as int), from@, to@),
        decreases s.len() - i,
    {
        let ghost rest = s@.skip(i as int);
        let ghost prev = out@;
        if occurs_at(s, i, from) {
            append_chars(&mut out, to);
            assert(rest.skip(from@.len() as int) =~= s@.skip(i + from@.len()));
            assert(out@ + replace_all(s@.skip(i + from@.len()), from@, to@) =~= prev
                + replace_all(rest, from@, to@));
            i = i + from.len();
        } else {
            out.push(s[i]);
            assert(rest.drop_first() =~= s@.skip(i + 1));
            proof {
                if rest.len() < from@.len() {
                    assert(replace_all(rest, from@, to@) == rest);
                    assert(replace_all(rest.drop_first(), from@, to@) == rest.drop_first()) by {
                        assert(rest.drop_first().len() < from@.len());
                    }
                    assert(rest =~= seq![rest[0]] + rest.drop_first());
                }
            }
            assert(out@ + replace_all(s@.skip(i + 1), from@, to@) =~= prev
                + replace_all(rest, from@, to@));
            i = i + 1;
        }
    }
    assert(replace_all(s@.skip(i as int), from@, to@) =~= Seq::<char>::empty());
    out
}

} // verus!
