use vstd::prelude::*;
use vstd::string::*;

verus! {

/// True when `p` occurs in `s` starting at index `i`.
pub open spec fn occurs_at(s: Seq<char>, i: int, p: Seq<char>) -> bool {
    0 <= i && i + p.len() <= s.len() && s.subrange(i, i + p.len()) == p
}

/// Every non-overlapping occurrence of `p` in `s`, scanned from the left,
/// replaced by `r` (the meaning of `str::replace` for a non-empty pattern).
pub open spec fn replace_spec(s: Seq<char>, p: Seq<char>, r: Seq<char>) -> Seq<char>
    decreases s.len(),
{
    if p.len() == 0 || s.len() == 0 {
        s
    } else if occurs_at(s, 0, p) {
        r + replace_spec(s.skip(p.len() as int), p, r)
    } else {
        seq![s[0]] + replace_spec(s.skip(1), p, r)
    }
}

/// The index of the first occurrence of `p` in `s` at or after `i`, if any.
pub open spec fn find_from(s: Seq<char>, p: Seq<char>, i: int) -> Option<int>
    decreases s.len() + 1 - i,
{
    if i < 0 || i > s.len() {
        None
    } else if occurs_at(s, i, p) {
        Some(i)
    } else {
        find_from(s, p, i + 1)
    }
}

/// The index of the first occurrence of `p` in `s`, if any.
pub open spec fn find_spec(s: Seq<char>, p: Seq<char>) -> Option<int> {
    find_from(s, p, 0)
}

/// The first occurrence at or after `i` is the one at `k` when `p` occurs at
/// `k` and nowhere from `i` up to `k`.
pub proof fn lemma_find_from_at(s: Seq<char>, p: Seq<char>, i: int, k: int)
    requires
        0 <= i <= k,
        occurs_at(s, k, p),
        forall|j: int| i <= j < k ==> !occurs_at(s, j, p),
    ensures
        find_from(s, p, i) == Some(k),
    decreases k - i,
{
    if i < k {
        lemma_find_from_at(s, p, i + 1, k);
    }
}

/// There is no occurrence at or after `i` when `p` occurs nowhere from `i`.
pub proof fn lemma_find_from_none(s: Seq<char>, p: Seq<char>, i: int)
    requires
        0 <= i,
        forall|j: int| i <= j <= s.len() ==> !occurs_at(s, j, p),
    ensures
        find_from(s, p, i) is None,
    decreases s.len() + 1 - i,
{
    if i <= s.len() {
        lemma_find_from_none(s, p, i + 1);
    }
}

/// What the first occurrence at or after `i` is.
pub proof fn lemma_find_from_sound(s: Seq<char>, p: Seq<char>, i: int)
    requires
        0 <= i,
    ensures
        find_from(s, p, i) matches Some(k) ==> i <= k && occurs_at(s, k, p) && forall|j: int|
            i <= j < k ==> !occurs_at(s, j, p),
        find_from(s, p, i) is None ==> forall|j: int| i <= j ==> !occurs_at(s, j, p),
    decreases s.len() + 1 - i,
{
    if i <= s.len() && !occurs_at(s, i, p) {
        lemma_find_from_sound(s, p, i + 1);
    }
}

/// One step of a filter over a growing prefix.
pub proof fn lemma_filter_take_step<A>(s: Seq<A>, p: spec_fn(A) -> bool, i: int)
    requires
        0 <= i < s.len(),
    ensures
        s.take(i + 1).filter(p) == (if p(s[i]) {
            s.take(i).filter(p).push(s[i])
        } else {
            s.take(i).filter(p)
        }),
{
    reveal_with_fuel(Seq::<_>::filter, 1);
    assert(s.take(i + 1).drop_last() =~= s.take(i));
}

/// Whether `c` has the Unicode `White_Space` property (`char::is_whitespace`).
pub open spec fn white_space(c: char) -> bool {
    let u = c as u32;
    (9 <= u <= 13) || u == 32 || u == 0x85 || u == 0xa0 || u == 0x1680 || (0x2000 <= u <= 0x200a)
        || u == 0x2028 || u == 0x2029 || u == 0x202f || u == 0x205f || u == 0x3000
}

/// `char::is_whitespace`.
pub fn is_white_space(c: char) -> (b: bool)
    ensures
        b == white_space(c),
{
    let u = c as u32;
    (9 <= u && u <= 13) || u == 32 || u == 0x85 || u == 0xa0 || u == 0x1680 || (0x2000 <= u && u
        <= 0x200a) || u == 0x2028 || u == 0x2029 || u == 0x202f || u == 0x205f || u == 0x3000
}

/// `s` without its leading white space.
pub open spec fn trim_start_spec(s: Seq<char>) -> Seq<char>
    decreases s.len(),
{
    if s.len() > 0 && white_space(s[0]) {
        trim_start_spec(s.drop_first())
    } else {
        s
    }
}

/// `s` without its trailing white space.
pub open spec fn trim_end_spec(s: Seq<char>) -> Seq<char>
    decreases s.len(),
{
    if s.len() > 0 && white_space(s.last()) {
        trim_end_spec(s.drop_last())
    } else {
        s
    }
}

/// `s` without its leading and trailing white space (`str::trim`).
pub open spec fn trim_spec(s: Seq<char>) -> Seq<char> {
    trim_end_spec(trim_start_spec(s))
}

/// `str::trim`, on characters.
pub fn trim(s: &Vec<char>) -> (t: Vec<char>)
    ensures
        t@ == trim_spec(s@),
{
    let mut i: usize = 0;
    assert(s@.skip(0) =~= s@);
    while i < s.len() && is_white_space(s[i])
        invariant
            i <= s.len(),
            trim_start_spec(s@) == trim_start_spec(s@.skip(i as int)),
        decreases s.len() - i,
    {
        assert(s@.skip(i as int).drop_first() =~= s@.skip(i + 1));
        i = i + 1;
    }
    let ghost u = s@.skip(i as int);
    assert(trim_start_spec(u) == u);
    let mut j: usize = s.len();
    assert(u.take((j - i) as int) =~= u);
    while j > i && is_white_space(s[j - 1])
        invariant
            i <= j <= s.len(),
            u == s@.skip(i as int),
            trim_end_spec(u) == trim_end_spec(u.take((j - i) as int)),
        decreases j,
    {
        assert(u.take((j - i) as int).drop_last() =~= u.take((j - 1 - i) as int));
        j = j - 1;
    }
    let mut t: Vec<char> = Vec::new();
    let mut k: usize = i;
    while k < j
        invariant
            i <= k <= j <= s.len(),
            t@ == s@.subrange(i as int, k as int),
        decreases j - k,
    {
        t.push(s[k]);
        assert(s@.subrange(i as int, k + 1) =~= s@.subrange(i as int, k as int).push(s@[k as int]));
        k = k + 1;
    }
    assert(t@ =~= u.take((j - i) as int));
    t
}

/// The index of the first occurrence of `p` in `s`, if any (`str::find`,
/// counted in characters).
pub fn find(s: &Vec<char>, p: &Vec<char>) -> (r: Option<usize>)
    ensures
        match r {
            Some(i) => occurs_at(s@, i as int, p@) && forall|j: int| 0 <= j < i ==> !occurs_at(s@, j, p@),
            None => forall|j: int| !occurs_at(s@, j, p@),
        },
        r matches Some(i) ==> find_spec(s@, p@) == Some(i as int),
        r is None ==> find_spec(s@, p@) is None,
{
    let mut i: usize = 0;
    loop
        invariant
            i <= s.len(),
            forall|j: int| 0 <= j < i ==> !occurs_at(s@, j, p@),
        ensures
            forall|j: int| 0 <= j <= s.len() ==> !occurs_at(s@, j, p@),
        decreases s.len() - i,
    {
        if occurs_at_exec(s, i, p) {
            proof {
                lemma_find_from_at(s@, p@, 0, i as int);
            }
            return Some(i);
        }
        if i == s.len() {
            break;
        }
        i = i + 1;
    }
    proof {
        lemma_find_from_none(s@, p@, 0);
    }
    assert forall|j: int| !occurs_at(s@, j, p@) by {
        if 0 <= j && j <= s.len() {
        }
    }
    None
}

/// The pieces of `s` between the non-overlapping occurrences of a non-empty
/// `p`, scanned from the left, empty pieces kept (`str::split`).
#[verifier::opaque]
pub open spec fn split_spec(s: Seq<char>, p: Seq<char>) -> Seq<Seq<char>>
    decreases s.len(),
{
    if p.len() == 0 {
        seq![s]
    } else {
        match find_spec(s, p) {
            None => seq![s],
            Some(i) => if 0 <= i && i + p.len() <= s.len() {
                seq![s.take(i)] + split_spec(s.skip(i + p.len()), p)
            } else {
                seq![s]
            },
        }
    }
}

/// The parts joined, with `sep` between each two (`[T]::join`).
pub open spec fn join_spec(parts: Seq<Seq<char>>, sep: Seq<char>) -> Seq<char>
    decreases parts.len(),
{
    if parts.len() == 0 {
        Seq::empty()
    } else if parts.len() == 1 {
        parts[0]
    } else {
        join_spec(parts.drop_last(), sep) + sep + parts.last()
    }
}

/// The views of a sequence of strings.
pub open spec fn texts(v: Seq<String>) -> Seq<Seq<char>> {
    v.map_values(|s: String| s@)
}

proof fn lemma_occurs_shift(s: Seq<char>, p: Seq<char>, pos: int, j: int)
    requires
        0 <= pos <= s.len(),
        0 <= j,
    ensures
        occurs_at(s.skip(pos), j, p) <==> occurs_at(s, pos + j, p),
{
    if j + p.len() <= s.len() - pos {
        assert(s.skip(pos).subrange(j, j + p.len()) =~= s.subrange(pos + j, pos + j + p.len()));
    }
}

proof fn lemma_find_shift(s: Seq<char>, p: Seq<char>, pos: int, k: int)
    requires
        0 <= pos <= k,
        occurs_at(s, k, p),
        forall|j: int| pos <= j < k ==> !occurs_at(s, j, p),
    ensures
        find_spec(s.skip(pos), p) == Some(k - pos),
{
    let t = s.skip(pos);
    lemma_occurs_shift(s, p, pos, k - pos);
    assert forall|j: int| 0 <= j < k - pos implies !occurs_at(t, j, p) by {
        lemma_occurs_shift(s, p, pos, j);
    }
    lemma_find_from_at(t, p, 0, k - pos);
}

proof fn lemma_find_none_shift(s: Seq<char>, p: Seq<char>, pos: int)
    requires
        0 <= pos <= s.len(),
        forall|j: int| pos <= j <= s.len() ==> !occurs_at(s, j, p),
    ensures
        find_spec(s.skip(pos), p) is None,
{
    let t = s.skip(pos);
    assert forall|j: int| 0 <= j <= t.len() implies !occurs_at(t, j, p) by {
        lemma_occurs_shift(s, p, pos, j);
    }
    lemma_find_from_none(t, p, 0);
}

/// The characters of `v` from `from` up to `to`, as a string.
pub fn slice_text(v: &Vec<char>, from: usize, to: usize) -> (s: String)
    requires
        from <= to <= v@.len(),
    ensures
        s@ == v@.subrange(from as int, to as int),
{
    let mut piece: Vec<char> = Vec::new();
    let mut m: usize = from;
    while m < to
        invariant
            from <= m <= to <= v@.len(),
            piece@ == v@.subrange(from as int, m as int),
        decreases to - m,
    {
        piece.push(v[m]);
        assert(v@.subrange(from as int, m + 1) =~= v@.subrange(from as int, m as int).push(v@[m as int]));
        m = m + 1;
    }
    string_from(&piece)
}

proof fn lemma_split_step(s: Seq<char>, p: Seq<char>, pos: int, k: int)
    requires
        p.len() > 0,
        0 <= pos <= k,
        occurs_at(s, k, p),
        forall|j: int| pos <= j < k ==> !occurs_at(s, j, p),
    ensures
        split_spec(s.skip(pos), p) == seq![s.subrange(pos, k)] + split_spec(s.skip(k + p.len()), p),
{
    lemma_find_shift(s, p, pos, k);
    reveal_with_fuel(split_spec, 1);
    let rest = s.skip(pos);
    assert(rest.take(k - pos) =~= s.subrange(pos, k));
    assert(rest.skip(k - pos + p.len()) =~= s.skip(k + p.len()));
}

proof fn lemma_split_last(s: Seq<char>, p: Seq<char>, pos: int)
    requires
        p.len() > 0,
        0 <= pos <= s.len(),
        forall|j: int| pos <= j <= s.len() ==> !occurs_at(s, j, p),
    ensures
        split_spec(s.skip(pos), p) == seq![s.skip(pos)],
{
    lemma_find_none_shift(s, p, pos);
    reveal_with_fuel(split_spec, 1);
}

/// `str::split` by a non-empty pattern.
pub fn split_text(s: &str, p: &str) -> (pieces: Vec<String>)
    requires
        p@.len() > 0,
    ensures
        texts(pieces@) == split_spec(s@, p@),
{
    let sv = chars_of(s);
    let pv = chars_of(p);
    let mut pieces: Vec<String> = Vec::new();
    let mut pos: usize = 0;
    let mut k: usize = 0;
    assert(sv@.skip(0) =~= sv@);
    loop
        invariant
            sv@ == s@,
            pv@ == p@,
            p@.len() > 0,
            pos <= k <= sv@.len(),
            split_spec(s@, p@) == texts(pieces@) + split_spec(sv@.skip(pos as int), p@),
            forall|j: int| pos <= j < k ==> !occurs_at(sv@, j, pv@),
        decreases sv@.len() - pos, sv@.len() - k,
    {
        if occurs_at_exec(&sv, k, &pv) {
            proof {
                lemma_split_step(sv@, pv@, pos as int, k as int);
            }
            let piece = slice_text(&sv, pos, k);
            let ghost before = texts(pieces@);
            pieces.push(piece);
            assert(texts(pieces@) =~= before.push(sv@.subrange(pos as int, k as int)));
            assert(k + pv@.len() <= sv@.len());
            assert(sv@.len() == sv.len());
            pos = k + pv.len();
            k = pos;
        } else if k == sv.len() {
            proof {
                lemma_split_last(sv@, pv@, pos as int);
            }
            let piece = slice_text(&sv, pos, k);
            let ghost before = texts(pieces@);
            pieces.push(piece);
            assert(texts(pieces@) =~= before.push(sv@.skip(pos as int)));
            return pieces;
        } else {
            k = k + 1;
        }
    }
}

/// The strings joined, with `sep` between each two (`[String]::join`).
pub fn join(parts: &Vec<String>, sep: &str) -> (s: String)
    ensures
        s@ == join_spec(texts(parts@), sep@),
{
    let ghost ps = texts(parts@);
    let mut s = String::new();
    for i in 0..parts.len()
        invariant
            ps == texts(parts@),
            s@ == join_spec(ps.take(i as int), sep@),
    {
        assert(ps.take(i + 1).drop_last() =~= ps.take(i as int));
        assert(ps[i as int] == parts@[i as int]@);
        if i > 0 {
            s.append(sep);
        } else {
            assert(ps.take(1) =~= seq![ps[0]]);
        }
        s.append(parts[i].as_str());
    }
    assert(ps.take(parts.len() as int) =~= ps);
    s
}

/// Whether `x` is one of the strings of `v`.
pub fn contains_text(v: &Vec<String>, x: &str) -> (b: bool)
    ensures
        b == texts(v@).contains(x@),
{
    for i in 0..v.len()
        invariant
            forall|j: int| 0 <= j < i ==> texts(v@)[j] != x@,
    {
        if same_text(v[i].as_str(), x) {
            assert(texts(v@)[i as int] == x@);
            return true;
        }
    }
    false
}

/// The decimal digit of `d`, below ten.
pub open spec fn digit(d: nat) -> char {
    (48 + d) as char
}

/// The decimal numeral of `n`, without leading zeros.
pub open spec fn decimal_nat(n: nat) -> Seq<char>
    decreases n,
{
    if n < 10 {
        seq![digit(n)]
    } else {
        decimal_nat(n / 10).push(digit(n % 10))
    }
}

/// The decimal numeral of `n`, with a minus sign when it is negative
/// (`i64::to_string`).
pub open spec fn decimal(n: int) -> Seq<char> {
    if n < 0 {
        seq!['-'] + decimal_nat((-n) as nat)
    } else {
        decimal_nat(n as nat)
    }
}

fn digits_of(n: u64) -> (v: Vec<char>)
    ensures
        v@ == decimal_nat(n as nat),
    decreases n,
{
    let d = (n % 10) as u8;
    let c = (48u8 + d) as char;
    assert(c == digit((n % 10) as nat));
    if n < 10 {
        let mut v: Vec<char> = Vec::new();
        v.push(c);
        assert(v@ =~= seq![digit(n as nat)]);
        v
    } else {
        let mut v = digits_of(n / 10);
        v.push(c);
        v
    }
}

/// The decimal numeral of `n` (`i64::to_string`).
pub fn decimal_text(n: i64) -> (s: String)
    ensures
        s@ == decimal(n as int),
{
    if n < 0 {
        let m: u64 = (0i128 - (n as i128)) as u64;
        let digits = digits_of(m);
        let mut v: Vec<char> = Vec::new();
        v.push('-');
        let mut k: usize = 0;
        while k < digits.len()
            invariant
                v@ == seq!['-'] + digits@.take(k as int),
                k <= digits@.len(),
            decreases digits.len() - k,
        {
            v.push(digits[k]);
            assert(digits@.take(k + 1) =~= digits@.take(k as int).push(digits@[k as int]));
            assert(v@ =~= seq!['-'] + digits@.take(k + 1));
            k = k + 1;
        }
        assert(digits@.take(digits.len() as int) =~= digits@);
        string_from(&v)
    } else {
        string_from(&digits_of(n as u64))
    }
}

/// Replacing one character by another changes exactly the places where the
/// first stands, and nothing else.
pub proof fn replace_one_character(s: Seq<char>, c: char, d: char)
    ensures
        replace_spec(s, seq![c], seq![d]).len() == s.len(),
        forall|i: int|
            0 <= i < s.len() ==> #[trigger] replace_spec(s, seq![c], seq![d])[i] == if s[i] == c {
                d
            } else {
                s[i]
            },
    decreases s.len(),
{
    if s.len() > 0 {
        let t = s.skip(1);
        replace_one_character(t, c, d);
        assert(occurs_at(s, 0, seq![c]) <==> s[0] == c) by {
            if s[0] == c {
                assert(s.subrange(0, 1) =~= seq![c]);
            }
            if occurs_at(s, 0, seq![c]) {
                assert(s.subrange(0, 1)[0] == s[0]);
            }
        }
        assert(s.skip(seq![c].len() as int) =~= t);
        let rt = replace_spec(t, seq![c], seq![d]);
        let x = if s[0] == c { d } else { s[0] };
        assert(replace_spec(s, seq![c], seq![d]) =~= seq![x] + rt);
        assert forall|i: int| 0 <= i < s.len() implies #[trigger] replace_spec(s, seq![c], seq![d])[i]
            == if s[i] == c { d } else { s[i] } by {
            if i > 0 {
                assert(t[i - 1] == s[i]);
                assert((seq![x] + rt)[i] == rt[i - 1]);
            }
        }
    }
}

/// A text that is the pattern itself is replaced whole.
pub proof fn replace_whole(p: Seq<char>, r: Seq<char>)
    requires
        p.len() > 0,
    ensures
        replace_spec(p, p, r) == r,
{
    assert(p.subrange(0, p.len() as int) =~= p);
    assert(occurs_at(p, 0, p));
    assert(p.skip(p.len() as int) =~= Seq::<char>::empty());
    assert(replace_spec(Seq::<char>::empty(), p, r) == Seq::<char>::empty());
    assert(replace_spec(p, p, r) == r + replace_spec(p.skip(p.len() as int), p, r));
    assert(r + Seq::<char>::empty() =~= r);
}

/// Replacing a pattern that does not occur leaves a text unchanged.
pub proof fn replace_without_occurrence(s: Seq<char>, p: Seq<char>, r: Seq<char>)
    requires
        forall|i: int| !occurs_at(s, i, p),
    ensures
        replace_spec(s, p, r) == s,
    decreases s.len(),
{
    if p.len() > 0 && s.len() > 0 {
        assert(!occurs_at(s, 0, p));
        let t = s.skip(1);
        assert forall|i: int| !occurs_at(t, i, p) by {
            if 0 <= i && i + p.len() <= t.len() {
                assert(t.subrange(i, i + p.len()) =~= s.subrange(i + 1, i + 1 + p.len()));
                assert(!occurs_at(s, i + 1, p));
            }
        }
        replace_without_occurrence(t, p, r);
        assert(seq![s[0]] + t =~= s);
    }
}

proof fn lemma_join_prepend(a: Seq<char>, rest: Seq<Seq<char>>, sep: Seq<char>)
    requires
        rest.len() > 0,
    ensures
        join_spec(seq![a] + rest, sep) == a + sep + join_spec(rest, sep),
    decreases rest.len(),
{
    let all = seq![a] + rest;
    if rest.len() == 1 {
        assert(all.drop_last() =~= seq![a]);
        assert(seq![a][0] == a);
        assert(join_spec(seq![a], sep) == a);
        assert(all.last() == rest[0]);
        assert(join_spec(rest, sep) == rest[0]);
    } else {
        lemma_join_prepend(a, rest.drop_last(), sep);
        assert(all.drop_last() =~= seq![a] + rest.drop_last());
        assert(all.last() == rest.last());
        let j = join_spec(rest.drop_last(), sep);
        assert(join_spec(all, sep) == a + sep + j + sep + rest.last());
        assert(join_spec(rest, sep) == j + sep + rest.last());
        assert(a + sep + j + sep + rest.last() =~= a + sep + (j + sep + rest.last()));
    }
}

proof fn lemma_split_nonempty(s: Seq<char>, p: Seq<char>)
    ensures
        split_spec(s, p).len() > 0,
    decreases s.len(),
{
    reveal_with_fuel(split_spec, 1);
    if p.len() > 0 {
        match find_spec(s, p) {
            Some(i) => {
                if 0 <= i && i + p.len() <= s.len() {
                    lemma_split_nonempty(s.skip(i + p.len()), p);
                }
            },
            None => {},
        }
    }
}

/// What the first occurrence is.
pub proof fn lemma_find_some(s: Seq<char>, p: Seq<char>)
    ensures
        find_spec(s, p) matches Some(i) ==> occurs_at(s, i, p) && forall|j: int| 0 <= j < i ==> !occurs_at(s, j, p),
        find_spec(s, p) is None ==> forall|j: int| 0 <= j ==> !occurs_at(s, j, p),
{
    lemma_find_from_sound(s, p, 0);
}

/// Joining the pieces of a split with its pattern gives back the text.
pub proof fn join_undoes_split(s: Seq<char>, p: Seq<char>)
    requires
        p.len() > 0,
    ensures
        join_spec(split_spec(s, p), p) == s,
    decreases s.len(),
{
    reveal_with_fuel(split_spec, 1);
    match find_spec(s, p) {
        None => {},
        Some(i) => {
            lemma_find_some(s, p);
            let rest = s.skip(i + p.len());
            join_undoes_split(rest, p);
            lemma_split_nonempty(rest, p);
            lemma_join_prepend(s.take(i), split_spec(rest, p), p);
            assert(s.take(i) + p + rest =~= s) by {
                assert(s.subrange(i, i + p.len()) == p);
            }
        },
    }
}

/// The pieces of `s` between its white-space characters, empty pieces kept.
pub open spec fn white_space_pieces(s: Seq<char>) -> Seq<Seq<char>>
    decreases s.len(),
{
    if s.len() == 0 {
        seq![Seq::empty()]
    } else {
        let p = white_space_pieces(s.drop_last());
        if white_space(s.last()) {
            p.push(Seq::empty())
        } else {
            p.drop_last().push(p.last().push(s.last()))
        }
    }
}

/// Whether a piece is not empty.
pub open spec fn non_empty() -> spec_fn(Seq<char>) -> bool {
    |w: Seq<char>| w.len() > 0
}

/// The words of `s`: its maximal runs of characters that are not white space,
/// in order (`str::split_whitespace`).
pub open spec fn words(s: Seq<char>) -> Seq<Seq<char>> {
    white_space_pieces(s).filter(non_empty())
}

/// The `n`-th word of `s` (counting from 0), if it has that many.
pub fn nth_word(s: &str, n: usize) -> (w: Option<String>)
    ensures
        match w {
            Some(x) => n < words(s@).len() && x@ == words(s@)[n as int],
            None => n >= words(s@).len(),
        },
{
    let v = chars_of(s);
    let mut done: Vec<Vec<char>> = Vec::new();
    let mut cur: Vec<char> = Vec::new();
    assert(v@.take(0) =~= Seq::<char>::empty());
    assert(done@.map_values(|p: Vec<char>| p@).push(cur@) =~= white_space_pieces(v@.take(0)));
    for i in 0..v.len()
        invariant
            v@ == s@,
            done@.map_values(|p: Vec<char>| p@).push(cur@) == white_space_pieces(v@.take(i as int)),
    {
        let ghost before = done@.map_values(|p: Vec<char>| p@).push(cur@);
        assert(v@.take(i + 1).drop_last() =~= v@.take(i as int));
        assert(v@.take(i + 1).last() == v@[i as int]);
        if is_white_space(v[i]) {
            let finished = cur;
            done.push(finished);
            cur = Vec::new();
            assert(done@.map_values(|p: Vec<char>| p@).push(cur@) =~= before.push(Seq::empty()));
        } else {
            cur.push(v[i]);
            assert(done@.map_values(|p: Vec<char>| p@).push(cur@) =~= before.drop_last().push(
                before.last().push(v@[i as int]),
            ));
        }
    }
    assert(v@.take(v.len() as int) =~= v@);
    done.push(cur);
    let ghost pieces = done@.map_values(|p: Vec<char>| p@);
    assert(pieces == white_space_pieces(s@));
    let mut found: usize = 0;
    assert(pieces.take(0).filter(non_empty()) =~= Seq::<Seq<char>>::empty()) by {
        reveal_with_fuel(Seq::<_>::filter, 1);
    }
    for j in 0..done.len()
        invariant
            pieces == done@.map_values(|p: Vec<char>| p@),
            pieces == white_space_pieces(s@),
            found as int == pieces.take(j as int).filter(non_empty()).len(),
            found <= n,
    {
        proof {
            lemma_filter_take_step(pieces, non_empty(), j as int);
        }
        if done[j].len() > 0 {
            if found == n {
                assert(pieces.take(j + 1).filter(non_empty())[n as int] == pieces[j as int]);
                proof {
                    lemma_filter_prefix(pieces, non_empty(), j + 1);
                }
                assert(pieces[j as int] == done@[j as int]@);
                return Some(string_from(&done[j]));
            }
            found = found + 1;
        }
    }
    assert(pieces.take(done.len() as int) =~= pieces);
    None
}

/// The filter of a prefix is a prefix of the filter.
pub proof fn lemma_filter_prefix<A>(s: Seq<A>, p: spec_fn(A) -> bool, i: int)
    requires
        0 <= i <= s.len(),
    ensures
        s.take(i).filter(p).len() <= s.filter(p).len(),
        forall|k: int|
            0 <= k < s.take(i).filter(p).len() ==> #[trigger] s.filter(p)[k] == s.take(i).filter(p)[k],
    decreases s.len() - i,
{
    if i < s.len() {
        lemma_filter_prefix(s, p, i + 1);
        lemma_filter_take_step(s, p, i);
    } else {
        assert(s.take(i) =~= s);
    }
}

/// The characters of `s`, in order.
pub fn chars_of(s: &str) -> (v: Vec<char>)
    ensures
        v@ == s@,
{
    let mut v: Vec<char> = Vec::new();
    for c in it: s.chars()
        invariant
            v@ == it.seq().take(it.index()),
            it.seq() == s@,
    {
        v.push(c);
    }
    v
}

/// Appends one character to a string (`String::push`).
#[verifier::external_body]
fn push_char(s: &mut String, c: char)
    ensures
        final(s)@ == old(s)@.push(c),
{
    s.push(c);
}

/// The string made of the characters of `v`.
pub fn string_from(v: &Vec<char>) -> (s: String)
    ensures
        s@ == v@,
{
    let mut s = String::new();
    for i in 0..v.len()
        invariant
            s@ == v@.take(i as int),
    {
        push_char(&mut s, v[i]);
        assert(v@.take(i + 1) == v@.take(i as int).push(v@[i as int]));
    }
    assert(v@.take(v.len() as int) == v@);
    s
}

/// Whether `p` occurs in `s` at index `i`.
pub fn occurs_at_exec(s: &Vec<char>, i: usize, p: &Vec<char>) -> (b: bool)
    ensures
        b == occurs_at(s@, i as int, p@),
{
    if i > s.len() || p.len() > s.len() - i {
        return false;
    }
    let mut k: usize = 0;
    while k < p.len()
        invariant
            i + p.len() <= s.len(),
            k <= p.len(),
            forall|j: int| 0 <= j < k ==> s@[i + j] == p@[j],
        decreases p.len() - k,
    {
        if s[i + k] != p[k] {
            assert(s@.subrange(i as int, i + p.len())[k as int] != p@[k as int]);
            return false;
        }
        k = k + 1;
    }
    assert(s@.subrange(i as int, i + p.len()) =~= p@);
    true
}

proof fn lemma_replace_step(s: Seq<char>, i: int, p: Seq<char>, r: Seq<char>)
    requires
        p.len() > 0,
        0 <= i < s.len(),
    ensures
        occurs_at(s, i, p) ==> replace_spec(s.skip(i), p, r) == r + replace_spec(s.skip(i + p.len()), p, r),
        !occurs_at(s, i, p) ==> replace_spec(s.skip(i), p, r) == seq![s[i]] + replace_spec(s.skip(i + 1), p, r),
{
    let t = s.skip(i);
    assert(occurs_at(s, i, p) <==> occurs_at(t, 0, p)) by {
        if i + p.len() <= s.len() {
            assert(s.subrange(i, i + p.len()) =~= t.subrange(0, p.len() as int));
        }
    }
    if occurs_at(s, i, p) {
        assert(t.skip(p.len() as int) =~= s.skip(i + p.len()));
    } else {
        assert(t.skip(1) =~= s.skip(i + 1));
    }
}

/// `str::replace` for a non-empty pattern, on characters.
pub fn replace(s: &Vec<char>, p: &Vec<char>, r: &Vec<char>) -> (out: Vec<char>)
    requires
        p.len() > 0,
    ensures
        out@ == replace_spec(s@, p@, r@),
{
    let mut out: Vec<char> = Vec::new();
    let mut i: usize = 0;
    assert(s@.skip(0) =~= s@);
    while i < s.len()
        invariant
            p.len() > 0,
            i <= s.len(),
            replace_spec(s@, p@, r@) == out@ + replace_spec(s@.skip(i as int), p@, r@),
        decreases s.len() - i,
    {
        proof { lemma_replace_step(s@, i as int, p@, r@); }
        if occurs_at_exec(s, i, p) {
            let ghost before = out@;
            for k in 0..r.len()
                invariant
                    out@ == before + r@.take(k as int),
            {
                out.push(r[k]);
                assert(r@.take(k + 1) == r@.take(k as int).push(r@[k as int]));
            }
            assert(r@.take(r.len() as int) =~= r@);
            assert(out@ + replace_spec(s@.skip(i + p.len()), p@, r@) =~= before + (r@ + replace_spec(s@.skip(i + p.len()), p@, r@)));
            i = i + p.len();
        } else {
            let ghost before = out@;
            out.push(s[i]);
            assert(out@ + replace_spec(s@.skip(i + 1), p@, r@) =~= before + (seq![s@[i as int]] + replace_spec(s@.skip(i + 1), p@, r@)));
            i = i + 1;
        }
    }
    assert(s@.skip(i as int).len() == 0);
    assert(out@ + replace_spec(s@.skip(i as int), p@, r@) =~= out@);
    out
}


/// `str::replace` for a non-empty pattern.
pub fn replace_text(s: &str, p: &str, r: &str) -> (out: String)
    requires
        p@.len() > 0,
    ensures
        out@ == replace_spec(s@, p@, r@),
{
    let sv = chars_of(s);
    let pv = chars_of(p);
    let rv = chars_of(r);
    let out = replace(&sv, &pv, &rv);
    string_from(&out)
}

/// `a` followed by `b`.
pub fn cat(a: &str, b: &str) -> (s: String)
    ensures
        s@ == a@ + b@,
{
    let mut s = String::from_str(a);
    s.append(b);
    s
}

/// Whether two strings hold the same characters.
pub fn same_text(a: &str, b: &str) -> (eq: bool)
    ensures
        eq == (a@ == b@),
{
    let x = chars_of(a);
    let y = chars_of(b);
    if x.len() != y.len() {
        return false;
    }
    for i in 0..x.len()
        invariant
            x@ == a@,
            y@ == b@,
            x@.len() == y@.len(),
            forall|j: int| 0 <= j < i ==> x@[j] == y@[j],
    {
        if x[i] != y[i] {
            assert(x@[i as int] != y@[i as int]);
            return false;
        }
    }
    assert(x@ =~= y@);
    true
}

/// A copy of `s`.
pub fn copy_text(s: &String) -> (r: String)
    ensures
        r@ == s@,
{
    s.clone()
}

} // verus!
