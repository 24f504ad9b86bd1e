//! Character-level helpers shared by the rest of the library: the pieces of
//! Matrix identifiers, decimal numbers, substring search and string building.
use vstd::prelude::*;

verus! {

/// Index of the first `c` in `t`, or `t.len()` when `c` does not occur.
pub open spec fn find_char(t: Seq<char>, c: char) -> int
    decreases t.len(),
{
    if t.len() == 0 {
        0
    } else if t[0] == c {
        0
    } else {
        1 + find_char(t.drop_first(), c)
    }
}

/// The text of `t` before the first `c` (all of `t` when there is none):
/// what `split(c).next()` yields.
pub open spec fn before_char(t: Seq<char>, c: char) -> Seq<char> {
    t.take(find_char(t, c))
}

/// The text of `t` after the first `c` (empty when there is none).
pub open spec fn after_char(t: Seq<char>, c: char) -> Seq<char> {
    if find_char(t, c) < t.len() {
        t.skip(find_char(t, c) + 1)
    } else {
        Seq::empty()
    }
}

/// The short display form of a Matrix user ID: `@user:server` becomes `user`;
/// a text that does not start with `@` stays as it is.
pub open spec fn local_part(s: Seq<char>) -> Seq<char> {
    if s.len() > 0 && s[0] == '@' {
        before_char(s.drop_first(), ':')
    } else {
        s
    }
}

/// The decimal digit for `d` (0 to 9).
pub open spec fn digit_char(d: int) -> char {
    if d == 0 {
        '0'
    } else if d == 1 {
        '1'
    } else if d == 2 {
        '2'
    } else if d == 3 {
        '3'
    } else if d == 4 {
        '4'
    } else if d == 5 {
        '5'
    } else if d == 6 {
        '6'
    } else if d == 7 {
        '7'
    } else if d == 8 {
        '8'
    } else {
        '9'
    }
}

/// The decimal notation of `n`, without leading zeros.
pub open spec fn decimal(n: nat) -> Seq<char>
    decreases n,
{
    if n < 10 {
        seq![digit_char(n as int)]
    } else {
        decimal(n / 10) + seq![digit_char((n % 10) as int)]
    }
}

/// Whether `p` occurs in `t` as a contiguous piece.
pub open spec fn occurs_in(p: Seq<char>, t: Seq<char>) -> bool {
    exists|i: int| 0 <= i && i + p.len() <= t.len() && #[trigger] t.subrange(i, i + p.len()) == p
}

/// Any position that is the first `c` (or the length, when there is none) is `find_char`.
pub proof fn lemma_find_char_unique(t: Seq<char>, c: char, k: int)
    requires
        0 <= k <= t.len(),
        forall|j: int| 0 <= j < k ==> t[j] != c,
        k < t.len() ==> t[k] == c,
    ensures
        find_char(t, c) == k,
    decreases t.len(),
{
    if t.len() > 0 && t[0] != c {
        assert forall|j: int| 0 <= j < k - 1 implies t.drop_first()[j] != c by {
            assert(t.drop_first()[j] == t[j + 1]);
        }
        lemma_find_char_unique(t.drop_first(), c, k - 1);
    }
}

/// The short form of `@user:server` is `user`, for every `user` without a `:`.
pub proof fn law_local_part_of_user_id(user: Seq<char>, server: Seq<char>)
    requires
        !user.contains(':'),
    ensures
        local_part(seq!['@'] + user + seq![':'] + server) == user,
{
    let s = seq!['@'] + user + seq![':'] + server;
    let t = s.drop_first();
    assert(t == user + seq![':'] + server);
    assert forall|j: int| 0 <= j < user.len() implies t[j] != ':' by {
        assert(t[j] == user[j]);
        if t[j] == ':' {
            assert(user.contains(':'));
        }
    }
    assert(t[user.len() as int] == ':');
    lemma_find_char_unique(t, ':', user.len() as int);
    assert(t.take(user.len() as int) == user);
}

/// Appends `c` to `s`.
#[verifier::external_body]
pub(crate) fn push_char(s: &mut String, c: char)
    ensures
        final(s)@ == old(s)@.push(c),
{
    s.push(c);
}

/// The characters of `s`, in order.
pub fn chars_of(s: &str) -> (v: Vec<char>)
    ensures
        v@ == s@,
{
    let mut v: Vec<char> = Vec::new();
    for c in it: s.chars()
        invariant
            it.seq() == s@,
            v@ == it.seq().take(it.index() as int),
    {
        v.push(c);
    }
    v
}

/// The string made of `v[from..to]`.
pub fn string_of_range(v: &Vec<char>, from: usize, to: usize) -> (s: String)
    requires
        from <= to <= v.len(),
    ensures
        s@ == v@.subrange(from as int, to as int),
{
    let mut s = String::new();
    let mut i = from;
    while i < to
        invariant
            from <= i <= to <= v.len(),
            s@ == v@.subrange(from as int, i as int),
        decreases to - i,
    {
        push_char(&mut s, v[i]);
        i = i + 1;
        assert(s@ == v@.subrange(from as int, i as int));
    }
    s
}

/// A copy of `s`.
pub fn copy_str(s: &str) -> (r: String)
    ensures
        r@ == s@,
{
    s.to_owned()
}

/// Whether two texts are equal.
pub fn same_text(a: &str, b: &str) -> (r: bool)
    ensures
        r == (a@ == b@),
{
    let x = a.to_owned();
    let y = b.to_owned();
    x == y
}

/// A copy of an optional string.
pub fn copy_opt(o: &Option<String>) -> (r: Option<String>)
    ensures
        r == *o,
{
    match o {
        Some(s) => Some(s.clone()),
        None => None,
    }
}

/// The first position at or after `from` holding `c`, or `v.len()`.
pub fn find_char_from(v: &Vec<char>, from: usize, c: char) -> (k: usize)
    requires
        from <= v.len(),
    ensures
        k == from + find_char(v@.skip(from as int), c),
        from <= k <= v.len(),
{
    let mut k = from;
    while k < v.len() && v[k] != c
        invariant
            from <= k <= v.len(),
            forall|j: int| from <= j < k ==> v@[j] != c,
        decreases v.len() - k,
    {
        k = k + 1;
    }
    proof {
        let t = v@.skip(from as int);
        assert forall|j: int| 0 <= j < k - from implies t[j] != c by {
            assert(t[j] == v@[j + from]);
        }
        if k < v.len() {
            assert(t[k - from] == v@[k as int]);
        }
        lemma_find_char_unique(t, c, k - from);
    }
    k
}

/// The short display form of a Matrix user ID (see `local_part`).
pub fn local_part_of(s: &str) -> (r: String)
    ensures
        r@ == local_part(s@),
{
    let v = chars_of(s);
    if v.len() > 0 && v[0] == '@' {
        let k = find_char_from(&v, 1, ':');
        proof {
            assert(v@.skip(1) == v@.drop_first());
            assert(v@.subrange(1, k as int) == v@.drop_first().take(k - 1));
        }
        string_of_range(&v, 1, k)
    } else {
        copy_str(s)
    }
}

/// The decimal notation of `n`.
pub fn decimal_text(n: u64) -> (r: String)
    ensures
        r@ == decimal(n as nat),
    decreases n,
{
    let d = n % 10;
    let c = if d == 0 {
        '0'
    } else if d == 1 {
        '1'
    } else if d == 2 {
        '2'
    } else if d == 3 {
        '3'
    } else if d == 4 {
        '4'
    } else if d == 5 {
        '5'
    } else if d == 6 {
        '6'
    } else if d == 7 {
        '7'
    } else if d == 8 {
        '8'
    } else {
        '9'
    };
    if n < 10 {
        let mut r = String::new();
        push_char(&mut r, c);
        r
    } else {
        let mut r = decimal_text(n / 10);
        push_char(&mut r, c);
        r
    }
}

/// Whether `p` occurs in `t`.
pub fn occurs(p: &Vec<char>, t: &Vec<char>) -> (r: bool)
    ensures
        r == occurs_in(p@, t@),
{
    if p.len() > t.len() {
        return false;
    }
    let last = t.len() - p.len();
    let mut i: usize = 0;
    while i <= last
        invariant
            p.len() <= t.len(),
            last == t.len() - p.len(),
            forall|a: int| 0 <= a < i ==> #[trigger] t@.subrange(a, a + p.len()) != p@,
        decreases last + 1 - i,
    {
        let mut j: usize = 0;
        while j < p.len() && t[i + j] == p[j]
            invariant
                i <= last,
                last == t.len() - p.len(),
                j <= p.len(),
                forall|b: int| 0 <= b < j ==> t@[i + b] == p@[b],
            decreases p.len() - j,
        {
            j = j + 1;
        }
        if j == p.len() {
            assert(t@.subrange(i as int, i + p.len()) == p@);
            return true;
        }
        assert(t@.subrange(i as int, i + p.len())[j as int] != p@[j as int]);
        i = i + 1;
    }
    proof {
        assert forall|a: int| 0 <= a && a + p.len() <= t.len() implies #[trigger] t@.subrange(a, a + p.len()) != p@ by {
            assert(a < i);
        }
    }
    false
}

/// The lower-case form of a text, as `str::to_lowercase` gives it (Unicode case mapping).
pub uninterp spec fn lowercase(s: Seq<char>) -> Seq<char>;

/// `str::to_lowercase`. The contract only names its result: the result depends
/// on `s` alone, and is what `lowercase` stands for; the Unicode mapping itself
/// is not restated here.
#[verifier::external_body]
pub(crate) fn to_lower(s: &str) -> (r: String)
    ensures
        r@ == lowercase(s@),
{
    s.to_lowercase()
}

} // verus!
