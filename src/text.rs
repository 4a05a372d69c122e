use vstd::prelude::*;

verus! {

/// Unicode White_Space: the characters that `char::is_whitespace` accepts.
pub open spec fn is_space(c: char) -> bool {
    let u = c as u32;
    ||| 0x09 <= u <= 0x0D
    ||| u == 0x20
    ||| u == 0x85
    ||| u == 0xA0
    ||| u == 0x1680
    ||| 0x2000 <= u <= 0x200A
    ||| u == 0x2028
    ||| u == 0x2029
    ||| u == 0x202F
    ||| u == 0x205F
    ||| u == 0x3000
}

pub open spec fn all_space(s: Seq<char>) -> bool {
    forall|i: int| 0 <= i < s.len() ==> is_space(#[trigger] s[i])
}

/// `s` without its leading white space.
pub open spec fn trim_start(s: Seq<char>) -> Seq<char>
    decreases s.len(),
{
    if s.len() > 0 && is_space(s[0]) {
        trim_start(s.drop_first())
    } else {
        s
    }
}

/// `s` without its trailing white space.
pub open spec fn trim_end(s: Seq<char>) -> Seq<char>
    decreases s.len(),
{
    if s.len() > 0 && is_space(s.last()) {
        trim_end(s.drop_last())
    } else {
        s
    }
}

/// `s` without leading and trailing white space, as `str::trim` gives it.
pub open spec fn trimmed(s: Seq<char>) -> Seq<char> {
    trim_end(trim_start(s))
}

/// The word "exit" in any mix of ASCII letter cases.
pub open spec fn is_exit_word(t: Seq<char>) -> bool {
    &&& t.len() == 4
    &&& (t[0] == 'e' || t[0] == 'E')
    &&& (t[1] == 'x' || t[1] == 'X')
    &&& (t[2] == 'i' || t[2] == 'I')
    &&& (t[3] == 't' || t[3] == 'T')
}

pub open spec fn has_suffix(s: Seq<char>, suffix: Seq<char>) -> bool {
    s.len() >= suffix.len() && s.subrange(s.len() - suffix.len(), s.len() as int) == suffix
}

pub proof fn lemma_all_space_trims_to_empty(s: Seq<char>)
    requires
        all_space(s),
    ensures
        trim_start(s).len() == 0,
        trimmed(s).len() == 0,
    decreases s.len(),
{
    if s.len() > 0 {
        assert(is_space(s[0]));
        assert(all_space(s.drop_first())) by {
            assert forall|i: int| 0 <= i < s.drop_first().len() implies is_space(
                #[trigger] s.drop_first()[i],
            ) by {
                assert(s.drop_first()[i] == s[i + 1]);
            }
        }
        lemma_all_space_trims_to_empty(s.drop_first());
    }
    assert(trim_start(s).len() == 0);
}

proof fn lemma_trim_start_skip(s: Seq<char>, i: int)
    requires
        0 <= i < s.len(),
        is_space(s[i]),
    ensures
        trim_start(s.subrange(i, s.len() as int)) == trim_start(s.subrange(i + 1, s.len() as int)),
{
    let t = s.subrange(i, s.len() as int);
    assert(t[0] == s[i]);
    assert(t.drop_first() =~= s.subrange(i + 1, s.len() as int));
}

proof fn lemma_trim_end_skip(s: Seq<char>, i: int, j: int)
    requires
        0 <= i < j <= s.len(),
        is_space(s[j - 1]),
    ensures
        trim_end(s.subrange(i, j)) == trim_end(s.subrange(i, j - 1)),
{
    let t = s.subrange(i, j);
    assert(t.last() == s[j - 1]);
    assert(t.drop_last() =~= s.subrange(i, j - 1));
}

/// Whether `c` is white space; `char::is_whitespace` on the same character.
pub fn is_space_char(c: char) -> (r: bool)
    ensures
        r == is_space(c),
{
    let u = c as u32;
    (0x09 <= u && u <= 0x0D) || u == 0x20 || u == 0x85 || u == 0xA0 || u == 0x1680 || (0x2000 <= u
        && u <= 0x200A) || u == 0x2028 || u == 0x2029 || u == 0x202F || u == 0x205F || u == 0x3000
}

/// The text of `s` without leading and trailing white space.
pub fn trim(s: &str) -> (r: String)
    ensures
        r@ == trimmed(s@),
{
    let n = s.unicode_len();
    let mut i: usize = 0;
    assert(s@ =~= s@.subrange(0, n as int));
    while i < n && is_space_char(s.get_char(i))
        invariant
            n == s@.len(),
            0 <= i <= n,
            trim_start(s@) == trim_start(s@.subrange(i as int, n as int)),
        decreases n - i,
    {
        proof {
            lemma_trim_start_skip(s@, i as int);
        }
        i = i + 1;
    }
    let ghost rest = s@.subrange(i as int, n as int);
    assert(trim_start(rest) == rest) by {
        if rest.len() > 0 {
            assert(rest[0] == s@[i as int]);
        }
    }
    let mut j: usize = n;
    while j > i && is_space_char(s.get_char(j - 1))
        invariant
            n == s@.len(),
            0 <= i <= j <= n,
            trim_end(rest) == trim_end(s@.subrange(i as int, j as int)),
            rest == s@.subrange(i as int, n as int),
        decreases j,
    {
        proof {
            lemma_trim_end_skip(s@, i as int, j as int);
        }
        j = j - 1;
    }
    let ghost kept = s@.subrange(i as int, j as int);
    assert(trim_end(kept) == kept) by {
        if kept.len() > 0 {
            assert(kept.last() == s@[j - 1]);
        }
    }
    String::from_str(s.substring_char(i, j))
}

/// Whether the two texts hold the same characters.
pub fn same_text(a: &str, b: &str) -> (r: bool)
    ensures
        r == (a@ == b@),
{
    let n = a.unicode_len();
    if n != b.unicode_len() {
        return false;
    }
    let mut i: usize = 0;
    while i < n
        invariant
            n == a@.len() == b@.len(),
            0 <= i <= n,
            forall|k: int| 0 <= k < i ==> a@[k] == b@[k],
        decreases n - i,
    {
        if a.get_char(i) != b.get_char(i) {
            return false;
        }
        i = i + 1;
    }
    assert(a@ =~= b@);
    true
}

/// Whether `s` ends with `suffix`.
pub fn ends_with(s: &str, suffix: &str) -> (r: bool)
    ensures
        r == has_suffix(s@, suffix@),
{
    let n = s.unicode_len();
    let m = suffix.unicode_len();
    if m > n {
        return false;
    }
    let off = n - m;
    let mut k: usize = 0;
    while k < m
        invariant
            n == s@.len(),
            m == suffix@.len(),
            off == n - m,
            0 <= k <= m,
            forall|q: int| 0 <= q < k ==> s@[off + q] == suffix@[q],
        decreases m - k,
    {
        if s.get_char(off + k) != suffix.get_char(k) {
            assert(s@.subrange(off as int, n as int)[k as int] != suffix@[k as int]);
            return false;
        }
        k = k + 1;
    }
    assert(s@.subrange(off as int, n as int) =~= suffix@);
    true
}

/// Whether `t` is the word "exit" in any ASCII letter case.
pub fn is_exit(t: &str) -> (r: bool)
    ensures
        r == is_exit_word(t@),
{
    if t.unicode_len() != 4 {
        return false;
    }
    let a = t.get_char(0);
    let b = t.get_char(1);
    let c = t.get_char(2);
    let d = t.get_char(3);
    (a == 'e' || a == 'E') && (b == 'x' || b == 'X') && (c == 'i' || c == 'I') && (d == 't' || d
        == 'T')
}

} // verus!
