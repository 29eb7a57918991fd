//! Verified string helpers: equality, prefix/suffix tests, substring
//! search, splitting and joining on separators, decimal and hexadecimal
//! rendering of integers, and ASCII case folding. Contracts are stated
//! over the `Seq<char>` views of `&str` and `String`.

use vstd::prelude::*;
use vstd::string::StrSliceExecFns;
use vstd::string::StringExecFns;

verus! {

/// `sub` occurs in `s` at character position `i`.
pub open spec fn match_at(s: Seq<char>, sub: Seq<char>, i: int) -> bool {
    0 <= i && i + sub.len() <= s.len() && s.subrange(i, i + sub.len()) == sub
}

pub fn str_eq(a: &str, b: &str) -> (r: bool)
    ensures
        r == (a@ == b@),
{
    let al = a.unicode_len();
    let bl = b.unicode_len();
    if al != bl {
        proof {
            assert(a@ != b@);
        }
        return false;
    }
    let mut i: usize = 0;
    while i < al
        invariant
            al == a@.len(),
            bl == b@.len(),
            al == bl,
            i <= al,
            forall|j: int| 0 <= j < i ==> a@[j] == b@[j],
        decreases al - i,
    {
        if a.get_char(i) != b.get_char(i) {
            return false;
        }
        i = i + 1;
    }
    proof {
        assert(a@ =~= b@);
    }
    true
}

pub fn starts_with(s: &str, p: &str) -> (r: bool)
    ensures
        r == match_at(s@, p@, 0),
{
    let sl = s.unicode_len();
    let pl = p.unicode_len();
    if pl > sl {
        return false;
    }
    let mut i: usize = 0;
    while i < pl
        invariant
            sl == s@.len(),
            pl == p@.len(),
            pl <= sl,
            i <= pl,
            forall|j: int| 0 <= j < i ==> s@[j] == p@[j],
        decreases pl - i,
    {
        if s.get_char(i) != p.get_char(i) {
            proof {
                assert(s@.subrange(0, p@.len() as int)[i as int] != p@[i as int]);
            }
            return false;
        }
        i = i + 1;
    }
    proof {
        assert(s@.subrange(0, p@.len() as int) =~= p@);
    }
    true
}

pub fn ends_with(s: &str, p: &str) -> (r: bool)
    ensures
        r == (p@.len() <= s@.len() && match_at(s@, p@, s@.len() - p@.len())),
{
    let sl = s.unicode_len();
    let pl = p.unicode_len();
    if pl > sl {
        return false;
    }
    let off: usize = sl - pl;
    let mut i: usize = 0;
    while i < pl
        invariant
            sl == s@.len(),
            pl == p@.len(),
            pl <= sl,
            off == sl - pl,
            i <= pl,
            forall|j: int| 0 <= j < i ==> s@[off + j] == p@[j],
        decreases pl - i,
    {
        if s.get_char(off + i) != p.get_char(i) {
            proof {
                assert(s@.subrange(off as int, off + p@.len())[i as int] != p@[i as int]);
            }
            return false;
        }
        i = i + 1;
    }
    proof {
        assert(s@.subrange(off as int, off + p@.len()) =~= p@);
    }
    true
}

/// Tests a match of `sub` at one position of `s`.
pub fn matches_at(s: &str, sub: &str, at: usize) -> (r: bool)
    requires
        at + sub@.len() <= s@.len(),
    ensures
        r == match_at(s@, sub@, at as int),
{
    let sl = s.unicode_len();
    let n = sub.unicode_len();
    let mut i: usize = 0;
    while i < n
        invariant
            sl == s@.len(),
            n == sub@.len(),
            at + n <= sl,
            i <= n,
            forall|j: int| 0 <= j < i ==> s@[at + j] == sub@[j],
        decreases n - i,
    {
        if s.get_char(at + i) != sub.get_char(i) {
            proof {
                assert(s@.subrange(at as int, at + sub@.len())[i as int] != sub@[i as int]);
            }
            return false;
        }
        i = i + 1;
    }
    proof {
        assert(s@.subrange(at as int, at + sub@.len()) =~= sub@);
    }
    true
}

/// First character position at or after `from` where `sub` occurs in `s`.
pub fn find_from(s: &str, sub: &str, from: usize) -> (r: Option<usize>)
    ensures
        match r {
            Some(i) => from <= i && match_at(s@, sub@, i as int) && forall|j: int|
                from <= j < i ==> !match_at(s@, sub@, j),
            None => forall|j: int| from <= j ==> !match_at(s@, sub@, j),
        },
{
    let sl = s.unicode_len();
    let n = sub.unicode_len();
    if n > sl || from > sl - n {
        proof {
            assert(forall|j: int| from <= j ==> !match_at(s@, sub@, j));
        }
        return None;
    }
    if n == 0 {
        proof {
            assert(s@.subrange(from as int, from as int) =~= sub@);
            assert(match_at(s@, sub@, from as int));
        }
        return Some(from);
    }
    let mut i: usize = from;
    while i <= sl - n
        invariant
            sl == s@.len(),
            n == sub@.len(),
            1 <= n <= sl,
            from <= i <= sl - n + 1,
            forall|j: int| from <= j < i ==> !match_at(s@, sub@, j),
        decreases sl - i,
    {
        if matches_at(s, sub, i) {
            return Some(i);
        }
        i = i + 1;
    }
    None
}

pub fn contains_sub(s: &str, sub: &str) -> (r: bool)
    ensures
        r == exists|j: int| match_at(s@, sub@, j),
{
    match find_from(s, sub, 0) {
        Some(i) => {
            proof {
                assert(match_at(s@, sub@, i as int));
            }
            true
        },
        None => false,
    }
}

pub fn contains_char(s: &str, c: char) -> (r: bool)
    ensures
        r == s@.contains(c),
{
    let sl = s.unicode_len();
    let mut i: usize = 0;
    while i < sl
        invariant
            sl == s@.len(),
            i <= sl,
            forall|j: int| 0 <= j < i ==> s@[j] != c,
        decreases sl - i,
    {
        if s.get_char(i) == c {
            proof {
                assert(s@[i as int] == c);
            }
            return true;
        }
        i = i + 1;
    }
    proof {
        assert(!s@.contains(c));
    }
    false
}

/// The pieces of `s` between occurrences of the separator `c`; always at
/// least one piece, and empty pieces stand where separators meet.
pub open spec fn spec_split(s: Seq<char>, c: char) -> Seq<Seq<char>>
    decreases s.len(),
{
    if s.len() == 0 {
        seq![Seq::<char>::empty()]
    } else if s[0] == c {
        seq![Seq::<char>::empty()] + spec_split(s.skip(1), c)
    } else {
        let rest = spec_split(s.skip(1), c);
        seq![seq![s[0]] + rest[0]] + rest.skip(1)
    }
}

pub proof fn lemma_split_len(s: Seq<char>, c: char)
    ensures
        spec_split(s, c).len() >= 1,
    decreases s.len(),
{
    if s.len() == 0 {
    } else if s[0] == c {
        lemma_split_len(s.skip(1), c);
    } else {
        lemma_split_len(s.skip(1), c);
    }
}

pub fn split_char(s: &str, c: char) -> (r: Vec<String>)
    ensures
        r.deep_view() == spec_split(s@, c),
        r.len() >= 1,
    decreases s@.len(),
{
    let sl = s.unicode_len();
    if sl == 0 {
        let mut r: Vec<String> = Vec::new();
        r.push(String::new());
        proof {
            assert(r.deep_view() =~= spec_split(s@, c));
        }
        return r;
    }
    let c0 = s.get_char(0);
    let tail = s.substring_char(1, sl);
    proof {
        assert(tail@ == s@.skip(1));
    }
    let mut rest = split_char(tail, c);
    if c0 == c {
        rest.insert(0, String::new());
        proof {
            assert(rest.deep_view() =~= spec_split(s@, c));
        }
        rest
    } else {
        let head = s.substring_char(0, 1);
        let mut first = head.to_owned();
        first.append(rest[0].as_str());
        proof {
            assert(head@ =~= seq![s@[0]]);
        }
        rest[0] = first;
        proof {
            assert(rest.deep_view() =~= spec_split(s@, c));
        }
        rest
    }
}

/// The pieces joined with `sep` between them.
pub open spec fn spec_join(parts: Seq<Seq<char>>, sep: Seq<char>) -> Seq<char>
    decreases parts.len(),
{
    if parts.len() == 0 {
        Seq::<char>::empty()
    } else if parts.len() == 1 {
        parts[0]
    } else {
        parts[0] + sep + spec_join(parts.skip(1), sep)
    }
}

pub fn join_str(parts: &Vec<String>, sep: &str) -> (r: String)
    ensures
        r@ == spec_join(parts.deep_view(), sep@),
{
    let n = parts.len();
    if n == 0 {
        return String::new();
    }
    let mut acc: String = parts[n - 1].clone();
    let mut i: usize = n - 1;
    while i > 0
        invariant
            n == parts.len(),
            n >= 1,
            i < n,
            acc@ == spec_join(parts.deep_view().skip(i as int), sep@),
        decreases i,
    {
        i = i - 1;
        let mut piece: String = parts[i].clone();
        piece.append(sep);
        piece.append(acc.as_str());
        proof {
            let pv = parts.deep_view();
            assert(pv.skip(i as int).skip(1) =~= pv.skip(i + 1));
            assert(pv.skip(i as int)[0] == pv[i as int]);
            assert(pv.skip(i as int).len() >= 2);
        }
        acc = piece;
    }
    proof {
        assert(parts.deep_view().skip(0) =~= parts.deep_view());
    }
    acc
}

/// The character for one decimal or hexadecimal digit value.
pub open spec fn digit_char(d: nat) -> char {
    if d == 0 {
        '0'
    } else if d == 1 {
        '1'
    } else if d == 2 {
        '2'
    } else if d == 3 {
        '3'
    } else if d == 4 {
        '4'
    } else if d == 5 {
        '5'
    } else if d == 6 {
        '6'
    } else if d == 7 {
        '7'
    } else if d == 8 {
        '8'
    } else if d == 9 {
        '9'
    } else if d == 10 {
        'a'
    } else if d == 11 {
        'b'
    } else if d == 12 {
        'c'
    } else if d == 13 {
        'd'
    } else if d == 14 {
        'e'
    } else if d == 15 {
        'f'
    } else {
        '?'
    }
}

fn digit_str(d: u64) -> (r: &'static str)
    requires
        d < 16,
    ensures
        r@ =~= seq![digit_char(d as nat)],
{
    proof {
        reveal_strlit("0");
        reveal_strlit("1");
        reveal_strlit("2");
        reveal_strlit("3");
        reveal_strlit("4");
        reveal_strlit("5");
        reveal_strlit("6");
        reveal_strlit("7");
        reveal_strlit("8");
        reveal_strlit("9");
        reveal_strlit("a");
        reveal_strlit("b");
        reveal_strlit("c");
        reveal_strlit("d");
        reveal_strlit("e");
        reveal_strlit("f");
    }
    if d == 0 {
        "0"
    } else if d == 1 {
        "1"
    } else if d == 2 {
        "2"
    } else if d == 3 {
        "3"
    } else if d == 4 {
        "4"
    } else if d == 5 {
        "5"
    } else if d == 6 {
        "6"
    } else if d == 7 {
        "7"
    } else if d == 8 {
        "8"
    } else if d == 9 {
        "9"
    } else if d == 10 {
        "a"
    } else if d == 11 {
        "b"
    } else if d == 12 {
        "c"
    } else if d == 13 {
        "d"
    } else if d == 14 {
        "e"
    } else {
        "f"
    }
}

/// The decimal rendering of `n`, most significant digit first.
pub open spec fn spec_dec(n: nat) -> Seq<char>
    decreases n,
{
    if n < 10 {
        seq![digit_char(n)]
    } else {
        spec_dec(n / 10).push(digit_char(n % 10))
    }
}

pub fn u64_to_string(n: u64) -> (r: String)
    ensures
        r@ == spec_dec(n as nat),
    decreases n,
{
    if n < 10 {
        digit_str(n).to_owned()
    } else {
        let mut r = u64_to_string(n / 10);
        r.append(digit_str(n % 10));
        proof {
            assert(spec_dec((n / 10) as nat) + seq![digit_char((n % 10) as nat)] =~= spec_dec(
                (n / 10) as nat,
            ).push(digit_char((n % 10) as nat)));
        }
        r
    }
}

pub fn u32_to_string(n: u32) -> (r: String)
    ensures
        r@ == spec_dec(n as nat),
{
    u64_to_string(n as u64)
}

pub fn usize_to_string(n: usize) -> (r: String)
    ensures
        r@ == spec_dec(n as nat),
{
    u64_to_string(n as u64)
}

/// The hexadecimal rendering of `n`, lower case, no leading zeros.
pub open spec fn spec_hex(n: nat) -> Seq<char>
    decreases n,
{
    if n < 16 {
        seq![digit_char(n)]
    } else {
        spec_hex(n / 16).push(digit_char(n % 16))
    }
}

pub fn u64_to_hex(n: u64) -> (r: String)
    ensures
        r@ == spec_hex(n as nat),
    decreases n,
{
    if n < 16 {
        digit_str(n).to_owned()
    } else {
        let mut r = u64_to_hex(n / 16);
        r.append(digit_str(n % 16));
        proof {
            assert(spec_hex((n / 16) as nat) + seq![digit_char((n % 16) as nat)] =~= spec_hex(
                (n / 16) as nat,
            ).push(digit_char((n % 16) as nat)));
        }
        r
    }
}

/// Whether a vector of strings already holds one equal to `s`.
pub fn vec_contains_str(v: &Vec<String>, s: &str) -> (r: bool)
    ensures
        r == v.deep_view().contains(s@),
{
    let n = v.len();
    let mut i: usize = 0;
    while i < n
        invariant
            n == v@.len(),
            i <= n,
            forall|j: int| 0 <= j < i ==> v@[j]@ != s@,
        decreases n - i,
    {
        if str_eq(v[i].as_str(), s) {
            proof {
                assert(v.deep_view()[i as int] == s@);
            }
            return true;
        }
        i = i + 1;
    }
    proof {
        assert(forall|j: int| 0 <= j < v.deep_view().len() ==> v.deep_view()[j] != s@);
    }
    false
}

/// The elements of `v` from position `from` on, as a new vector.
pub fn tail_from(v: &Vec<String>, from: usize) -> (r: Vec<String>)
    requires
        from <= v@.len(),
    ensures
        r.deep_view() == v.deep_view().skip(from as int),
{
    let n = v.len();
    let mut r: Vec<String> = Vec::new();
    let mut i: usize = from;
    while i < n
        invariant
            n == v@.len(),
            from <= i <= n,
            r@.len() == i - from,
            forall|j: int| 0 <= j < r@.len() ==> r@[j]@ == v@[from + j]@,
        decreases n - i,
    {
        r.push(v[i].clone());
        i = i + 1;
    }
    proof {
        assert(r.deep_view() =~= v.deep_view().skip(from as int));
    }
    r
}

/// The first `upto` elements of `v`, as a new vector.
pub fn head_vec(v: &Vec<String>, upto: usize) -> (r: Vec<String>)
    requires
        upto <= v@.len(),
    ensures
        r.deep_view() == v.deep_view().take(upto as int),
{
    let mut r: Vec<String> = Vec::new();
    let mut i: usize = 0;
    while i < upto
        invariant
            upto <= v@.len(),
            i <= upto,
            r@.len() == i,
            forall|j: int| 0 <= j < i ==> r@[j]@ == v@[j]@,
        decreases upto - i,
    {
        r.push(v[i].clone());
        i = i + 1;
    }
    proof {
        assert(r.deep_view() =~= v.deep_view().take(upto as int));
    }
    r
}

/// The last position of `c` in `s`, if it occurs.
pub fn last_index_of(s: &str, c: char) -> (r: Option<usize>)
    ensures
        match r {
            Some(i) => i < s@.len() && s@[i as int] == c && forall|j: int|
                i < j < s@.len() ==> s@[j] != c,
            None => forall|j: int| 0 <= j < s@.len() ==> s@[j] != c,
        },
{
    let n = s.unicode_len();
    let mut i: usize = n;
    while i > 0
        invariant
            n == s@.len(),
            i <= n,
            forall|j: int| i <= j < n ==> s@[j] != c,
        decreases i,
    {
        i = i - 1;
        if s.get_char(i) == c {
            return Some(i);
        }
    }
    None
}

/// How many copies of `c` stand at the front of `s`.
pub open spec fn spec_leading(s: Seq<char>, c: char) -> nat
    decreases s.len(),
{
    if s.len() > 0 && s[0] == c {
        1 + spec_leading(s.skip(1), c)
    } else {
        0
    }
}

pub fn count_leading(s: &str, c: char) -> (r: usize)
    ensures
        r == spec_leading(s@, c),
        r <= s@.len(),
{
    let n = s.unicode_len();
    let mut i: usize = 0;
    proof {
        assert(s@.skip(0) =~= s@);
    }
    while i < n
        invariant
            n == s@.len(),
            i <= n,
            spec_leading(s@, c) == i + spec_leading(s@.skip(i as int), c),
            forall|j: int| 0 <= j < i ==> s@[j] == c,
        decreases n - i,
    {
        proof {
            assert(s@.skip(i as int)[0] == s@[i as int]);
            assert(s@.skip(i as int).skip(1) =~= s@.skip(i + 1));
        }
        if s.get_char(i) != c {
            return i;
        }
        i = i + 1;
    }
    proof {
        assert(s@.skip(n as int) =~= Seq::<char>::empty());
    }
    n
}

/// `s` with every occurrence of one character replaced by another.
pub open spec fn spec_replace_char(s: Seq<char>, from: char, to: char) -> Seq<char> {
    s.map_values(
        |c: char|
            if c == from {
                to
            } else {
                c
            },
    )
}

pub fn replace_char(s: &str, from: char, to_rep: &str) -> (r: String)
    requires
        to_rep@.len() == 1,
    ensures
        r@ == spec_replace_char(s@, from, to_rep@[0]),
{
    let n = s.unicode_len();
    let mut r = String::new();
    let mut i: usize = 0;
    while i < n
        invariant
            n == s@.len(),
            to_rep@.len() == 1,
            i <= n,
            r@ == s@.take(i as int).map_values(
                |c: char|
                    if c == from {
                        to_rep@[0]
                    } else {
                        c
                    },
            ),
        decreases n - i,
    {
        let c = s.get_char(i);
        if c == from {
            r.append(to_rep);
        } else {
            let piece = s.substring_char(i, i + 1);
            proof {
                assert(piece@ =~= seq![s@[i as int]]);
            }
            r.append(piece);
        }
        proof {
            let f = |c: char|
                if c == from {
                    to_rep@[0]
                } else {
                    c
                };
            assert(s@.take(i + 1).map_values(f) =~= s@.take(i as int).map_values(f).push(
                f(s@[i as int]),
            ));
        }
        i = i + 1;
    }
    proof {
        assert(s@.take(n as int) =~= s@);
    }
    r
}

/// A signed count rendered in decimal.
pub fn i64_to_string(n: i64) -> (r: String)
    ensures
        n >= 0 ==> r@ == spec_dec(n as nat),
{
    if n >= 0 {
        u64_to_string(n as u64)
    } else {
        proof {
            reveal_strlit("-");
        }
        let magnitude: u64 = if n == i64::MIN {
            9223372036854775808u64
        } else {
            (-n) as u64
        };
        let mut r = "-".to_owned();
        let digits = u64_to_string(magnitude);
        r.append(digits.as_str());
        r
    }
}

/// Whether `a` orders strictly before `b`, character by character.
pub fn str_less(a: &str, b: &str) -> bool {
    let al = a.unicode_len();
    let bl = b.unicode_len();
    let mut i: usize = 0;
    while i < al && i < bl
        invariant
            al == a@.len(),
            bl == b@.len(),
            i <= al,
            i <= bl,
        decreases al - i,
    {
        let ca = a.get_char(i);
        let cb = b.get_char(i);
        if ca < cb {
            return true;
        }
        if cb < ca {
            return false;
        }
        i = i + 1;
    }
    al < bl
}

/// Whether a list of strings holds one with exactly this text.
pub open spec fn spec_holds_text(v: Seq<String>, x: Seq<char>) -> bool {
    exists|i: int| 0 <= i < v.len() && (#[trigger] v[i])@ == x
}

/// Sorts strings in place; the count of entries is kept, and every entry
/// afterwards carries a text that stood in the list before.
pub fn sort_strings(v: &mut Vec<String>)
    ensures
        final(v)@.len() == old(v)@.len(),
        forall|i: int|
            0 <= i < final(v)@.len() ==> spec_holds_text(old(v)@, (#[trigger] final(v)@[i])@),
{
    let ghost orig = v@;
    let n = v.len();
    proof {
        assert(forall|i: int| 0 <= i < v@.len() ==> spec_holds_text(orig, (#[trigger] v@[i])@));
    }
    let mut i: usize = 1;
    while i < n
        invariant
            n == v@.len(),
            1 <= i || n == 0,
            forall|k: int| 0 <= k < v@.len() ==> spec_holds_text(orig, (#[trigger] v@[k])@),
        decreases n - i,
    {
        let mut j: usize = i;
        while j > 0
            invariant
                j <= i < n,
                n == v@.len(),
                forall|k: int| 0 <= k < v@.len() ==> spec_holds_text(orig, (#[trigger] v@[k])@),
            decreases j,
        {
            if str_less(v[j].as_str(), v[j - 1].as_str()) {
                let a = v[j - 1].clone();
                let b = v[j].clone();
                v[j - 1] = b;
                v[j] = a;
            }
            j = j - 1;
        }
        i = i + 1;
    }
}

/// Whether a character is one of the two quote characters that string
/// literals are delimited with.
pub open spec fn spec_is_quote(c: char) -> bool {
    c == '"' || c == '\''
}

/// `s` with every leading and trailing quote character removed.
pub open spec fn spec_trim_quotes(s: Seq<char>) -> Seq<char>
    decreases s.len(),
{
    if s.len() > 0 && spec_is_quote(s[0]) {
        spec_trim_quotes(s.skip(1))
    } else if s.len() > 0 && spec_is_quote(s.last()) {
        spec_trim_quotes(s.drop_last())
    } else {
        s
    }
}

pub fn trim_quotes(s: &str) -> (r: String)
    ensures
        r@ == spec_trim_quotes(s@),
    decreases s@.len(),
{
    let n = s.unicode_len();
    if n > 0 {
        let first = s.get_char(0);
        if first == '"' || first == '\'' {
            let tail = s.substring_char(1, n);
            proof {
                assert(tail@ =~= s@.skip(1));
            }
            return trim_quotes(tail);
        }
        let last = s.get_char(n - 1);
        if last == '"' || last == '\'' {
            let head = s.substring_char(0, n - 1);
            proof {
                assert(head@ =~= s@.drop_last());
            }
            return trim_quotes(head);
        }
    }
    s.to_owned()
}

/// ASCII case folding of one character; other characters stay as they are.
pub open spec fn lower_char(c: char) -> char {
    if c == 'A' {
        'a'
    } else if c == 'B' {
        'b'
    } else if c == 'C' {
        'c'
    } else if c == 'D' {
        'd'
    } else if c == 'E' {
        'e'
    } else if c == 'F' {
        'f'
    } else if c == 'G' {
        'g'
    } else if c == 'H' {
        'h'
    } else if c == 'I' {
        'i'
    } else if c == 'J' {
        'j'
    } else if c == 'K' {
        'k'
    } else if c == 'L' {
        'l'
    } else if c == 'M' {
        'm'
    } else if c == 'N' {
        'n'
    } else if c == 'O' {
        'o'
    } else if c == 'P' {
        'p'
    } else if c == 'Q' {
        'q'
    } else if c == 'R' {
        'r'
    } else if c == 'S' {
        's'
    } else if c == 'T' {
        't'
    } else if c == 'U' {
        'u'
    } else if c == 'V' {
        'v'
    } else if c == 'W' {
        'w'
    } else if c == 'X' {
        'x'
    } else if c == 'Y' {
        'y'
    } else if c == 'Z' {
        'z'
    } else {
        c
    }
}

/// The folded character as a one-character string, for the letters that
/// folding changes.
fn lower_rep(c: char) -> (r: Option<&'static str>)
    ensures
        match r {
            Some(t) => t@ =~= seq![lower_char(c)],
            None => lower_char(c) == c,
        },
{
    proof {
        reveal_strlit("a");
        reveal_strlit("b");
        reveal_strlit("c");
        reveal_strlit("d");
        reveal_strlit("e");
        reveal_strlit("f");
        reveal_strlit("g");
        reveal_strlit("h");
        reveal_strlit("i");
        reveal_strlit("j");
        reveal_strlit("k");
        reveal_strlit("l");
        reveal_strlit("m");
        reveal_strlit("n");
        reveal_strlit("o");
        reveal_strlit("p");
        reveal_strlit("q");
        reveal_strlit("r");
        reveal_strlit("s");
        reveal_strlit("t");
        reveal_strlit("u");
        reveal_strlit("v");
        reveal_strlit("w");
        reveal_strlit("x");
        reveal_strlit("y");
        reveal_strlit("z");
    }
    if c == 'A' {
        Some("a")
    } else if c == 'B' {
        Some("b")
    } else if c == 'C' {
        Some("c")
    } else if c == 'D' {
        Some("d")
    } else if c == 'E' {
        Some("e")
    } else if c == 'F' {
        Some("f")
    } else if c == 'G' {
        Some("g")
    } else if c == 'H' {
        Some("h")
    } else if c == 'I' {
        Some("i")
    } else if c == 'J' {
        Some("j")
    } else if c == 'K' {
        Some("k")
    } else if c == 'L' {
        Some("l")
    } else if c == 'M' {
        Some("m")
    } else if c == 'N' {
        Some("n")
    } else if c == 'O' {
        Some("o")
    } else if c == 'P' {
        Some("p")
    } else if c == 'Q' {
        Some("q")
    } else if c == 'R' {
        Some("r")
    } else if c == 'S' {
        Some("s")
    } else if c == 'T' {
        Some("t")
    } else if c == 'U' {
        Some("u")
    } else if c == 'V' {
        Some("v")
    } else if c == 'W' {
        Some("w")
    } else if c == 'X' {
        Some("x")
    } else if c == 'Y' {
        Some("y")
    } else if c == 'Z' {
        Some("z")
    } else {
        None
    }
}

pub fn to_lower(s: &str) -> (r: String)
    ensures
        r@ == s@.map_values(|c: char| lower_char(c)),
{
    let sl = s.unicode_len();
    let mut r = String::new();
    let mut i: usize = 0;
    while i < sl
        invariant
            sl == s@.len(),
            i <= sl,
            r@ == s@.take(i as int).map_values(|c: char| lower_char(c)),
        decreases sl - i,
    {
        let c = s.get_char(i);
        match lower_rep(c) {
            Some(t) => {
                r.append(t);
            },
            None => {
                let piece = s.substring_char(i, i + 1);
                proof {
                    assert(piece@ =~= seq![s@[i as int]]);
                }
                r.append(piece);
            },
        }
        proof {
            assert(s@.take(i + 1).map_values(|c: char| lower_char(c)) =~= s@.take(
                i as int,
            ).map_values(|c: char| lower_char(c)).push(lower_char(s@[i as int])));
        }
        i = i + 1;
    }
    proof {
        assert(s@.take(sl as int) =~= s@);
    }
    r
}

} // verus!
