//! Character-level text utilities: decimal rendering of identifiers,
//! substring search, and the dash-joined wire encoding of identifier sets.

use vstd::prelude::*;
use vstd::string::*;

verus! {

/// The decimal digit character for a value below ten.
pub open spec fn digit_char(d: nat) -> char {
    if d == 0 {
        '0'
    } else if d == 1 {
        '1'
    } else if d == 2 {
        '2'
    } else if d == 3 {
        '3'
    } else if d == 4 {
        '4'
    } else if d == 5 {
        '5'
    } else if d == 6 {
        '6'
    } else if d == 7 {
        '7'
    } else if d == 8 {
        '8'
    } else {
        '9'
    }
}

/// The usual decimal rendering of a natural number, most significant digit first.
pub open spec fn dec_of(n: nat) -> Seq<char>
    decreases n,
{
    if n < 10 {
        seq![digit_char(n)]
    } else {
        dec_of(n / 10) + seq![digit_char(n % 10)]
    }
}

fn digit_str(d: u64) -> (r: &'static str)
    requires
        d < 10,
    ensures
        r@ == seq![digit_char(d as nat)],
{
    proof {
        reveal_strlit("0");
        reveal_strlit("1");
        reveal_strlit("2");
        reveal_strlit("3");
        reveal_strlit("4");
        reveal_strlit("5");
        reveal_strlit("6");
        reveal_strlit("7");
        reveal_strlit("8");
        reveal_strlit("9");
    }
    match d {
        0 => "0",
        1 => "1",
        2 => "2",
        3 => "3",
        4 => "4",
        5 => "5",
        6 => "6",
        7 => "7",
        8 => "8",
        _ => "9",
    }
}

/// Renders an identifier in decimal, exactly as `dec_of` describes.
pub fn u64_to_string(n: u64) -> (r: String)
    ensures
        r@ == dec_of(n as nat),
    decreases n,
{
    if n < 10 {
        String::from_str(digit_str(n))
    } else {
        let mut s = u64_to_string(n / 10);
        s.append(digit_str(n % 10));
        s
    }
}

/// `needle` occurs in `hay` starting at position `i`.
pub open spec fn has_sub_at(hay: Seq<char>, needle: Seq<char>, i: int) -> bool {
    &&& 0 <= i
    &&& i + needle.len() <= hay.len()
    &&& forall|j: int| 0 <= j < needle.len() ==> hay[i + j] == needle[j]
}

/// `needle` occurs somewhere in `hay`.
pub open spec fn has_sub(hay: Seq<char>, needle: Seq<char>) -> bool {
    exists|i: int| has_sub_at(hay, needle, i)
}

/// Whether the character `c` occurs in `s`.
pub fn contains_char(s: &str, c: char) -> (r: bool)
    ensures
        r == s@.contains(c),
{
    let len = s.unicode_len();
    for i in 0..len
        invariant
            len == s@.len(),
            forall|j: int| 0 <= j < i ==> s@[j] != c,
    {
        if s.get_char(i) == c {
            return true;
        }
    }
    false
}

/// Whether `needle` occurs as a contiguous run of characters in `hay`.
pub fn contains_sub(hay: &str, needle: &str) -> (r: bool)
    ensures
        r == has_sub(hay@, needle@),
{
    let hlen = hay.unicode_len();
    let nlen = needle.unicode_len();
    if nlen > hlen {
        assert(forall|i: int| !has_sub_at(hay@, needle@, i));
        return false;
    }
    if nlen == 0 {
        assert(has_sub_at(hay@, needle@, 0));
        return true;
    }
    let last = hlen - nlen;
    for i in 0..last + 1
        invariant
            hlen == hay@.len(),
            nlen == needle@.len(),
            nlen <= hlen,
            last == hlen - nlen,
            forall|k: int| 0 <= k < i ==> !has_sub_at(hay@, needle@, k),
    {
        let mut all_eq = true;
        for j in 0..nlen
            invariant
                hlen == hay@.len(),
                nlen == needle@.len(),
                i + nlen <= hlen,
                all_eq <==> (forall|m: int| 0 <= m < j ==> hay@[i + m] == needle@[m]),
        {
            if hay.get_char(i + j) != needle.get_char(j) {
                all_eq = false;
                assert(!(forall|m: int| 0 <= m < j + 1 ==> hay@[i + m] == needle@[m]));
            }
        }
        if all_eq {
            assert(has_sub_at(hay@, needle@, i as int));
            return true;
        }
        assert(!has_sub_at(hay@, needle@, i as int));
    }
    assert(forall|k: int| k > last ==> !has_sub_at(hay@, needle@, k));
    false
}

/// Whether the value `x` occurs in `v`.
pub fn vec_contains_u64(v: &Vec<u64>, x: u64) -> (r: bool)
    ensures
        r == v@.contains(x),
{
    for i in 0..v.len()
        invariant
            forall|j: int| 0 <= j < i ==> v@[j] != x,
    {
        if v[i] == x {
            return true;
        }
    }
    false
}

/// The dash-joined decimal wire encoding of a sequence of identifiers.
pub open spec fn dash_join_dec(ids: Seq<u64>) -> Seq<char>
    decreases ids.len(),
{
    if ids.len() == 0 {
        Seq::empty()
    } else if ids.len() == 1 {
        dec_of(ids[0] as nat)
    } else {
        dash_join_dec(ids.drop_last()) + seq!['-'] + dec_of(ids.last() as nat)
    }
}

/// The dash-joined wire encoding of a sequence of strings.
pub open spec fn dash_join_seqs(items: Seq<Seq<char>>) -> Seq<char>
    decreases items.len(),
{
    if items.len() == 0 {
        Seq::empty()
    } else if items.len() == 1 {
        items[0]
    } else {
        dash_join_seqs(items.drop_last()) + seq!['-'] + items.last()
    }
}

/// Joins identifiers with dashes, as the booking wire format asks.
pub fn dash_join_u64(ids: &Vec<u64>) -> (r: String)
    ensures
        r@ == dash_join_dec(ids@),
{
    let mut out = String::new();
    proof {
        reveal_strlit("-");
        assert(ids@.take(0) =~= Seq::<u64>::empty());
    }
    for i in 0..ids.len()
        invariant
            out@ == dash_join_dec(ids@.take(i as int)),
    {
        if i > 0 {
            out.append("-");
        }
        let piece = u64_to_string(ids[i]);
        out.append(piece.as_str());
        proof {
            reveal_strlit("-");
            let t = ids@.take(i + 1);
            assert(t.drop_last() =~= ids@.take(i as int));
            assert(t.last() == ids@[i as int]);
        }
    }
    proof {
        assert(ids@.take(ids@.len() as int) =~= ids@);
    }
    out
}

/// Joins strings with dashes, as the booking wire format asks.
pub fn dash_join_strings(items: &Vec<String>) -> (r: String)
    ensures
        r@ == dash_join_seqs(items.deep_view()),
{
    let mut out = String::new();
    proof {
        reveal_strlit("-");
        assert(items.deep_view().take(0) =~= Seq::<Seq<char>>::empty());
    }
    for i in 0..items.len()
        invariant
            items.deep_view().len() == items@.len(),
            forall|j: int| 0 <= j < items@.len() ==> items.deep_view()[j] == items@[j]@,
            out@ == dash_join_seqs(items.deep_view().take(i as int)),
    {
        if i > 0 {
            out.append("-");
        }
        out.append(items[i].as_str());
        proof {
            reveal_strlit("-");
            let t = items.deep_view().take(i + 1);
            assert(t.drop_last() =~= items.deep_view().take(i as int));
            assert(t.last() == items.deep_view()[i as int]);
        }
    }
    proof {
        assert(items.deep_view().take(items.deep_view().len() as int) =~= items.deep_view());
    }
    out
}

/// The first position of `c` in `s` within `[from, to)`.
pub open spec fn find_char(s: Seq<char>, c: char, from: int, to: int) -> Option<int>
    decreases to - from,
{
    if from < 0 || from >= to || to > s.len() {
        None
    } else if s[from] == c {
        Some(from)
    } else {
        find_char(s, c, from + 1, to)
    }
}

/// The last position of `c` in `s` within `[from, to)`.
pub open spec fn rfind_char(s: Seq<char>, c: char, from: int, to: int) -> Option<int>
    decreases to - from,
{
    if from < 0 || from >= to || to > s.len() {
        None
    } else if s[to - 1] == c {
        Some(to - 1)
    } else {
        rfind_char(s, c, from, to - 1)
    }
}

/// The first position at which `pat` occurs in `s`, looking from `from` on.
pub open spec fn find_sub_index(s: Seq<char>, pat: Seq<char>, from: int) -> Option<int>
    decreases s.len() - from + 1,
{
    if from < 0 || from + pat.len() > s.len() {
        None
    } else if has_sub_at(s, pat, from) {
        Some(from)
    } else {
        find_sub_index(s, pat, from + 1)
    }
}

/// Finds the first occurrence of `c` in `s` within `[from, to)`.
#[verifier::loop_isolation(false)]
pub fn index_of_char(s: &str, c: char, from: usize, to: usize) -> (r: Option<usize>)
    requires
        from <= to <= s@.len(),
    ensures
        (r is Some) == (find_char(s@, c, from as int, to as int) is Some),
        r matches Some(i) ==> from <= i < to && find_char(s@, c, from as int, to as int) == Some(
            i as int,
        ),
{
    let mut i = from;
    while i < to
        invariant
            from <= i <= to,
            find_char(s@, c, from as int, to as int) == find_char(s@, c, i as int, to as int),
        decreases to - i,
    {
        if s.get_char(i) == c {
            return Some(i);
        }
        i = i + 1;
    }
    None
}

/// Finds the last occurrence of `c` in `s` within `[from, to)`.
#[verifier::loop_isolation(false)]
pub fn rindex_of_char(s: &str, c: char, from: usize, to: usize) -> (r: Option<usize>)
    requires
        from <= to <= s@.len(),
    ensures
        (r is Some) == (rfind_char(s@, c, from as int, to as int) is Some),
        r matches Some(i) ==> from <= i < to && rfind_char(s@, c, from as int, to as int) == Some(
            i as int,
        ),
{
    let mut i = to;
    while i > from
        invariant
            from <= i <= to,
            rfind_char(s@, c, from as int, to as int) == rfind_char(s@, c, from as int, i as int),
        decreases i,
    {
        if s.get_char(i - 1) == c {
            return Some(i - 1);
        }
        i = i - 1;
    }
    None
}

/// Finds the first occurrence of `pat` in `s`.
#[verifier::loop_isolation(false)]
pub fn find_sub(s: &str, pat: &str) -> (r: Option<usize>)
    ensures
        (r is Some) == (find_sub_index(s@, pat@, 0) is Some),
        r matches Some(i) ==> find_sub_index(s@, pat@, 0) == Some(i as int) && i + pat@.len()
            <= s@.len(),
{
    let slen = s.unicode_len();
    let plen = pat.unicode_len();
    if plen > slen {
        return None;
    }
    let last = slen - plen;
    let mut i: usize = 0;
    while i <= last
        invariant
            0 <= i <= last + 1,
            plen <= slen,
            last == slen - plen,
            find_sub_index(s@, pat@, 0) == find_sub_index(s@, pat@, i as int),
        decreases last + 1 - i,
    {
        let mut all_eq = true;
        for j in 0..plen
            invariant
                i + plen <= slen,
                all_eq <==> (forall|m: int| 0 <= m < j ==> s@[i + m] == pat@[m]),
        {
            if s.get_char(i + j) != pat.get_char(j) {
                all_eq = false;
                assert(!(forall|m: int| 0 <= m < j + 1 ==> s@[i + m] == pat@[m]));
            }
        }
        if all_eq {
            assert(has_sub_at(s@, pat@, i as int));
            return Some(i);
        }
        assert(!has_sub_at(s@, pat@, i as int));
        i = i + 1;
    }
    None
}

/// Whether the two strings hold the same characters.
#[verifier::loop_isolation(false)]
pub fn str_eq(a: &str, b: &str) -> (r: bool)
    ensures
        r == (a@ == b@),
{
    let alen = a.unicode_len();
    let blen = b.unicode_len();
    if alen != blen {
        return false;
    }
    for i in 0..alen
        invariant
            alen == blen,
            forall|j: int| 0 <= j < i ==> a@[j] == b@[j],
    {
        if a.get_char(i) != b.get_char(i) {
            return false;
        }
    }
    proof {
        assert(a@ =~= b@);
    }
    true
}

} // verus!
