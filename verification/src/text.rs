//! Verified helpers on strings: searching, splitting on a separator and
//! reading small decimal numbers. Contracts speak of a string through its view,
//! the sequence of its characters.

use vstd::prelude::*;
use vstd::string::StrSliceExecFns;
use vstd::string::StringExecFns;

verus! {

/// `pat` stands in `s` at position `i`.
pub open spec fn occurs_at(s: Seq<char>, pat: Seq<char>, i: int) -> bool {
    &&& 0 <= i
    &&& i + pat.len() <= s.len()
    &&& s.subrange(i, i + pat.len()) == pat
}

/// `pat` stands somewhere in `s`.
pub open spec fn contains(s: Seq<char>, pat: Seq<char>) -> bool {
    exists|i: int| occurs_at(s, pat, i)
}

/// `s` begins with `pat`.
pub open spec fn starts_with(s: Seq<char>, pat: Seq<char>) -> bool {
    occurs_at(s, pat, 0)
}

/// The first position at or after `from` where `pat` stands in `s`.
pub open spec fn find_from(s: Seq<char>, pat: Seq<char>, from: int) -> Option<int>
    decreases s.len() - from + 1,
{
    if from < 0 || from + pat.len() > s.len() {
        None
    } else if occurs_at(s, pat, from) {
        Some(from)
    } else {
        find_from(s, pat, from + 1)
    }
}

/// The last position where `pat` stands in `s` and that ends at or before `upto`.
pub open spec fn rfind_upto(s: Seq<char>, pat: Seq<char>, upto: int) -> Option<int>
    decreases upto + 1,
{
    if upto < pat.len() || upto > s.len() {
        None
    } else if occurs_at(s, pat, upto - pat.len()) {
        Some(upto - pat.len())
    } else {
        rfind_upto(s, pat, upto - 1)
    }
}

/// The pieces of `s` from `start` on, cut at each occurrence of `sep`, the
/// occurrences taken from the left and without overlap.
pub open spec fn split_from(s: Seq<char>, sep: Seq<char>, start: int) -> Seq<Seq<char>>
    decreases s.len() - start,
{
    if sep.len() == 0 || start < 0 || start > s.len() {
        seq![s]
    } else {
        match find_from(s, sep, start) {
            None => seq![s.subrange(start, s.len() as int)],
            Some(i) => if start <= i && i + sep.len() <= s.len() {
                seq![s.subrange(start, i)] + split_from(s, sep, i + sep.len())
            } else {
                seq![s]
            },
        }
    }
}

/// The pieces of `s`, cut at each occurrence of `sep`. An empty separator cuts
/// nowhere.
pub open spec fn split(s: Seq<char>, sep: Seq<char>) -> Seq<Seq<char>> {
    split_from(s, sep, 0)
}

/// The views of a sequence of strings.
pub open spec fn views(v: Seq<String>) -> Seq<Seq<char>> {
    Seq::new(v.len(), |i: int| v[i]@)
}

/// What `find_from` finds is an occurrence, the first one from `from` on.
pub proof fn lemma_find_from(s: Seq<char>, pat: Seq<char>, from: int)
    requires
        0 <= from,
    ensures
        match find_from(s, pat, from) {
            Some(i) => from <= i && occurs_at(s, pat, i) && forall|j: int|
                from <= j < i ==> !occurs_at(s, pat, j),
            None => forall|j: int| from <= j ==> !occurs_at(s, pat, j),
        },
    decreases s.len() - from + 1,
{
    if from + pat.len() > s.len() {
    } else if occurs_at(s, pat, from) {
    } else {
        lemma_find_from(s, pat, from + 1);
    }
}

/// What `rfind_upto` finds is an occurrence, the last one that ends by `upto`.
pub proof fn lemma_rfind_upto(s: Seq<char>, pat: Seq<char>, upto: int)
    requires
        upto <= s.len(),
    ensures
        match rfind_upto(s, pat, upto) {
            Some(i) => i + pat.len() <= upto && occurs_at(s, pat, i) && forall|j: int|
                i < j && j + pat.len() <= upto ==> !occurs_at(s, pat, j),
            None => forall|j: int| j + pat.len() <= upto ==> !occurs_at(s, pat, j),
        },
    decreases upto + 1,
{
    if upto < pat.len() {
    } else if occurs_at(s, pat, upto - pat.len()) {
    } else {
        lemma_rfind_upto(s, pat, upto - 1);
    }
}

/// `find_from` from the start decides `contains`.
pub proof fn lemma_find_decides_contains(s: Seq<char>, pat: Seq<char>)
    ensures
        contains(s, pat) <==> find_from(s, pat, 0) is Some,
{
    lemma_find_from(s, pat, 0);
}

/// Does `pat` stand in `s` at `i`?
pub fn matches_at(s: &Vec<char>, pat: &Vec<char>, i: usize) -> (r: bool)
    ensures
        r == occurs_at(s@, pat@, i as int),
{
    if pat.len() > s.len() || i > s.len() - pat.len() {
        return false;
    }
    let mut k: usize = 0;
    while k < pat.len()
        invariant
            k <= pat.len(),
            i + pat.len() <= s.len(),
            forall|j: int| 0 <= j < k ==> s@[i + j] == pat@[j],
        decreases pat.len() - k,
    {
        if s[i + k] != pat[k] {
            assert(s@.subrange(i as int, i + pat.len())[k as int] != pat@[k as int]);
            return false;
        }
        k += 1;
    }
    assert(s@.subrange(i as int, i + pat.len()) =~= pat@);
    true
}

/// The first position at or after `from` where `pat` stands in `s`.
pub fn find(s: &Vec<char>, pat: &Vec<char>, from: usize) -> (r: Option<usize>)
    ensures
        match r {
            Some(i) => find_from(s@, pat@, from as int) == Some(i as int),
            None => find_from(s@, pat@, from as int) is None,
        },
{
    if pat.len() > s.len() {
        return None;
    }
    let last: usize = s.len() - pat.len();
    let mut i: usize = from;
    while i <= last
        invariant
            last == s.len() - pat.len(),
            from <= i,
            find_from(s@, pat@, from as int) == find_from(s@, pat@, i as int),
        decreases last + 1 - i,
    {
        if matches_at(s, pat, i) {
            return Some(i);
        }
        if i == last {
            assert(find_from(s@, pat@, i + 1) is None);
            return None;
        }
        i += 1;
    }
    None
}

/// The last position where `pat` stands in `s`.
pub fn rfind(s: &Vec<char>, pat: &Vec<char>) -> (r: Option<usize>)
    ensures
        match r {
            Some(i) => rfind_upto(s@, pat@, s@.len() as int) == Some(i as int),
            None => rfind_upto(s@, pat@, s@.len() as int) is None,
        },
{
    if pat.len() > s.len() {
        return None;
    }
    let mut upto: usize = s.len();
    while upto >= pat.len()
        invariant
            upto <= s.len(),
            rfind_upto(s@, pat@, s@.len() as int) == rfind_upto(s@, pat@, upto as int),
        decreases upto,
    {
        if matches_at(s, pat, upto - pat.len()) {
            return Some(upto - pat.len());
        }
        if upto == 0 {
            assert(s@.subrange(0, 0) =~= pat@);
            return None;
        }
        upto -= 1;
    }
    None
}

/// The characters of `s`, in order.
pub fn chars_of(s: &str) -> (v: Vec<char>)
    ensures
        v@ == s@,
{
    let mut v: Vec<char> = Vec::new();
    for c in it: s.chars()
        invariant
            it.seq() == s@,
            v@ == s@.take(it.index() as int),
    {
        v.push(c);
    }
    v
}

/// The part of `s` from character `from` up to, not including, character `to`.
pub(crate) fn slice_of(s: &str, from: usize, to: usize) -> (r: String)
    requires
        from <= to <= s@.len(),
    ensures
        r@ == s@.subrange(from as int, to as int),
{
    s.substring_char(from, to).to_owned()
}

/// The pieces of `s`, cut at each occurrence of `sep`. An empty separator cuts
/// nowhere.
pub fn split_str(s: &str, sep: &str) -> (r: Vec<String>)
    ensures
        views(r@) == split(s@, sep@),
{
    let chars = chars_of(s);
    let pat = chars_of(sep);
    if pat.len() == 0 {
        let mut whole: Vec<String> = Vec::new();
        whole.push(s.to_owned());
        assert(views(whole@) =~= seq![s@]);
        return whole;
    }
    let n: usize = chars.len();
    let mut out: Vec<String> = Vec::new();
    let mut start: usize = 0;
    loop
        invariant
            n == chars@.len(),
            chars@ == s@,
            pat@ == sep@,
            pat@.len() > 0,
            start <= chars@.len(),
            split(s@, sep@) == views(out@) + split_from(s@, sep@, start as int),
        decreases chars@.len() - start,
    {
        proof {
            lemma_find_from(s@, sep@, start as int);
        }
        match find(&chars, &pat, start) {
            None => {
                let piece = slice_of(s, start, n);
                let ghost before = out@;
                out.push(piece);
                assert(views(out@) =~= views(before) + seq![s@.subrange(
                    start as int,
                    s@.len() as int,
                )]);
                return out;
            },
            Some(i) => {
                assert(occurs_at(s@, sep@, i as int));
                let piece = slice_of(s, start, i);
                let ghost before = out@;
                out.push(piece);
                assert(views(out@) =~= views(before) + seq![s@.subrange(start as int, i as int)]);
                start = i + pat.len();
            },
        }
    }
}

/// Does `pat` stand somewhere in `s`?
pub fn str_contains(s: &str, pat: &str) -> (r: bool)
    ensures
        r == contains(s@, pat@),
{
    let chars = chars_of(s);
    let p = chars_of(pat);
    proof {
        lemma_find_decides_contains(s@, pat@);
    }
    find(&chars, &p, 0).is_some()
}

/// Does `s` begin with `pat`?
pub fn str_starts_with(s: &str, pat: &str) -> (r: bool)
    ensures
        r == starts_with(s@, pat@),
{
    let chars = chars_of(s);
    let p = chars_of(pat);
    matches_at(&chars, &p, 0)
}

/// Are the two strings the same?
pub fn str_eq(a: &str, b: &str) -> (r: bool)
    ensures
        r == (a@ == b@),
{
    let x = chars_of(a);
    let y = chars_of(b);
    if x.len() != y.len() {
        return false;
    }
    let r = matches_at(&x, &y, 0);
    assert(a@.subrange(0, a@.len() as int) =~= a@);
    r
}

/// `a` followed by `b`.
pub fn concat2(a: &str, b: &str) -> (r: String)
    ensures
        r@ == a@ + b@,
{
    let mut r = a.to_owned();
    r.append(b);
    r
}

/// The characters `'0'` to `'9'`.
pub open spec fn is_digit(c: char) -> bool {
    '0' <= c && c <= '9'
}

/// The number that a digit stands for.
pub open spec fn digit_value(c: char) -> int {
    c as int - '0' as int
}

/// Every character of `s` is a digit.
pub open spec fn all_digits(s: Seq<char>) -> bool {
    forall|i: int| 0 <= i < s.len() ==> is_digit(#[trigger] s[i])
}

/// The number that a string of digits denotes in base ten.
pub open spec fn decimal_value(s: Seq<char>) -> nat
    decreases s.len(),
{
    if s.len() == 0 {
        0
    } else {
        (decimal_value(s.drop_last()) * 10 + digit_value(s.last())) as nat
    }
}

/// The digit that stands for `d`.
pub open spec fn digit_char(d: int) -> char {
    ('0' as int + d) as char
}

/// `n` written in base ten, without leading zeros.
pub open spec fn decimal_digits(n: nat) -> Seq<char>
    decreases n,
{
    if n < 10 {
        seq![digit_char(n as int)]
    } else {
        decimal_digits(n / 10).push(digit_char((n % 10) as int))
    }
}

/// What `decimal_digits` writes is made of digits and denotes the number written.
pub proof fn lemma_decimal_digits(n: nat)
    ensures
        decimal_digits(n).len() >= 1,
        all_digits(decimal_digits(n)),
        decimal_value(decimal_digits(n)) == n,
    decreases n,
{
    if n < 10 {
        let s = decimal_digits(n);
        assert(s.drop_last() =~= Seq::<char>::empty());
        assert(decimal_value(s.drop_last()) == 0);
    } else {
        lemma_decimal_digits(n / 10);
        let s = decimal_digits(n);
        assert(s.drop_last() =~= decimal_digits(n / 10));
        assert(s.last() == digit_char((n % 10) as int));
    }
}

/// `s` without a sign in front.
pub open spec fn unsigned_part(s: Seq<char>) -> Seq<char> {
    if s.len() > 0 && (s[0] == '+' || s[0] == '-') {
        s.subrange(1, s.len() as int)
    } else {
        s
    }
}

/// `s` is an integer in base ten: an optional `+` or `-`, then one digit or more.
pub open spec fn is_integer_literal(s: Seq<char>) -> bool {
    unsigned_part(s).len() > 0 && all_digits(unsigned_part(s))
}

/// The integer that `s` denotes.
pub open spec fn integer_value(s: Seq<char>) -> int {
    if s.len() > 0 && s[0] == '-' {
        -(decimal_value(unsigned_part(s)) as int)
    } else {
        decimal_value(unsigned_part(s)) as int
    }
}

/// The integer that `s` denotes, where it is one from 0 to `max`.
pub open spec fn natural_upto(s: Seq<char>, max: int) -> Option<int> {
    if is_integer_literal(s) && 0 <= integer_value(s) <= max {
        Some(integer_value(s))
    } else {
        None
    }
}

/// Reads an integer from 0 to `max`, written in base ten with an optional sign.
pub fn read_natural_upto(s: &str, max: u32) -> (r: Option<u32>)
    ensures
        match r {
            Some(v) => natural_upto(s@, max as int) == Some(v as int),
            None => natural_upto(s@, max as int) is None,
        },
{
    let chars = chars_of(s);
    let n: usize = chars.len();
    if n == 0 {
        return None;
    }
    let signed: bool = chars[0] == '+' || chars[0] == '-';
    let negative: bool = chars[0] == '-';
    let first: usize = if signed { 1 } else { 0 };
    if first == n {
        return None;
    }
    let ghost body = unsigned_part(s@);
    let mut value: u64 = 0;
    let mut too_big: bool = false;
    let mut k: usize = first;
    assert(body.take(0) =~= Seq::<char>::empty());
    while k < n
        invariant
            first <= k <= n,
            n == chars@.len(),
            chars@ == s@,
            body == unsigned_part(s@),
            body == s@.subrange(first as int, n as int),
            all_digits(body.take(k - first)),
            !too_big ==> value == decimal_value(body.take(k - first)) && value <= max,
            too_big ==> decimal_value(body.take(k - first)) > max,
        decreases n - k,
    {
        let c: char = chars[k];
        let ghost here = body.take(k - first);
        let ghost next = body.take(k + 1 - first);
        assert(next.drop_last() =~= here);
        assert(next.last() == c);
        if c < '0' || c > '9' {
            assert(!is_digit(body[k - first]));
            return None;
        }
        assert(all_digits(next)) by {
            assert forall|i: int| 0 <= i < next.len() implies is_digit(#[trigger] next[i]) by {
                if i < here.len() {
                    assert(next[i] == here[i]);
                }
            }
        }
        if !too_big {
            let d: u64 = (c as u32 - '0' as u32) as u64;
            let v: u64 = value * 10 + d;
            if v > max as u64 {
                too_big = true;
            } else {
                value = v;
            }
        }
        k += 1;
    }
    assert(body.take(n - first) =~= body);
    if too_big {
        None
    } else if negative {
        if value == 0 {
            Some(0)
        } else {
            None
        }
    } else {
        Some(value as u32)
    }
}

/// ASCII letters in lower case, other characters unchanged.
pub open spec fn ascii_lower(c: char) -> char {
    if 'A' <= c && c <= 'Z' {
        (c as int + 32) as char
    } else {
        c
    }
}

/// `a` and `b` are the same but for the case of ASCII letters.
pub open spec fn same_ignoring_case(a: Seq<char>, b: Seq<char>) -> bool {
    a.len() == b.len() && forall|i: int|
        0 <= i < a.len() ==> ascii_lower(#[trigger] a[i]) == ascii_lower(b[i])
}

/// One character in lower case, where it is an ASCII letter.
pub fn to_ascii_lower(c: char) -> (r: char)
    ensures
        r == ascii_lower(c),
{
    if 'A' <= c && c <= 'Z' {
        ((c as u8) + 32) as char
    } else {
        c
    }
}

/// Are `a` and `b` the same but for the case of ASCII letters?
pub fn eq_ignoring_case(a: &str, b: &str) -> (r: bool)
    ensures
        r == same_ignoring_case(a@, b@),
{
    let x = chars_of(a);
    let y = chars_of(b);
    if x.len() != y.len() {
        return false;
    }
    let mut i: usize = 0;
    while i < x.len()
        invariant
            i <= x.len(),
            x.len() == y.len(),
            x@ == a@,
            y@ == b@,
            forall|j: int| 0 <= j < i ==> ascii_lower(#[trigger] a@[j]) == ascii_lower(b@[j]),
        decreases x.len() - i,
    {
        if to_ascii_lower(x[i]) != to_ascii_lower(y[i]) {
            return false;
        }
        i += 1;
    }
    true
}


/// Writes `n` in base ten, without leading zeros.
pub fn decimal_string(n: u32) -> (r: String)
    ensures
        r@ == decimal_digits(n as nat),
    decreases n,
{
    let d: u8 = (n % 10) as u8;
    let c: char = (48u8 + d) as char;
    if n < 10 {
        let mut r = String::new();
        r.push(c);
        assert(r@ =~= seq![digit_char(n as int)]);
        r
    } else {
        let mut r = decimal_string(n / 10);
        r.push(c);
        r
    }
}


} // verus!
