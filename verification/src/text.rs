//! Character-level text helpers: the string model that every other module
//! states its contracts over (a string is viewed as a `Seq<char>`).
use vstd::prelude::*;
use vstd::string::*;

verus! {

/// Unicode `White_Space` property, as used by `str::trim` and
/// `str::split_whitespace`.
pub open spec fn is_ws(c: char) -> bool {
    ||| c == '\t'
    ||| c == '\n'
    ||| c == '\u{0B}'
    ||| c == '\u{0C}'
    ||| c == '\r'
    ||| c == ' '
    ||| c == '\u{85}'
    ||| c == '\u{A0}'
    ||| c == '\u{1680}'
    ||| ('\u{2000}' <= c && c <= '\u{200A}')
    ||| c == '\u{2028}'
    ||| c == '\u{2029}'
    ||| c == '\u{202F}'
    ||| c == '\u{205F}'
    ||| c == '\u{3000}'
}

pub fn char_is_ws(c: char) -> (b: bool)
    ensures
        b == is_ws(c),
{
    c == '\t' || c == '\n' || c == '\u{0B}' || c == '\u{0C}' || c == '\r' || c == ' ' || c
        == '\u{85}' || c == '\u{A0}' || c == '\u{1680}' || ('\u{2000}' <= c && c <= '\u{200A}')
        || c == '\u{2028}' || c == '\u{2029}' || c == '\u{202F}' || c == '\u{205F}' || c
        == '\u{3000}'
}

/// The characters of a string slice.
pub fn chars_of(s: &str) -> (v: Vec<char>)
    ensures
        v@ == s@,
{
    let n = s.unicode_len();
    let mut v: Vec<char> = Vec::new();
    for i in 0..n
        invariant
            n == s@.len(),
            v@ == s@.take(i as int),
    {
        let c = s.get_char(i);
        v.push(c);
        assert(v@ =~= s@.take(i + 1));
    }
    assert(v@ =~= s@);
    v
}

/// Builds a `String` holding exactly the given characters, in order.
/// Trusted: calls std's `FromIterator<&char> for String` (`Iterator::collect`);
/// the contract claims the collected string has the characters of the slice.
#[verifier::external_body]
pub fn string_from_chars(chars: &[char]) -> (s: String)
    ensures
        s@ == chars@,
{
    chars.iter().collect()
}

} // verus!

verus! {

/// The characters of each line, as values.
pub open spec fn views(v: Seq<Vec<char>>) -> Seq<Seq<char>> {
    v.map_values(|l: Vec<char>| l@)
}

pub open spec fn starts_with(s: Seq<char>, p: Seq<char>) -> bool {
    p.len() <= s.len() && s.subrange(0, p.len() as int) == p
}

pub open spec fn ends_with(s: Seq<char>, p: Seq<char>) -> bool {
    p.len() <= s.len() && s.subrange(s.len() - p.len(), s.len() as int) == p
}

pub open spec fn occurs_at(s: Seq<char>, p: Seq<char>, i: int) -> bool {
    0 <= i && i + p.len() <= s.len() && s.subrange(i, i + p.len()) == p
}

pub open spec fn contains(s: Seq<char>, p: Seq<char>) -> bool {
    exists|i: int| occurs_at(s, p, i)
}

/// Index of the first occurrence of `p` in `s`, as `str::find` returns it
/// (counted in characters).
pub open spec fn find(s: Seq<char>, p: Seq<char>) -> Option<int> {
    if contains(s, p) {
        Some(
            choose|i: int|
                occurs_at(s, p, i) && forall|j: int| 0 <= j < i ==> !#[trigger] occurs_at(s, p, j),
        )
    } else {
        None
    }
}

pub fn copy_range(s: &[char], a: usize, b: usize) -> (v: Vec<char>)
    requires
        a <= b <= s@.len(),
    ensures
        v@ == s@.subrange(a as int, b as int),
{
    let mut v: Vec<char> = Vec::new();
    let mut i: usize = a;
    while i < b
        invariant
            a <= i <= b <= s@.len(),
            v@ == s@.subrange(a as int, i as int),
        decreases b - i,
    {
        v.push(s[i]);
        i += 1;
        assert(v@ =~= s@.subrange(a as int, i as int));
    }
    v
}

pub fn same_chars(a: &[char], b: &[char]) -> (r: bool)
    ensures
        r == (a@ == b@),
{
    if a.len() != b.len() {
        return false;
    }
    let mut i: usize = 0;
    while i < a.len()
        invariant
            a@.len() == b@.len(),
            i <= a@.len(),
            forall|j: int| 0 <= j < i ==> a@[j] == b@[j],
        decreases a.len() - i,
    {
        if a[i] != b[i] {
            return false;
        }
        i += 1;
    }
    assert(a@ =~= b@);
    true
}

pub fn match_at(s: &[char], p: &[char], i: usize) -> (r: bool)
    ensures
        r == occurs_at(s@, p@, i as int),
{
    if i > s.len() || p.len() > s.len() - i {
        return false;
    }
    let mut k: usize = 0;
    while k < p.len()
        invariant
            k <= p@.len(),
            i + p@.len() <= s.len(),
            forall|j: int| 0 <= j < k ==> s@[i + j] == p@[j],
        decreases p.len() - k,
    {
        if s[i + k] != p[k] {
            assert(s@.subrange(i as int, i + p@.len())[k as int] != p@[k as int]);
            return false;
        }
        k += 1;
    }
    assert(s@.subrange(i as int, i + p@.len()) =~= p@);
    true
}

pub fn has_prefix(s: &[char], p: &[char]) -> (r: bool)
    ensures
        r == starts_with(s@, p@),
{
    match_at(s, p, 0)
}

proof fn lemma_find_first(s: Seq<char>, p: Seq<char>, i: int)
    requires
        occurs_at(s, p, i),
        forall|j: int| 0 <= j < i ==> !#[trigger] occurs_at(s, p, j),
    ensures
        find(s, p) == Some(i),
{
    assert(contains(s, p));
    let c = choose|k: int|
        occurs_at(s, p, k) && forall|j: int| 0 <= j < k ==> !#[trigger] occurs_at(s, p, j);
    if c < i {
        assert(!occurs_at(s, p, c));
    }
    if c > i {
        assert(!occurs_at(s, p, i));
    }
}

pub fn find_in(s: &[char], p: &[char]) -> (r: Option<usize>)
    ensures
        r matches Some(i) ==> find(s@, p@) == Some(i as int) && occurs_at(s@, p@, i as int) && (
        forall|j: int| 0 <= j < i ==> !#[trigger] occurs_at(s@, p@, j)),
        r is None ==> find(s@, p@) is None && !contains(s@, p@),
{
    let n = s.len();
    let mut i: usize = 0;
    while i < n
        invariant
            i <= n,
            n == s@.len(),
            forall|j: int| 0 <= j < i ==> !#[trigger] occurs_at(s@, p@, j),
        decreases n - i,
    {
        if match_at(s, p, i) {
            proof {
                lemma_find_first(s@, p@, i as int);
            }
            return Some(i);
        }
        i += 1;
    }
    if match_at(s, p, n) {
        proof {
            lemma_find_first(s@, p@, n as int);
        }
        return Some(n);
    }
    assert forall|j: int| !occurs_at(s@, p@, j) by {
        if 0 <= j < n {
        }
    }
    None
}

pub fn has_infix(s: &[char], p: &[char]) -> (r: bool)
    ensures
        r == contains(s@, p@),
{
    match find_in(s, p) {
        Some(i) => {
            assert(occurs_at(s@, p@, i as int));
            true
        },
        None => false,
    }
}

pub fn has_char(s: &[char], c: char) -> (r: bool)
    ensures
        r == s@.contains(c),
{
    let mut i: usize = 0;
    while i < s.len()
        invariant
            i <= s@.len(),
            forall|j: int| 0 <= j < i ==> s@[j] != c,
        decreases s.len() - i,
    {
        if s[i] == c {
            assert(s@[i as int] == c);
            return true;
        }
        i += 1;
    }
    false
}

} // verus!

verus! {

pub open spec fn trim_start(s: Seq<char>) -> Seq<char>
    decreases s.len(),
{
    if s.len() > 0 && is_ws(s[0]) {
        trim_start(s.drop_first())
    } else {
        s
    }
}

pub open spec fn trim_end(s: Seq<char>) -> Seq<char>
    decreases s.len(),
{
    if s.len() > 0 && is_ws(s.last()) {
        trim_end(s.drop_last())
    } else {
        s
    }
}

/// `str::trim`: leading and trailing whitespace removed.
pub open spec fn trim(s: Seq<char>) -> Seq<char> {
    trim_end(trim_start(s))
}

pub fn trim_chars(s: &[char]) -> (t: Vec<char>)
    ensures
        t@ == trim(s@),
{
    let n = s.len();
    let mut a: usize = 0;
    assert(s@.subrange(0, n as int) =~= s@);
    while a < n && char_is_ws(s[a])
        invariant
            a <= n,
            n == s@.len(),
            trim_start(s@) == trim_start(s@.subrange(a as int, n as int)),
        decreases n - a,
    {
        assert(s@.subrange(a as int, n as int).drop_first() =~= s@.subrange(a + 1, n as int));
        a += 1;
    }
    assert(trim_start(s@.subrange(a as int, n as int)) == s@.subrange(a as int, n as int));
    let mut b: usize = n;
    while b > a && char_is_ws(s[b - 1])
        invariant
            a <= b <= n,
            n == s@.len(),
            trim(s@) == trim_end(s@.subrange(a as int, b as int)),
        decreases b - a,
    {
        assert(s@.subrange(a as int, b as int).drop_last() =~= s@.subrange(a as int, b - 1));
        b -= 1;
    }
    copy_range(s, a, b)
}

/// `str::split('\n')`: the pieces between newline characters.
pub open spec fn split_nl(s: Seq<char>) -> Seq<Seq<char>>
    decreases s.len(),
{
    if s.len() == 0 {
        seq![Seq::empty()]
    } else {
        let p = split_nl(s.drop_last());
        if s.last() == '\n' {
            p.push(Seq::empty())
        } else {
            p.update(p.len() - 1, p.last().push(s.last()))
        }
    }
}

pub open spec fn strip_cr(l: Seq<char>) -> Seq<char> {
    if l.len() > 0 && l.last() == '\r' {
        l.drop_last()
    } else {
        l
    }
}

/// `str::lines`: lines ended by `\n` (a `\r` before it is dropped); a last
/// line without `\n` is kept as it is, an empty one is not produced.
pub open spec fn lines(s: Seq<char>) -> Seq<Seq<char>> {
    let p = split_nl(s);
    let init = p.drop_last().map_values(|l: Seq<char>| strip_cr(l));
    if p.last().len() > 0 {
        init.push(p.last())
    } else {
        init
    }
}

pub fn lines_of(s: &[char]) -> (ls: Vec<Vec<char>>)
    ensures
        views(ls@) == lines(s@),
{
    let n = s.len();
    let mut out: Vec<Vec<char>> = Vec::new();
    let mut cur: Vec<char> = Vec::new();
    for i in 0..n
        invariant
            n == s@.len(),
            split_nl(s@.take(i as int)).len() == out@.len() + 1,
            split_nl(s@.take(i as int)).drop_last().map_values(|l: Seq<char>| strip_cr(l)) == views(
                out@,
            ),
            split_nl(s@.take(i as int)).last() == cur@,
    {
        let ghost p = split_nl(s@.take(i as int));
        let c = s[i];
        assert(s@.take(i + 1).drop_last() =~= s@.take(i as int));
        if c == '\n' {
            let mut line = cur;
            if line.len() > 0 && line[line.len() - 1] == '\r' {
                line.pop();
            }
            assert(line@ == strip_cr(p.last()));
            out.push(line);
            cur = Vec::new();
            assert(split_nl(s@.take(i + 1)) == p.push(Seq::empty()));
            assert(p.push(Seq::empty()).drop_last() =~= p);
            assert(p.drop_last().push(p.last()) =~= p);
            assert(p.map_values(|l: Seq<char>| strip_cr(l)) =~= p.drop_last().map_values(
                |l: Seq<char>| strip_cr(l),
            ).push(strip_cr(p.last())));
            assert(views(out@) =~= split_nl(s@.take(i + 1)).drop_last().map_values(
                |l: Seq<char>| strip_cr(l),
            ));
        } else {
            cur.push(c);
            let ghost q = p.update(p.len() - 1, p.last().push(c));
            assert(split_nl(s@.take(i + 1)) == q);
            assert(q.drop_last() =~= p.drop_last());
        }
    }
    assert(s@.take(n as int) =~= s@);
    let ghost p = split_nl(s@);
    if cur.len() > 0 {
        out.push(cur);
        assert(views(out@) =~= lines(s@));
    } else {
        assert(views(out@) =~= lines(s@));
    }
    out
}

/// `str::split_whitespace`: the maximal runs of non-whitespace characters.
pub open spec fn words(s: Seq<char>) -> Seq<Seq<char>>
    decreases s.len(),
{
    if s.len() == 0 {
        Seq::empty()
    } else {
        let w = words(s.drop_last());
        let c = s.last();
        if is_ws(c) {
            w
        } else if s.len() >= 2 && !is_ws(s[s.len() - 2]) {
            w.update(w.len() - 1, w.last().push(c))
        } else {
            w.push(seq![c])
        }
    }
}

pub fn words_of(s: &[char]) -> (ws: Vec<Vec<char>>)
    ensures
        views(ws@) == words(s@),
{
    let n = s.len();
    let mut out: Vec<Vec<char>> = Vec::new();
    let mut cur: Vec<char> = Vec::new();
    for i in 0..n
        invariant
            n == s@.len(),
            cur@.len() > 0 ==> words(s@.take(i as int)) == views(out@).push(cur@),
            cur@.len() == 0 ==> words(s@.take(i as int)) == views(out@),
            cur@.len() > 0 <==> (i > 0 && !is_ws(s@[i - 1])),
    {
        let c = s[i];
        let ghost w = words(s@.take(i as int));
        assert(s@.take(i + 1).drop_last() =~= s@.take(i as int));
        assert(s@.take(i + 1).last() == c);
        if char_is_ws(c) {
            if cur.len() > 0 {
                out.push(cur);
                cur = Vec::new();
            }
            assert(views(out@) =~= words(s@.take(i + 1)));
        } else {
            if cur.len() > 0 {
                assert(s@.take(i + 1)[i - 1] == s@[i - 1]);
                cur.push(c);
                assert(views(out@).push(cur@) =~= w.update(w.len() - 1, w.last().push(c)));
            } else {
                cur.push(c);
                assert(cur@ =~= seq![c]);
                assert(views(out@).push(cur@) =~= w.push(seq![c]));
            }
        }
    }
    assert(s@.take(n as int) =~= s@);
    if cur.len() > 0 {
        out.push(cur);
    }
    assert(views(out@) =~= words(s@));
    out
}

} // verus!

verus! {

pub fn push_all(out: &mut Vec<char>, s: &[char])
    ensures
        final(out)@ == old(out)@ + s@,
{
    let ghost start = out@;
    for i in 0..s.len()
        invariant
            out@ == start + s@.take(i as int),
    {
        out.push(s[i]);
        assert(s@.take(i + 1) =~= s@.take(i as int).push(s@[i as int]));
    }
    assert(s@.take(s@.len() as int) =~= s@);
}

/// Appends the characters of a string slice.
pub fn push_str(out: &mut Vec<char>, s: &str)
    ensures
        final(out)@ == old(out)@ + s@,
{
    let v = chars_of(s);
    push_all(out, v.as_slice());
}

pub open spec fn digit_char(d: int) -> char {
    if d == 0 {
        '0'
    } else if d == 1 {
        '1'
    } else if d == 2 {
        '2'
    } else if d == 3 {
        '3'
    } else if d == 4 {
        '4'
    } else if d == 5 {
        '5'
    } else if d == 6 {
        '6'
    } else if d == 7 {
        '7'
    } else if d == 8 {
        '8'
    } else {
        '9'
    }
}

/// Decimal rendering of a natural number, as `{}` prints an integer.
pub open spec fn dec(n: nat) -> Seq<char>
    decreases n,
{
    if n < 10 {
        seq![digit_char(n as int)]
    } else {
        dec(n / 10).push(digit_char((n % 10) as int))
    }
}

fn digit_of(d: u64) -> (c: char)
    requires
        d < 10,
    ensures
        c == digit_char(d as int),
{
    if d == 0 {
        '0'
    } else if d == 1 {
        '1'
    } else if d == 2 {
        '2'
    } else if d == 3 {
        '3'
    } else if d == 4 {
        '4'
    } else if d == 5 {
        '5'
    } else if d == 6 {
        '6'
    } else if d == 7 {
        '7'
    } else if d == 8 {
        '8'
    } else {
        '9'
    }
}

pub fn push_dec(out: &mut Vec<char>, n: u64)
    ensures
        final(out)@ == old(out)@ + dec(n as nat),
    decreases n,
{
    if n >= 10 {
        push_dec(out, n / 10);
    }
    let c = digit_of(n % 10);
    out.push(c);
    if n >= 10 {
        assert(final(out)@ =~= old(out)@ + dec(n as nat));
    } else {
        assert(final(out)@ =~= old(out)@ + dec(n as nat));
    }
}

pub open spec fn is_digit(c: char) -> bool {
    '0' <= c && c <= '9'
}

pub open spec fn digit_val(c: char) -> nat {
    (c as int - '0' as int) as nat
}

pub open spec fn all_digits(s: Seq<char>) -> bool {
    forall|i: int| 0 <= i < s.len() ==> is_digit(#[trigger] s[i])
}

/// Value of a run of decimal digits.
pub open spec fn digits_value(s: Seq<char>) -> nat
    decreases s.len(),
{
    if s.len() == 0 {
        0
    } else {
        digits_value(s.drop_last()) * 10 + digit_val(s.last())
    }
}

/// `str::parse::<u64>`: an optional `+`, then at least one decimal digit,
/// the value within range.
pub open spec fn parse_u64(s: Seq<char>) -> Option<u64> {
    let d = if s.len() > 0 && s[0] == '+' {
        s.drop_first()
    } else {
        s
    };
    if d.len() > 0 && all_digits(d) && digits_value(d) <= u64::MAX {
        Some(digits_value(d) as u64)
    } else {
        None
    }
}

/// `str::parse::<i64>`: an optional sign, then at least one decimal digit,
/// the value within range.
pub open spec fn parse_i64(s: Seq<char>) -> Option<i64> {
    if s.len() > 0 && s[0] == '-' {
        let d = s.drop_first();
        if d.len() > 0 && all_digits(d) && digits_value(d) <= 0x8000_0000_0000_0000 {
            Some((0 - digits_value(d)) as i64)
        } else {
            None
        }
    } else {
        let d = if s.len() > 0 && s[0] == '+' {
            s.drop_first()
        } else {
            s
        };
        if d.len() > 0 && all_digits(d) && digits_value(d) <= i64::MAX {
            Some(digits_value(d) as i64)
        } else {
            None
        }
    }
}

proof fn lemma_digits_value_prefix(s: Seq<char>, i: int)
    requires
        0 <= i <= s.len(),
    ensures
        digits_value(s.take(i)) <= digits_value(s),
    decreases s.len() - i,
{
    if i < s.len() {
        lemma_digits_value_prefix(s, i + 1);
        assert(s.take(i + 1).drop_last() =~= s.take(i));
    } else {
        assert(s.take(i) =~= s);
    }
}

/// Value of the digits `s[from..]` when they are all digits and the value
/// is at most `limit`.
fn digits_upto(s: &[char], from: usize, limit: u64) -> (r: Option<u64>)
    requires
        from <= s@.len(),
        limit >= 9,
    ensures
        ({
            let d = s@.subrange(from as int, s@.len() as int);
            &&& r matches Some(v) ==> d.len() > 0 && all_digits(d) && digits_value(d) == v
                && v <= limit
            &&& r is None ==> !(d.len() > 0 && all_digits(d) && digits_value(d) <= limit)
        }),
{
    let ghost d = s@.subrange(from as int, s@.len() as int);
    if from == s.len() {
        return None;
    }
    let mut v: u64 = 0;
    let mut i: usize = from;
    while i < s.len()
        invariant
            from <= i <= s@.len(),
            d == s@.subrange(from as int, s@.len() as int),
            all_digits(d.take(i - from)),
            v as nat == digits_value(d.take(i - from)),
            v <= limit,
            limit >= 9,
        decreases s.len() - i,
    {
        let c = s[i];
        assert(d.take(i + 1 - from).drop_last() =~= d.take(i - from));
        assert(d[i - from] == c);
        if !('0' <= c && c <= '9') {
            assert(!all_digits(d)) by {
                assert(!is_digit(d[i - from]));
            }
            return None;
        }
        let dv = (c as u32 - '0' as u32) as u64;
        assert(dv == digit_val(c));
        if v > (limit - dv) / 10 {
            proof {
                assert(digits_value(d.take(i + 1 - from)) > limit) by (nonlinear_arith)
                    requires
                        digits_value(d.take(i + 1 - from)) == v * 10 + dv,
                        v > (limit - dv) / 10,
                        dv <= 9,
                        limit >= 9,
                ;
                lemma_digits_value_prefix(d, i + 1 - from);
            }
            return None;
        }
        v = v * 10 + dv;
        i += 1;
    }
    assert(d.take(s@.len() - from) =~= d);
    Some(v)
}

pub fn parse_u64_chars(s: &[char]) -> (r: Option<u64>)
    ensures
        r == parse_u64(s@),
{
    let start: usize = if s.len() > 0 && s[0] == '+' {
        1
    } else {
        0
    };
    assert(s@.subrange(start as int, s@.len() as int) =~= (if s@.len() > 0 && s@[0] == '+' {
        s@.drop_first()
    } else {
        s@
    }));
    digits_upto(s, start, u64::MAX)
}

pub fn parse_i64_chars(s: &[char]) -> (r: Option<i64>)
    ensures
        r == parse_i64(s@),
{
    if s.len() > 0 && s[0] == '-' {
        assert(s@.subrange(1, s@.len() as int) =~= s@.drop_first());
        match digits_upto(s, 1, 0x8000_0000_0000_0000) {
            Some(v) => {
                if v == 0x8000_0000_0000_0000 {
                    Some(i64::MIN)
                } else {
                    Some(0 - (v as i64))
                }
            },
            None => None,
        }
    } else {
        let start: usize = if s.len() > 0 && s[0] == '+' {
            1
        } else {
            0
        };
        assert(s@.subrange(start as int, s@.len() as int) =~= (if s@.len() > 0 && s@[0] == '+' {
            s@.drop_first()
        } else {
            s@
        }));
        match digits_upto(s, start, i64::MAX as u64) {
            Some(v) => Some(v as i64),
            None => None,
        }
    }
}

pub open spec fn ascii_lower(c: char) -> char {
    if 'A' <= c && c <= 'Z' {
        ((c as int) + 32) as char
    } else {
        c
    }
}

/// `str::to_ascii_lowercase`.
pub open spec fn lower(s: Seq<char>) -> Seq<char> {
    s.map_values(|c: char| ascii_lower(c))
}

pub fn lower_chars(s: &[char]) -> (r: Vec<char>)
    ensures
        r@ == lower(s@),
{
    let mut r: Vec<char> = Vec::new();
    for i in 0..s.len()
        invariant
            r@ == lower(s@.take(i as int)),
    {
        let c = s[i];
        let l = if 'A' <= c && c <= 'Z' {
            ((c as u8) + 32) as char
        } else {
            c
        };
        assert(l == ascii_lower(c));
        r.push(l);
        assert(lower(s@.take(i + 1)) =~= lower(s@.take(i as int)).push(ascii_lower(c)));
    }
    assert(s@.take(s@.len() as int) =~= s@);
    r
}

pub open spec fn spaces(n: nat) -> Seq<char> {
    Seq::new(n, |i: int| ' ')
}

/// `format!("{:<w$}", s)`: `s` padded with spaces up to `w` characters.
pub open spec fn pad_right(s: Seq<char>, w: nat) -> Seq<char> {
    if s.len() >= w {
        s
    } else {
        s + spaces((w - s.len()) as nat)
    }
}

pub fn push_padded(out: &mut Vec<char>, s: &[char], w: usize)
    ensures
        final(out)@ == old(out)@ + pad_right(s@, w as nat),
{
    push_all(out, s);
    let ghost mid = out@;
    let mut k: usize = s.len();
    while k < w
        invariant
            s@.len() <= k <= w || (k == s@.len() && k >= w),
            out@ == mid + spaces((k - s@.len()) as nat),
        decreases w - k,
    {
        out.push(' ');
        assert(spaces((k + 1 - s@.len()) as nat) =~= spaces((k - s@.len()) as nat).push(' '));
        k += 1;
    }
    if s.len() >= w {
        assert(spaces(0) =~= Seq::<char>::empty());
    }
    assert(final(out)@ =~= old(out)@ + pad_right(s@, w as nat));
}

/// `[..].join(sep)`.
pub open spec fn join(parts: Seq<Seq<char>>, sep: Seq<char>) -> Seq<char>
    decreases parts.len(),
{
    if parts.len() == 0 {
        Seq::empty()
    } else if parts.len() == 1 {
        parts[0]
    } else {
        join(parts.drop_last(), sep) + sep + parts.last()
    }
}

pub fn join_chars(parts: &Vec<Vec<char>>, sep: &[char]) -> (r: Vec<char>)
    ensures
        r@ == join(views(parts@), sep@),
{
    let mut r: Vec<char> = Vec::new();
    for i in 0..parts.len()
        invariant
            r@ == join(views(parts@).take(i as int), sep@),
    {
        assert(views(parts@).take(i + 1).drop_last() =~= views(parts@).take(i as int));
        if i > 0 {
            push_all(&mut r, sep);
        }
        push_all(&mut r, parts[i].as_slice());
        if i == 0 {
            assert(r@ =~= join(views(parts@).take(1), sep@));
        }
    }
    assert(views(parts@).take(parts@.len() as int) =~= views(parts@));
    r
}

} // verus!

verus! {

/// The character sequences of a list of strings.
pub open spec fn strs(v: Seq<String>) -> Seq<Seq<char>> {
    v.map_values(|s: String| s@)
}

pub proof fn lemma_strs_push(a: Seq<String>, x: String)
    ensures
        strs(a.push(x)) == strs(a).push(x@),
{
    assert(strs(a.push(x)) =~= strs(a).push(x@));
}

/// Whether two string slices hold the same characters.
pub fn str_eq(a: &str, b: &str) -> (r: bool)
    ensures
        r == (a@ == b@),
{
    let va = chars_of(a);
    let vb = chars_of(b);
    same_chars(va.as_slice(), vb.as_slice())
}

/// Whether the string starts with a `-` (a command-line flag).
pub open spec fn is_flag(s: Seq<char>) -> bool {
    s.len() > 0 && s[0] == '-'
}

pub fn str_is_flag(s: &str) -> (r: bool)
    ensures
        r == is_flag(s@),
{
    s.unicode_len() > 0 && s.get_char(0) == '-'
}

/// Appends copies of `v[from..]` to `out`.
pub fn push_strings_from(out: &mut Vec<String>, v: &[String], from: usize)
    requires
        from <= v@.len(),
    ensures
        strs(final(out)@) == strs(old(out)@) + strs(v@).subrange(from as int, v@.len() as int),
{
    let ghost start = strs(out@);
    let mut i: usize = from;
    while i < v.len()
        invariant
            from <= i <= v@.len(),
            strs(out@) == start + strs(v@).subrange(from as int, i as int),
        decreases v.len() - i,
    {
        let x = v[i].clone();
        assert(x@ == v@[i as int]@);
        proof {
            lemma_strs_push(out@, x);
        }
        out.push(x);
        assert(strs(out@) =~= start + strs(v@).subrange(from as int, i + 1));
        i += 1;
    }
}

/// A `String` holding the characters of a string slice.
pub fn owned(s: &str) -> (r: String)
    ensures
        r@ == s@,
{
    s.to_owned()
}

} // verus!

verus! {

/// Decimal rendering of an integer, with a leading `-` when negative.
pub open spec fn idec(i: int) -> Seq<char> {
    if i < 0 {
        seq!['-'] + dec((0 - i) as nat)
    } else {
        dec(i as nat)
    }
}

pub fn push_idec(out: &mut Vec<char>, i: i64)
    ensures
        final(out)@ == old(out)@ + idec(i as int),
{
    if i < 0 {
        let ghost start = out@;
        out.push('-');
        let m: u64 = (0i128 - (i as i128)) as u64;
        push_dec(out, m);
        assert(final(out)@ =~= start + idec(i as int));
    } else {
        push_dec(out, i as u64);
    }
}

/// `str::trim_end_matches(c)`: every trailing `c` removed.
pub open spec fn strip_trailing(s: Seq<char>, c: char) -> Seq<char>
    decreases s.len(),
{
    if s.len() > 0 && s.last() == c {
        strip_trailing(s.drop_last(), c)
    } else {
        s
    }
}

pub fn strip_trailing_chars(s: &[char], c: char) -> (r: Vec<char>)
    ensures
        r@ == strip_trailing(s@, c),
{
    let mut j: usize = s.len();
    assert(s@.take(j as int) =~= s@);
    while j > 0 && s[j - 1] == c
        invariant
            j <= s@.len(),
            strip_trailing(s@, c) == strip_trailing(s@.take(j as int), c),
        decreases j,
    {
        assert(s@.take(j as int).drop_last() =~= s@.take(j - 1));
        j -= 1;
    }
    copy_range(s, 0, j)
}

/// The part of `s` before the first `c` (all of `s` when there is none),
/// as `s.split(c).next()` gives it.
pub open spec fn before_char(s: Seq<char>, c: char) -> Seq<char> {
    match find(s, seq![c]) {
        Some(i) => s.take(i),
        None => s,
    }
}

pub fn before_char_chars(s: &[char], c: char) -> (r: Vec<char>)
    ensures
        r@ == before_char(s@, c),
{
    let p = vec![c];
    assert(p@ =~= seq![c]);
    match find_in(s, p.as_slice()) {
        Some(i) => copy_range(s, 0, i),
        None => copy_range(s, 0, s.len()),
    }
}

} // verus!

verus! {

/// Lexicographic order of character sequences (the order of `String`'s
/// `<`, since UTF-8 preserves the order of code points).
pub open spec fn lex_lt(a: Seq<char>, b: Seq<char>) -> bool
    decreases a.len(),
{
    if b.len() == 0 {
        false
    } else if a.len() == 0 {
        true
    } else if a[0] != b[0] {
        a[0] < b[0]
    } else {
        lex_lt(a.drop_first(), b.drop_first())
    }
}

pub proof fn lemma_lex_lt_transitive(a: Seq<char>, b: Seq<char>, c: Seq<char>)
    requires
        lex_lt(a, b),
        lex_lt(b, c),
    ensures
        lex_lt(a, c),
    decreases a.len(),
{
    if a.len() > 0 && a[0] == b[0] && b[0] == c[0] {
        lemma_lex_lt_transitive(a.drop_first(), b.drop_first(), c.drop_first());
    }
}

pub proof fn lemma_lex_lt_irreflexive(a: Seq<char>)
    ensures
        !lex_lt(a, a),
    decreases a.len(),
{
    if a.len() > 0 {
        lemma_lex_lt_irreflexive(a.drop_first());
    }
}

pub fn lex_less(a: &[char], b: &[char]) -> (r: bool)
    ensures
        r == lex_lt(a@, b@),
{
    let mut i: usize = 0;
    assert(a@.subrange(0, a@.len() as int) =~= a@);
    assert(b@.subrange(0, b@.len() as int) =~= b@);
    while i < a.len() && i < b.len() && a[i] == b[i]
        invariant
            i <= a@.len(),
            i <= b@.len(),
            lex_lt(a@, b@) == lex_lt(
                a@.subrange(i as int, a@.len() as int),
                b@.subrange(i as int, b@.len() as int),
            ),
        decreases a.len() - i,
    {
        assert(a@.subrange(i as int, a@.len() as int).drop_first() =~= a@.subrange(
            i + 1,
            a@.len() as int,
        ));
        assert(b@.subrange(i as int, b@.len() as int).drop_first() =~= b@.subrange(
            i + 1,
            b@.len() as int,
        ));
        i += 1;
    }
    if i == b.len() {
        false
    } else if i == a.len() {
        true
    } else {
        a[i] < b[i]
    }
}

} // verus!

verus! {

/// Bytes a character takes in UTF-8.
pub open spec fn utf8_width(c: char) -> nat {
    if (c as u32) < 0x80 {
        1
    } else if (c as u32) < 0x800 {
        2
    } else if (c as u32) < 0x10000 {
        3
    } else {
        4
    }
}

/// Length in bytes of the UTF-8 encoding (what `str::len` counts).
pub open spec fn utf8_len(s: Seq<char>) -> nat
    decreases s.len(),
{
    if s.len() == 0 {
        0
    } else {
        utf8_len(s.drop_last()) + utf8_width(s.last())
    }
}

pub fn utf8_width_exec(c: char) -> (w: usize)
    ensures
        w == utf8_width(c),
{
    if (c as u32) < 0x80 {
        1
    } else if (c as u32) < 0x800 {
        2
    } else if (c as u32) < 0x10000 {
        3
    } else {
        4
    }
}

pub fn utf8_len_exec(s: &[char]) -> (n: usize)
    requires
        s@.len() <= 0x1000_0000,
    ensures
        n == utf8_len(s@),
{
    let mut n: usize = 0;
    for i in 0..s.len()
        invariant
            s@.len() <= 0x1000_0000,
            n == utf8_len(s@.take(i as int)),
            n <= 4 * i,
    {
        let c = s[i];
        let w = utf8_width_exec(c);
        assert(s@.take(i + 1).drop_last() =~= s@.take(i as int));
        n = n + w;
    }
    assert(s@.take(s@.len() as int) =~= s@);
    n
}

pub proof fn lemma_utf8_len_ge(s: Seq<char>)
    ensures
        utf8_len(s) >= s.len(),
    decreases s.len(),
{
    if s.len() > 0 {
        lemma_utf8_len_ge(s.drop_last());
    }
}

} // verus!

verus! {

/// `str::trim_start_matches(c)`: every leading `c` removed.
pub open spec fn strip_leading(s: Seq<char>, c: char) -> Seq<char>
    decreases s.len(),
{
    if s.len() > 0 && s[0] == c {
        strip_leading(s.drop_first(), c)
    } else {
        s
    }
}

pub fn strip_leading_chars(s: &[char], c: char) -> (r: Vec<char>)
    ensures
        r@ == strip_leading(s@, c),
{
    let n = s.len();
    let mut j: usize = 0;
    assert(s@.subrange(0, n as int) =~= s@);
    while j < n && s[j] == c
        invariant
            j <= n,
            n == s@.len(),
            strip_leading(s@, c) == strip_leading(s@.subrange(j as int, n as int), c),
        decreases n - j,
    {
        assert(s@.subrange(j as int, n as int).drop_first() =~= s@.subrange(j + 1, n as int));
        j += 1;
    }
    copy_range(s, j, n)
}

/// `str::trim_matches(c)`: every leading and trailing `c` removed.
pub open spec fn trim_matches(s: Seq<char>, c: char) -> Seq<char> {
    strip_leading(strip_trailing(s, c), c)
}

pub fn trim_matches_chars(s: &[char], c: char) -> (r: Vec<char>)
    ensures
        r@ == trim_matches(s@, c),
{
    let t = strip_trailing_chars(s, c);
    strip_leading_chars(t.as_slice(), c)
}

/// The first line that starts with `prefix`, without the prefix.
pub open spec fn after_prefix_in(ls: Seq<Seq<char>>, prefix: Seq<char>) -> Option<Seq<char>>
    decreases ls.len(),
{
    if ls.len() == 0 {
        None
    } else if starts_with(ls[0], prefix) {
        Some(ls[0].subrange(prefix.len() as int, ls[0].len() as int))
    } else {
        after_prefix_in(ls.drop_first(), prefix)
    }
}

pub fn after_prefix_of(ls: &Vec<Vec<char>>, prefix: &str) -> (r: Option<Vec<char>>)
    ensures
        match after_prefix_in(views(ls@), prefix@) {
            Some(x) => r matches Some(v) && v@ == x,
            None => r is None,
        },
{
    let p = chars_of(prefix);
    let n = ls.len();
    let mut i: usize = 0;
    assert(views(ls@).subrange(0, n as int) =~= views(ls@));
    while i < n
        invariant
            i <= n,
            n == ls@.len(),
            p@ == prefix@,
            after_prefix_in(views(ls@), prefix@) == after_prefix_in(
                views(ls@).subrange(i as int, n as int),
                prefix@,
            ),
        decreases n - i,
    {
        let ghost rest = views(ls@).subrange(i as int, n as int);
        assert(rest[0] == ls@[i as int]@);
        assert(rest.drop_first() =~= views(ls@).subrange(i + 1, n as int));
        if has_prefix(ls[i].as_slice(), p.as_slice()) {
            return Some(copy_range(ls[i].as_slice(), p.len(), ls[i].len()));
        }
        i += 1;
    }
    None
}

} // verus!

verus! {

/// `str::split(c)`: the pieces between the separators (empty pieces kept;
/// an empty string gives one empty piece).
pub open spec fn split_on(s: Seq<char>, c: char) -> Seq<Seq<char>>
    decreases s.len(),
{
    if s.len() == 0 {
        seq![Seq::empty()]
    } else {
        let r = split_on(s.drop_last(), c);
        if s.last() == c {
            r.push(Seq::empty())
        } else {
            r.update(r.len() - 1, r.last().push(s.last()))
        }
    }
}

proof fn lemma_split_on_nonempty(s: Seq<char>, c: char)
    ensures
        split_on(s, c).len() >= 1,
    decreases s.len(),
{
    if s.len() > 0 {
        lemma_split_on_nonempty(s.drop_last(), c);
    }
}

pub fn split_on_chars(s: &[char], c: char) -> (r: Vec<Vec<char>>)
    ensures
        views(r@) == split_on(s@, c),
{
    let mut out: Vec<Vec<char>> = Vec::new();
    let mut cur: Vec<char> = Vec::new();
    assert(s@.take(0) =~= Seq::<char>::empty());
    for i in 0..s.len()
        invariant
            views(out@).push(cur@) == split_on(s@.take(i as int), c),
    {
        let ch = s[i];
        assert(s@.take(i + 1).drop_last() =~= s@.take(i as int));
        assert(s@.take(i + 1).last() == ch);
        proof {
            lemma_split_on_nonempty(s@.take(i as int), c);
        }
        if ch == c {
            let done = cur;
            out.push(done);
            cur = Vec::new();
            assert(views(out@).push(cur@) =~= split_on(s@.take(i + 1), c));
        } else {
            let ghost before = views(out@).push(cur@);
            cur.push(ch);
            assert(views(out@).push(cur@) =~= before.update(before.len() - 1, before.last().push(ch)));
        }
    }
    assert(s@.take(s@.len() as int) =~= s@);
    out.push(cur);
    out
}

} // verus!
