//! Text as sequences of characters: what the rest of the crate says about
//! labels, names and typed numbers is said in these words.

use vstd::prelude::*;

verus! {

/// `String::push` puts one character behind those already there.
pub assume_specification[ String::push ](s: &mut String, c: char)
    ensures
        final(s)@ == old(s)@.push(c),
;

/// What `str::to_lowercase` returns: the text mapped by the Unicode lower-case
/// tables. The tables themselves are not restated.
pub uninterp spec fn lowercase(s: Seq<char>) -> Seq<char>;

/// `str::to_lowercase`, named by `lowercase`. An empty text stays empty; what it
/// makes of any other is otherwise unstated.
#[verifier::external_body]
pub(crate) fn to_lowercase(s: &str) -> (r: String)
    ensures
        r@ == lowercase(s@),
        s@.len() == 0 ==> r@.len() == 0,
{
    s.to_lowercase()
}

/// The characters of `s`, one by one.
pub fn chars_of(s: &str) -> (r: Vec<char>)
    ensures
        r@ == s@,
{
    let mut out: Vec<char> = Vec::new();
    for c in it: s.chars()
        invariant
            out@ == it.seq().take(it.index() as int),
            it.seq() == s@,
    {
        out.push(c);
    }
    out
}

/// The string that `from .. to` of `chars` spells.
pub fn string_of(chars: &Vec<char>, from: usize, to: usize) -> (r: String)
    requires
        from <= to <= chars@.len(),
    ensures
        r@ == chars@.subrange(from as int, to as int),
{
    let mut out = String::new();
    for i in from..to
        invariant
            from <= to <= chars@.len(),
            out@ == chars@.subrange(from as int, i as int),
    {
        out.push(chars[i]);
    }
    out
}

/// `a` followed by `b`.
pub fn join(a: &str, b: &str) -> (r: String)
    ensures
        r@ == a@ + b@,
{
    let mut out = a.to_owned();
    out.append(b);
    out
}

// ── Whitespace ─────────────────────────────────────────────────────────────
/// The characters Unicode calls white space.
pub open spec fn is_white(c: char) -> bool {
    let n = c as u32;
    ||| 0x9 <= n <= 0xD
    ||| n == 0x20
    ||| n == 0x85
    ||| n == 0xA0
    ||| n == 0x1680
    ||| 0x2000 <= n <= 0x200A
    ||| n == 0x2028
    ||| n == 0x2029
    ||| n == 0x202F
    ||| n == 0x205F
    ||| n == 0x3000
}

pub fn white(c: char) -> (r: bool)
    ensures
        r == is_white(c),
{
    let n: u32 = c as u32;
    (0x9 <= n && n <= 0xD) || n == 0x20 || n == 0x85 || n == 0xA0 || n == 0x1680 || (0x2000 <= n
        && n <= 0x200A) || n == 0x2028 || n == 0x2029 || n == 0x202F || n == 0x205F || n == 0x3000
}

/// `s` without the white space in front of it.
pub open spec fn trimmed_start(s: Seq<char>) -> Seq<char>
    decreases s.len(),
{
    if s.len() > 0 && is_white(s[0]) {
        trimmed_start(s.drop_first())
    } else {
        s
    }
}

/// `s` without the white space behind it.
pub open spec fn trimmed_end(s: Seq<char>) -> Seq<char>
    decreases s.len(),
{
    if s.len() > 0 && is_white(s.last()) {
        trimmed_end(s.drop_last())
    } else {
        s
    }
}

/// `s` without the white space around it.
pub open spec fn trimmed(s: Seq<char>) -> Seq<char> {
    trimmed_end(trimmed_start(s))
}

proof fn lemma_trimmed_start_at(s: Seq<char>, k: int)
    requires
        0 <= k <= s.len(),
        forall|i: int| 0 <= i < k ==> is_white(#[trigger] s[i]),
        k < s.len() ==> !is_white(s[k]),
    ensures
        trimmed_start(s) == s.subrange(k, s.len() as int),
    decreases k,
{
    if k > 0 {
        let t = s.drop_first();
        assert forall|i: int| 0 <= i < k - 1 implies is_white(#[trigger] t[i]) by {
            assert(t[i] == s[i + 1]);
        }
        lemma_trimmed_start_at(t, k - 1);
        assert(t.subrange(k - 1, t.len() as int) =~= s.subrange(k, s.len() as int));
    } else {
        assert(s.subrange(0, s.len() as int) =~= s);
    }
}

proof fn lemma_trimmed_end_at(s: Seq<char>, k: int)
    requires
        0 <= k <= s.len(),
        forall|i: int| k <= i < s.len() ==> is_white(#[trigger] s[i]),
        k > 0 ==> !is_white(s[k - 1]),
    ensures
        trimmed_end(s) == s.subrange(0, k),
    decreases s.len() - k,
{
    if k < s.len() {
        let t = s.drop_last();
        assert forall|i: int| k <= i < t.len() implies is_white(#[trigger] t[i]) by {
            assert(t[i] == s[i]);
        }
        lemma_trimmed_end_at(t, k);
        assert(t.subrange(0, k) =~= s.subrange(0, k));
    } else {
        assert(s.subrange(0, k) =~= s);
    }
}

proof fn lemma_trimmed_start_prefix(s: Seq<char>)
    ensures
        trimmed_start(s).len() > 0 ==> !is_white(trimmed_start(s)[0]),
    decreases s.len(),
{
    if s.len() > 0 && is_white(s[0]) {
        lemma_trimmed_start_prefix(s.drop_first());
    }
}

proof fn lemma_trimmed_end_prefix(s: Seq<char>)
    ensures
        trimmed_end(s).len() <= s.len(),
        trimmed_end(s) == s.take(trimmed_end(s).len() as int),
        trimmed_end(s).len() > 0 ==> !is_white(trimmed_end(s).last()),
    decreases s.len(),
{
    if s.len() > 0 && is_white(s.last()) {
        lemma_trimmed_end_prefix(s.drop_last());
        let n = trimmed_end(s).len() as int;
        assert(s.drop_last().take(n) =~= s.take(n));
    } else {
        assert(s.take(s.len() as int) =~= s);
    }
}

/// A trimmed text has no white space at either end, so trimming it again
/// changes nothing.
pub proof fn trimming_leaves_no_space_around(s: Seq<char>)
    ensures
        trimmed(s).len() > 0 ==> !is_white(trimmed(s)[0]) && !is_white(trimmed(s).last()),
        trimmed(trimmed(s)) == trimmed(s),
{
    lemma_trimmed_start_prefix(s);
    lemma_trimmed_end_prefix(trimmed_start(s));
}

proof fn lemma_trimmed_start_last(s: Seq<char>)
    requires
        s.len() > 0,
        !is_white(s.last()),
    ensures
        trimmed_start(s).len() > 0,
        trimmed_start(s).last() == s.last(),
    decreases s.len(),
{
    if is_white(s[0]) {
        lemma_trimmed_start_last(s.drop_first());
    }
}

/// A text that ends in a character that is not white space is never trimmed
/// away.
pub proof fn trimming_keeps_what_is_there(s: Seq<char>)
    requires
        s.len() > 0,
        !is_white(s.last()),
    ensures
        trimmed(s).len() > 0,
{
    lemma_trimmed_start_last(s);
}

/// Nothing but white space.
pub open spec fn all_white(s: Seq<char>) -> bool {
    forall|i: int| 0 <= i < s.len() ==> is_white(#[trigger] s[i])
}

proof fn lemma_trimmed_start_push(s: Seq<char>, w: char)
    requires
        is_white(w),
    ensures
        trimmed_start(s.push(w)) == (if trimmed_start(s).len() == 0 {
            seq![]
        } else {
            trimmed_start(s).push(w)
        }),
    decreases s.len(),
{
    if s.len() == 0 {
        reveal_with_fuel(trimmed_start, 2);
        assert(s.push(w).drop_first() =~= seq![]);
    } else if is_white(s[0]) {
        assert(s.push(w).drop_first() =~= s.drop_first().push(w));
        lemma_trimmed_start_push(s.drop_first(), w);
    }
}

proof fn lemma_trimmed_push(s: Seq<char>, w: char)
    requires
        is_white(w),
    ensures
        trimmed(s.push(w)) == trimmed(s),
{
    lemma_trimmed_start_push(s, w);
    let t = trimmed_start(s);
    if t.len() == 0 {
        assert(t =~= seq![]);
    } else {
        assert(t.push(w).drop_last() =~= t);
    }
}

/// White space around a text makes no difference once it is trimmed.
pub proof fn space_around_is_trimmed_away(front: Seq<char>, s: Seq<char>, back: Seq<char>)
    requires
        all_white(front),
        all_white(back),
    ensures
        trimmed(front + s + back) == trimmed(s),
    decreases front.len() + back.len(),
{
    let whole = front + s + back;
    if back.len() > 0 {
        space_around_is_trimmed_away(front, s, back.drop_last());
        lemma_trimmed_push(front + s + back.drop_last(), back.last());
        assert(whole =~= (front + s + back.drop_last()).push(back.last()));
    } else if front.len() > 0 {
        space_around_is_trimmed_away(front.drop_first(), s, back);
        assert(whole[0] == front[0]);
        assert(whole.drop_first() =~= front.drop_first() + s + back);
    } else {
        assert(whole =~= s);
    }
}

/// The text without the white space around it, as `str::trim` gives it.
pub fn trim(s: &str) -> (r: String)
    ensures
        r@ == trimmed(s@),
{
    let cs = chars_of(s);
    let mut from: usize = 0;
    while from < cs.len() && white(cs[from])
        invariant
            from <= cs@.len(),
            forall|i: int| 0 <= i < from ==> is_white(#[trigger] cs@[i]),
        decreases cs@.len() - from,
    {
        from = from + 1;
    }
    proof {
        lemma_trimmed_start_at(cs@, from as int);
    }
    let mut to: usize = cs.len();
    while to > from && white(cs[to - 1])
        invariant
            from <= to <= cs@.len(),
            forall|i: int| to <= i < cs@.len() ==> is_white(#[trigger] cs@[i]),
        decreases to,
    {
        to = to - 1;
    }
    proof {
        let mid = cs@.subrange(from as int, cs@.len() as int);
        assert forall|i: int| to - from <= i < mid.len() implies is_white(#[trigger] mid[i]) by {
            assert(mid[i] == cs@[i + from]);
        }
        lemma_trimmed_end_at(mid, to - from);
        assert(mid.subrange(0, to - from) =~= cs@.subrange(from as int, to as int));
    }
    string_of(&cs, from, to)
}

/// The text without the white space behind it, as `str::trim_end` gives it.
pub fn trim_end(s: &str) -> (r: String)
    ensures
        r@ == trimmed_end(s@),
{
    let cs = chars_of(s);
    let mut to: usize = cs.len();
    while to > 0 && white(cs[to - 1])
        invariant
            to <= cs@.len(),
            forall|i: int| to <= i < cs@.len() ==> is_white(#[trigger] cs@[i]),
        decreases to,
    {
        to = to - 1;
    }
    proof {
        lemma_trimmed_end_at(cs@, to as int);
    }
    string_of(&cs, 0, to)
}

// ── Searching and comparing ────────────────────────────────────────────────
/// `needle` stands somewhere in `hay`, unbroken.
pub open spec fn holds(hay: Seq<char>, needle: Seq<char>) -> bool {
    exists|i: int|
        0 <= i <= hay.len() - needle.len() && #[trigger] hay.subrange(i, i + needle.len()) == needle
}

/// `needle` stands in `hay` at `at`.
fn holds_at(hay: &Vec<char>, needle: &Vec<char>, at: usize) -> (r: bool)
    requires
        at + needle@.len() <= hay@.len(),
    ensures
        r == (hay@.subrange(at as int, at + needle@.len()) == needle@),
{
    let n: usize = needle.len();
    let end: usize = hay.len();
    for k in 0..n
        invariant
            n == needle@.len(),
            end == hay@.len(),
            at + n <= end,
            forall|i: int| 0 <= i < k ==> hay@[at + i] == #[trigger] needle@[i],
    {
        if hay[at + k] != needle[k] {
            proof {
                assert(hay@.subrange(at as int, at + needle@.len())[k as int] != needle@[k as int]);
            }
            return false;
        }
    }
    assert(hay@.subrange(at as int, at + needle@.len()) =~= needle@);
    true
}

/// Whether `needle` stands somewhere in `hay`, as `str::contains` asks it.
pub fn contains(hay: &str, needle: &str) -> (r: bool)
    ensures
        r == holds(hay@, needle@),
{
    let h = chars_of(hay);
    let n = chars_of(needle);
    if n.len() > h.len() {
        return false;
    }
    let last: usize = h.len() - n.len();
    let mut at: usize = 0;
    while at <= last
        invariant
            h@ == hay@,
            n@ == needle@,
            last == h@.len() - n@.len(),
            at <= last + 1,
            forall|i: int|
                0 <= i < at ==> #[trigger] hay@.subrange(i, i + needle@.len()) != needle@,
        decreases last + 1 - at,
    {
        if holds_at(&h, &n, at) {
            return true;
        }
        if at == last {
            return false;
        }
        at = at + 1;
    }
    false
}

/// Whether `s` begins with `prefix`.
pub fn starts_with(s: &str, prefix: &str) -> (r: bool)
    ensures
        r == prefix@.is_prefix_of(s@),
{
    let h = chars_of(s);
    let n = chars_of(prefix);
    if n.len() > h.len() {
        return false;
    }
    holds_at(&h, &n, 0)
}

/// One of `list` is `s`.
pub open spec fn stands_in(list: Seq<String>, s: Seq<char>) -> bool {
    exists|i: int| 0 <= i < list.len() && #[trigger] list[i]@ == s
}

/// Whether `s` is one of `list`.
pub fn listed(list: &Vec<String>, s: &str) -> (r: bool)
    ensures
        r == stands_in(list@, s@),
{
    for i in 0..list.len()
        invariant
            forall|j: int| 0 <= j < i ==> #[trigger] list@[j]@ != s@,
    {
        if same(list[i].as_str(), s) {
            return true;
        }
    }
    false
}

/// `a` comes before `b`, character by character; a prefix comes first.
pub open spec fn before(a: Seq<char>, b: Seq<char>) -> bool
    decreases a.len(),
{
    if b.len() == 0 {
        false
    } else if a.len() == 0 {
        true
    } else if a[0] != b[0] {
        a[0] < b[0]
    } else {
        before(a.drop_first(), b.drop_first())
    }
}

/// Nothing comes before what comes before it.
pub proof fn before_is_one_way(a: Seq<char>, b: Seq<char>)
    requires
        before(a, b),
    ensures
        !before(b, a),
    decreases a.len(),
{
    if a.len() > 0 && a[0] == b[0] {
        before_is_one_way(a.drop_first(), b.drop_first());
    }
}

/// Two texts of which neither comes first are the same.
pub proof fn before_tells_texts_apart(a: Seq<char>, b: Seq<char>)
    requires
        !before(a, b),
        !before(b, a),
    ensures
        a == b,
    decreases a.len(),
{
    if a.len() > 0 && b.len() > 0 {
        before_tells_texts_apart(a.drop_first(), b.drop_first());
        assert(a =~= seq![a[0]] + a.drop_first());
        assert(b =~= seq![b[0]] + b.drop_first());
    } else {
        assert(a =~= b);
    }
}

/// What comes before something comes before everything behind that.
pub proof fn before_carries_on(a: Seq<char>, b: Seq<char>, c: Seq<char>)
    requires
        before(a, b),
        before(b, c),
    ensures
        before(a, c),
    decreases a.len(),
{
    if a.len() > 0 && a[0] == b[0] && b[0] == c[0] {
        before_carries_on(a.drop_first(), b.drop_first(), c.drop_first());
    }
}

/// Whether `a` comes before `b`, as `<` on strings asks it.
pub fn comes_before(a: &str, b: &str) -> (r: bool)
    ensures
        r == before(a@, b@),
{
    let x = chars_of(a);
    let y = chars_of(b);
    let mut k: usize = 0;
    assert(x@.subrange(0, x@.len() as int) =~= x@);
    assert(y@.subrange(0, y@.len() as int) =~= y@);
    while k < x.len() && k < y.len()
        invariant
            x@ == a@,
            y@ == b@,
            k <= x@.len(),
            k <= y@.len(),
            before(x@, y@) == before(
                x@.subrange(k as int, x@.len() as int),
                y@.subrange(k as int, y@.len() as int),
            ),
        decreases x@.len() - k,
    {
        let ghost xs = x@.subrange(k as int, x@.len() as int);
        let ghost ys = y@.subrange(k as int, y@.len() as int);
        if x[k] != y[k] {
            return x[k] < y[k];
        }
        assert(xs.drop_first() =~= x@.subrange(k + 1, x@.len() as int));
        assert(ys.drop_first() =~= y@.subrange(k + 1, y@.len() as int));
        k = k + 1;
    }
    k < y.len()
}

/// Two letters are the same but for ASCII case.
pub open spec fn ascii_lower(c: char) -> char {
    if 'A' <= c <= 'Z' {
        (c as u32 + 32) as char
    } else {
        c
    }
}

pub open spec fn ascii_upper(c: char) -> char {
    if 'a' <= c <= 'z' {
        (c as u32 - 32) as char
    } else {
        c
    }
}

/// `a` and `b` are the same text but for the case of ASCII letters.
pub open spec fn alike(a: Seq<char>, b: Seq<char>) -> bool {
    &&& a.len() == b.len()
    &&& forall|i: int| 0 <= i < a.len() ==> ascii_lower(#[trigger] a[i]) == ascii_lower(b[i])
}

pub fn lower(c: char) -> (r: char)
    ensures
        r == ascii_lower(c),
{
    if 'A' <= c && c <= 'Z' {
        let b: u8 = c as u8;
        (b + 32) as char
    } else {
        c
    }
}

pub fn upper(c: char) -> (r: char)
    ensures
        r == ascii_upper(c),
{
    if 'a' <= c && c <= 'z' {
        let b: u8 = c as u8;
        (b - 32) as char
    } else {
        c
    }
}

/// Whether two texts are the same, as `==` on strings asks it.
pub fn same(a: &str, b: &str) -> (r: bool)
    ensures
        r == (a@ == b@),
{
    let x = chars_of(a);
    let y = chars_of(b);
    if x.len() != y.len() {
        return false;
    }
    for i in 0..x.len()
        invariant
            x@ == a@,
            y@ == b@,
            x@.len() == y@.len(),
            forall|j: int| 0 <= j < i ==> #[trigger] x@[j] == y@[j],
    {
        if x[i] != y[i] {
            return false;
        }
    }
    assert(x@ =~= y@);
    true
}

/// Whether two texts agree but for ASCII case, as `eq_ignore_ascii_case` asks it.
pub fn agrees(a: &str, b: &str) -> (r: bool)
    ensures
        r == alike(a@, b@),
{
    let x = chars_of(a);
    let y = chars_of(b);
    if x.len() != y.len() {
        return false;
    }
    for i in 0..x.len()
        invariant
            x@ == a@,
            y@ == b@,
            x@.len() == y@.len(),
            forall|j: int| 0 <= j < i ==> ascii_lower(#[trigger] a@[j]) == ascii_lower(b@[j]),
    {
        if lower(x[i]) != lower(y[i]) {
            assert(ascii_lower(a@[i as int]) != ascii_lower(b@[i as int]));
            return false;
        }
    }
    true
}

// ── Numbers ────────────────────────────────────────────────────────────────
/// The decimal digit `d`.
pub open spec fn digit(d: int) -> char
    recommends
        0 <= d < 10,
{
    (0x30 + d) as char
}

/// `n` written in decimal.
pub open spec fn decimal(n: nat) -> Seq<char>
    decreases n,
{
    if n < 10 {
        seq![digit(n as int)]
    } else {
        decimal(n / 10).push(digit((n % 10) as int))
    }
}

/// `n` written in decimal, with its sign when it is negative.
pub open spec fn signed_decimal(n: int) -> Seq<char> {
    if n < 0 {
        seq!['-'] + decimal((-n) as nat)
    } else {
        decimal(n as nat)
    }
}

/// `n` in decimal.
pub fn number(n: u64) -> (r: String)
    ensures
        r@ == decimal(n as nat),
    decreases n,
{
    let mut out = if n < 10 {
        String::new()
    } else {
        number(n / 10)
    };
    let d: u8 = (n % 10) as u8;
    out.push((0x30u8 + d) as char);
    out
}

/// `n` in decimal, with its sign when it is negative.
pub fn signed_number(n: i64) -> (r: String)
    requires
        n > i64::MIN,
    ensures
        r@ == signed_decimal(n as int),
{
    if n < 0 {
        proof {
            reveal_strlit("-");
            assert("-"@ =~= seq!['-']);
        }
        join("-", number((-n) as u64).as_str())
    } else {
        number(n as u64)
    }
}

/// `c` is a decimal digit.
pub open spec fn is_digit(c: char) -> bool {
    '0' <= c <= '9'
}

/// Every character is a decimal digit.
pub open spec fn all_digits(s: Seq<char>) -> bool {
    forall|i: int| 0 <= i < s.len() ==> is_digit(#[trigger] s[i])
}

/// The number that a run of digits spells.
pub open spec fn value_of(s: Seq<char>) -> nat
    decreases s.len(),
{
    if s.len() == 0 {
        0
    } else {
        (value_of(s.drop_last()) * 10 + (s.last() as u32 - 0x30)) as nat
    }
}

/// A number written in decimal is read back from its digits.
pub proof fn digits_read_back(n: nat)
    ensures
        decimal(n).len() > 0,
        all_digits(decimal(n)),
        value_of(decimal(n)) == n,
    decreases n,
{
    let s = decimal(n);
    if n < 10 {
        reveal_with_fuel(value_of, 2);
        assert(s.drop_last() =~= seq![]);
    } else {
        digits_read_back(n / 10);
        assert(s.drop_last() =~= decimal(n / 10));
    }
}

} // verus!
