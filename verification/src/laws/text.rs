//! Text: what is trimmed, found, ordered and counted.

use crate::text::{
    agrees, chars_of, comes_before, contains, join, listed, lower, number, same, signed_number,
    starts_with, string_of, trim, trim_end, upper, white,
};
use vstd::prelude::*;

verus! {

/// White space is what Unicode says it is: tab to carriage return, the space,
/// the next line, the no-break space, and the wider and narrower spaces and the
/// separators of the general block.
pub proof fn white_space_is_unicodes_own(c: char, r: bool)
    requires
        call_ensures(white, (c,), r),
    ensures
        r <==> c == '\t' || c == '\n' || c == '\u{b}' || c == '\u{c}' || c == '\r' || c == ' ' || c
            == '\u{85}' || c == '\u{a0}' || c == '\u{1680}' || '\u{2000}' <= c <= '\u{200a}' || c
            == '\u{2028}' || c == '\u{2029}' || c == '\u{202f}' || c == '\u{205f}' || c
            == '\u{3000}',
        r == crate::text::is_white(c),
{
}

proof fn lemma_start(s: Seq<char>) -> (k: int)
    ensures
        0 <= k <= s.len(),
        crate::text::trimmed_start(s) == s.subrange(k, s.len() as int),
        crate::text::all_white(s.take(k)),
        k < s.len() ==> !crate::text::is_white(s[k]),
    decreases s.len(),
{
    if s.len() > 0 && crate::text::is_white(s[0]) {
        let rest = s.drop_first();
        let k = lemma_start(rest);
        assert(rest.subrange(k, rest.len() as int) =~= s.subrange(k + 1, s.len() as int));
        assert forall|i: int| 0 <= i < k + 1 implies crate::text::is_white(
            #[trigger] s.take(k + 1)[i],
        ) by {
            if i > 0 {
                assert(rest.take(k)[i - 1] == s[i]);
            }
        }
        k + 1
    } else {
        assert(s.subrange(0, s.len() as int) =~= s);
        0
    }
}

proof fn lemma_end(s: Seq<char>) -> (k: int)
    ensures
        0 <= k <= s.len(),
        crate::text::trimmed_end(s) == s.subrange(0, k),
        crate::text::all_white(s.skip(k)),
        k > 0 ==> !crate::text::is_white(s[k - 1]),
    decreases s.len(),
{
    if s.len() > 0 && crate::text::is_white(s.last()) {
        let rest = s.drop_last();
        let k = lemma_end(rest);
        assert(rest.subrange(0, k) =~= s.subrange(0, k));
        assert forall|i: int| 0 <= i < s.skip(k).len() implies crate::text::is_white(
            #[trigger] s.skip(k)[i],
        ) by {
            if k + i < rest.len() {
                assert(rest.skip(k)[i] == s[k + i]);
            }
        }
        k
    } else {
        assert(s.subrange(0, s.len() as int) =~= s);
        s.len() as int
    }
}

/// `s` is `front`, then `core`, then `back`, with white space in front and
/// behind and none at either end of the core.
pub open spec fn is_core(s: Seq<char>, front: Seq<char>, core: Seq<char>, back: Seq<char>) -> bool {
    &&& s == front + core + back
    &&& crate::text::all_white(front)
    &&& crate::text::all_white(back)
    &&& core.len() > 0 ==> !crate::text::is_white(core[0]) && !crate::text::is_white(core.last())
}

/// What trimming gives is the text without the white space around it, and
/// nothing of what is inside is touched.
pub proof fn trimming_takes_the_space_around(s: &str, r: String)
    requires
        call_ensures(trim, (s,), r),
    ensures
        r@ == crate::text::trimmed(s@),
        exists|front: Seq<char>, back: Seq<char>| #[trigger] is_core(s@, front, r@, back),
{
    lemma_trimmed_is_core(s@);
}

pub(crate) proof fn lemma_trimmed_is_core(s: Seq<char>)
    ensures
        exists|front: Seq<char>, back: Seq<char>| #[trigger]
            is_core(s, front, crate::text::trimmed(s), back),
{
    let a = lemma_start(s);
    let mid = s.subrange(a, s.len() as int);
    let b = lemma_end(mid);
    let core = mid.subrange(0, b);
    assert(s =~= s.take(a) + core + mid.skip(b));
    if core.len() > 0 {
        assert(core[0] == s[a]);
        assert(core.last() == mid[b - 1]);
    }
    assert(core == crate::text::trimmed(s));
    assert(is_core(s, s.take(a), core, mid.skip(b)));
}

/// A text is trimmed away exactly when it is all white space.
pub proof fn only_blank_text_is_trimmed_away(s: Seq<char>)
    ensures
        crate::text::trimmed(s).len() == 0 <==> crate::text::all_white(s),
{
    let a = lemma_start(s);
    let mid = s.subrange(a, s.len() as int);
    let b = lemma_end(mid);
    if crate::text::trimmed(s).len() == 0 {
        if a < s.len() {
            assert(mid[0] == s[a]);
            assert(mid.skip(0)[0] == mid[0]);
        }
        assert(s.take(a) =~= s);
    }
    if crate::text::all_white(s) && a < s.len() {
        assert(crate::text::is_white(s[a]));
    }
}

/// Trimming the end leaves the front as it is.
pub proof fn trimming_the_end_leaves_the_front(s: &str, r: String)
    requires
        call_ensures(trim_end, (s,), r),
    ensures
        r@.is_prefix_of(s@),
        crate::text::all_white(s@.skip(r@.len() as int)),
        r@.len() > 0 ==> !crate::text::is_white(r@.last()),
{
    let k = lemma_end(s@);
    assert(r@.is_prefix_of(s@)) by {
        assert(s@.subrange(0, r@.len() as int) =~= r@);
    }
}

/// Splitting and joining lose nothing.
pub proof fn joining_puts_one_behind_the_other(a: &str, b: &str, r: String, cs: Vec<char>)
    requires
        call_ensures(join, (a, b), r),
        call_ensures(chars_of, (a,), cs),
    ensures
        r@ == a@ + b@,
        cs@ == a@,
{
}

/// A needle is found exactly when the hay is something, the needle, and
/// something more.
pub proof fn a_needle_is_found_wherever_it_stands(
    hay: &str,
    needle: &str,
    found: bool,
    led: bool,
    front: Seq<char>,
    back: Seq<char>,
)
    requires
        call_ensures(contains, (hay, needle), found),
        call_ensures(starts_with, (hay, needle), led),
    ensures
        hay@ == front + needle@ + back ==> found,
        found ==> exists|f: Seq<char>, b: Seq<char>| hay@ == #[trigger] (f + needle@ + b),
        hay@ == needle@ + back ==> led,
        led ==> exists|b: Seq<char>| hay@ == #[trigger] (needle@ + b),
{
    let n = needle@.len() as int;
    if hay@ == front + needle@ + back {
        let at = front.len() as int;
        assert(hay@.subrange(at, at + n) =~= needle@);
    }
    if found {
        let i = choose|i: int|
            0 <= i <= hay@.len() - n && #[trigger] hay@.subrange(i, i + n) == needle@;
        assert(hay@ =~= hay@.take(i) + needle@ + hay@.skip(i + n)) by {
            assert(hay@.subrange(i, i + n) == needle@);
            assert forall|k: int| i <= k < i + n implies hay@[k] == needle@[k - i] by {
                assert(hay@.subrange(i, i + n)[k - i] == hay@[k]);
            }
        }
    }
    if hay@ == needle@ + back {
        assert(hay@.subrange(0, n) =~= needle@);
    }
    if led {
        assert(hay@ =~= needle@ + hay@.skip(n));
    }
}

/// Equal is character for character; alike lets the case of ASCII letters differ
/// and nothing else; a list holds what stands in it somewhere.
pub proof fn texts_are_compared_character_by_character(
    a: &str,
    b: &str,
    equal: bool,
    alike: bool,
)
    requires
        call_ensures(same, (a, b), equal),
        call_ensures(agrees, (a, b), alike),
    ensures
        equal <==> a@ == b@,
        equal ==> alike,
        alike <==> a@.len() == b@.len() && forall|i: int|
            #![trigger a@[i]]
            0 <= i < a@.len() ==> a@[i] == b@[i] || ('A' <= a@[i] <= 'Z' && b@[i] as u32
                == a@[i] as u32 + 32) || ('a' <= a@[i] <= 'z' && a@[i] as u32 == b@[i] as u32 + 32),
{
    if alike {
        assert forall|i: int| #![trigger a@[i]] 0 <= i < a@.len() implies a@[i] == b@[i] || ('A'
            <= a@[i] <= 'Z' && b@[i] as u32 == a@[i] as u32 + 32) || ('a' <= a@[i] <= 'z'
            && a@[i] as u32 == b@[i] as u32 + 32) by {
            lemma_lower(a@[i], b@[i]);
        }
    }
    if a@.len() == b@.len() && forall|i: int|
        #![trigger a@[i]]
        0 <= i < a@.len() ==> a@[i] == b@[i] || ('A' <= a@[i] <= 'Z' && b@[i] as u32 == a@[i] as u32
            + 32) || ('a' <= a@[i] <= 'z' && a@[i] as u32 == b@[i] as u32 + 32) {
        assert forall|i: int| 0 <= i < a@.len() implies crate::text::ascii_lower(#[trigger] a@[i])
            == crate::text::ascii_lower(b@[i]) by {
            lemma_lower(a@[i], b@[i]);
        }
        assert(crate::text::alike(a@, b@));
    }
}

proof fn lemma_lower(x: char, y: char)
    ensures
        crate::text::ascii_lower(x) == crate::text::ascii_lower(y) <==> x == y || ('A' <= x <= 'Z'
            && y as u32 == x as u32 + 32) || ('a' <= x <= 'z' && x as u32 == y as u32 + 32),
{
    let up_x = 'A' <= x <= 'Z';
    let up_y = 'A' <= y <= 'Z';
    if up_x {
        assert(crate::text::ascii_lower(x) as u32 == x as u32 + 32);
    }
    if up_y {
        assert(crate::text::ascii_lower(y) as u32 == y as u32 + 32);
    }
}

/// A list holds what stands in it somewhere.
pub proof fn a_list_holds_what_is_in_it(list: Vec<String>, s: &str, r: bool, i: int)
    requires
        call_ensures(listed, (&list, s), r),
    ensures
        0 <= i < list@.len() && list@[i]@ == s@ ==> r,
        r ==> exists|j: int| 0 <= j < list@.len() && #[trigger] list@[j]@ == s@,
{
}

/// Texts are ordered by the first character in which they differ, and a text
/// comes before everything that goes on where it ends.
pub proof fn the_first_difference_decides(
    a: &str,
    b: &str,
    r: bool,
    shared: Seq<char>,
    x: char,
    y: char,
    p: Seq<char>,
    q: Seq<char>,
)
    requires
        call_ensures(comes_before, (a, b), r),
    ensures
        x != y && a@ == shared + seq![x] + p && b@ == shared + seq![y] + q ==> (r <==> x < y),
        a@ == shared && b@ == shared + seq![y] + q ==> r,
        b@ == shared && a@ == shared + seq![x] + p ==> !r,
        a@ == b@ ==> !r,
{
    if x != y && a@ == shared + seq![x] + p && b@ == shared + seq![y] + q {
        lemma_shared(shared, seq![x] + p, seq![y] + q);
        assert(a@ =~= shared + (seq![x] + p));
        assert(b@ =~= shared + (seq![y] + q));
    }
    if a@ == shared && b@ == shared + seq![y] + q {
        lemma_shared(shared, seq![], seq![y] + q);
        assert(a@ =~= shared + seq![]);
        assert(b@ =~= shared + (seq![y] + q));
    }
    if b@ == shared && a@ == shared + seq![x] + p {
        lemma_shared(shared, seq![x] + p, seq![]);
        assert(b@ =~= shared + seq![]);
        assert(a@ =~= shared + (seq![x] + p));
    }
    if a@ == b@ && r {
        crate::text::before_is_one_way(a@, b@);
    }
}

proof fn lemma_shared(shared: Seq<char>, a: Seq<char>, b: Seq<char>)
    ensures
        crate::text::before(shared + a, shared + b) == crate::text::before(a, b),
    decreases shared.len(),
{
    if shared.len() > 0 {
        lemma_shared(shared.drop_first(), a, b);
        assert((shared + a).drop_first() =~= shared.drop_first() + a);
        assert((shared + b).drop_first() =~= shared.drop_first() + b);
    } else {
        assert(shared + a =~= a);
        assert(shared + b =~= b);
    }
}

/// A number is written with the digits `0` to `9`, the tens in front of the
/// units and no zero in front of them, and a minus in front of what is negative.
pub proof fn numbers_are_written_in_decimal(
    n: u64,
    ten: u64,
    r: String,
    tens: String,
    negative: String,
)
    requires
        call_ensures(number, (n,), r),
        call_ensures(number, (ten,), tens),
        ten == n / 10,
        0 < n <= i64::MAX ==> call_ensures(signed_number, ((-(n as int)) as i64,), negative),
    ensures
        n == 0 ==> r@ == seq!['0'],
        n == 1 ==> r@ == seq!['1'],
        n == 2 ==> r@ == seq!['2'],
        n == 3 ==> r@ == seq!['3'],
        n == 4 ==> r@ == seq!['4'],
        n == 5 ==> r@ == seq!['5'],
        n == 6 ==> r@ == seq!['6'],
        n == 7 ==> r@ == seq!['7'],
        n == 8 ==> r@ == seq!['8'],
        n == 9 ==> r@ == seq!['9'],
        n >= 10 ==> r@ == tens@.push((0x30 + n % 10) as u8 as char),
        0 < n <= i64::MAX ==> negative@ == seq!['-'] + r@,
{
}

/// Case is changed for ASCII letters and for nothing else, and there and back
/// again is where it started.
pub proof fn case_is_for_letters(c: char, down: char, up: char, again: char)
    requires
        call_ensures(lower, (c,), down),
        call_ensures(upper, (c,), up),
        call_ensures(upper, (down,), again),
    ensures
        'A' <= c <= 'Z' ==> 'a' <= down <= 'z' && again == c && up == c,
        'a' <= c <= 'z' ==> 'A' <= up <= 'Z' && down == c,
        !('A' <= c <= 'Z') && !('a' <= c <= 'z') ==> down == c && up == c,
        'A' <= c <= 'Z' ==> down as u32 == c as u32 + 32,
        'a' <= c <= 'z' ==> up as u32 + 32 == c as u32,
{
}

/// A piece of a text is its characters from one place up to another.
pub proof fn a_piece_is_from_one_place_to_another(
    chars: Vec<char>,
    from: usize,
    to: usize,
    r: String,
    i: int,
)
    requires
        from <= to <= chars@.len(),
        call_ensures(string_of, (&chars, from, to), r),
    ensures
        r@.len() == to - from,
        0 <= i < to - from ==> r@[i] == chars@[from + i],
{
}

} // verus!
