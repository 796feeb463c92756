//! Strings as sequences of characters: trimming, searching, joining and
//! decimal numbers.
use vstd::prelude::*;
use vstd::string::*;

verus! {

/// Unicode's `White_Space` property.
pub open spec fn is_white_space(c: char) -> bool {
    ||| '\u{9}' <= c <= '\u{d}'
    ||| c == ' '
    ||| c == '\u{85}'
    ||| c == '\u{a0}'
    ||| c == '\u{1680}'
    ||| '\u{2000}' <= c <= '\u{200a}'
    ||| c == '\u{2028}'
    ||| c == '\u{2029}'
    ||| c == '\u{202f}'
    ||| c == '\u{205f}'
    ||| c == '\u{3000}'
}

/// `s` without the white space at its front.
pub open spec fn trimmed_start(s: Seq<char>) -> Seq<char>
    decreases s.len(),
{
    if s.len() > 0 && is_white_space(s[0]) {
        trimmed_start(s.drop_first())
    } else {
        s
    }
}

/// `s` without the white space at its back.
pub open spec fn trimmed_end(s: Seq<char>) -> Seq<char>
    decreases s.len(),
{
    if s.len() > 0 && is_white_space(s.last()) {
        trimmed_end(s.drop_last())
    } else {
        s
    }
}

/// `s` without the white space at either end.
pub open spec fn trimmed(s: Seq<char>) -> Seq<char> {
    trimmed_end(trimmed_start(s))
}

/// `s` neither begins nor ends with white space.
pub open spec fn is_trimmed(s: Seq<char>) -> bool {
    s.len() > 0 ==> !is_white_space(s[0]) && !is_white_space(s.last())
}

proof fn lemma_trimmed_start(s: Seq<char>)
    ensures
        trimmed_start(s).len() > 0 ==> !is_white_space(trimmed_start(s)[0]),
        trimmed_start(s) == s.skip(s.len() - trimmed_start(s).len()),
        trimmed_start(s).len() <= s.len(),
        forall|i: int|
            0 <= i < s.len() - trimmed_start(s).len() ==> is_white_space(#[trigger] s[i]),
    decreases s.len(),
{
    if s.len() > 0 && is_white_space(s[0]) {
        let rest = s.drop_first();
        lemma_trimmed_start(rest);
        let cut = rest.len() - trimmed_start(rest).len();
        assert(rest.skip(cut) =~= s.skip(cut + 1));
        assert forall|i: int| 0 <= i < cut + 1 implies is_white_space(#[trigger] s[i]) by {
            if i > 0 {
                assert(s[i] == rest[i - 1]);
            }
        }
    } else {
        assert(s.skip(0) =~= s);
    }
}

proof fn lemma_trimmed_end(s: Seq<char>)
    ensures
        trimmed_end(s).len() > 0 ==> !is_white_space(trimmed_end(s).last()),
        trimmed_end(s) == s.take(trimmed_end(s).len() as int),
        trimmed_end(s).len() <= s.len(),
        forall|i: int| trimmed_end(s).len() <= i < s.len() ==> is_white_space(#[trigger] s[i]),
    decreases s.len(),
{
    if s.len() > 0 && is_white_space(s.last()) {
        let rest = s.drop_last();
        lemma_trimmed_end(rest);
        assert(rest.take(trimmed_end(rest).len() as int) =~= s.take(
            trimmed_end(rest).len() as int,
        ));
        assert forall|i: int| trimmed_end(rest).len() <= i < s.len() implies is_white_space(
            #[trigger] s[i],
        ) by {
            if i < rest.len() {
                assert(s[i] == rest[i]);
            }
        }
    } else {
        assert(s.take(s.len() as int) =~= s);
    }
}

/// Trimming leaves no white space at either end, cuts only white space, and
/// cuts only from the ends.
pub proof fn law_trimmed(s: Seq<char>)
    ensures
        is_trimmed(trimmed(s)),
        exists|from: int, to: int|
            0 <= from <= to <= s.len() && #[trigger] s.subrange(from, to) == trimmed(s) && (forall|
                i: int,
            |
                0 <= i < from || to <= i < s.len() ==> is_white_space(#[trigger] s[i])),
{
    let front = trimmed_start(s);
    lemma_trimmed_start(s);
    lemma_trimmed_end(front);
    let from = s.len() - front.len();
    let to = from + trimmed(s).len();
    assert(s.subrange(from, to) =~= trimmed(s));
    assert forall|i: int| 0 <= i < from || to <= i < s.len() implies is_white_space(
        #[trigger] s[i],
    ) by {
        if to <= i {
            assert(s[i] == front[i - from]);
        }
    }
}

/// A string without white space at its ends is left as it is by trimming, so
/// trimming twice is trimming once.
pub proof fn law_trimmed_is_fixed(s: Seq<char>)
    ensures
        is_trimmed(s) ==> trimmed(s) == s,
        trimmed(trimmed(s)) == trimmed(s),
{
    law_trimmed(s);
}

/// `str::trim`: leading and trailing white space, as Unicode defines it, is
/// removed and nothing else is.
pub assume_specification[ str::trim ](s: &str) -> (r: &str)
    ensures
        r@ == trimmed(s@),
;

/// `str::trim_end`: trailing white space, as Unicode defines it, is removed
/// and nothing else is.
pub assume_specification[ str::trim_end ](s: &str) -> (r: &str)
    ensures
        r@ == trimmed_end(s@),
;

/// `String::push`: the character is appended.
pub assume_specification[ String::push ](s: &mut String, c: char)
    ensures
        final(s)@ == old(s)@.push(c),
;

/// The characters of `s` as a vector.
pub(crate) fn chars_of(s: &str) -> (r: Vec<char>)
    ensures
        r@ == s@,
{
    let mut r: Vec<char> = Vec::new();
    for c in it: s.chars()
        invariant
            r@ == s@.take(it.index()),
            it.seq() == s@,
    {
        proof {
            assert(s@.take(it.index() + 1) =~= s@.take(it.index()).push(c));
        }
        r.push(c);
    }
    proof {
        assert(s@.take(s@.len() as int) =~= s@);
    }
    r
}

/// `part` stands somewhere in `s`.
pub open spec fn has_part(s: Seq<char>, part: Seq<char>) -> bool {
    exists|i: int|
        0 <= i <= s.len() - part.len() && #[trigger] s.subrange(i, i + part.len()) == part
}

/// `s` ends in `part`.
pub open spec fn has_suffix(s: Seq<char>, part: Seq<char>) -> bool {
    s.len() >= part.len() && s.subrange(s.len() - part.len(), s.len() as int) == part
}

/// Tells whether `part` stands at position `at` of `s`.
fn stands_at(s: &Vec<char>, at: usize, part: &Vec<char>) -> (r: bool)
    requires
        at + part@.len() <= s@.len(),
    ensures
        r == (s@.subrange(at as int, at + part@.len()) == part@),
{
    let mut i: usize = 0;
    while i < part.len()
        invariant
            i <= part@.len(),
            at + part@.len() <= s.len(),
            forall|j: int| 0 <= j < i ==> s@[at + j] == part@[j],
        decreases part@.len() - i,
    {
        if s[at + i] != part[i] {
            proof {
                assert(s@.subrange(at as int, at + part@.len())[i as int] != part@[i as int]);
            }
            return false;
        }
        i = i + 1;
    }
    proof {
        assert(s@.subrange(at as int, at + part@.len()) =~= part@);
    }
    true
}

/// Tells whether `part` stands somewhere in `s`.
pub fn contains(s: &str, part: &str) -> (r: bool)
    ensures
        r == has_part(s@, part@),
{
    let chars: Vec<char> = chars_of(s);
    let wanted: Vec<char> = chars_of(part);
    if wanted.len() > chars.len() {
        return false;
    }
    let count: usize = chars.len() - wanted.len();
    let mut i: usize = 0;
    while i < count
        invariant
            chars@ == s@,
            wanted@ == part@,
            i <= count,
            count + part@.len() == s@.len(),
            forall|j: int| 0 <= j < i ==> #[trigger] s@.subrange(j, j + part@.len()) != part@,
        decreases count - i,
    {
        if stands_at(&chars, i, &wanted) {
            return true;
        }
        i = i + 1;
    }
    stands_at(&chars, count, &wanted)
}

/// Tells whether `s` ends in `part`.
pub fn ends_with(s: &str, part: &str) -> (r: bool)
    ensures
        r == has_suffix(s@, part@),
{
    let s: Vec<char> = chars_of(s);
    let part: Vec<char> = chars_of(part);
    part.len() <= s.len() && stands_at(&s, s.len() - part.len(), &part)
}

/// Tells whether two strings hold the same characters.
pub fn same(a: &str, b: &str) -> (r: bool)
    ensures
        r == (a@ == b@),
{
    let a: Vec<char> = chars_of(a);
    let b: Vec<char> = chars_of(b);
    proof {
        assert(a@.subrange(0, a@.len() as int) =~= a@);
    }
    a.len() == b.len() && stands_at(&a, 0, &b)
}

/// `s` without its spaces (U+0020).
pub open spec fn despaced(s: Seq<char>) -> Seq<char> {
    s.filter(|c: char| c != ' ')
}

/// No space is left.
pub proof fn lemma_despaced(s: Seq<char>)
    ensures
        !despaced(s).contains(' '),
    decreases s.len(),
{
    reveal(Seq::filter);
    if s.len() > 0 {
        lemma_despaced(s.drop_last());
        assert(forall|i: int|
            0 <= i < despaced(s.drop_last()).len() ==> despaced(s.drop_last())[i] != ' ');
    }
}

/// Removes every space (U+0020).
pub fn without_spaces(s: &str) -> (r: String)
    ensures
        r@ == despaced(s@),
{
    let chars: Vec<char> = chars_of(s);
    let mut r: String = String::new();
    let mut i: usize = 0;
    while i < chars.len()
        invariant
            i <= chars@.len(),
            r@ == despaced(chars@.take(i as int)),
        decreases chars@.len() - i,
    {
        proof {
            reveal(Seq::filter);
            assert(chars@.take(i + 1).drop_last() =~= chars@.take(i as int));
        }
        if chars[i] != ' ' {
            r.push(chars[i]);
        }
        i = i + 1;
    }
    proof {
        assert(chars@.take(chars@.len() as int) =~= chars@);
    }
    r
}

/// The decimal digit for `d`.
pub open spec fn digit(d: int) -> char {
    if d == 0 {
        '0'
    } else if d == 1 {
        '1'
    } else if d == 2 {
        '2'
    } else if d == 3 {
        '3'
    } else if d == 4 {
        '4'
    } else if d == 5 {
        '5'
    } else if d == 6 {
        '6'
    } else if d == 7 {
        '7'
    } else if d == 8 {
        '8'
    } else {
        '9'
    }
}

/// `n` in decimal, without leading zeros.
pub open spec fn decimal(n: int) -> Seq<char>
    decreases n,
{
    if n < 10 {
        seq![digit(n)]
    } else {
        decimal(n / 10).push(digit(n % 10))
    }
}

/// `n` in decimal, with a minus sign if it is negative.
pub open spec fn signed_decimal(n: int) -> Seq<char> {
    if n < 0 {
        seq!['-'] + decimal(-n)
    } else {
        decimal(n)
    }
}

fn digit_char(d: u64) -> (r: char)
    requires
        d < 10,
    ensures
        r == digit(d as int),
{
    match d {
        0 => '0',
        1 => '1',
        2 => '2',
        3 => '3',
        4 => '4',
        5 => '5',
        6 => '6',
        7 => '7',
        8 => '8',
        _ => '9',
    }
}

/// Writes `n` in decimal.
pub fn decimal_text(n: u64) -> (r: String)
    ensures
        r@ == decimal(n as int),
    decreases n,
{
    let mut r: String = if n < 10 {
        String::new()
    } else {
        decimal_text(n / 10)
    };
    r.push(digit_char(n % 10));
    proof {
        assert(n < 10 ==> r@ =~= seq![digit(n as int)]);
    }
    r
}

/// Writes `n` in decimal, with a minus sign if it is negative.
pub fn signed_decimal_text(n: i32) -> (r: String)
    ensures
        r@ == signed_decimal(n as int),
{
    if n < 0 {
        let mut r: String = "-".to_string();
        proof {
            reveal_strlit("-");
            assert("-"@ =~= seq!['-']);
        }
        r.append(decimal_text((-(n as i64)) as u64).as_str());
        r
    } else {
        decimal_text(n as u64)
    }
}

/// What the strings of a vector hold.
pub open spec fn views(v: Seq<String>) -> Seq<Seq<char>> {
    v.map_values(|s: String| s@)
}

/// `parts` one after the other, with `sep` between neighbours.
pub open spec fn joined(parts: Seq<Seq<char>>, sep: Seq<char>) -> Seq<char>
    decreases parts.len(),
{
    if parts.len() == 0 {
        Seq::empty()
    } else if parts.len() == 1 {
        parts[0]
    } else {
        joined(parts.drop_last(), sep) + sep + parts.last()
    }
}

/// Joins `parts` with `sep` between neighbours.
pub fn join(parts: &Vec<String>, sep: &str) -> (r: String)
    ensures
        r@ == joined(views(parts@), sep@),
{
    let mut r: String = String::new();
    let mut i: usize = 0;
    while i < parts.len()
        invariant
            i <= parts@.len(),
            r@ == joined(views(parts@).take(i as int), sep@),
        decreases parts@.len() - i,
    {
        proof {
            assert(views(parts@).take(i + 1).drop_last() =~= views(parts@).take(i as int));
        }
        if i > 0 {
            r.append(sep);
        }
        r.append(parts[i].as_str());
        i = i + 1;
    }
    proof {
        assert(views(parts@).take(parts@.len() as int) =~= views(parts@));
    }
    r
}

/// What `String::from_utf8_lossy` makes of `bytes`.
pub uninterp spec fn lossy_utf8(bytes: Seq<u8>) -> Seq<char>;

/// `String::from_utf8_lossy`: valid UTF-8 is decoded as it stands. What the
/// replacement of invalid sequences yields is named and not spelled out.
#[verifier::external_body]
pub(crate) fn decode_lossy(bytes: &[u8]) -> (r: String)
    ensures
        r@ == lossy_utf8(bytes@),
        vstd::utf8::valid_utf8(bytes@) ==> r@ == vstd::utf8::decode_utf8(bytes@),
{
    String::from_utf8_lossy(bytes).into_owned()
}

/// The characters that count as white space, by their numbers.
pub proof fn law_white_space(c: char)
    ensures
        is_white_space(c) <==> (9 <= c as u32 <= 13 || c as u32 == 32 || c as u32 == 0x85 || c as u32
            == 0xa0 || c as u32 == 0x1680 || 0x2000 <= c as u32 <= 0x200a || c as u32 == 0x2028
            || c as u32 == 0x2029 || c as u32 == 0x202f || c as u32 == 0x205f || c as u32 == 0x3000),
{
}

proof fn lemma_trimmed_start_of(front: Seq<char>, rest: Seq<char>)
    requires
        forall|i: int| 0 <= i < front.len() ==> is_white_space(#[trigger] front[i]),
    ensures
        trimmed_start(front + rest) == trimmed_start(rest),
    decreases front.len(),
{
    if front.len() > 0 {
        assert((front + rest)[0] == front[0]);
        assert((front + rest).drop_first() =~= front.drop_first() + rest);
        lemma_trimmed_start_of(front.drop_first(), rest);
    } else {
        assert(front + rest =~= rest);
    }
}

proof fn lemma_trimmed_end_of(rest: Seq<char>, back: Seq<char>)
    requires
        forall|i: int| 0 <= i < back.len() ==> is_white_space(#[trigger] back[i]),
    ensures
        trimmed_end(rest + back) == trimmed_end(rest),
    decreases back.len(),
{
    if back.len() > 0 {
        assert((rest + back).last() == back.last());
        assert((rest + back).drop_last() =~= rest + back.drop_last());
        lemma_trimmed_end_of(rest, back.drop_last());
    } else {
        assert(rest + back =~= rest);
    }
}

/// What trimming leaves is what stands between the white space: neither more
/// nor less, whatever it is.
pub proof fn law_trimmed_between(front: Seq<char>, middle: Seq<char>, back: Seq<char>)
    requires
        forall|i: int| 0 <= i < front.len() ==> is_white_space(#[trigger] front[i]),
        forall|i: int| 0 <= i < back.len() ==> is_white_space(#[trigger] back[i]),
        middle.len() > 0 ==> !is_white_space(middle[0]) && !is_white_space(middle.last()),
    ensures
        trimmed(front + middle + back) == middle,
{
    assert(front + middle + back =~= front + (middle + back));
    lemma_trimmed_start_of(front, middle + back);
    if middle.len() > 0 {
        assert((middle + back)[0] == middle[0]);
        lemma_trimmed_end_of(middle, back);
    } else {
        assert(middle + back =~= back + middle);
        lemma_trimmed_start_of(back, middle);
        assert(middle =~= Seq::<char>::empty());
    }
}

/// What trimming at the back leaves is what stands before the white space.
pub proof fn law_trimmed_before(middle: Seq<char>, back: Seq<char>)
    requires
        forall|i: int| 0 <= i < back.len() ==> is_white_space(#[trigger] back[i]),
        middle.len() > 0 ==> !is_white_space(middle.last()),
    ensures
        trimmed_end(middle + back) == middle,
{
    lemma_trimmed_end_of(middle, back);
}

/// A part is found exactly where the string is something, the part and
/// something else.
pub proof fn law_contains(s: &str, part: &str, r: bool)
    requires
        call_ensures(contains, (s, part), r),
    ensures
        r <==> exists|a: Seq<char>, b: Seq<char>| s@ == #[trigger] (a + part@ + b),
{
    if r {
        let i = choose|i: int|
            0 <= i <= s@.len() - part@.len() && #[trigger] s@.subrange(i, i + part@.len()) == part@;
        let a = s@.take(i);
        let b = s@.skip(i + part@.len());
        assert(a + s@.subrange(i, i + part@.len()) + b =~= s@);
        assert(s@ == a + part@ + b);
    }
    if exists|a: Seq<char>, b: Seq<char>| s@ == #[trigger] (a + part@ + b) {
        let (a, b) = choose|a: Seq<char>, b: Seq<char>| s@ == #[trigger] (a + part@ + b);
        let i = a.len() as int;
        assert(s@.subrange(i, i + part@.len()) =~= part@);
    }
}

/// A string ends in a part exactly if it is something and the part.
pub proof fn law_ends_with(s: &str, part: &str, r: bool)
    requires
        call_ensures(ends_with, (s, part), r),
    ensures
        r <==> exists|a: Seq<char>| s@ == #[trigger] (a + part@),
{
    if r {
        let a = s@.take(s@.len() - part@.len());
        assert(a + s@.subrange(s@.len() - part@.len(), s@.len() as int) =~= s@);
        assert(s@ == a + part@);
    }
    if exists|a: Seq<char>| s@ == #[trigger] (a + part@) {
        let a = choose|a: Seq<char>| s@ == #[trigger] (a + part@);
        assert(s@.subrange(s@.len() - part@.len(), s@.len() as int) =~= part@);
    }
}

/// Two strings are told to be the same exactly if they are as long as each
/// other and hold the same character at each position.
pub proof fn law_same(a: &str, b: &str, r: bool)
    requires
        call_ensures(same, (a, b), r),
    ensures
        r <==> a@.len() == b@.len() && (forall|i: int| 0 <= i < a@.len() ==> a@[i] == b@[i]),
{
    if a@.len() == b@.len() && (forall|i: int| 0 <= i < a@.len() ==> a@[i] == b@[i]) {
        assert(a@ =~= b@);
    }
}

/// Removing spaces goes piece by piece: what is left of two strings together is
/// what is left of the one and then of the other, and of a single character it
/// is the character, unless that is a space.
pub proof fn law_despaced_piecewise(a: Seq<char>, b: Seq<char>, c: char)
    ensures
        despaced(a + b) == despaced(a) + despaced(b),
        despaced(seq![c]) == (if c as u32 == 32 {
            Seq::<char>::empty()
        } else {
            seq![c]
        }),
    decreases b.len(),
{
    reveal(Seq::filter);
    let one = seq![c];
    assert(one.drop_last() =~= Seq::<char>::empty());
    assert(despaced(one.drop_last()) =~= Seq::<char>::empty());
    assert(one.last() == c);
    assert(Seq::<char>::empty().push(c) =~= one);
    if b.len() > 0 {
        law_despaced_piecewise(a, b.drop_last(), c);
        assert((a + b).drop_last() =~= a + b.drop_last());
        assert((a + b).last() == b.last());
        assert(despaced(a + b) =~= despaced(a) + despaced(b));
    } else {
        assert(a + b =~= a);
        assert(despaced(a) + despaced(b) =~= despaced(a));
    }
}

/// A string is rid of its spaces piece by piece, and no other character is
/// touched.
pub proof fn law_without_spaces(
    a: &str,
    b: &str,
    both: &str,
    from_a: String,
    from_b: String,
    from_both: String,
)
    requires
        both@ == a@ + b@,
        call_ensures(without_spaces, (a,), from_a),
        call_ensures(without_spaces, (b,), from_b),
        call_ensures(without_spaces, (both,), from_both),
    ensures
        from_both@ == from_a@ + from_b@,
        a@.len() == 1 && a@[0] as u32 != 32 ==> from_a@ == a@,
        a@.len() == 1 && a@[0] as u32 == 32 ==> from_a@.len() == 0,
        a@.len() == 0 ==> from_a@.len() == 0,
{
    let c = if a@.len() == 1 {
        a@[0]
    } else {
        'x'
    };
    law_despaced_piecewise(a@, b@, c);
    if a@.len() == 1 {
        assert(a@ =~= seq![c]);
    }
    reveal(Seq::filter);
}

/// The number that decimal digits say.
pub open spec fn number_in(digits: Seq<char>) -> int
    decreases digits.len(),
{
    if digits.len() == 0 {
        0
    } else {
        10 * number_in(digits.drop_last()) + (digits.last() as int - 48)
    }
}

/// A number is written in the digits 0 to 9, without a needless 0 in front, and
/// the digits say the number.
pub proof fn law_decimal_reads_back(n: int)
    requires
        n >= 0,
    ensures
        number_in(decimal(n)) == n,
        decimal(n).len() > 0,
        forall|i: int| 0 <= i < decimal(n).len() ==> 48 <= #[trigger] decimal(n)[i] as int <= 57,
        decimal(n)[0] as int == 48 ==> n == 0,
    decreases n,
{
    reveal_with_fuel(number_in, 2);
    if n >= 10 {
        law_decimal_reads_back(n / 10);
        assert(decimal(n).drop_last() =~= decimal(n / 10));
    } else {
        assert(decimal(n).drop_last().len() == 0);
    }
}

/// A written number reads back as the number.
pub proof fn law_decimal_text(n: u64, r: String)
    requires
        call_ensures(decimal_text, (n,), r),
    ensures
        number_in(r@) == n,
        r@.len() > 0,
        forall|i: int| 0 <= i < r@.len() ==> 48 <= #[trigger] r@[i] as int <= 57,
        r@[0] as int == 48 ==> n == 0,
{
    law_decimal_reads_back(n as int);
}

/// A written number reads back as the number, the negative ones behind a minus
/// sign.
pub proof fn law_signed_decimal_text(n: i32, r: String)
    requires
        call_ensures(signed_decimal_text, (n,), r),
    ensures
        n >= 0 ==> r@.len() > 0 && 48 <= r@[0] as int <= 57 && number_in(r@) == n,
        n < 0 ==> r@.len() > 1 && r@[0] as int == 45 && number_in(r@.skip(1)) == -n && r@[1] as int
            != 48,
{
    if n < 0 {
        law_decimal_reads_back(-(n as int));
        assert(r@.skip(1) =~= decimal(-(n as int)));
    } else {
        law_decimal_reads_back(n as int);
        assert(48 <= decimal(n as int)[0] as int <= 57);
    }
}

proof fn lemma_joined_split(a: Seq<Seq<char>>, b: Seq<Seq<char>>, sep: Seq<char>)
    requires
        a.len() > 0,
        b.len() > 0,
    ensures
        joined(a + b, sep) == joined(a, sep) + sep + joined(b, sep),
    decreases b.len(),
{
    assert((a + b).drop_last() =~= a + b.drop_last());
    assert((a + b).last() == b.last());
    if b.len() > 1 {
        lemma_joined_split(a, b.drop_last(), sep);
        assert(joined(a + b, sep) =~= joined(a, sep) + sep + joined(b, sep));
    } else {
        assert(a + b.drop_last() =~= a);
    }
}

/// Joining goes piece by piece: what two lists together give is what the one
/// gives, the separator, and what the other gives. One part gives itself, and
/// none gives nothing.
pub proof fn law_join(
    a: Vec<String>,
    b: Vec<String>,
    both: Vec<String>,
    sep: &str,
    from_a: String,
    from_b: String,
    from_both: String,
)
    requires
        both@ == a@ + b@,
        call_ensures(join, (&a, sep), from_a),
        call_ensures(join, (&b, sep), from_b),
        call_ensures(join, (&both, sep), from_both),
    ensures
        a@.len() == 0 ==> from_a@.len() == 0,
        a@.len() == 1 ==> from_a@ == a@[0]@,
        a@.len() > 0 && b@.len() > 0 ==> from_both@ == from_a@ + sep@ + from_b@,
{
    assert(views(both@) =~= views(a@) + views(b@));
    if a@.len() > 0 && b@.len() > 0 {
        lemma_joined_split(views(a@), views(b@), sep@);
    }
}

}
