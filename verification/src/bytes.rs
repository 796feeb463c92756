//! Little-endian integers.
use vstd::prelude::*;

verus! {

/// The two low bytes of `n`, the lowest first.
pub open spec fn le16(n: int) -> Seq<u8> {
    seq![(n % 256) as u8, (n / 256 % 256) as u8]
}

/// The four low bytes of `n`, the lowest first.
pub open spec fn le32(n: int) -> Seq<u8> {
    seq![
        (n % 256) as u8,
        (n / 256 % 256) as u8,
        (n / 65536 % 256) as u8,
        (n / 16777216 % 256) as u8,
    ]
}

/// The 16 bits of `s` as a number.
pub open spec fn bits16(s: i16) -> int {
    if s < 0 {
        s + 65536
    } else {
        s as int
    }
}

/// Two bytes for each sample, in order.
pub open spec fn le16_all(samples: Seq<i16>) -> Seq<u8>
    decreases samples.len(),
{
    if samples.len() == 0 {
        Seq::empty()
    } else {
        le16_all(samples.drop_last()) + le16(bits16(samples.last()))
    }
}

/// Four bytes for each word, in order.
pub open spec fn le32_all(words: Seq<u32>) -> Seq<u8>
    decreases words.len(),
{
    if words.len() == 0 {
        Seq::empty()
    } else {
        le32_all(words.drop_last()) + le32(words.last() as int)
    }
}

/// Appends the four bytes of `n`.
pub(crate) fn push_le32(out: &mut Vec<u8>, n: u32)
    ensures
        final(out)@ == old(out)@ + le32(n as int),
{
    out.push((n % 256) as u8);
    out.push((n / 256 % 256) as u8);
    out.push((n / 65536 % 256) as u8);
    out.push((n / 16777216 % 256) as u8);
    proof {
        assert(out@ =~= old(out)@ + le32(n as int));
    }
}

/// The four bytes of a word say the word.
pub proof fn lemma_le32_value(n: u32)
    ensures
        n == le32(n as int)[0] + 256 * le32(n as int)[1] + 65536 * le32(n as int)[2] + 16777216
            * le32(n as int)[3],
{
    assert(n == (n % 256) + 256 * (n / 256 % 256) + 65536 * (n / 65536 % 256) + 16777216 * (n
        / 16777216 % 256)) by (bit_vector);
}

/// The four bytes of a word give the word back.
pub proof fn lemma_le32_injective(a: u32, b: u32)
    requires
        le32(a as int) == le32(b as int),
    ensures
        a == b,
{
    let x = le32(a as int);
    let y = le32(b as int);
    assert(x[0] == y[0] && x[1] == y[1] && x[2] == y[2] && x[3] == y[3]);
    lemma_le32_value(a);
    lemma_le32_value(b);
}

/// The two bytes of a sample give the sample back.
pub proof fn lemma_le16_injective(a: i16, b: i16)
    requires
        le16(bits16(a)) == le16(bits16(b)),
    ensures
        a == b,
{
    let x = le16(bits16(a));
    let y = le16(bits16(b));
    assert(x[0] == y[0] && x[1] == y[1]);
}

pub proof fn lemma_le16_all_len(samples: Seq<i16>)
    ensures
        le16_all(samples).len() == 2 * samples.len(),
    decreases samples.len(),
{
    if samples.len() > 0 {
        lemma_le16_all_len(samples.drop_last());
    }
}

pub proof fn lemma_le32_all_len(words: Seq<u32>)
    ensures
        le32_all(words).len() == 4 * words.len(),
    decreases words.len(),
{
    if words.len() > 0 {
        lemma_le32_all_len(words.drop_last());
    }
}

/// The bytes of samples give the samples back.
pub proof fn lemma_le16_all_injective(a: Seq<i16>, b: Seq<i16>)
    requires
        le16_all(a) == le16_all(b),
    ensures
        a == b,
    decreases a.len(),
{
    lemma_le16_all_len(a);
    lemma_le16_all_len(b);
    if a.len() > 0 {
        let x = le16_all(a.drop_last());
        let y = le16_all(b.drop_last());
        lemma_le16_all_len(a.drop_last());
        lemma_le16_all_len(b.drop_last());
        let n = x.len() as int;
        assert(x =~= le16_all(a).take(n));
        assert(y =~= le16_all(b).take(n));
        assert(le16(bits16(a.last())) =~= le16_all(a).skip(n));
        assert(le16(bits16(b.last())) =~= le16_all(b).skip(n));
        lemma_le16_all_injective(a.drop_last(), b.drop_last());
        lemma_le16_injective(a.last(), b.last());
        assert(a =~= a.drop_last().push(a.last()));
        assert(b =~= b.drop_last().push(b.last()));
    } else {
        assert(a =~= b);
    }
}

/// The bytes of words give the words back.
pub proof fn lemma_le32_all_injective(a: Seq<u32>, b: Seq<u32>)
    requires
        le32_all(a) == le32_all(b),
    ensures
        a == b,
    decreases a.len(),
{
    lemma_le32_all_len(a);
    lemma_le32_all_len(b);
    if a.len() > 0 {
        let x = le32_all(a.drop_last());
        let y = le32_all(b.drop_last());
        lemma_le32_all_len(a.drop_last());
        lemma_le32_all_len(b.drop_last());
        let n = x.len() as int;
        assert(x =~= le32_all(a).take(n));
        assert(y =~= le32_all(b).take(n));
        assert(le32(a.last() as int) =~= le32_all(a).skip(n));
        assert(le32(b.last() as int) =~= le32_all(b).skip(n));
        lemma_le32_all_injective(a.drop_last(), b.drop_last());
        lemma_le32_injective(a.last(), b.last());
        assert(a =~= a.drop_last().push(a.last()));
        assert(b =~= b.drop_last().push(b.last()));
    } else {
        assert(a =~= b);
    }
}

/// The bytes of a sample stand where the samples before it take two each.
pub proof fn lemma_le16_all_at(samples: Seq<i16>, i: int)
    requires
        0 <= i < samples.len(),
    ensures
        le16_all(samples).len() == 2 * samples.len(),
        le16_all(samples)[2 * i] == le16(bits16(samples[i]))[0],
        le16_all(samples)[2 * i + 1] == le16(bits16(samples[i]))[1],
    decreases samples.len(),
{
    lemma_le16_all_len(samples);
    lemma_le16_all_len(samples.drop_last());
    if i < samples.len() - 1 {
        lemma_le16_all_at(samples.drop_last(), i);
    }
}

/// The bytes of a word stand where the words before it take four each.
pub proof fn lemma_le32_all_at(words: Seq<u32>, i: int)
    requires
        0 <= i < words.len(),
    ensures
        le32_all(words).len() == 4 * words.len(),
        le32_all(words)[4 * i] == le32(words[i] as int)[0],
        le32_all(words)[4 * i + 1] == le32(words[i] as int)[1],
        le32_all(words)[4 * i + 2] == le32(words[i] as int)[2],
        le32_all(words)[4 * i + 3] == le32(words[i] as int)[3],
    decreases words.len(),
{
    lemma_le32_all_len(words);
    lemma_le32_all_len(words.drop_last());
    if i < words.len() - 1 {
        lemma_le32_all_at(words.drop_last(), i);
    }
}

}
