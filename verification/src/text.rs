//! Text as the daemon meets it: comparison, trimming, and decoding of command output.

use vstd::prelude::*;
use vstd::utf8::{decode_utf8, encode_utf8, encode_utf8_decode_utf8, valid_utf8};

verus! {

/// The characters with the Unicode property `White_Space`.
pub open spec fn is_white_space(c: char) -> bool {
    let code = c as u32;
    ||| 0x9 <= code <= 0xd
    ||| code == 0x20
    ||| code == 0x85
    ||| code == 0xa0
    ||| code == 0x1680
    ||| 0x2000 <= code <= 0x200a
    ||| code == 0x2028
    ||| code == 0x2029
    ||| code == 0x202f
    ||| code == 0x205f
    ||| code == 0x3000
}

/// `s` without its leading white space.
pub open spec fn trimmed_start(s: Seq<char>) -> Seq<char>
    decreases s.len(),
{
    if s.len() > 0 && is_white_space(s.first()) {
        trimmed_start(s.drop_first())
    } else {
        s
    }
}

/// `s` without its trailing white space.
pub open spec fn trimmed_end(s: Seq<char>) -> Seq<char>
    decreases s.len(),
{
    if s.len() > 0 && is_white_space(s.last()) {
        trimmed_end(s.drop_last())
    } else {
        s
    }
}

/// `s` without the white space on either side.
pub open spec fn trimmed(s: Seq<char>) -> Seq<char> {
    trimmed_end(trimmed_start(s))
}

/// Nothing but white space.
pub open spec fn is_blank(s: Seq<char>) -> bool {
    forall|i: int| 0 <= i < s.len() ==> is_white_space(#[trigger] s[i])
}

/// `str::trim` drops the characters with the Unicode property `White_Space` on both
/// sides, and no others.
pub assume_specification[ str::trim ](s: &str) -> (res: &str)
    ensures
        res@ == trimmed(s@),
;

/// What `String::from_utf8_lossy` makes of these bytes.
pub uninterp spec fn utf8_lossy(bytes: Seq<u8>) -> Seq<char>;

/// Calls `String::from_utf8_lossy`. The text depends on the bytes alone, and on valid
/// UTF-8 it is the text that the bytes encode. What replaces a malformed sequence is
/// left to the name `utf8_lossy`.
#[verifier::external_body]
pub(crate) fn lossy_text(bytes: &[u8]) -> (res: String)
    ensures
        res@ == utf8_lossy(bytes@),
        valid_utf8(bytes@) ==> res@ == decode_utf8(bytes@),
{
    String::from_utf8_lossy(bytes).into_owned()
}

/// Whether two texts hold the same characters.
pub fn same_text(a: &str, b: &str) -> (res: bool)
    ensures
        res == (a@ == b@),
{
    let x: &[u8] = a.as_bytes();
    let y: &[u8] = b.as_bytes();
    if x.len() != y.len() {
        return false;
    }
    let n: usize = x.len();
    let mut i: usize = 0;
    while i < n
        invariant
            i <= n,
            n == x@.len(),
            n == y@.len(),
            x@ == encode_utf8(a@),
            y@ == encode_utf8(b@),
            forall|j: int| 0 <= j < i ==> x@[j] == y@[j],
        decreases n - i,
    {
        if x[i] != y[i] {
            return false;
        }
        i = i + 1;
    }
    proof {
        assert(x@ =~= y@);
        encode_utf8_decode_utf8(a@);
        encode_utf8_decode_utf8(b@);
    }
    true
}

/// The two texts, one after the other.
pub fn joined(a: &str, b: &str) -> (res: String)
    ensures
        res@ == a@ + b@,
{
    let mut text: String = a.to_owned();
    text.append(b);
    text
}

/// Trimming leaves nothing exactly where there is nothing but white space.
pub proof fn lemma_trimmed_empty_iff_blank(s: Seq<char>)
    ensures
        trimmed(s).len() == 0 <==> is_blank(s),
{
    lemma_trimmed_start(s);
    lemma_trimmed_end(trimmed_start(s));
}

proof fn lemma_trimmed_start(s: Seq<char>)
    ensures
        is_blank(s) ==> trimmed_start(s).len() == 0,
        !is_blank(s) ==> trimmed_start(s).len() > 0 && !is_white_space(trimmed_start(s).first()),
    decreases s.len(),
{
    if s.len() > 0 {
        if is_white_space(s.first()) {
            let rest = s.drop_first();
            lemma_trimmed_start(rest);
            if is_blank(rest) {
                assert forall|i: int| 0 <= i < s.len() implies is_white_space(#[trigger] s[i]) by {
                    if i > 0 {
                        assert(rest[i - 1] == s[i]);
                    }
                }
            } else {
                let i = choose|i: int| 0 <= i < rest.len() && !is_white_space(#[trigger] rest[i]);
                assert(s[i + 1] == rest[i]);
            }
        } else {
            assert(!is_white_space(s[0]));
        }
    }
}

proof fn lemma_trimmed_end(s: Seq<char>)
    ensures
        s.len() == 0 ==> trimmed_end(s).len() == 0,
        s.len() > 0 && !is_white_space(s.first()) ==> trimmed_end(s).len() > 0,
    decreases s.len(),
{
    if s.len() > 0 && is_white_space(s.last()) && !is_white_space(s.first()) {
        assert(s.drop_last().first() == s.first());
        lemma_trimmed_end(s.drop_last());
    }
}

/// Trimming takes white space off both sides and nothing else: what is left is a part of
/// the text that neither begins nor ends in white space, and all around it is white
/// space.
pub proof fn law_trimming_takes_only_white_space(s: Seq<char>)
    ensures
        exists|from: int, to: int| #[trigger]
            s.subrange(from, to) == trimmed(s) && 0 <= from <= to <= s.len() && is_blank(
                s.subrange(0, from),
            ) && is_blank(s.subrange(to, s.len() as int)),
        trimmed(s).len() > 0 ==> !is_white_space(trimmed(s).first()) && !is_white_space(
            trimmed(s).last(),
        ),
{
    let from = lemma_start_cut(s);
    let rest = trimmed_start(s);
    let kept = lemma_end_cut(rest);
    lemma_trimmed_start(s);
    let to = from + kept;
    assert(s.subrange(from, to) =~= trimmed(s));
    assert forall|i: int| 0 <= i < s.subrange(to, s.len() as int).len() implies is_white_space(
        #[trigger] s.subrange(to, s.len() as int)[i],
    ) by {
        assert(rest.subrange(kept, rest.len() as int)[i] == s.subrange(to, s.len() as int)[i]);
    }
    assert(is_blank(s.subrange(to, s.len() as int)));
}

proof fn lemma_start_cut(s: Seq<char>) -> (from: int)
    ensures
        0 <= from <= s.len(),
        trimmed_start(s) == s.subrange(from, s.len() as int),
        is_blank(s.subrange(0, from)),
    decreases s.len(),
{
    if s.len() > 0 && is_white_space(s.first()) {
        let rest = s.drop_first();
        let from = lemma_start_cut(rest) + 1;
        assert(s.subrange(from, s.len() as int) =~= rest.subrange(from - 1, rest.len() as int));
        assert forall|i: int| 0 <= i < from implies is_white_space(
            #[trigger] s.subrange(0, from)[i],
        ) by {
            if i > 0 {
                assert(rest.subrange(0, from - 1)[i - 1] == s[i]);
            }
        }
        from
    } else {
        assert(s.subrange(0, s.len() as int) =~= s);
        0
    }
}

proof fn lemma_end_cut(s: Seq<char>) -> (to: int)
    ensures
        0 <= to <= s.len(),
        trimmed_end(s) == s.subrange(0, to),
        is_blank(s.subrange(to, s.len() as int)),
        to > 0 ==> !is_white_space(s[to - 1]),
    decreases s.len(),
{
    if s.len() > 0 && is_white_space(s.last()) {
        let rest = s.drop_last();
        let to = lemma_end_cut(rest);
        assert(s.subrange(0, to) =~= rest.subrange(0, to));
        assert forall|i: int| 0 <= i < s.len() - to implies is_white_space(
            #[trigger] s.subrange(to, s.len() as int)[i],
        ) by {
            if to + i < rest.len() {
                assert(rest.subrange(to, rest.len() as int)[i] == s[to + i]);
            }
        }
        to
    } else {
        assert(s.subrange(0, s.len() as int) =~= s);
        s.len() as int
    }
}

} // verus!
