//! The decomposer: table entry first, Hangul arithmetic second,
//! pass-through last.

use vstd::prelude::*;
use crate::hangul;
use crate::table;

verus! {

/// What one character decomposes into: its table entry if it has one,
/// its jamo sequence if it is a precomposed Hangul syllable, and itself
/// otherwise.
pub open spec fn spec_decompose_char(c: char) -> Seq<char> {
    match table::lookup_fwd(c) {
        Some(d) => d,
        None => if hangul::is_syllable(c) {
            hangul::spec_decompose_syllable(c)
        } else {
            seq![c]
        },
    }
}

/// The decomposition of a whole character sequence: each character's
/// decomposition, in order.
pub open spec fn spec_decompose(s: Seq<char>) -> Seq<char>
    decreases s.len(),
{
    if s.len() == 0 {
        Seq::empty()
    } else {
        spec_decompose_char(s[0]) + spec_decompose(s.drop_first())
    }
}

/// Decomposition distributes over concatenation.
pub proof fn lemma_decompose_append(a: Seq<char>, b: Seq<char>)
    ensures
        spec_decompose(a + b) == spec_decompose(a) + spec_decompose(b),
    decreases a.len(),
{
    if a.len() == 0 {
        assert(a + b =~= b);
        assert(spec_decompose(a) + spec_decompose(b) =~= spec_decompose(b));
    } else {
        lemma_decompose_append(a.drop_first(), b);
        assert((a + b).drop_first() =~= a.drop_first() + b);
        assert((a + b)[0] == a[0]);
        assert(spec_decompose_char(a[0]) + (spec_decompose(a.drop_first()) + spec_decompose(b))
            =~= (spec_decompose_char(a[0]) + spec_decompose(a.drop_first())) + spec_decompose(b));
    }
}

/// The decomposition of one character, by itself.
pub proof fn lemma_decompose_one(c: char)
    ensures
        spec_decompose(seq![c]) == spec_decompose_char(c),
{
    assert(seq![c].drop_first() =~= Seq::<char>::empty());
    assert(seq![c][0] == c);
    assert(spec_decompose(seq![c]) == spec_decompose_char(c) + spec_decompose(
        Seq::<char>::empty(),
    ));
    assert(spec_decompose_char(c) + Seq::<char>::empty() =~= spec_decompose_char(c));
}

/// The decomposition of a character vector.
pub fn decompose_chars(v: &Vec<char>) -> (out: Vec<char>)
    ensures
        out@ == spec_decompose(v@),
{
    let mut out: Vec<char> = Vec::new();
    let mut i: usize = 0;
    proof {
        assert(v@.take(0) =~= Seq::<char>::empty());
    }
    while i < v.len()
        invariant
            i <= v@.len(),
            out@ == spec_decompose(v@.take(i as int)),
        decreases v@.len() - i,
    {
        let c = v[i];
        proof {
            assert(v@.take(i as int + 1) =~= v@.take(i as int) + seq![c]);
            lemma_decompose_append(v@.take(i as int), seq![c]);
            lemma_decompose_one(c);
        }
        match table::find_fwd(c) {
            Some(mut d) => {
                out.append(&mut d);
            },
            None => {
                if hangul::is_hangul_precomposed_syllable(c) {
                    let mut d = hangul::decompose_syllable_chars(c);
                    out.append(&mut d);
                } else {
                    out.push(c);
                }
            },
        }
        i = i + 1;
    }
    proof {
        assert(v@.take(i as int) =~= v@);
    }
    out
}

} // verus!
