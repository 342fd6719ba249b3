//! Arithmetic composition and decomposition of Hangul syllable blocks.
//!
//! A precomposed syllable in the range U+AC00..=U+D7A3 decomposes into a
//! leading consonant, a vowel, and an optional trailing consonant from
//! the conjoining-jamo blocks; the decomposition and its inverse are pure
//! integer arithmetic, with no table involved.

use vstd::prelude::*;
use crate::text::{str_to_chars, chars_to_string};

verus! {

/// A precomposed Hangul syllable block.
pub open spec fn is_syllable(c: char) -> bool {
    0xAC00 <= c as int <= 0xD7A3
}

/// A conjoining leading consonant.
pub open spec fn is_lead_jamo(c: char) -> bool {
    0x1100 <= c as int <= 0x1112
}

/// A conjoining vowel.
pub open spec fn is_vowel_jamo(c: char) -> bool {
    0x1161 <= c as int <= 0x1175
}

/// A conjoining trailing consonant.
pub open spec fn is_trail_jamo(c: char) -> bool {
    0x11A8 <= c as int <= 0x11C2
}

/// A conjoining jamo of any of the three classes.
pub open spec fn is_conjoining_jamo(c: char) -> bool {
    is_lead_jamo(c) || is_vowel_jamo(c) || is_trail_jamo(c)
}

/// The jamo sequence a precomposed syllable stands for: leading, vowel,
/// and the trailing consonant when the syllable has one.  Characters
/// outside the syllable range pass through unchanged.
pub open spec fn spec_decompose_syllable(c: char) -> Seq<char> {
    if !is_syllable(c) {
        seq![c]
    } else {
        let s = c as int - 0xAC00;
        let l = (0x1100 + s / 588) as char;
        let v = (0x1161 + (s % 588) / 28) as char;
        let t = (0x11A7 + s % 28) as char;
        if s % 28 == 0 {
            seq![l, v]
        } else {
            seq![l, v, t]
        }
    }
}

/// A syllable with no trailing consonant (an LV block).
pub open spec fn is_lv_syllable(c: char) -> bool {
    is_syllable(c) && (c as int - 0xAC00) % 28 == 0
}

/// The LV syllable built from a leading consonant and a vowel.
pub open spec fn lv_combine(l: char, v: char) -> char
    recommends
        is_lead_jamo(l),
        is_vowel_jamo(v),
{
    (0xAC00 + ((l as int - 0x1100) * 21 + (v as int - 0x1161)) * 28) as char
}

/// One step of the composing scan: the character the lookback combines
/// with the next character into, if the two combine at all.  A leading
/// consonant combines with a vowel into an LV syllable; an LV syllable
/// absorbs a trailing consonant (U+11A7, index zero, is absorbed as a
/// no-op, exactly as the scan's index arithmetic has it).
pub open spec fn jamo_step(last: char, c: char) -> Option<char> {
    if is_lead_jamo(last) && is_vowel_jamo(c) {
        Some(lv_combine(last, c))
    } else if is_lv_syllable(last) && 0x11A7 <= c as int <= 0x11C2 {
        Some((last as int + (c as int - 0x11A7)) as char)
    } else {
        None
    }
}

/// The composing scan from a lookback character over the rest of the
/// input: combine while possible, emit the lookback when not.
pub open spec fn spec_compose_jamos_from(last: char, rest: Seq<char>) -> Seq<char>
    decreases rest.len(),
{
    if rest.len() == 0 {
        seq![last]
    } else {
        match jamo_step(last, rest[0]) {
            Some(m) => spec_compose_jamos_from(m, rest.drop_first()),
            None => seq![last] + spec_compose_jamos_from(rest[0], rest.drop_first()),
        }
    }
}

/// The result of the composing scan over a whole character sequence.
pub open spec fn spec_compose_jamos(s: Seq<char>) -> Seq<char> {
    if s.len() == 0 {
        Seq::empty()
    } else {
        spec_compose_jamos_from(s[0], s.drop_first())
    }
}

/// Whether `ch` is a precomposed Hangul syllable.
pub fn is_hangul_precomposed_syllable(ch: char) -> (r: bool)
    ensures
        r == is_syllable(ch),
{
    let u = ch as u32;
    0xAC00 <= u && u <= 0xD7A3
}

/// Whether `ch` is a conjoining jamo (leading, vowel, or trailing).
pub fn is_hangul_conjoinable_jamo(ch: char) -> (r: bool)
    ensures
        r == is_conjoining_jamo(ch),
{
    let u = ch as u32;
    (0x1100 <= u && u <= 0x1112) || (0x1161 <= u && u <= 0x1175) || (0x11A8 <= u && u <= 0x11C2)
}

/// The jamo decomposition of one character, as a character vector.
pub fn decompose_syllable_chars(syllable: char) -> (out: Vec<char>)
    ensures
        out@ == spec_decompose_syllable(syllable),
{
    let mut out: Vec<char> = Vec::new();
    if !is_hangul_precomposed_syllable(syllable) {
        out.push(syllable);
        proof {
            assert(out@ =~= seq![syllable]);
        }
        return out;
    }
    let s: u32 = syllable as u32 - 0xAC00;
    let l: u32 = 0x1100 + s / 588;
    let v: u32 = 0x1161 + (s % 588) / 28;
    let t: u32 = 0x11A7 + s % 28;
    proof {
        assert(s < 11172);
        assert(s / 588 < 19 && (s % 588) / 28 < 21 && s % 28 < 28) by (nonlinear_arith)
            requires
                s < 11172,
        ;
    }
    out.push(char::from_u32(l).unwrap());
    out.push(char::from_u32(v).unwrap());
    if t != 0x11A7 {
        out.push(char::from_u32(t).unwrap());
        proof {
            assert(out@ =~= spec_decompose_syllable(syllable));
        }
    } else {
        proof {
            assert(out@ =~= spec_decompose_syllable(syllable));
        }
    }
    out
}

/// The jamo decomposition of one character, as a string.
pub fn decomopse_hangul_syllable(syllable: char) -> (r: String)
    ensures
        r@ == spec_decompose_syllable(syllable),
{
    let v = decompose_syllable_chars(syllable);
    chars_to_string(&v)
}

/// The composing scan over a character vector.
pub fn compose_jamos_chars(v: &Vec<char>) -> (out: Vec<char>)
    ensures
        out@ == spec_compose_jamos(v@),
{
    let mut out: Vec<char> = Vec::new();
    if v.len() == 0 {
        proof {
            assert(out@ =~= spec_compose_jamos(v@));
        }
        return out;
    }
    let mut last: char = v[0];
    let mut i: usize = 1;
    while i < v.len()
        invariant
            1 <= i <= v@.len(),
            spec_compose_jamos(v@) == out@ + spec_compose_jamos_from(last, v@.skip(i as int)),
        decreases v@.len() - i,
    {
        let ghost rest_before = v@.skip(i as int);
        let ghost last_before = last;
        let ghost out_before = out@;
        let c = v[i];
        proof {
            assert(rest_before[0] == v@[i as int]);
            assert(rest_before.drop_first() =~= v@.skip(i as int + 1));
        }
        if '\u{1100}' <= last && last <= '\u{1112}' && '\u{1161}' <= c && c <= '\u{1175}' {
            let lu = last as u32;
            let cu = c as u32;
            let m: u32 = 0xAC00 + ((lu - 0x1100) * 21 + (cu - 0x1161)) * 28;
            last = char::from_u32(m).unwrap();
            proof {
                assert(lu as int == last_before as int);
                assert(cu as int == c as int);
                assert(is_lead_jamo(last_before) && is_vowel_jamo(c));
                assert(last as int == m as int);
                assert(last as int == 0xAC00 + ((last_before as int - 0x1100) * 21 + (c as int
                    - 0x1161)) * 28);
                assert(lv_combine(last_before, c) as int == last as int);
                assert(lv_combine(last_before, c) == last);
                assert(jamo_step(last_before, c) == Some(last));
            }
        } else if '\u{AC00}' <= last && last <= '\u{D7A3}' && (last as u32 - 0xAC00) % 28 == 0
            && '\u{11A7}' <= c && c <= '\u{11C2}' {
            let lu = last as u32;
            let cu = c as u32;
            proof {
                assert((lu - 0xAC00) + (cu - 0x11A7) < 11172) by (nonlinear_arith)
                    requires
                        lu >= 0xAC00,
                        lu <= 0xD7A3,
                        (lu - 0xAC00) % 28 == 0,
                        0x11A7 <= cu <= 0x11C2,
                ;
            }
            last = char::from_u32(lu + (cu - 0x11A7)).unwrap();
            proof {
                assert(lu as int == last_before as int);
                assert(cu as int == c as int);
                assert(is_lv_syllable(last_before));
                assert(!(is_lead_jamo(last_before) && is_vowel_jamo(c)));
                assert(last as int == last_before as int + (c as int - 0x11A7));
                assert((last_before as int + (c as int - 0x11A7)) as char == last);
                assert(jamo_step(last_before, c) == Some(last));
            }
        } else {
            proof {
                assert(jamo_step(last_before, c) is None);
            }
            out.push(last);
            last = c;
        }
        i = i + 1;
        proof {
            assert(spec_compose_jamos_from(last_before, rest_before) == (match jamo_step(
                last_before,
                c,
            ) {
                Some(m) => spec_compose_jamos_from(m, rest_before.drop_first()),
                None => seq![last_before] + spec_compose_jamos_from(c, rest_before.drop_first()),
            }));
            if jamo_step(last_before, c) is None {
                assert(out_before + (seq![last_before] + spec_compose_jamos_from(
                    c,
                    rest_before.drop_first(),
                )) =~= out@ + spec_compose_jamos_from(last, v@.skip(i as int)));
            }
            assert(spec_compose_jamos(v@) == out@ + spec_compose_jamos_from(
                last,
                v@.skip(i as int),
            ));
        }
    }
    proof {
        assert(v@.skip(i as int) =~= Seq::<char>::empty());
    }
    out.push(last);
    out
}

proof fn lemma_split_index(s: int)
    requires
        0 <= s < 11172,
    ensures
        ((s / 588) * 21 + (s % 588) / 28) * 28 == s - s % 28,
        0 <= s / 588 <= 18,
        0 <= (s % 588) / 28 <= 20,
        0 <= s % 28 <= 27,
{
    assert(((s / 588) * 21 + (s % 588) / 28) * 28 == s - s % 28) by (nonlinear_arith)
        requires
            0 <= s < 11172,
    ;
    assert(0 <= s / 588 <= 18 && 0 <= (s % 588) / 28 <= 20 && 0 <= s % 28 <= 27)
        by (nonlinear_arith)
        requires
            0 <= s < 11172,
    ;
}

proof fn lemma_join_index(li: int, vi: int, ti: int)
    requires
        0 <= li <= 18,
        0 <= vi <= 20,
        0 <= ti <= 27,
    ensures
        ((li * 21 + vi) * 28 + ti) / 588 == li,
        (((li * 21 + vi) * 28 + ti) % 588) / 28 == vi,
        ((li * 21 + vi) * 28 + ti) % 28 == ti,
        0 <= (li * 21 + vi) * 28 + ti < 11172,
{
    assert(((li * 21 + vi) * 28 + ti) / 588 == li && (((li * 21 + vi) * 28 + ti) % 588) / 28 == vi
        && ((li * 21 + vi) * 28 + ti) % 28 == ti && 0 <= (li * 21 + vi) * 28 + ti < 11172)
        by (nonlinear_arith)
        requires
            0 <= li <= 18,
            0 <= vi <= 20,
            0 <= ti <= 27,
    ;
}

/// Law: composing the jamo decomposition of a precomposed syllable gives
/// back exactly that one syllable.
pub proof fn lemma_hangul_round_trip(c: char)
    requires
        is_syllable(c),
    ensures
        spec_compose_jamos(spec_decompose_syllable(c)) == seq![c],
{
    let s = c as int - 0xAC00;
    lemma_split_index(s);
    let l = (0x1100 + s / 588) as char;
    let v = (0x1161 + (s % 588) / 28) as char;
    let t = (0x11A7 + s % 28) as char;
    let m = lv_combine(l, v);
    assert(m as int == 0xAC00 + (s - s % 28)) by {
        assert(((s / 588) * 21 + (s % 588) / 28) * 28 == s - s % 28);
    }
    if s % 28 == 0 {
        let d = spec_decompose_syllable(c);
        assert(d == seq![l, v]);
        assert(d.drop_first() =~= seq![v]);
        assert(jamo_step(l, v) == Some(m));
        assert(seq![v].drop_first() =~= Seq::<char>::empty());
        assert(m == c);
        assert(spec_compose_jamos_from(m, Seq::<char>::empty()) == seq![m]);
        assert(spec_compose_jamos_from(l, seq![v]) == seq![m]);
        assert(d[0] == l && d.drop_first() == seq![v]);
        assert(spec_compose_jamos(d) =~= seq![c]);
    } else {
        let d = spec_decompose_syllable(c);
        assert(d == seq![l, v, t]);
        assert(d.drop_first() =~= seq![v, t]);
        assert(jamo_step(l, v) == Some(m));
        assert(seq![v, t].drop_first() =~= seq![t]);
        assert(is_lv_syllable(m)) by {
            assert((m as int - 0xAC00) % 28 == 0) by (nonlinear_arith)
                requires
                    m as int - 0xAC00 == s - s % 28,
                    0 <= s < 11172,
            ;
        }
        assert(jamo_step(m, t) == Some(c)) by {
            assert((m as int + (t as int - 0x11A7)) as char == c);
        }
        assert(seq![t].drop_first() =~= Seq::<char>::empty());
        assert(spec_compose_jamos_from(c, Seq::<char>::empty()) == seq![c]);
        assert(spec_compose_jamos_from(m, seq![t]) == seq![c]);
        assert(spec_compose_jamos_from(l, seq![v, t]) == seq![c]);
        assert(d[0] == l && d.drop_first() == seq![v, t]);
        assert(spec_compose_jamos(d) =~= seq![c]);
    }
}

/// Law: decomposing the syllable composed from a leading+vowel or
/// leading+vowel+trailing jamo run gives back exactly that run.
pub proof fn lemma_jamo_round_trip(j: Seq<char>)
    requires
        2 <= j.len() <= 3,
        is_lead_jamo(j[0]),
        is_vowel_jamo(j[1]),
        j.len() == 3 ==> is_trail_jamo(j[2]),
    ensures
        spec_compose_jamos(j).len() == 1,
        is_syllable(spec_compose_jamos(j)[0]),
        spec_decompose_syllable(spec_compose_jamos(j)[0]) == j,
{
    let li = j[0] as int - 0x1100;
    let vi = j[1] as int - 0x1161;
    let m = lv_combine(j[0], j[1]);
    if j.len() == 2 {
        lemma_join_index(li, vi, 0);
        assert(j.drop_first() =~= seq![j[1]]);
        assert(jamo_step(j[0], j[1]) == Some(m));
        assert(seq![j[1]].drop_first() =~= Seq::<char>::empty());
        assert(spec_compose_jamos_from(m, Seq::<char>::empty()) == seq![m]);
        assert(spec_compose_jamos_from(j[0], seq![j[1]]) == seq![m]);
        assert(spec_compose_jamos(j) =~= seq![m]);
        assert(m as int == 0xAC00 + (li * 21 + vi) * 28);
        assert(is_syllable(m));
        let s = m as int - 0xAC00;
        assert(s / 588 == li && (s % 588) / 28 == vi && s % 28 == 0);
        assert((0x1100 + s / 588) as char == j[0]);
        assert((0x1161 + (s % 588) / 28) as char == j[1]);
        assert(spec_decompose_syllable(m) =~= j);
    } else {
        let ti = j[2] as int - 0x11A7;
        lemma_join_index(li, vi, ti);
        assert(j.drop_first() =~= seq![j[1], j[2]]);
        assert(jamo_step(j[0], j[1]) == Some(m));
        assert(seq![j[1], j[2]].drop_first() =~= seq![j[2]]);
        assert(m as int == 0xAC00 + (li * 21 + vi) * 28);
        assert(is_lv_syllable(m)) by {
            assert(((li * 21 + vi) * 28) % 28 == 0) by (nonlinear_arith);
            assert(0 <= (li * 21 + vi) * 28 < 11172) by (nonlinear_arith)
                requires
                    0 <= li <= 18,
                    0 <= vi <= 20,
            ;
        }
        let m2 = (m as int + ti) as char;
        assert(jamo_step(m, j[2]) == Some(m2));
        assert(seq![j[2]].drop_first() =~= Seq::<char>::empty());
        assert(spec_compose_jamos_from(m2, Seq::<char>::empty()) == seq![m2]);
        assert(spec_compose_jamos_from(m, seq![j[2]]) == seq![m2]);
        assert(spec_compose_jamos_from(j[0], seq![j[1], j[2]]) == seq![m2]);
        assert(spec_compose_jamos(j) =~= seq![m2]);
        assert(m2 as int == 0xAC00 + ((li * 21 + vi) * 28 + ti));
        assert(is_syllable(m2));
        let s = m2 as int - 0xAC00;
        assert(s / 588 == li && (s % 588) / 28 == vi && s % 28 == ti);
        assert((0x1100 + s / 588) as char == j[0]);
        assert((0x1161 + (s % 588) / 28) as char == j[1]);
        assert((0x11A7 + s % 28) as char == j[2]);
        assert(spec_decompose_syllable(m2) =~= j);
    }
}

/// The composing scan over a string: maximal leading+vowel(+trailing)
/// runs become syllable blocks, everything else passes through.
pub fn compose_hangul_jamos(source: &str) -> (r: String)
    ensures
        r@ == spec_compose_jamos(source@),
{
    let v = str_to_chars(source);
    let out = compose_jamos_chars(&v);
    chars_to_string(&out)
}

} // verus!
