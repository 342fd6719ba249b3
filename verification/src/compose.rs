//! The composer: a single forward pass over a decomposed character
//! stream that reassembles composed characters with longest-match
//! semantics, emitting unmatched runs verbatim and composing interleaved
//! Hangul jamo runs at flush boundaries.

use vstd::prelude::*;
use crate::hangul;
use crate::table;

verus! {

/// The transient state of one composing pass.
pub struct ComposeState {
    /// Characters already emitted.
    pub out: Seq<char>,
    /// The decomposed characters consumed along the current table path.
    pub prefix: Seq<char>,
    /// How many of the `prefix` characters the tentative match covers.
    pub tlen: int,
    /// The best composed character found along the current path, if any.
    pub tent: Option<char>,
    /// The pending run of conjoining jamo that fell outside the table.
    pub jamos: Seq<char>,
}

/// The state a pass starts from: nothing consumed, nothing emitted.
pub open spec fn init_state() -> ComposeState {
    ComposeState {
        out: Seq::empty(),
        prefix: Seq::empty(),
        tlen: 0,
        tent: None,
        jamos: Seq::empty(),
    }
}

/// The consumed path characters not covered by the tentative match.
pub open spec fn pending(st: ComposeState) -> Seq<char> {
    st.prefix.skip(st.tlen)
}

/// The jamo run as it is emitted: composed, when there is one.
pub open spec fn flushed_jamos(j: Seq<char>) -> Seq<char> {
    if j.len() > 0 {
        hangul::spec_compose_jamos(j)
    } else {
        Seq::empty()
    }
}

/// The flush step: emit the tentative match if one is pending, then any
/// raw pending characters verbatim, the buffered jamo run being
/// materialized before whichever of the two comes first; reset the path.
pub open spec fn flush(st: ComposeState) -> ComposeState {
    let o1 = if st.tent is Some {
        flushed_jamos(st.jamos) + seq![st.tent->0]
    } else {
        Seq::<char>::empty()
    };
    let j1 = if st.tent is Some {
        Seq::<char>::empty()
    } else {
        st.jamos
    };
    let p = pending(st);
    let o2 = if p.len() > 0 {
        flushed_jamos(j1) + p
    } else {
        Seq::<char>::empty()
    };
    let j2 = if p.len() > 0 {
        Seq::<char>::empty()
    } else {
        j1
    };
    ComposeState { out: st.out + o1 + o2, prefix: Seq::empty(), tlen: 0, tent: None, jamos: j2 }
}

/// One step of the pass on the next input character `c`, against the
/// current path.  Extending the path by `c` either reaches a complete
/// decomposition that can still grow (record a tentative match), a
/// complete one that cannot (emit its composed character), a strict
/// prefix of a longer one (keep consuming), or nothing: then flush and
/// retry `c` once from the reset path, and if `c` is unmatched even
/// there, buffer it when it is a conjoining jamo, else emit it.
pub open spec fn step(st: ComposeState, c: char) -> ComposeState
    decreases st.prefix.len() + (if st.tent is Some { 1int } else { 0int }),
{
    let p2 = st.prefix.push(c);
    if table::lookup_rev(p2) is Some && table::has_ext(p2) {
        ComposeState {
            out: st.out,
            prefix: p2,
            tlen: p2.len() as int,
            tent: Some(table::lookup_rev(p2)->0),
            jamos: st.jamos,
        }
    } else if table::lookup_rev(p2) is Some {
        ComposeState {
            out: st.out + flushed_jamos(st.jamos) + seq![table::lookup_rev(p2)->0],
            prefix: Seq::empty(),
            tlen: 0,
            tent: None,
            jamos: Seq::empty(),
        }
    } else if table::has_ext(p2) {
        ComposeState { out: st.out, prefix: p2, tlen: st.tlen, tent: st.tent, jamos: st.jamos }
    } else if st.tent is Some || st.prefix.len() > 0 {
        step(flush(st), c)
    } else if hangul::is_conjoining_jamo(c) {
        ComposeState {
            out: st.out,
            prefix: st.prefix,
            tlen: st.tlen,
            tent: st.tent,
            jamos: st.jamos.push(c),
        }
    } else {
        ComposeState {
            out: st.out + flushed_jamos(st.jamos) + seq![c],
            prefix: st.prefix,
            tlen: st.tlen,
            tent: st.tent,
            jamos: Seq::empty(),
        }
    }
}

/// The pass over a whole sequence, from a given state.
pub open spec fn run(st: ComposeState, s: Seq<char>) -> ComposeState
    decreases s.len(),
{
    if s.len() == 0 {
        st
    } else {
        run(step(st, s[0]), s.drop_first())
    }
}

/// End of input: emit the still-pending tentative match, then the
/// still-pending jamo run, then the still-pending raw characters, in
/// that order.
pub open spec fn finalize(st: ComposeState) -> Seq<char> {
    st.out + (if st.tent is Some {
        seq![st.tent->0]
    } else {
        Seq::<char>::empty()
    }) + flushed_jamos(st.jamos) + pending(st)
}

/// The composing pass over a whole decomposed sequence.
pub open spec fn spec_compose(s: Seq<char>) -> Seq<char> {
    finalize(run(init_state(), s))
}

/// Running one more character is one more step.
pub proof fn lemma_run_snoc(st: ComposeState, s: Seq<char>, i: int)
    requires
        0 <= i < s.len(),
    ensures
        run(st, s.take(i + 1)) == step(run(st, s.take(i)), s[i]),
    decreases i,
{
    if i == 0 {
        assert(s.take(1).drop_first() =~= Seq::<char>::empty());
        assert(s.take(0) =~= Seq::<char>::empty());
        assert(s.take(1)[0] == s[0]);
        assert(s.take(1).len() == 1);
        assert(run(st, s.take(1)) == run(step(st, s[0]), Seq::<char>::empty()));
        assert(run(step(st, s[0]), Seq::<char>::empty()) == step(st, s[0]));
        assert(run(st, s.take(0)) == st);
    } else {
        assert(s.take(i + 1)[0] == s[0]);
        assert(s.take(i + 1).drop_first() =~= s.drop_first().take(i));
        assert(run(st, s.take(i + 1)) == run(step(st, s[0]), s.drop_first().take(i)));
        assert(s.take(i)[0] == s[0]);
        assert(s.take(i).drop_first() =~= s.drop_first().take(i - 1));
        assert(run(st, s.take(i)) == run(step(st, s[0]), s.drop_first().take(i - 1)));
        lemma_run_snoc(step(st, s[0]), s.drop_first(), i - 1);
        assert(s.drop_first()[i - 1] == s[i]);
        assert(run(step(st, s[0]), s.drop_first().take(i)) == step(
            run(step(st, s[0]), s.drop_first().take(i - 1)),
            s.drop_first()[i - 1],
        ));
    }
}

/// Materialize the buffered jamo run into the output and clear it.
fn emit_jamos(out: &mut Vec<char>, jamos: &mut Vec<char>)
    ensures
        final(out)@ == old(out)@ + flushed_jamos(old(jamos)@),
        final(jamos)@ == Seq::<char>::empty(),
{
    if jamos.len() > 0 {
        let mut composed = hangul::compose_jamos_chars(jamos);
        out.append(&mut composed);
        jamos.clear();
    } else {
        proof {
            assert(jamos@ =~= Seq::<char>::empty());
            assert(out@ + flushed_jamos(jamos@) =~= out@);
        }
    }
}

/// Append `src[from..]` to the output.
fn emit_tail(out: &mut Vec<char>, src: &Vec<char>, from: usize)
    requires
        from <= src@.len(),
    ensures
        final(out)@ == old(out)@ + src@.skip(from as int),
{
    let mut k: usize = from;
    while k < src.len()
        invariant
            from <= k <= src@.len(),
            out@ == old(out)@ + src@.subrange(from as int, k as int),
        decreases src@.len() - k,
    {
        out.push(src[k]);
        k = k + 1;
        proof {
            assert(src@.subrange(from as int, k as int) =~= src@.subrange(
                from as int,
                k as int - 1,
            ).push(src@[k as int - 1]));
            assert(out@ =~= old(out)@ + src@.subrange(from as int, k as int));
        }
    }
    proof {
        assert(src@.subrange(from as int, src@.len() as int) =~= src@.skip(from as int));
    }
}

/// A copy of `p` with `c` appended.
fn snoc_chars(p: &Vec<char>, c: char) -> (r: Vec<char>)
    ensures
        r@ == p@.push(c),
{
    let mut r: Vec<char> = Vec::new();
    let mut k: usize = 0;
    while k < p.len()
        invariant
            k <= p@.len(),
            r@ == p@.take(k as int),
        decreases p@.len() - k,
    {
        r.push(p[k]);
        k = k + 1;
        proof {
            assert(r@ =~= p@.take(k as int));
        }
    }
    r.push(c);
    proof {
        assert(r@ =~= p@.push(c));
    }
    r
}

/// The composing pass over a character vector.
pub fn compose_chars(v: &Vec<char>) -> (out: Vec<char>)
    ensures
        out@ == spec_compose(v@),
{
    let mut out: Vec<char> = Vec::new();
    let mut prefix: Vec<char> = Vec::new();
    let mut tlen: usize = 0;
    let mut tent: Option<char> = None;
    let mut jamos: Vec<char> = Vec::new();
    let mut i: usize = 0;
    proof {
        assert(v@.take(0) =~= Seq::<char>::empty());
        assert((ComposeState {
            out: out@,
            prefix: prefix@,
            tlen: tlen as int,
            tent,
            jamos: jamos@,
        }) == init_state());
    }
    while i < v.len()
        invariant
            i <= v@.len(),
            tlen <= prefix@.len(),
            tent is None ==> tlen == 0,
            (ComposeState {
                out: out@,
                prefix: prefix@,
                tlen: tlen as int,
                tent,
                jamos: jamos@,
            }) == run(init_state(), v@.take(i as int)),
        decreases v@.len() - i,
    {
        let ghost st0 = ComposeState {
            out: out@,
            prefix: prefix@,
            tlen: tlen as int,
            tent,
            jamos: jamos@,
        };
        let c = v[i];
        proof {
            lemma_run_snoc(init_state(), v@, i as int);
        }
        let p2 = snoc_chars(&prefix, c);
        let rv = table::find_rev(&p2);
        let ex = table::find_ext(&p2);
        if rv.is_some() && ex {
            prefix = p2;
            tlen = prefix.len();
            tent = rv;
            proof {
                assert((ComposeState {
                    out: out@,
                    prefix: prefix@,
                    tlen: tlen as int,
                    tent,
                    jamos: jamos@,
                }) == step(st0, c));
            }
        } else if rv.is_some() {
            let comp = rv.unwrap();
            emit_jamos(&mut out, &mut jamos);
            out.push(comp);
            prefix = Vec::new();
            tlen = 0;
            tent = None;
            proof {
                assert(out@ =~= st0.out + flushed_jamos(st0.jamos) + seq![comp]);
                assert(prefix@ =~= Seq::<char>::empty());
                assert(jamos@ =~= Seq::<char>::empty());
                assert((ComposeState {
                    out: out@,
                    prefix: prefix@,
                    tlen: tlen as int,
                    tent,
                    jamos: jamos@,
                }) == step(st0, c));
            }
        } else if ex {
            prefix = p2;
            proof {
                assert((ComposeState {
                    out: out@,
                    prefix: prefix@,
                    tlen: tlen as int,
                    tent,
                    jamos: jamos@,
                }) == step(st0, c));
            }
        } else if tent.is_some() || prefix.len() > 0 {
            if tent.is_some() {
                emit_jamos(&mut out, &mut jamos);
                let t = tent.unwrap();
                out.push(t);
                tent = None;
            }
            if tlen < prefix.len() {
                emit_jamos(&mut out, &mut jamos);
                emit_tail(&mut out, &prefix, tlen);
            }
            prefix = Vec::new();
            tlen = 0;
            let ghost st1 = ComposeState {
                out: out@,
                prefix: prefix@,
                tlen: tlen as int,
                tent,
                jamos: jamos@,
            };
            proof {
                assert(st1.out =~= flush(st0).out);
                assert(st1.jamos =~= flush(st0).jamos);
                assert(st1.prefix =~= flush(st0).prefix);
                assert(st1 == flush(st0));
            }
            let p1 = snoc_chars(&prefix, c);
            let rv1 = table::find_rev(&p1);
            let ex1 = table::find_ext(&p1);
            proof {
                assert(p1@ =~= st1.prefix.push(c));
            }
            if rv1.is_some() && ex1 {
                prefix = p1;
                tlen = prefix.len();
                tent = rv1;
            } else if rv1.is_some() {
                let comp1 = rv1.unwrap();
                emit_jamos(&mut out, &mut jamos);
                out.push(comp1);
                proof {
                    assert(out@ =~= st1.out + flushed_jamos(st1.jamos) + seq![comp1]);
                    assert(prefix@ =~= Seq::<char>::empty());
                    assert(jamos@ =~= Seq::<char>::empty());
                }
            } else if ex1 {
                prefix = p1;
            } else if hangul::is_hangul_conjoinable_jamo(c) {
                jamos.push(c);
            } else {
                emit_jamos(&mut out, &mut jamos);
                out.push(c);
                proof {
                    assert(out@ =~= st1.out + flushed_jamos(st1.jamos) + seq![c]);
                    assert(jamos@ =~= Seq::<char>::empty());
                }
            }
            proof {
                assert((ComposeState {
                    out: out@,
                    prefix: prefix@,
                    tlen: tlen as int,
                    tent,
                    jamos: jamos@,
                }) == step(st1, c));
                assert(step(st0, c) == step(st1, c));
            }
        } else if hangul::is_hangul_conjoinable_jamo(c) {
            jamos.push(c);
            proof {
                assert((ComposeState {
                    out: out@,
                    prefix: prefix@,
                    tlen: tlen as int,
                    tent,
                    jamos: jamos@,
                }) == step(st0, c));
            }
        } else {
            emit_jamos(&mut out, &mut jamos);
            out.push(c);
            proof {
                assert(out@ =~= st0.out + flushed_jamos(st0.jamos) + seq![c]);
                assert(jamos@ =~= Seq::<char>::empty());
                assert((ComposeState {
                    out: out@,
                    prefix: prefix@,
                    tlen: tlen as int,
                    tent,
                    jamos: jamos@,
                }) == step(st0, c));
            }
        }
        i = i + 1;
        proof {
            assert((ComposeState {
                out: out@,
                prefix: prefix@,
                tlen: tlen as int,
                tent,
                jamos: jamos@,
            }) == run(init_state(), v@.take(i as int)));
        }
    }
    let ghost stf = ComposeState {
        out: out@,
        prefix: prefix@,
        tlen: tlen as int,
        tent,
        jamos: jamos@,
    };
    proof {
        assert(v@.take(i as int) =~= v@);
        assert(stf == run(init_state(), v@));
    }
    if tent.is_some() {
        let t = tent.unwrap();
        out.push(t);
    }
    emit_jamos(&mut out, &mut jamos);
    emit_tail(&mut out, &prefix, tlen);
    proof {
        assert(out@ =~= finalize(stf));
    }
    out
}

} // verus!
