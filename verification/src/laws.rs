//! The engine's laws: round trips through the table, idempotence of the
//! two passes, and pass-through of unrelated characters.

use vstd::prelude::*;
use crate::compose;
use crate::decompose;
use crate::hangul;
use crate::table;

verus! {

/// Every table entry decomposes into one to four characters.
pub proof fn lemma_parts_bounded(j: int)
    requires
        0 <= j < table::table_len(),
    ensures
        1 <= table::parts_at(j).len() <= 4,
{
}

/// Law (table round trip, decomposing side): a character the table maps
/// to `d` decomposes into exactly `d`.
pub proof fn lemma_table_round_trip_decompose(c: char, d: Seq<char>)
    requires
        table::lookup_fwd(c) == Some(d),
    ensures
        decompose::spec_decompose(seq![c]) == d,
{
    decompose::lemma_decompose_one(c);
}

/// Along a proper prefix of a table decomposition the pass only consumes:
/// nothing is emitted and the consumed path is exactly that prefix.
proof fn lemma_walk_value(d: Seq<char>, j: int, k: int)
    requires
        0 <= j < table::table_len(),
        table::parts_at(j) == d,
        0 <= k < d.len(),
    ensures
        ({
            let st = compose::run(compose::init_state(), d.take(k));
            &&& st.out == Seq::<char>::empty()
            &&& st.jamos == Seq::<char>::empty()
            &&& st.prefix == d.take(k)
            &&& 0 <= st.tlen <= k
        }),
    decreases k,
{
    if k == 0 {
        assert(d.take(0) =~= Seq::<char>::empty());
    } else {
        lemma_walk_value(d, j, k - 1);
        let st = compose::run(compose::init_state(), d.take(k - 1));
        compose::lemma_run_snoc(compose::init_state(), d, k - 1);
        let c = d[k - 1];
        let p2 = st.prefix.push(c);
        assert(p2 =~= d.take(k));
        assert(table::parts_at(j).len() > d.take(k).len());
        assert(table::parts_at(j).take(d.take(k).len() as int) =~= d.take(k));
        table::lemma_ext_intro(0, j, d.take(k));
        assert(table::has_ext(p2));
    }
}

/// Law (table round trip, composing side): a sequence that is exactly a
/// table entry's decomposition composes into exactly that entry's
/// composed character.
pub proof fn lemma_table_round_trip_compose(d: Seq<char>, c: char)
    requires
        table::lookup_rev(d) == Some(c),
    ensures
        compose::spec_compose(d) == seq![c],
{
    table::lemma_rev_witness(0, d);
    let j = choose|j: int|
        0 <= j < table::table_len() && table::parts_at(j) == d && table::rev_from(0, d) == Some(
            table::key_at(j),
        );
    lemma_parts_bounded(j);
    let n = d.len() as int;
    lemma_walk_value(d, j, n - 1);
    let st = compose::run(compose::init_state(), d.take(n - 1));
    compose::lemma_run_snoc(compose::init_state(), d, n - 1);
    let p2 = st.prefix.push(d[n - 1]);
    assert(p2 =~= d);
    assert(d.take(n) =~= d);
    let stf = compose::run(compose::init_state(), d);
    assert(stf == compose::step(st, d[n - 1]));
    if table::has_ext(d) {
        assert(stf.tent == Some(c));
        assert(stf.tlen == d.len());
        assert(compose::pending(stf) =~= Seq::<char>::empty());
        assert(compose::flushed_jamos(stf.jamos) =~= Seq::<char>::empty());
        assert(compose::finalize(stf) =~= seq![c]);
    } else {
        assert(stf.out =~= seq![c]);
        assert(compose::pending(stf) =~= Seq::<char>::empty());
        assert(compose::flushed_jamos(stf.jamos) =~= Seq::<char>::empty());
        assert(compose::finalize(stf) =~= seq![c]);
    }
}

/// The table is decompose-closed: no character of any entry's
/// decomposition has an entry of its own or is a precomposed syllable,
/// and no entry's key is a conjoining jamo.
pub open spec fn table_closed() -> bool {
    &&& forall|i: int, k: int|
        0 <= i < table::table_len() && 0 <= k < table::parts_at(i).len() ==> (table::lookup_fwd(
            #[trigger] table::parts_at(i)[k],
        ) is None && !hangul::is_syllable(table::parts_at(i)[k]))
    &&& forall|i: int|
        0 <= i < table::table_len() ==> !hangul::is_conjoining_jamo(#[trigger] table::key_at(i))
}

/// Scan the whole table and report whether it is decompose-closed.
/// The shipped table is: see the test exercising this.
pub fn check_table_closed() -> (r: bool)
    ensures
        r ==> table_closed(),
{
    let n = table::table_entry_count();
    let mut i: usize = 0;
    while i < n
        invariant
            n as int == table::table_len(),
            i <= n,
            forall|i2: int, k: int|
                0 <= i2 < i && 0 <= k < table::parts_at(i2).len() ==> (table::lookup_fwd(
                    #[trigger] table::parts_at(i2)[k],
                ) is None && !hangul::is_syllable(table::parts_at(i2)[k])),
            forall|i2: int|
                0 <= i2 < i ==> !hangul::is_conjoining_jamo(#[trigger] table::key_at(i2)),
        decreases n - i,
    {
        let e = table::entry_at(i);
        if hangul::is_hangul_conjoinable_jamo(e.0) {
            return false;
        }
        let mut k: usize = 0;
        while k < e.1.len()
            invariant
                n as int == table::table_len(),
                i < n,
                k <= e.1@.len(),
                e.1@ == table::parts_at(i as int),
                forall|i2: int, k2: int|
                    0 <= i2 < i && 0 <= k2 < table::parts_at(i2).len() ==> (table::lookup_fwd(
                        #[trigger] table::parts_at(i2)[k2],
                    ) is None && !hangul::is_syllable(table::parts_at(i2)[k2])),
                forall|k2: int|
                    0 <= k2 < k ==> (table::lookup_fwd(
                        #[trigger] table::parts_at(i as int)[k2],
                    ) is None && !hangul::is_syllable(table::parts_at(i as int)[k2])),
            decreases e.1@.len() - k,
        {
            let c = e.1[k];
            if table::find_fwd(c).is_some() {
                return false;
            }
            if hangul::is_hangul_precomposed_syllable(c) {
                return false;
            }
            k = k + 1;
        }
        i = i + 1;
    }
    true
}

/// A sequence of characters with no table entry and outside the
/// syllable range decomposes to itself.
proof fn lemma_decompose_inert(s: Seq<char>)
    requires
        forall|m: int|
            0 <= m < s.len() ==> (table::lookup_fwd(#[trigger] s[m]) is None
                && !hangul::is_syllable(s[m])),
    ensures
        decompose::spec_decompose(s) == s,
    decreases s.len(),
{
    if s.len() == 0 {
        assert(decompose::spec_decompose(s) =~= s);
    } else {
        lemma_decompose_inert(s.drop_first());
        assert(decompose::spec_decompose_char(s[0]) == seq![s[0]]);
        assert(seq![s[0]] + s.drop_first() =~= s);
    }
}

/// The jamo decomposition of a syllable holds conjoining jamo only, and
/// never a syllable.
proof fn lemma_syllable_parts_are_jamo(c: char)
    requires
        hangul::is_syllable(c),
    ensures
        forall|m: int|
            0 <= m < hangul::spec_decompose_syllable(c).len()
                ==> hangul::is_conjoining_jamo(#[trigger] hangul::spec_decompose_syllable(c)[m])
                && !hangul::is_syllable(hangul::spec_decompose_syllable(c)[m]),
{
    let s = c as int - 0xAC00;
    assert(0 <= s / 588 <= 18 && 0 <= (s % 588) / 28 <= 20 && 0 <= s % 28 <= 27)
        by (nonlinear_arith)
        requires
            0 <= s < 11172,
    ;
    let d = hangul::spec_decompose_syllable(c);
    assert(hangul::is_lead_jamo(d[0]));
    assert(hangul::is_vowel_jamo(d[1]));
    if s % 28 != 0 {
        assert(hangul::is_trail_jamo(d[2]));
    }
}

/// A conjoining jamo never has a table entry, when the table is closed.
proof fn lemma_jamo_no_entry(c: char)
    requires
        table_closed(),
        hangul::is_conjoining_jamo(c),
    ensures
        table::lookup_fwd(c) is None,
{
    if table::lookup_fwd(c) is Some {
        table::lemma_fwd_witness(0, c);
    }
}

/// Law: decomposing is idempotent — a second pass over already
/// decomposed text changes nothing — provided the table is
/// decompose-closed, which `check_table_closed` confirms of the shipped
/// table.
pub proof fn lemma_decompose_idempotent(s: Seq<char>)
    requires
        table_closed(),
    ensures
        decompose::spec_decompose(decompose::spec_decompose(s)) == decompose::spec_decompose(s),
    decreases s.len(),
{
    if s.len() == 0 {
    } else {
        let c = s[0];
        let dc = decompose::spec_decompose_char(c);
        let rest = decompose::spec_decompose(s.drop_first());
        lemma_decompose_idempotent(s.drop_first());
        decompose::lemma_decompose_append(dc, rest);
        if table::lookup_fwd(c) is Some {
            table::lemma_fwd_witness(0, c);
            let j = choose|j: int|
                0 <= j < table::table_len() && table::key_at(j) == c && table::fwd_from(0, c)
                    == Some(table::parts_at(j));
            assert(dc == table::parts_at(j));
            assert(forall|m: int|
                0 <= m < dc.len() ==> (table::lookup_fwd(#[trigger] dc[m]) is None
                    && !hangul::is_syllable(dc[m])));
            lemma_decompose_inert(dc);
        } else if hangul::is_syllable(c) {
            lemma_syllable_parts_are_jamo(c);
            assert forall|m: int| 0 <= m < dc.len() implies (table::lookup_fwd(
                #[trigger] dc[m],
            ) is None && !hangul::is_syllable(dc[m])) by {
                lemma_jamo_no_entry(dc[m]);
            }
            lemma_decompose_inert(dc);
        } else {
            assert(dc == seq![c]);
            lemma_decompose_inert(dc);
        }
        assert(decompose::spec_decompose(decompose::spec_decompose(s)) == decompose::spec_decompose(
            dc,
        ) + decompose::spec_decompose(rest));
    }
}

/// A scan over conjoining jamo in which no adjacent pair combines emits
/// every character unchanged.
proof fn lemma_compose_jamos_from_inert(last: char, rest: Seq<char>)
    requires
        hangul::is_conjoining_jamo(last),
        forall|m: int| 0 <= m < rest.len() ==> hangul::is_conjoining_jamo(#[trigger] rest[m]),
        !(rest.len() > 0 && hangul::is_lead_jamo(last) && hangul::is_vowel_jamo(rest[0])),
        forall|m: int|
            0 <= m && m + 1 < rest.len() ==> !(hangul::is_lead_jamo(#[trigger] rest[m])
                && hangul::is_vowel_jamo(rest[m + 1])),
    ensures
        hangul::spec_compose_jamos_from(last, rest) == seq![last] + rest,
    decreases rest.len(),
{
    if rest.len() == 0 {
        assert(seq![last] + rest =~= seq![last]);
    } else {
        assert(!hangul::is_lv_syllable(last));
        assert(hangul::jamo_step(last, rest[0]) is None);
        lemma_compose_jamos_from_inert(rest[0], rest.drop_first());
        assert(seq![last] + (seq![rest[0]] + rest.drop_first()) =~= seq![last] + rest);
    }
}

/// A run of conjoining jamo in which no adjacent pair combines passes
/// through the composing scan unchanged.
proof fn lemma_compose_jamos_inert(j: Seq<char>)
    requires
        forall|m: int| 0 <= m < j.len() ==> hangul::is_conjoining_jamo(#[trigger] j[m]),
        forall|m: int|
            0 <= m && m + 1 < j.len() ==> !(hangul::is_lead_jamo(#[trigger] j[m])
                && hangul::is_vowel_jamo(j[m + 1])),
    ensures
        hangul::spec_compose_jamos(j) == j,
{
    if j.len() == 0 {
    } else {
        assert(forall|m: int|
            0 <= m < j.drop_first().len() ==> hangul::is_conjoining_jamo(
                #[trigger] j.drop_first()[m],
            ));
        assert(forall|m: int|
            0 <= m && m + 1 < j.drop_first().len() ==> !(hangul::is_lead_jamo(
                #[trigger] j.drop_first()[m],
            ) && hangul::is_vowel_jamo(j.drop_first()[m + 1])));
        lemma_compose_jamos_from_inert(j[0], j.drop_first());
        assert(seq![j[0]] + j.drop_first() =~= j);
    }
}

/// `s` contains no decomposable material: no contiguous run of its
/// characters is a complete table decomposition, and no two adjacent
/// characters are a combinable leading-consonant/vowel pair.
pub open spec fn composed_clean(s: Seq<char>) -> bool {
    &&& forall|a: int, b: int|
        0 <= a < b <= s.len() ==> table::lookup_rev(#[trigger] s.subrange(a, b)) is None
    &&& forall|a: int|
        0 <= a && a + 1 < s.len() ==> !(hangul::is_lead_jamo(#[trigger] s[a])
            && hangul::is_vowel_jamo(s[a + 1]))
}

/// On clean input the pass never matches: after `k` characters the
/// output plus the buffered jamo run plus the consumed path is exactly
/// the consumed input, in order.
proof fn lemma_clean_walk(s: Seq<char>, k: int)
    requires
        composed_clean(s),
        0 <= k <= s.len(),
    ensures
        ({
            let st = compose::run(compose::init_state(), s.take(k));
            &&& st.tent is None
            &&& st.tlen == 0
            &&& st.prefix.len() + st.jamos.len() <= k
            &&& st.prefix == s.subrange(k - st.prefix.len(), k)
            &&& st.jamos == s.subrange(
                k - st.prefix.len() - st.jamos.len(),
                k - st.prefix.len(),
            )
            &&& st.out == s.take(k - st.prefix.len() - st.jamos.len())
            &&& forall|m: int|
                0 <= m < st.jamos.len() ==> hangul::is_conjoining_jamo(#[trigger] st.jamos[m])
        }),
    decreases k,
{
    if k == 0 {
        assert(s.take(0) =~= Seq::<char>::empty());
        let st = compose::run(compose::init_state(), s.take(0));
        assert(st == compose::init_state());
        assert(st.prefix =~= s.subrange(0, 0));
        assert(st.jamos =~= s.subrange(0, 0));
        assert(st.out =~= s.take(0));
    } else {
        lemma_clean_walk(s, k - 1);
        let st = compose::run(compose::init_state(), s.take(k - 1));
        compose::lemma_run_snoc(compose::init_state(), s, k - 1);
        let c = s[k - 1];
        let plen = st.prefix.len() as int;
        let jlen = st.jamos.len() as int;
        let st2 = compose::run(compose::init_state(), s.take(k));
        assert(st2 == compose::step(st, c));
        let p2 = st.prefix.push(c);
        assert(p2 =~= s.subrange(k - 1 - plen, k));
        assert(table::lookup_rev(s.subrange(k - 1 - plen, k)) is None);
        assert(table::lookup_rev(p2) is None);
        if table::has_ext(p2) {
            assert(st2.prefix == p2);
            assert(st2.prefix == s.subrange(k - st2.prefix.len(), k));
            assert(st2.jamos =~= s.subrange(
                k - st2.prefix.len() - st2.jamos.len(),
                k - st2.prefix.len(),
            ));
            assert(st2.out =~= s.take(k - st2.prefix.len() - st2.jamos.len()));
        } else if plen > 0 {
            let stf = compose::flush(st);
            assert(compose::pending(st) =~= st.prefix);
            if jlen > 0 {
                assert(forall|m: int|
                    0 <= m && m + 1 < st.jamos.len() ==> !(hangul::is_lead_jamo(
                        #[trigger] st.jamos[m],
                    ) && hangul::is_vowel_jamo(st.jamos[m + 1])));
                lemma_compose_jamos_inert(st.jamos);
            }
            assert(compose::flushed_jamos(st.jamos) == st.jamos);
            assert(stf.out =~= s.take(k - 1));
            assert(stf.prefix =~= Seq::<char>::empty());
            assert(stf.jamos =~= Seq::<char>::empty());
            assert(st2 == compose::step(stf, c));
            let p1 = stf.prefix.push(c);
            assert(p1 =~= s.subrange(k - 1, k));
            assert(table::lookup_rev(s.subrange(k - 1, k)) is None);
            assert(table::lookup_rev(p1) is None);
            if table::has_ext(p1) {
                assert(st2.prefix == p1);
                assert(st2.prefix == s.subrange(k - st2.prefix.len(), k));
                assert(st2.jamos =~= s.subrange(k - 1, k - 1));
                assert(st2.out =~= s.take(k - 1));
            } else if hangul::is_conjoining_jamo(c) {
                assert(st2.jamos =~= s.subrange(k - 1, k));
                assert(st2.prefix =~= s.subrange(k, k));
                assert(st2.out =~= s.take(k - 1));
            } else {
                assert(st2.out =~= s.take(k));
                assert(st2.prefix =~= s.subrange(k, k));
                assert(st2.jamos =~= s.subrange(k, k));
            }
        } else {
            assert(st.prefix =~= Seq::<char>::empty());
            assert(p2 =~= s.subrange(k - 1, k));
            if hangul::is_conjoining_jamo(c) {
                assert(st2.jamos == st.jamos.push(c));
                assert(st2.jamos =~= s.subrange(k - 1 - jlen, k));
                assert(st2.prefix =~= s.subrange(k, k));
                assert(st2.jamos.len() == jlen + 1);
                assert(st2.out =~= s.take(k - st2.prefix.len() - st2.jamos.len()));
            } else {
                if jlen > 0 {
                    assert(forall|m: int|
                        0 <= m && m + 1 < st.jamos.len() ==> !(hangul::is_lead_jamo(
                            #[trigger] st.jamos[m],
                        ) && hangul::is_vowel_jamo(st.jamos[m + 1])));
                    lemma_compose_jamos_inert(st.jamos);
                }
                assert(compose::flushed_jamos(st.jamos) == st.jamos);
                assert(st2.out =~= s.take(k));
                assert(st2.prefix =~= s.subrange(k, k));
                assert(st2.jamos =~= s.subrange(k, k));
            }
        }
    }
}

/// Law: composing is the identity on text that contains no decomposable
/// sequences — no contiguous run equal to a table decomposition and no
/// combinable jamo pair.
pub proof fn lemma_compose_idempotent(s: Seq<char>)
    requires
        composed_clean(s),
    ensures
        compose::spec_compose(s) == s,
{
    let n = s.len() as int;
    lemma_clean_walk(s, n);
    let st = compose::run(compose::init_state(), s.take(n));
    assert(s.take(n) =~= s);
    let jlen = st.jamos.len() as int;
    if jlen > 0 {
        assert(forall|m: int|
            0 <= m && m + 1 < st.jamos.len() ==> !(hangul::is_lead_jamo(#[trigger] st.jamos[m])
                && hangul::is_vowel_jamo(st.jamos[m + 1])));
        lemma_compose_jamos_inert(st.jamos);
    }
    assert(compose::flushed_jamos(st.jamos) == st.jamos);
    assert(compose::pending(st) =~= st.prefix);
    assert(compose::finalize(st) =~= s);
}

/// A character the engine never touches: no table entry, not a
/// character of any entry's decomposition, and no Hangul relationship.
pub open spec fn untouched(c: char) -> bool {
    &&& table::lookup_fwd(c) is None
    &&& forall|i: int, k: int|
        0 <= i < table::table_len() && 0 <= k < table::parts_at(i).len() ==> (
        #[trigger] table::parts_at(i)[k]) != c
    &&& !hangul::is_syllable(c)
    &&& !hangul::is_conjoining_jamo(c)
}

/// Law: a string of untouched characters passes through both operations
/// unchanged.
pub proof fn lemma_passthrough(s: Seq<char>)
    requires
        forall|m: int| 0 <= m < s.len() ==> untouched(#[trigger] s[m]),
    ensures
        decompose::spec_decompose(s) == s,
        compose::spec_compose(s) == s,
{
    lemma_decompose_inert(s);
    assert forall|a: int, b: int|
        0 <= a < b <= s.len() implies table::lookup_rev(#[trigger] s.subrange(a, b)) is None by {
        if table::lookup_rev(s.subrange(a, b)) is Some {
            table::lemma_rev_witness(0, s.subrange(a, b));
            let j = choose|j: int|
                0 <= j < table::table_len() && table::parts_at(j) == s.subrange(a, b)
                    && table::rev_from(0, s.subrange(a, b)) == Some(table::key_at(j));
            assert(table::parts_at(j)[0] == s[a]);
            assert(untouched(s[a]));
        }
    }
    assert(composed_clean(s));
    lemma_compose_idempotent(s);
}

/// No two entries share a composed character, and no two share a
/// decomposed sequence.
pub open spec fn table_injective() -> bool {
    &&& forall|i: int, j: int|
        #![trigger table::key_at(i), table::key_at(j)]
        0 <= i < j < table::table_len() ==> table::key_at(i) != table::key_at(j)
    &&& forall|i: int, j: int|
        #![trigger table::parts_at(i), table::parts_at(j)]
        0 <= i < j < table::table_len() ==> table::parts_at(i) != table::parts_at(j)
}

/// Scan all pairs of entries and report whether the table is free of
/// duplicate keys and duplicate decompositions.  The shipped table is:
/// see the test exercising this.
pub fn check_table_injective() -> (r: bool)
    ensures
        r ==> table_injective(),
{
    let n = table::table_entry_count();
    let mut i: usize = 0;
    while i < n
        invariant
            n as int == table::table_len(),
            i <= n,
            forall|i2: int, j2: int|
                #![trigger table::key_at(i2), table::key_at(j2)]
                0 <= i2 < j2 < table::table_len() && i2 < i ==> table::key_at(i2)
                    != table::key_at(j2),
            forall|i2: int, j2: int|
                #![trigger table::parts_at(i2), table::parts_at(j2)]
                0 <= i2 < j2 < table::table_len() && i2 < i ==> table::parts_at(i2)
                    != table::parts_at(j2),
        decreases n - i,
    {
        let ei = table::entry_at(i);
        let mut j: usize = i + 1;
        while j < n
            invariant
                n as int == table::table_len(),
                i < j <= n,
                ei.0 == table::key_at(i as int),
                ei.1@ == table::parts_at(i as int),
                forall|j2: int|
                    #![trigger table::key_at(j2)]
                    i < j2 < j ==> table::key_at(i as int) != table::key_at(j2),
                forall|j2: int|
                    #![trigger table::parts_at(j2)]
                    i < j2 < j ==> table::parts_at(i as int) != table::parts_at(j2),
            decreases n - j,
        {
            let ej = table::entry_at(j);
            if ei.0 == ej.0 {
                return false;
            }
            if table::chars_eq(&ei.1, &ej.1) {
                return false;
            }
            j = j + 1;
        }
        i = i + 1;
    }
    true
}

/// With no duplicate keys, the forward lookup of an entry's key is that
/// entry's decomposition.
proof fn lemma_injective_fwd_from(k: int, i: int)
    requires
        table_injective(),
        0 <= k <= i < table::table_len(),
    ensures
        table::fwd_from(k, table::key_at(i)) == Some(table::parts_at(i)),
    decreases i - k,
{
    if k < i {
        lemma_injective_fwd_from(k + 1, i);
    }
}

/// With no duplicate decompositions, the reverse lookup of an entry's
/// decomposition is that entry's key.
proof fn lemma_injective_rev_from(k: int, i: int)
    requires
        table_injective(),
        0 <= k <= i < table::table_len(),
    ensures
        table::rev_from(k, table::parts_at(i)) == Some(table::key_at(i)),
    decreases i - k,
{
    if k < i {
        lemma_injective_rev_from(k + 1, i);
    }
}

/// Law (table round trip, entry form): when the table holds no
/// duplicate keys or decompositions — `check_table_injective` confirms
/// the shipped one holds none — every entry round-trips: its key
/// decomposes into exactly its decomposed sequence, and that sequence
/// composes back into exactly its key.
pub proof fn lemma_table_entry_round_trip(i: int)
    requires
        table_injective(),
        0 <= i < table::table_len(),
    ensures
        decompose::spec_decompose(seq![table::key_at(i)]) == table::parts_at(i),
        compose::spec_compose(table::parts_at(i)) == seq![table::key_at(i)],
{
    lemma_injective_fwd_from(0, i);
    lemma_table_round_trip_decompose(table::key_at(i), table::parts_at(i));
    lemma_injective_rev_from(0, i);
    lemma_table_round_trip_compose(table::parts_at(i), table::key_at(i));
}

} // verus!
