//! Conversion between ordinary composed Unicode text and the decomposed
//! form used by the HFS+ filesystem.
//!
//! The decomposed form is close to NFD but not identical to it: a fixed
//! table maps each supported precomposed character to a short sequence of
//! codepoints (with a filesystem-specific ordering of combining marks),
//! and precomposed Hangul syllables are decomposed arithmetically into
//! conjoining jamo.  `decompose_into_hfs_nfd` applies that decomposition;
//! `compose_from_hfs_nfd` reverses it with longest-match semantics.

use vstd::prelude::*;

pub mod compose;
pub mod decompose;
pub mod hangul;
pub mod laws;
pub mod table;
pub mod text;

pub use hangul::{
    compose_hangul_jamos, decomopse_hangul_syllable, is_hangul_conjoinable_jamo,
    is_hangul_precomposed_syllable,
};

verus! {

/// Apply the filesystem's decomposition to a string: each character is
/// replaced by its table entry if it has one, by its jamo sequence if it
/// is a precomposed Hangul syllable, and kept as it is otherwise.  Total:
/// every input produces an output.
pub fn decompose_into_hfs_nfd(input: &str) -> (r: String)
    ensures
        r@ == decompose::spec_decompose(input@),
{
    let v = text::str_to_chars(input);
    let out = decompose::decompose_chars(&v);
    text::chars_to_string(&out)
}

/// Recompose a string from the filesystem's decomposed form: a single
/// forward pass that reassembles composed characters with longest-match
/// semantics, composes runs of conjoining jamo arithmetically, and passes
/// everything unmatched through unchanged.  Total: every input produces
/// an output.
pub fn compose_from_hfs_nfd(input: &str) -> (r: String)
    ensures
        r@ == compose::spec_compose(input@),
{
    let v = text::str_to_chars(input);
    let out = compose::compose_chars(&v);
    text::chars_to_string(&out)
}

} // verus!
