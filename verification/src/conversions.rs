//! The bit-level value-tagging scheme, and the conversion of diagnostic texts
//! into the byte images that live in the generated program's data section.
//!
//! A runtime value is a single `i64` machine word whose low bits encode a tag
//! class. [`HEAP_TAG_MASK`] isolates the bits that identify the kind of a
//! heap-allocated object; a value is legally callable exactly when those bits
//! equal [`CLOSURE_TAG`].

use vstd::prelude::*;
use vstd::slice::slice_to_vec;

verus! {

/// Isolates the tag bits that identify the kind of a heap object.
pub const HEAP_TAG_MASK: i64 = 0b111;

/// The tag borne by closures, the only callable heap objects.
pub const CLOSURE_TAG: i64 = 0b110;

/// What it means for a tagged word to be a closure: its heap-tag bits equal
/// the closure tag. Every bit pattern is a valid input.
pub open spec fn is_closure_word(v: i64) -> bool {
    (v & HEAP_TAG_MASK) == CLOSURE_TAG
}

/// Runtime tag test: masks the word and compares against the closure tag.
pub fn is_closure(v: i64) -> (r: bool)
    ensures
        r == is_closure_word(v),
        r == ((v & HEAP_TAG_MASK) == CLOSURE_TAG),
{
    (v & HEAP_TAG_MASK) == CLOSURE_TAG
}

/// Holds when no byte of the sequence is a NUL terminator.
pub open spec fn nul_free(bs: Seq<u8>) -> bool {
    forall|i: int| 0 <= i < bs.len() ==> bs[i] != 0
}

/// The data-section image of a diagnostic text: its bytes followed by a
/// single NUL terminator, so the text-output runtime primitive can consume
/// the symbol's address directly.
pub open spec fn immediate_encoding(bs: Seq<u8>) -> Seq<u8> {
    bs.push(0u8)
}

/// Encodes a diagnostic text as its in-memory immediate image.
///
/// Fails exactly when the text holds an embedded terminator byte, which the
/// image format cannot represent; the error names the offending position.
pub fn string_to_immediate(bytes: &[u8]) -> (r: Result<Vec<u8>, usize>)
    ensures
        r is Ok <==> nul_free(bytes@),
        r matches Ok(v) ==> v@ == immediate_encoding(bytes@),
        r matches Err(i) ==> 0 <= i < bytes@.len() && bytes@[i as int] == 0,
{
    let mut i: usize = 0;
    while i < bytes.len()
        invariant
            i <= bytes@.len(),
            forall|j: int| 0 <= j < i ==> bytes@[j] != 0,
        decreases bytes@.len() - i,
    {
        if bytes[i] == 0 {
            return Err(i);
        }
        i += 1;
    }
    let mut image = slice_to_vec(bytes);
    image.push(0);
    Ok(image)
}

/// What the text-output runtime primitive reads from an installed image: the
/// bytes before the first NUL terminator.
pub open spec fn cstr_text(image: Seq<u8>) -> Seq<u8>
    decreases image.len(),
{
    if image.len() == 0 || image[0] == 0 {
        Seq::empty()
    } else {
        seq![image[0]] + cstr_text(image.skip(1))
    }
}

/// Round trip of the diagnostic encoding: the text-output primitive prints
/// from an immediate image exactly the text that was encoded.
pub proof fn lemma_cstr_of_immediate(bs: Seq<u8>)
    requires
        nul_free(bs),
    ensures
        cstr_text(immediate_encoding(bs)) == bs,
    decreases bs.len(),
{
    let image = immediate_encoding(bs);
    if bs.len() == 0 {
        assert(image[0] == 0);
        assert(cstr_text(image) =~= bs);
    } else {
        assert(image[0] == bs[0] && bs[0] != 0);
        assert(image.skip(1) =~= immediate_encoding(bs.skip(1)));
        lemma_cstr_of_immediate(bs.skip(1));
        assert(seq![bs[0]] + bs.skip(1) =~= bs);
    }
}

} // verus!
