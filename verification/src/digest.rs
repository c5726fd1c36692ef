//! What is fed to the hasher, and in what order.
//!
//! A digest is what std's `DefaultHasher` returns after a sequence of
//! writes. The functions here fix the writes for texts, optional texts and
//! flags, so that a digest is a function of the values written.

use std::collections::hash_map::DefaultHasher;
use std::hash::Hasher;
use vstd::prelude::*;
use vstd::std_specs::hash::DefaultHasherAdditionalSpecFns;
use vstd::utf8::encode_utf8;

verus! {

/// The byte written for a flag.
pub open spec fn flag_byte(b: bool) -> u8 {
    if b {
        1u8
    } else {
        0u8
    }
}

/// The writes for a text: its UTF-8 bytes, then an end mark.
pub open spec fn text_writes(s: Seq<char>) -> Seq<Seq<u8>> {
    seq![encode_utf8(s), seq![0xffu8]]
}

/// The writes for an optional text: a presence byte, then the text if any.
pub open spec fn opt_text_writes(o: Option<Seq<char>>) -> Seq<Seq<u8>> {
    match o {
        Some(s) => seq![seq![1u8]] + text_writes(s),
        None => seq![seq![0u8]],
    }
}

/// The digest of a sequence of writes.
pub open spec fn digest_of_writes(writes: Seq<Seq<u8>>) -> u64 {
    DefaultHasher::spec_finish(writes)
}

/// Writes one byte.
pub fn write_byte(h: &mut DefaultHasher, b: u8)
    ensures
        final(h)@ == old(h)@.push(seq![b]),
{
    let bytes: [u8; 1] = [b];
    h.write(bytes.as_slice());
    assert(bytes@ =~= seq![b]);
}

/// Writes a flag as one byte.
pub fn write_flag(h: &mut DefaultHasher, b: bool)
    ensures
        final(h)@ == old(h)@.push(seq![flag_byte(b)]),
{
    if b {
        write_byte(h, 1u8);
    } else {
        write_byte(h, 0u8);
    }
}

/// Writes a text.
pub fn write_text(h: &mut DefaultHasher, s: &str)
    ensures
        final(h)@ == old(h)@ + text_writes(s@),
{
    h.write(s.as_bytes());
    write_byte(h, 0xffu8);
    assert(h@ =~= old(h)@ + text_writes(s@));
}

/// Writes an optional text.
pub fn write_opt_text(h: &mut DefaultHasher, o: &Option<String>)
    ensures
        final(h)@ == old(h)@ + opt_text_writes(crate::text::opt_view(*o)),
{
    match o {
        Some(s) => {
            write_byte(h, 1u8);
            write_text(h, s.as_str());
            assert(h@ =~= old(h)@ + opt_text_writes(Some(s@)));
        },
        None => {
            write_byte(h, 0u8);
            assert(h@ =~= old(h)@ + opt_text_writes(None));
        },
    }
}

} // verus!
