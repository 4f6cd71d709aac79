//! The trailer format of a script that is packed behind an executable for the
//! RustPython engine: the executable's bytes, then the configured marker, then
//! the script's length as eight little-endian bytes, then the script.
use vstd::bytes::*;
use vstd::prelude::*;
use vstd::slice::*;
use vstd::utf8::*;

use crate::text::string_from_utf8;

verus! {

/// `bytes` holds at offset `pos` the marker, then an eight-byte little-endian
/// length that counts exactly the bytes that follow it up to the end.
pub open spec fn trailer_at(bytes: Seq<u8>, marker: Seq<u8>, pos: int) -> bool {
    let body = pos + marker.len() + 8;
    &&& 0 <= pos
    &&& body <= bytes.len()
    &&& bytes.subrange(pos, pos + marker.len()) == marker
    &&& spec_u64_from_le_bytes(bytes.subrange(pos + marker.len(), body)) as int == bytes.len() - body
}

/// Some offset above zero holds a trailer.
pub open spec fn has_trailer(bytes: Seq<u8>, marker: Seq<u8>) -> bool {
    exists|pos: int| 1 <= pos && #[trigger] trailer_at(bytes, marker, pos)
}

/// `pos` is the trailer that a search from the end meets first: it lies above
/// offset zero and no trailer lies behind it.
pub open spec fn is_last_trailer(bytes: Seq<u8>, marker: Seq<u8>, pos: int) -> bool {
    &&& 1 <= pos
    &&& trailer_at(bytes, marker, pos)
    &&& forall|later: int| pos < later ==> !#[trigger] trailer_at(bytes, marker, later)
}

/// The script bytes that follow the trailer at `pos`.
pub open spec fn script_after(bytes: Seq<u8>, marker: Seq<u8>, pos: int) -> Seq<u8> {
    bytes.subrange(pos + marker.len() + 8, bytes.len() as int)
}

/// The bytes of a packed executable.
pub open spec fn embedded_payload(exe: Seq<u8>, marker: Seq<u8>, script: Seq<u8>) -> Seq<u8> {
    exe + marker + spec_u64_to_le_bytes(script.len() as u64) + script
}

fn matches_at(bytes: &[u8], pos: usize, pat: &[u8]) -> (r: bool)
    requires
        pos + pat@.len() <= bytes@.len(),
    ensures
        r == (bytes@.subrange(pos as int, pos + pat@.len()) == pat@),
{
    let n = bytes.len();
    let mut k: usize = 0;
    while k < pat.len()
        invariant
            k <= pat@.len(),
            n == bytes@.len(),
            pos + pat@.len() <= bytes@.len(),
            forall|t: int| 0 <= t < k ==> bytes@[pos + t] == pat@[t],
        decreases pat@.len() - k,
    {
        if bytes[pos + k] != pat[k] {
            assert(bytes@.subrange(pos as int, pos + pat@.len())[k as int] != pat@[k as int]);
            return false;
        }
        k += 1;
    }
    assert(bytes@.subrange(pos as int, pos + pat@.len()) =~= pat@);
    true
}

fn trailer_check(bytes: &[u8], marker: &[u8], pos: usize) -> (r: bool)
    requires
        pos + marker@.len() + 8 <= bytes@.len(),
    ensures
        r == trailer_at(bytes@, marker@, pos as int),
{
    let n = bytes.len();
    if !matches_at(bytes, pos, marker) {
        return false;
    }
    let len_start = pos + marker.len();
    let len_field = slice_subrange(bytes, len_start, len_start + 8);
    let script_len = u64_from_le_bytes(len_field);
    let rest = n - (len_start + 8);
    (rest as u64) == script_len
}

/// Searches backwards from the last offset where a trailer fits, down to offset
/// one, and returns the offset of the first trailer met.
pub fn locate_embedded_script(exe_bytes: &[u8], marker: &[u8]) -> (r: Option<usize>)
    ensures
        match r {
            Some(pos) => is_last_trailer(exe_bytes@, marker@, pos as int),
            None => !has_trailer(exe_bytes@, marker@),
        },
{
    let n = exe_bytes.len();
    let m = marker.len();
    if n < 8 || n - 8 < m {
        return None;
    }
    let mut i: usize = n - m - 8;
    while i > 0
        invariant
            n == exe_bytes@.len(),
            m == marker@.len(),
            m + 8 <= n,
            i + m + 8 <= n,
            forall|later: int| i < later ==> !#[trigger] trailer_at(exe_bytes@, marker@, later),
        decreases i,
    {
        if trailer_check(exe_bytes, marker, i) {
            return Some(i);
        }
        i -= 1;
    }
    None
}

/// Finds the script that was packed behind the executable for the RustPython
/// engine and decodes it as UTF-8.
pub fn find_rustpython_embedded(exe_bytes: &[u8], marker: &[u8]) -> (r: Option<String>)
    ensures
        !has_trailer(exe_bytes@, marker@) ==> r is None,
        forall|pos: int|
            #[trigger] is_last_trailer(exe_bytes@, marker@, pos) ==> {
                &&& (r is Some <==> valid_utf8(script_after(exe_bytes@, marker@, pos)))
                &&& (r matches Some(s) ==> s@ == decode_utf8(script_after(exe_bytes@, marker@, pos)))
            },
{
    match locate_embedded_script(exe_bytes, marker) {
        None => None,
        Some(pos) => {
            let n = exe_bytes.len();
            let start = pos + marker.len() + 8;
            let tail = slice_to_vec(slice_subrange(exe_bytes, start, exe_bytes.len()));
            let r = string_from_utf8(tail);
            assert forall|other: int| #[trigger]
                is_last_trailer(exe_bytes@, marker@, other) implies other == pos as int by {
                if other < pos {
                    assert(!trailer_at(exe_bytes@, marker@, pos as int));
                } else if other > pos {
                    assert(!trailer_at(exe_bytes@, marker@, other));
                }
            }
            r
        },
    }
}

fn push_all(out: &mut Vec<u8>, data: &[u8])
    ensures
        final(out)@ == old(out)@ + data@,
{
    let mut k: usize = 0;
    while k < data.len()
        invariant
            k <= data@.len(),
            out@ == old(out)@ + data@.subrange(0, k as int),
        decreases data@.len() - k,
    {
        out.push(data[k]);
        k += 1;
        assert(out@ =~= old(out)@ + data@.subrange(0, k as int));
    }
    assert(data@.subrange(0, data@.len() as int) =~= data@);
}

/// Appends the marker, the script's length and the script to the executable's
/// bytes, which is how a script is packed for the RustPython engine.
pub fn append_embedded_script(exe_bytes: &mut Vec<u8>, marker: &[u8], script: &[u8])
    ensures
        final(exe_bytes)@ == embedded_payload(old(exe_bytes)@, marker@, script@),
{
    push_all(exe_bytes, marker);
    let len_field = u64_to_le_bytes(script.len() as u64);
    push_all(exe_bytes, len_field.as_slice());
    push_all(exe_bytes, script);
}

/// A script packed behind a non-empty executable is found again, and decoded,
/// unless the packed bytes hold another valid trailer further on (which can
/// only lie inside the script itself).
pub proof fn lemma_embedded_script_round_trip(exe: Seq<u8>, marker: Seq<u8>, script: Seq<u8>)
    requires
        exe.len() >= 1,
        script.len() <= u64::MAX,
        forall|later: int|
            exe.len() < later ==> !#[trigger] trailer_at(
                embedded_payload(exe, marker, script),
                marker,
                later,
            ),
    ensures
        is_last_trailer(embedded_payload(exe, marker, script), marker, exe.len() as int),
        script_after(embedded_payload(exe, marker, script), marker, exe.len() as int) == script,
{
    let p = embedded_payload(exe, marker, script);
    let e = exe.len() as int;
    let m = marker.len() as int;
    lemma_auto_spec_u64_to_from_le_bytes();
    let lf = spec_u64_to_le_bytes(script.len() as u64);
    assert(lf.len() == 8);
    assert(p.subrange(e, e + m) =~= marker);
    assert(p.subrange(e + m, e + m + 8) =~= lf);
    assert(p.subrange(e + m + 8, p.len() as int) =~= script);
    assert(trailer_at(p, marker, e));
}

/// A text script packed as its UTF-8 bytes behind a non-empty executable is
/// found again and decodes to the same text, under the same proviso as
/// `lemma_embedded_script_round_trip`.
pub proof fn lemma_embedded_text_round_trip(exe: Seq<u8>, marker: Seq<u8>, text: Seq<char>)
    requires
        exe.len() >= 1,
        encode_utf8(text).len() <= u64::MAX,
        forall|later: int|
            exe.len() < later ==> !#[trigger] trailer_at(
                embedded_payload(exe, marker, encode_utf8(text)),
                marker,
                later,
            ),
    ensures
        is_last_trailer(embedded_payload(exe, marker, encode_utf8(text)), marker, exe.len() as int),
        valid_utf8(
            script_after(embedded_payload(exe, marker, encode_utf8(text)), marker, exe.len() as int),
        ),
        decode_utf8(
            script_after(embedded_payload(exe, marker, encode_utf8(text)), marker, exe.len() as int),
        ) == text,
{
    lemma_embedded_script_round_trip(exe, marker, encode_utf8(text));
    encode_utf8_valid_utf8(text);
    encode_utf8_decode_utf8(text);
}

} // verus!
