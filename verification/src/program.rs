//! What a dispatch is asked to run: the program text, the buffers it binds,
//! and the grid it is dispatched over, together with the host-side checks
//! that can reject a request before any device work is encoded.
use vstd::prelude::*;
use vstd::string::StringSliceAdditionalSpecFns;

use crate::error::Error;

verus! {

/// The capability a device-side buffer is created with.
///
/// `StorageReadWrite` marks the one buffer the program writes and the host
/// reads back; it is the only kind that is also a copy source. `Storage` is
/// read-only program input; `Uniform` is a fixed-layout constant block.
#[derive(Clone, Copy, Debug, PartialEq, Eq, Structural)]
pub enum BindingKind {
    StorageReadWrite,
    Storage,
    Uniform,
}

/// One input array: the numbered slot it is bound to, the capability its
/// buffer needs, and the bytes the buffer is created with.
pub struct InputBinding {
    pub slot: u32,
    pub kind: BindingKind,
    pub data: Vec<u8>,
}

/// A 1-, 2- or 3-dimensional count of work groups.
#[derive(Clone, Copy, Debug, PartialEq, Eq, Structural)]
pub struct GridDims {
    pub x: u32,
    pub y: u32,
    pub z: u32,
}

/// `needle` occurs in `hay` starting at position `i`.
pub open spec fn occurs_at(hay: Seq<u8>, needle: Seq<u8>, i: int) -> bool {
    &&& 0 <= i
    &&& i + needle.len() <= hay.len()
    &&& hay.subrange(i, i + needle.len()) == needle
}

/// `needle` occurs somewhere in `hay`.
pub open spec fn contains_bytes(hay: Seq<u8>, needle: Seq<u8>) -> bool {
    exists|i: int| occurs_at(hay, needle, i)
}

/// Two of the bindings claim the same slot number.
pub open spec fn has_duplicate_slot(inputs: Seq<InputBinding>) -> bool {
    exists|i: int, j: int|
        0 <= i < j < inputs.len() && #[trigger] inputs[i].slot == #[trigger] inputs[j].slot
}

/// A request is shaped so that a dispatch can read its result back: the
/// read-back index names one of the bindings, that binding is the writable
/// one, and the staging buffer's size is exactly the size of what it pairs
/// with.
pub open spec fn request_wf(inputs: Seq<InputBinding>, output_index: int, output_size: u64) -> bool {
    &&& 0 <= output_index < inputs.len()
    &&& inputs[output_index].kind == BindingKind::StorageReadWrite
    &&& output_size == inputs[output_index].data.len()
}

/// Whether the program text contains the entry point's name at all.
///
/// This is a sound pre-check, not a parse: a text in which the name never
/// occurs cannot declare an entry point of that name, so rejecting it early
/// is always right. A text that merely mentions the name still goes to the
/// device, whose compiler makes the full decision.
pub fn contains_entry_point(source: &str, entry: &str) -> (r: bool)
    ensures
        r == contains_bytes(source.spec_bytes(), entry.spec_bytes()),
{
    let hay = source.as_bytes();
    let needle = entry.as_bytes();
    let n = hay.len();
    let m = needle.len();
    if m > n {
        assert(!contains_bytes(hay@, needle@)) by {
            assert forall|i: int| !occurs_at(hay@, needle@, i) by {}
        }
        return false;
    }
    let mut i: usize = 0;
    loop
        invariant
            i <= n - m,
            m <= n,
            n == hay@.len(),
            m == needle@.len(),
            hay@ == source.spec_bytes(),
            needle@ == entry.spec_bytes(),
            forall|k: int| 0 <= k < i ==> !occurs_at(hay@, needle@, k),
        decreases n - m - i,
    {
        let mut j: usize = 0;
        let mut matched = true;
        while j < m
            invariant
                j <= m,
                i <= n - m,
                m <= n,
                n == hay@.len(),
                m == needle@.len(),
                hay@ == source.spec_bytes(),
                needle@ == entry.spec_bytes(),
                matched ==> forall|l: int| 0 <= l < j ==> hay@[i + l] == needle@[l],
                !matched ==> !occurs_at(hay@, needle@, i as int),
            decreases m - j,
        {
            if matched && hay[i + j] != needle[j] {
                matched = false;
                assert(!occurs_at(hay@, needle@, i as int)) by {
                    if occurs_at(hay@, needle@, i as int) {
                        assert(hay@.subrange(i as int, i + needle@.len())[j as int]
                            == needle@[j as int]);
                    }
                }
            }
            j = j + 1;
        }
        if matched {
            assert(occurs_at(hay@, needle@, i as int)) by {
                assert(hay@.subrange(i as int, i + needle@.len()) =~= needle@);
            }
            return true;
        }
        if i == n - m {
            assert forall|k: int| 0 <= k implies !occurs_at(hay@, needle@, k) by {
                if k <= n - m {
                } else {
                    assert(k + needle@.len() > hay@.len());
                }
            }
            return false;
        }
        i = i + 1;
    }
}

/// Whether two bindings claim one slot, decided exactly.
pub fn find_duplicate_slot(inputs: &Vec<InputBinding>) -> (r: bool)
    ensures
        r == has_duplicate_slot(inputs@),
{
    let n = inputs.len();
    let mut i: usize = 0;
    while i < n
        invariant
            i <= n,
            n == inputs@.len(),
            forall|a: int, b: int|
                0 <= a < b < inputs@.len() && a < i ==> #[trigger] inputs@[a].slot
                    != #[trigger] inputs@[b].slot,
        decreases n - i,
    {
        let mut j: usize = i + 1;
        while j < n
            invariant
                i < j <= n,
                i < n,
                n == inputs@.len(),
                forall|b: int| i < b < j ==> #[trigger] inputs@[b].slot != inputs@[i as int].slot,
            decreases n - j,
        {
            if inputs[i].slot == inputs[j].slot {
                return true;
            }
            j = j + 1;
        }
        i = i + 1;
    }
    false
}

/// The host-side share of steps 1 and 4 of a dispatch: reject a program text
/// that cannot declare the entry point, then bindings that collide on a slot.
/// `Ok` means only that the device gets to decide the rest.
pub fn validate_request(source: &str, entry: &str, inputs: &Vec<InputBinding>) -> (r: Result<
    (),
    Error,
>)
    ensures
        r == Err::<(), Error>(Error::CompileError) <==> !contains_bytes(
            source.spec_bytes(),
            entry.spec_bytes(),
        ),
        r == Err::<(), Error>(Error::BindingError) <==> contains_bytes(
            source.spec_bytes(),
            entry.spec_bytes(),
        ) && has_duplicate_slot(inputs@),
        r is Ok <==> contains_bytes(source.spec_bytes(), entry.spec_bytes())
            && !has_duplicate_slot(inputs@),
{
    if !contains_entry_point(source, entry) {
        return Err(Error::CompileError);
    }
    if find_duplicate_slot(inputs) {
        return Err(Error::BindingError);
    }
    Ok(())
}

} // verus!
