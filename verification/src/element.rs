// SPDX-License-Identifier: MIT

//! Information elements: what management frames carry behind their fixed
//! fields.

use vstd::prelude::*;

verus! {

/// An information element: its identifier and its data.
#[derive(Debug, PartialEq, Eq, Clone)]
pub struct Nl80211Element {
    pub id: u8,
    pub data: Vec<u8>,
}

/// The most bytes that the data of an element can have: their number is
/// told in one byte.
pub const ELEMENT_MAX_DATA_LEN: usize = 255;

/// The bytes of an element: the identifier, the length of the data in one
/// byte, and the data.
pub open spec fn element_bytes(id: u8, data: Seq<u8>) -> Seq<u8>
    recommends
        data.len() <= ELEMENT_MAX_DATA_LEN,
{
    seq![id, data.len() as u8] + data
}

/// Whether each element of a sequence has data that fits its length byte.
pub open spec fn elements_fit(elements: Seq<Nl80211Element>) -> bool {
    forall|i: int| 0 <= i < elements.len() ==> (#[trigger] elements[i]).fits()
}

/// The bytes of elements, one after the other.
pub open spec fn elements_bytes(elements: Seq<Nl80211Element>) -> Seq<u8>
    decreases elements.len(),
{
    if elements.len() == 0 {
        Seq::<u8>::empty()
    } else {
        element_bytes(elements[0].id, elements[0].data@) + elements_bytes(elements.drop_first())
    }
}

/// Appends to `out` the element of the given identifier and data.
pub fn push_element(out: &mut Vec<u8>, id: u8, data: &[u8])
    requires
        data@.len() <= ELEMENT_MAX_DATA_LEN,
    ensures
        final(out)@ == old(out)@ + element_bytes(id, data@),
{
    out.push(id);
    out.push(data.len() as u8);
    out.extend_from_slice(data);
    assert(out@ =~= old(out)@ + element_bytes(id, data@));
}

impl Nl80211Element {
    /// Whether the data fits the length byte: it has at most 255 bytes.
    pub open spec fn fits(&self) -> bool {
        self.data@.len() <= ELEMENT_MAX_DATA_LEN
    }

    /// Whether the element can be written: whether its data has at most 255
    /// bytes.
    pub fn can_emit(&self) -> (b: bool)
        ensures
            b == self.fits(),
    {
        self.data.len() <= ELEMENT_MAX_DATA_LEN
    }

    /// Number of bytes of the element.
    pub fn buffer_len(&self) -> (n: usize)
        requires
            self.fits(),
        ensures
            n == element_bytes(self.id, self.data@).len(),
            n == self.data@.len() + 2,
    {
        self.data.len() + 2
    }

    /// Appends the bytes of the element to `out`.
    pub fn emit(&self, out: &mut Vec<u8>)
        requires
            self.fits(),
        ensures
            final(out)@ == old(out)@ + element_bytes(self.id, self.data@),
    {
        push_element(out, self.id, self.data.as_slice());
    }
}

/// Whether each of the elements can be written.
pub fn can_emit_elements(elements: &Vec<Nl80211Element>) -> (b: bool)
    ensures
        b == elements_fit(elements@),
{
    let mut i: usize = 0;
    while i < elements.len()
        invariant
            i <= elements.len(),
            forall|j: int| 0 <= j < i ==> (#[trigger] elements@[j]).fits(),
        decreases elements.len() - i,
    {
        if !elements[i].can_emit() {
            return false;
        }
        i += 1;
    }
    true
}

/// The bytes of elements, one after the other.
pub fn emit_elements(elements: &Vec<Nl80211Element>) -> (out: Vec<u8>)
    requires
        elements_fit(elements@),
    ensures
        out@ == elements_bytes(elements@),
{
    let mut out: Vec<u8> = Vec::new();
    let mut i: usize = 0;
    proof {
        assert(elements@.skip(0) =~= elements@);
        assert(out@ + elements_bytes(elements@) =~= elements_bytes(elements@));
    }
    while i < elements.len()
        invariant
            i <= elements.len(),
            elements_fit(elements@),
            out@ + elements_bytes(elements@.skip(i as int)) == elements_bytes(elements@),
        decreases elements.len() - i,
    {
        let ghost before = out@;
        proof {
            assert(elements@.skip(i as int).drop_first() =~= elements@.skip(i + 1));
        }
        elements[i].emit(&mut out);
        proof {
            let head = element_bytes(elements@[i as int].id, elements@[i as int].data@);
            let tail = elements_bytes(elements@.skip(i + 1));
            assert((before + head) + tail =~= before + (head + tail));
        }
        i += 1;
    }
    proof {
        assert(elements@.skip(elements@.len() as int) =~= Seq::<Nl80211Element>::empty());
        assert(out@ + Seq::<u8>::empty() =~= out@);
    }
    out
}

} // verus!
