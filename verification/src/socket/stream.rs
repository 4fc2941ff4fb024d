//! A frame's whole trip: encoded, cut into datagrams, collected and
//! decoded by a receiver.

use vstd::prelude::*;
use crate::socket::codec::{image_from_wire, image_wire, lemma_image_wire_roundtrip, SerializableImage};
use crate::socket::packet::{all_chunks_present, assembled, fragment_frame, fragmentable, fragments, covers, indices_below, lemma_arrivals_with_repeats, lemma_fragments_reassemble, packet_count, received_frame, reordered, FrameAssembler};

verus! {

/// A frame can be sent when its encoding can be cut into datagrams.
pub open spec fn sendable(image: (u32, u32, Seq<u8>)) -> bool {
    fragmentable(image_wire(image.0, image.1, image.2).len() as int)
}

/// The datagrams that carry `image` to one receiver, in sending order.
pub fn frame_datagrams(image: &SerializableImage) -> (packets: Vec<Vec<u8>>)
    requires
        sendable(image@),
    ensures
        packets@.len() == fragments(image_wire(image@.0, image@.1, image@.2)).len(),
        forall|i: int| 0 <= i < packets@.len()
            ==> #[trigger] packets@[i]@ == fragments(image_wire(image@.0, image@.1, image@.2))[i],
{
    let bytes = image.to_bytes();
    fragment_frame(&bytes)
}

/// Takes the datagrams collected for one frame and decodes the frame.
pub fn decode_assembled(assembler: FrameAssembler) -> (image: Option<SerializableImage>)
    requires
        all_chunks_present(assembler@),
    ensures
        match image {
            Some(img) => image_from_wire(assembled(assembler@)) == Some(img@),
            None => image_from_wire(assembled(assembler@)) is None,
        },
{
    let bytes = assembler.assemble();
    SerializableImage::from_bytes(bytes.as_slice())
}

/// A receiver that gets, in order, every datagram that the caster sent for
/// a frame decodes exactly that frame.
pub proof fn lemma_frame_transfer(width: u32, height: u32, data: Seq<u8>)
    requires
        sendable((width, height, data)),
    ensures
        received_frame(fragments(image_wire(width, height, data))) == Some(image_wire(width, height, data)),
        image_from_wire(image_wire(width, height, data)) == Some((width, height, data)),
{
    let wire = image_wire(width, height, data);
    assert(wire.len() >= 16);
    lemma_fragments_reassemble(wire);
    lemma_image_wire_roundtrip(width, height, data);
}


/// The same holds whatever order the datagrams arrive in, and however
/// many times each arrives, as long as each arrives.
pub proof fn lemma_frame_transfer_any_order(width: u32, height: u32, data: Seq<u8>, order: Seq<int>)
    requires
        sendable((width, height, data)),
        indices_below(order, packet_count(image_wire(width, height, data).len() as int)),
        covers(order, packet_count(image_wire(width, height, data).len() as int)),
    ensures
        received_frame(reordered(image_wire(width, height, data), order)) == Some(image_wire(width, height, data)),
        image_from_wire(image_wire(width, height, data)) == Some((width, height, data)),
{
    let wire = image_wire(width, height, data);
    assert(wire.len() >= 16);
    lemma_arrivals_with_repeats(wire, order);
    lemma_image_wire_roundtrip(width, height, data);
}

} // verus!
