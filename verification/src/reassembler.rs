//! The stream reassembler: gathers the chunks of a streamed body until the
//! stream completes.

use std::collections::HashMap;
use vstd::prelude::*;

verus! {

broadcast use vstd::std_specs::hash::group_hash_axioms;

/// The bytes gathered so far under a request identifier: nothing where no
/// chunk has arrived.
pub open spec fn buffered_in(buffers: Map<u64, Seq<u8>>, tag: u64) -> Seq<u8> {
    if buffers.contains_key(tag) {
        buffers[tag]
    } else {
        Seq::empty()
    }
}

/// A completed body, with the status that came with the completion.
#[derive(Clone, Debug, PartialEq)]
pub struct StreamedBody {
    pub status: u16,
    pub bytes: Vec<u8>,
}

/// The partial bodies of the requests that are streaming, by request
/// identifier.
pub struct StreamReassembler {
    buffers: HashMap<u64, Vec<u8>>,
}

impl View for StreamReassembler {
    type V = Map<u64, Seq<u8>>;

    closed spec fn view(&self) -> Map<u64, Seq<u8>> {
        Map::new(|tag: u64| self.buffers@.contains_key(tag), |tag: u64| self.buffers@[tag]@)
    }
}

impl StreamReassembler {
    /// The bytes gathered so far under a request identifier.
    pub open spec fn buffered(&self, tag: u64) -> Seq<u8> {
        buffered_in(self@, tag)
    }

    /// A reassembler that holds nothing.
    pub fn new() -> (r: StreamReassembler)
        ensures
            r@ == Map::<u64, Seq<u8>>::empty(),
    {
        let r = StreamReassembler { buffers: HashMap::new() };
        r
    }

    /// Adds a chunk at the end of what is gathered under `tag`.
    pub fn append(&mut self, tag: u64, chunk: Vec<u8>)
        ensures
            final(self)@ == old(self)@.insert(tag, old(self).buffered(tag) + chunk@),
    {
        let mut chunk = chunk;
        let mut buffer = match self.buffers.remove(&tag) {
            Some(gathered) => gathered,
            None => Vec::new(),
        };
        buffer.append(&mut chunk);
        self.buffers.insert(tag, buffer);
    }

    /// Hands out what was gathered under `tag`, in the order in which it
    /// arrived, and releases it. Where nothing was gathered the body is empty.
    pub fn complete(&mut self, tag: u64, final_status: u16) -> (r: StreamedBody)
        ensures
            r.status == final_status,
            r.bytes@ == old(self).buffered(tag),
            final(self)@ == old(self)@.remove(tag),
    {
        let bytes = match self.buffers.remove(&tag) {
            Some(gathered) => gathered,
            None => Vec::new(),
        };
        StreamedBody { status: final_status, bytes }
    }

    /// The number of bodies that are being gathered.
    pub fn len(&self) -> (r: usize)
        ensures
            r == self@.len(),
    {
        proof {
            assert(self@.dom() =~= self.buffers@.dom());
        }
        self.buffers.len()
    }
}

/// The buffers after a run of `append` calls, each given by its request
/// identifier and its chunk.
pub open spec fn fed(buffers: Map<u64, Seq<u8>>, appends: Seq<(u64, Seq<u8>)>) -> Map<
    u64,
    Seq<u8>,
>
    decreases appends.len(),
{
    if appends.len() == 0 {
        buffers
    } else {
        let before = fed(buffers, appends.drop_last());
        let last = appends.last();
        before.insert(last.0, buffered_in(before, last.0) + last.1)
    }
}

/// The chunks that a run of `append` calls gave for one request identifier,
/// joined in call order.
pub open spec fn gathered(appends: Seq<(u64, Seq<u8>)>, tag: u64) -> Seq<u8>
    decreases appends.len(),
{
    if appends.len() == 0 {
        Seq::empty()
    } else if appends.last().0 == tag {
        gathered(appends.drop_last(), tag) + appends.last().1
    } else {
        gathered(appends.drop_last(), tag)
    }
}

/// Reassembly keeps call order: after any run of `append` calls, on any mix
/// of request identifiers, what `complete` hands out for an identifier is what
/// was gathered before the run followed by the run's chunks for that
/// identifier, joined in call order.
pub proof fn law_reassembly_in_call_order(
    buffers: Map<u64, Seq<u8>>,
    appends: Seq<(u64, Seq<u8>)>,
    tag: u64,
)
    ensures
        buffered_in(fed(buffers, appends), tag) == buffered_in(buffers, tag) + gathered(
            appends,
            tag,
        ),
    decreases appends.len(),
{
    if appends.len() > 0 {
        law_reassembly_in_call_order(buffers, appends.drop_last(), tag);
    }
}

} // verus!
