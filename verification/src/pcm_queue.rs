//! Queue of decoded PCM bytes between the audio decoder and the audio device.

use std::collections::VecDeque;
use vstd::prelude::*;

verus! {

/// The bytes of `chunks`, one chunk after the other.
pub open spec fn chunk_bytes(chunks: Seq<Vec<u8>>) -> Seq<u8> {
    chunks.map_values(|chunk: Vec<u8>| chunk@).flatten()
}

/// First-in first-out byte queue. Bytes come in as whole chunks and leave in
/// any amount; a partly consumed chunk stays in front until it is used up.
pub struct PcmQueue {
    chunks: VecDeque<Vec<u8>>,
    front_offset: usize,
    byte_count: usize,
}

impl View for PcmQueue {
    type V = Seq<u8>;

    closed spec fn view(&self) -> Seq<u8> {
        chunk_bytes(self.chunks@).skip(self.front_offset as int)
    }
}

impl PcmQueue {
    /// No chunk is empty, the consumed part never reaches the end of the front
    /// chunk, and the byte count is that of the bytes still queued.
    pub closed spec fn wf(&self) -> bool {
        &&& forall|i: int| 0 <= i < self.chunks@.len() ==> (#[trigger] self.chunks@[i])@.len() > 0
        &&& self.chunks@.len() == 0 ==> self.front_offset == 0
        &&& self.chunks@.len() > 0 ==> self.front_offset < self.chunks@[0]@.len()
        &&& self.byte_count == self@.len()
    }

    /// An empty queue.
    pub fn new() -> (queue: Self)
        ensures
            queue.wf(),
            queue@ == Seq::<u8>::empty(),
    {
        let queue = PcmQueue { chunks: VecDeque::with_capacity(32), front_offset: 0, byte_count: 0 };
        proof {
            assert(queue.chunks@.map_values(|chunk: Vec<u8>| chunk@) =~= Seq::<Seq<u8>>::empty());
            assert(queue@ =~= Seq::<u8>::empty());
        }
        queue
    }

    /// Number of bytes queued.
    pub fn len(&self) -> (count: usize)
        requires
            self.wf(),
        ensures
            count == self@.len(),
    {
        self.byte_count
    }

    /// Queues `data` behind everything else.
    pub fn push(&mut self, data: Vec<u8>)
        requires
            old(self).wf(),
            old(self)@.len() + data@.len() <= usize::MAX,
        ensures
            final(self).wf(),
            final(self)@ == old(self)@ + data@,
    {
        if data.len() != 0 {
            let ghost f = |chunk: Vec<u8>| chunk@;
            let ghost before = self.chunks@;
            self.byte_count = self.byte_count + data.len();
            self.chunks.push_back(data);
            proof {
                lemma_front_within(before, self.front_offset as int);
                assert(before.push(data).map_values(f) =~= before.map_values(f).push(data@));
                before.map_values(f).lemma_flatten_push(data@);
                assert(self@ =~= old(self)@ + data@);
            }
        } else {
            assert(self@ =~= old(self)@ + data@);
        }
    }

    /// Takes the first `byte_count` bytes out of the queue.
    pub fn copy_to(&mut self, byte_count: usize) -> (target: Vec<u8>)
        requires
            old(self).wf(),
            byte_count <= old(self)@.len(),
        ensures
            final(self).wf(),
            target@ == old(self)@.take(byte_count as int),
            final(self)@ == old(self)@.skip(byte_count as int),
    {
        let mut target: Vec<u8> = Vec::new();
        let mut written: usize = 0;
        while written < byte_count
            invariant
                self.wf(),
                written <= byte_count,
                written == target@.len(),
                byte_count <= old(self)@.len(),
                target@ + self@ == old(self)@,
            decreases byte_count - written,
        {
            let ghost before = self.chunks@;
            let ghost taken = target@;
            let ghost start = self.front_offset;
            proof {
                if self.chunks@.len() == 0 {
                    assert(self.chunks@.map_values(|chunk: Vec<u8>| chunk@) =~= Seq::<
                        Seq<u8>,
                    >::empty());
                    assert(self@.len() == 0);
                    assert(target@ + self@ =~= target@);
                }
                lemma_chunk_bytes_split(before);
            }
            let chunk: &Vec<u8> = &self.chunks[0];
            let chunk_len: usize = chunk.len();
            let available: usize = chunk_len - self.front_offset;
            let wanted: usize = byte_count - written;
            let count: usize = if available < wanted {
                available
            } else {
                wanted
            };
            let mut i: usize = 0;
            while i < count
                invariant
                    i <= count,
                    start == self.front_offset,
                    chunk_len == chunk@.len(),
                    start + count <= chunk_len,
                    target@ == taken + chunk@.subrange(start as int, start + i),
                decreases count - i,
            {
                target.push(chunk[self.front_offset + i]);
                i = i + 1;
                assert(target@ =~= taken + chunk@.subrange(start as int, start + i));
            }
            proof {
                let head = chunk@.subrange(start as int, start + count);
                let bytes = chunk_bytes(before);
                assert(bytes == chunk@ + chunk_bytes(before.skip(1)));
                assert(bytes.skip(start as int) =~= head + bytes.skip(start + count));
                assert(target@ == taken + head);
            }
            written = written + count;
            self.front_offset = self.front_offset + count;
            self.byte_count = self.byte_count - count;
            if self.front_offset == chunk_len {
                let _ = self.chunks.pop_front();
                self.front_offset = 0;
                proof {
                    assert(self.chunks@ =~= before.skip(1));
                    assert(chunk_bytes(before).skip(chunk_len as int) =~= chunk_bytes(
                        before.skip(1),
                    ));
                    assert(self@ =~= chunk_bytes(before.skip(1)));
                }
            }
            proof {
                assert(self@ =~= chunk_bytes(before).skip(start + count));
                assert(target@ + self@ =~= taken + chunk_bytes(before).skip(start as int));
            }
        }
        proof {
            assert(target@ =~= old(self)@.take(byte_count as int));
            assert(self@ =~= old(self)@.skip(byte_count as int));
        }
        target
    }
}

proof fn lemma_chunk_bytes_split(chunks: Seq<Vec<u8>>)
    ensures
        chunks.len() > 0 ==> chunk_bytes(chunks) == chunks[0]@ + chunk_bytes(chunks.skip(1)),
{
    if chunks.len() > 0 {
        let f = |chunk: Vec<u8>| chunk@;
        assert(chunks.map_values(f).drop_first() =~= chunks.skip(1).map_values(f));
    }
}

proof fn lemma_front_within(chunks: Seq<Vec<u8>>, offset: int)
    requires
        chunks.len() == 0 ==> offset == 0,
        chunks.len() > 0 ==> 0 <= offset <= chunks[0]@.len(),
    ensures
        0 <= offset <= chunk_bytes(chunks).len(),
{
    lemma_chunk_bytes_split(chunks);
}

/// Bytes leave the queue in the order in which they came, whatever the sizes of
/// the chunks and of the two reads: reading `first` and then `second` bytes
/// gives what one read of both amounts gives, and leaves the same rest.
pub proof fn reads_are_in_order(queued: Seq<u8>, first: int, second: int)
    requires
        0 <= first,
        0 <= second,
        first + second <= queued.len(),
    ensures
        queued.take(first) + queued.skip(first).take(second) == queued.take(first + second),
        queued.skip(first).skip(second) == queued.skip(first + second),
{
    assert(queued.take(first) + queued.skip(first).take(second) =~= queued.take(first + second));
    assert(queued.skip(first).skip(second) =~= queued.skip(first + second));
}

/// What was queued first is what is read first: a read of no more than what
/// was there before a push does not see the pushed bytes.
pub proof fn push_does_not_disturb_reads(queued: Seq<u8>, data: Seq<u8>, count: int)
    requires
        0 <= count <= queued.len(),
    ensures
        (queued + data).take(count) == queued.take(count),
        (queued + data).skip(count) == queued.skip(count) + data,
        (queued + data).skip(queued.len() as int) == data,
{
    assert((queued + data).take(count) =~= queued.take(count));
    assert((queued + data).skip(count) =~= queued.skip(count) + data);
    assert((queued + data).skip(queued.len() as int) =~= data);
}

} // verus!
