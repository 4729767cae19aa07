//! Splitting the pubdata payload into canonical blob-sized chunks for the
//! blob-carrying data-availability mode.

use vstd::prelude::*;

use crate::batch::spec_bytes_view;

verus! {

/// The canonical blob size of the commitment scheme: the number of payload
/// bytes one blob carries.
pub const ZK_SYNC_BYTES_PER_BLOB: usize = 126976;

/// The payload split into consecutive chunks of the canonical blob size, in
/// order; the final chunk is shorter when the payload length is not an exact
/// multiple, and an empty payload yields no chunks.
pub open spec fn spec_blob_chunks(data: Seq<u8>) -> Seq<Seq<u8>>
    decreases data.len(),
{
    if data.len() == 0 {
        Seq::empty()
    } else if data.len() <= ZK_SYNC_BYTES_PER_BLOB {
        seq![data]
    } else {
        seq![data.take(ZK_SYNC_BYTES_PER_BLOB as int)] + spec_blob_chunks(
            data.skip(ZK_SYNC_BYTES_PER_BLOB as int),
        )
    }
}

/// Splits the payload into canonical blob-sized chunks, in order.
pub fn chunk_pubdata(data: &Vec<u8>) -> (r: Vec<Vec<u8>>)
    ensures
        spec_bytes_view(r@) == spec_blob_chunks(data@),
{
    let mut r: Vec<Vec<u8>> = Vec::new();
    let mut off: usize = 0;
    proof {
        assert(data@.skip(0) =~= data@);
    }
    while off < data.len()
        invariant
            off <= data.len(),
            spec_bytes_view(r@) + spec_blob_chunks(data@.skip(off as int)) =~= spec_blob_chunks(
                data@,
            ),
        decreases data.len() - off,
    {
        let remaining: usize = data.len() - off;
        let chunk_len: usize = if remaining <= ZK_SYNC_BYTES_PER_BLOB {
            remaining
        } else {
            ZK_SYNC_BYTES_PER_BLOB
        };
        let mut chunk: Vec<u8> = Vec::new();
        let mut j: usize = off;
        while j < off + chunk_len
            invariant
                off <= j <= off + chunk_len,
                off + chunk_len <= data.len(),
                chunk@ == data@.subrange(off as int, j as int),
            decreases off + chunk_len - j,
        {
            chunk.push(data[j]);
            proof {
                assert(data@.subrange(off as int, j as int + 1) =~= data@.subrange(
                    off as int,
                    j as int,
                ).push(data@[j as int]));
            }
            j += 1;
        }
        proof {
            let suffix = data@.skip(off as int);
            assert(chunk@ =~= suffix.take(chunk_len as int));
            if remaining <= ZK_SYNC_BYTES_PER_BLOB {
                assert(suffix.take(chunk_len as int) =~= suffix);
                assert(spec_blob_chunks(suffix) == seq![suffix]);
                assert(data@.skip(off as int + chunk_len as int).len() == 0);
            } else {
                assert(spec_blob_chunks(suffix) == seq![suffix.take(
                    ZK_SYNC_BYTES_PER_BLOB as int,
                )] + spec_blob_chunks(suffix.skip(ZK_SYNC_BYTES_PER_BLOB as int)));
                assert(suffix.skip(chunk_len as int) =~= data@.skip(
                    off as int + chunk_len as int,
                ));
            }
            assert(spec_bytes_view(r@.push(chunk)) =~= spec_bytes_view(r@).push(chunk@));
        }
        r.push(chunk);
        off += chunk_len;
    }
    proof {
        assert(data@.skip(off as int).len() == 0);
        assert(spec_blob_chunks(data@.skip(off as int)) =~= Seq::<Seq<u8>>::empty());
        assert(spec_bytes_view(r@) =~= spec_bytes_view(r@) + Seq::<Seq<u8>>::empty());
    }
    r
}

/// How many chunks the payload yields: none when it is empty, else the
/// length divided by the canonical blob size, rounded up.
pub proof fn lemma_blob_chunks_count(data: Seq<u8>)
    ensures
        data.len() == 0 ==> spec_blob_chunks(data).len() == 0,
        data.len() > 0 ==> spec_blob_chunks(data).len() == (data.len() - 1) / (
        ZK_SYNC_BYTES_PER_BLOB as int) + 1,
    decreases data.len(),
{
    if data.len() > ZK_SYNC_BYTES_PER_BLOB {
        lemma_blob_chunks_count(data.skip(ZK_SYNC_BYTES_PER_BLOB as int));
    }
}

/// The shape of the chunking: every chunk but the last has exactly the
/// canonical blob size, the last is non-empty and carries at most the
/// canonical blob size, and the chunks concatenate back to the payload in
/// order.
pub proof fn lemma_blob_chunks_shape(data: Seq<u8>)
    ensures
        forall|i: int|
            0 <= i < spec_blob_chunks(data).len() - 1 ==> #[trigger] spec_blob_chunks(
                data,
            )[i].len() == ZK_SYNC_BYTES_PER_BLOB,
        spec_blob_chunks(data).len() > 0 ==> {
            let last = spec_blob_chunks(data).last();
            0 < last.len() <= ZK_SYNC_BYTES_PER_BLOB
        },
        spec_blob_chunks(data).flatten() =~= data,
    decreases data.len(),
{
    let size = ZK_SYNC_BYTES_PER_BLOB as int;
    if data.len() == 0 {
        assert(spec_blob_chunks(data).flatten() =~= data);
    } else if data.len() <= size {
        assert(spec_blob_chunks(data) == seq![data]);
        seq![data].lemma_flatten_one_element();
    } else {
        let rest = data.skip(size);
        lemma_blob_chunks_shape(rest);
        let chunks = spec_blob_chunks(data);
        let rest_chunks = spec_blob_chunks(rest);
        assert(chunks == seq![data.take(size)] + rest_chunks);
        assert forall|i: int|
            0 <= i < chunks.len() - 1 implies #[trigger] chunks[i].len()
            == ZK_SYNC_BYTES_PER_BLOB by {
            if i > 0 {
                assert(chunks[i] == rest_chunks[i - 1]);
            }
        }
        assert(chunks.last() == rest_chunks.last());
        assert(chunks.flatten() =~= data) by {
            vstd::seq_lib::lemma_flatten_concat(seq![data.take(size)], rest_chunks);
            seq![data.take(size)].lemma_flatten_one_element();
            assert(rest_chunks.flatten() =~= rest);
            assert(data.take(size) + rest =~= data);
        }
    }
}

} // verus!
