//! The laws of the encoding, stated over the specification functions that
//! the executable functions' contracts are written with, and proved once for
//! every batch, DA mode, and artifact sequence.

use vstd::prelude::*;

use crate::batch::spec_pubdata_used;
use crate::batch::BatchModel;
use crate::chunking::lemma_blob_chunks_count;
use crate::chunking::spec_blob_chunks;
use crate::chunking::ZK_SYNC_BYTES_PER_BLOB;
use crate::encoder::spec_commit_tuple;
use crate::encoder::spec_commitment_payloads;
use crate::encoder::spec_effective_version;
use crate::encoder::PubdataDa;
use crate::encoder::PUBDATA_SOURCE_BLOBS;
use crate::encoder::PUBDATA_SOURCE_CALLDATA;
use crate::tokens::FieldModel;

verus! {

/// Below the boojum boundary the tuple has exactly twelve fields, whatever
/// the DA mode and artifacts, and neither is consulted: two encodings of the
/// same batch agree even when mode and artifacts differ.
pub proof fn lemma_pre_boojum_tuple(
    b: BatchModel,
    da1: PubdataDa,
    da2: PubdataDa,
    a1: Seq<Seq<u8>>,
    a2: Seq<Seq<u8>>,
)
    requires
        spec_effective_version(b).spec_is_pre_boojum(),
    ensures
        spec_commit_tuple(b, da1, a1).len() == 12,
        spec_commit_tuple(b, da1, a1) == spec_commit_tuple(b, da2, a2),
{
}

/// At or above the boojum boundary and below the 1.4.2 boundary the tuple
/// has exactly ten fields; the last is the raw pubdata, with no leading mode
/// byte, and neither the DA mode nor the artifacts are consulted.
pub proof fn lemma_boojum_pre_1_4_2_tuple(
    b: BatchModel,
    da1: PubdataDa,
    da2: PubdataDa,
    a1: Seq<Seq<u8>>,
    a2: Seq<Seq<u8>>,
)
    requires
        !spec_effective_version(b).spec_is_pre_boojum(),
        spec_effective_version(b).spec_is_pre_1_4_2(),
    ensures
        spec_commit_tuple(b, da1, a1).len() == 10,
        spec_commit_tuple(b, da1, a1).last() == FieldModel::Bytes(spec_pubdata_used(b)),
        spec_commit_tuple(b, da1, a1) == spec_commit_tuple(b, da2, a2),
{
}

/// At or above the 1.4.2 boundary the tuple has exactly ten fields, and the
/// last field's first byte is the calldata tag under Calldata mode and the
/// blobs tag under Blobs mode.
pub proof fn lemma_1_4_2_tuple_tag(b: BatchModel, da: PubdataDa, artifacts: Seq<Seq<u8>>)
    requires
        !spec_effective_version(b).spec_is_pre_1_4_2(),
    ensures
        spec_commit_tuple(b, da, artifacts).len() == 10,
        spec_commit_tuple(b, da, artifacts).last() is Bytes,
        spec_commit_tuple(b, da, artifacts).last()->Bytes_0.len() > 0,
        da == PubdataDa::Calldata ==> spec_commit_tuple(b, da, artifacts).last()->Bytes_0[0]
            == PUBDATA_SOURCE_CALLDATA,
        da == PubdataDa::Blobs ==> spec_commit_tuple(b, da, artifacts).last()->Bytes_0[0]
            == PUBDATA_SOURCE_BLOBS,
{
}

/// Under Calldata mode the single payload handed to the commitment service
/// is the exact pubdata, and the tuple's last field is the calldata tag,
/// that pubdata, then the artifact returned for it, byte for byte.
pub proof fn lemma_calldata_last_field(b: BatchModel, artifacts: Seq<Seq<u8>>)
    requires
        !spec_effective_version(b).spec_is_pre_1_4_2(),
    ensures
        spec_commitment_payloads(b, PubdataDa::Calldata) == seq![spec_pubdata_used(b)],
        spec_commit_tuple(b, PubdataDa::Calldata, artifacts).last() == FieldModel::Bytes(
            seq![PUBDATA_SOURCE_CALLDATA] + spec_pubdata_used(b) + artifacts[0],
        ),
{
}

/// Under Blobs mode the payloads handed to the commitment service are the
/// blob-sized chunks of the pubdata, in order, the last possibly short, and
/// the tuple's last field is the blobs tag followed by the returned
/// artifacts concatenated in that same order.
pub proof fn lemma_blobs_last_field(b: BatchModel, artifacts: Seq<Seq<u8>>)
    requires
        !spec_effective_version(b).spec_is_pre_1_4_2(),
    ensures
        spec_commitment_payloads(b, PubdataDa::Blobs) == spec_blob_chunks(spec_pubdata_used(b)),
        spec_commit_tuple(b, PubdataDa::Blobs, artifacts).last() == FieldModel::Bytes(
            seq![PUBDATA_SOURCE_BLOBS] + artifacts.flatten(),
        ),
{
}

/// Under Blobs mode the number of payloads — and so the number of artifacts
/// the commitment service must return — is the pubdata length divided by the
/// canonical blob size, rounded up.
pub proof fn lemma_blobs_payload_count(b: BatchModel)
    requires
        !spec_effective_version(b).spec_is_pre_1_4_2(),
    ensures
        spec_pubdata_used(b).len() == 0 ==> spec_commitment_payloads(b, PubdataDa::Blobs).len()
            == 0,
        spec_pubdata_used(b).len() > 0 ==> spec_commitment_payloads(b, PubdataDa::Blobs).len() == (
        spec_pubdata_used(b).len() - 1) / (ZK_SYNC_BYTES_PER_BLOB as int) + 1,
{
    lemma_blob_chunks_count(spec_pubdata_used(b));
}

/// Encoding is a pure function of the batch, the DA mode, and the supplied
/// artifacts: equal inputs give the one identical tuple, so encoding the
/// same batch twice yields byte-identical output.
pub proof fn lemma_encoding_deterministic(
    b1: BatchModel,
    b2: BatchModel,
    da1: PubdataDa,
    da2: PubdataDa,
    a1: Seq<Seq<u8>>,
    a2: Seq<Seq<u8>>,
)
    requires
        b1 == b2,
        da1 == da2,
        a1 == a2,
    ensures
        spec_commit_tuple(b1, da1, a1) == spec_commit_tuple(b2, da2, a2),
{
}

} // verus!
