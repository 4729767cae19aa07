//! The commitment encoder: assembles the version-correct ABI tuple for the
//! commit call from a borrowed batch, a DA mode, and the commitment
//! artifacts supplied by the external commitment service.

use vstd::prelude::*;
use vstd::pervasive::unreached;

use crate::batch::copy_byte_vecs;
use crate::batch::copy_bytes;
use crate::batch::hash_to_vec;
use crate::batch::pre_boojum_serialize_commitments;
use crate::batch::push_vec;
use crate::batch::serialize_commitments;
use crate::batch::spec_bytes_view;
use crate::batch::spec_counts_fit_u32;
use crate::batch::spec_logs_bytes;
use crate::batch::spec_pre_boojum_logs_bytes;
use crate::batch::spec_pubdata_used;
use crate::batch::BatchModel;
use crate::batch::L1BatchWithMetadata;
use crate::chunking::chunk_pubdata;
use crate::chunking::spec_blob_chunks;
use crate::tokens::spec_fields_view;
use crate::tokens::FieldModel;
use crate::tokens::FieldValue;
use crate::tokens::TupleToken;
use crate::version::ProtocolVersionId;
use crate::version::LAST_POTENTIALLY_UNDEFINED;

verus! {

/// Tag byte of a calldata-sourced DA payload, fixed by the settlement
/// contract.
pub const PUBDATA_SOURCE_CALLDATA: u8 = 0;

/// Tag byte of a blob-sourced DA payload, fixed by the settlement contract.
pub const PUBDATA_SOURCE_BLOBS: u8 = 1;

/// How the pubdata payload is delivered and committed.
#[derive(Clone, Copy, PartialEq, Eq, Structural, Debug)]
pub enum PubdataDa {
    Calldata,
    Blobs,
}

/// The one error this core can return: the decode direction is unsupported
/// by design.
#[derive(Clone, Copy, PartialEq, Eq, Structural, Debug)]
pub enum TokenizeError {
    DecodingNotSupported,
}

/// The version the layout branch is selected by: the header's version, with
/// the documented fallback when the header records none.
pub open spec fn spec_effective_version(b: BatchModel) -> ProtocolVersionId {
    match b.header.protocol_version {
        Some(v) => v,
        None => ProtocolVersionId(LAST_POTENTIALLY_UNDEFINED),
    }
}

/// The twelve fields of the legacy (pre-boojum) commit layout, in contract
/// order.
pub open spec fn spec_pre_boojum_fields(b: BatchModel) -> Seq<FieldModel> {
    seq![
        FieldModel::Uint(b.header.number as u64),
        FieldModel::Uint(b.header.timestamp),
        FieldModel::Uint(b.metadata.rollup_last_leaf_index),
        FieldModel::FixedBytes(b.metadata.merkle_root_hash),
        FieldModel::Uint(b.header.l1_tx_count as u64),
        FieldModel::FixedBytes(b.metadata.l2_l1_merkle_root),
        FieldModel::FixedBytes(b.header.priority_ops_onchain_data_hash),
        FieldModel::Bytes(b.metadata.initial_writes_compressed->0),
        FieldModel::Bytes(b.metadata.repeated_writes_compressed->0),
        FieldModel::Bytes(spec_pre_boojum_logs_bytes(b.header.l2_to_l1_logs)),
        FieldModel::BytesArray(b.header.l2_to_l1_messages),
        FieldModel::BytesArray(b.raw_published_factory_deps),
    ]
}

/// The nine base fields shared by every layout from the unified contract on,
/// in contract order.
pub open spec fn spec_post_boojum_base_fields(b: BatchModel) -> Seq<FieldModel> {
    seq![
        FieldModel::Uint(b.header.number as u64),
        FieldModel::Uint(b.header.timestamp),
        FieldModel::Uint(b.metadata.rollup_last_leaf_index),
        FieldModel::FixedBytes(b.metadata.merkle_root_hash),
        FieldModel::Uint(b.header.l1_tx_count as u64),
        FieldModel::FixedBytes(b.header.priority_ops_onchain_data_hash),
        FieldModel::FixedBytes(b.metadata.bootloader_initial_content_commitment->0),
        FieldModel::FixedBytes(b.metadata.events_queue_commitment->0),
        FieldModel::Bytes(spec_logs_bytes(b.header.system_logs)),
    ]
}

/// The layout's version-independent prefix: the legacy twelve fields before
/// the unified contract, the nine base fields after.
pub open spec fn spec_base_fields(b: BatchModel) -> Seq<FieldModel> {
    if spec_effective_version(b).spec_is_pre_boojum() {
        spec_pre_boojum_fields(b)
    } else {
        spec_post_boojum_base_fields(b)
    }
}

/// The byte payloads the external commitment service must produce one
/// artifact for, in order: none before the revised layout, the whole pubdata
/// under calldata mode, the blob-sized chunks under blobs mode.
pub open spec fn spec_commitment_payloads(b: BatchModel, da: PubdataDa) -> Seq<Seq<u8>> {
    if spec_effective_version(b).spec_is_pre_1_4_2() {
        Seq::empty()
    } else {
        match da {
            PubdataDa::Calldata => seq![spec_pubdata_used(b)],
            PubdataDa::Blobs => spec_blob_chunks(spec_pubdata_used(b)),
        }
    }
}

/// The DA field of the revised layout: under calldata mode the tag byte,
/// the whole pubdata, then its commitment artifact; under blobs mode the tag
/// byte, then the per-chunk artifacts concatenated in chunk order.
pub open spec fn spec_da_field(b: BatchModel, da: PubdataDa, artifacts: Seq<Seq<u8>>) -> FieldModel {
    match da {
        PubdataDa::Calldata => FieldModel::Bytes(
            seq![PUBDATA_SOURCE_CALLDATA] + spec_pubdata_used(b) + artifacts[0],
        ),
        PubdataDa::Blobs => FieldModel::Bytes(seq![PUBDATA_SOURCE_BLOBS] + artifacts.flatten()),
    }
}

/// The full commit tuple: the legacy twelve fields before the unified
/// contract; after it, the nine base fields plus one DA field — the raw
/// pubdata before the revised layout, the tagged committed payload from it
/// on.
pub open spec fn spec_commit_tuple(
    b: BatchModel,
    da: PubdataDa,
    artifacts: Seq<Seq<u8>>,
) -> Seq<FieldModel> {
    let v = spec_effective_version(b);
    if v.spec_is_pre_boojum() {
        spec_pre_boojum_fields(b)
    } else if v.spec_is_pre_1_4_2() {
        spec_post_boojum_base_fields(b).push(FieldModel::Bytes(spec_pubdata_used(b)))
    } else {
        spec_post_boojum_base_fields(b).push(spec_da_field(b, da, artifacts))
    }
}

/// The precondition of the layout's version-independent prefix: the write
/// sets the legacy layout embeds, or the two commitment hashes the unified
/// layout embeds, must have been populated upstream.
pub open spec fn spec_base_ready(b: BatchModel) -> bool {
    if spec_effective_version(b).spec_is_pre_boojum() {
        &&& b.metadata.initial_writes_compressed is Some
        &&& b.metadata.repeated_writes_compressed is Some
        &&& b.header.l2_to_l1_logs.len() < 0x1_0000_0000
    } else {
        &&& b.metadata.bootloader_initial_content_commitment is Some
        &&& b.metadata.events_queue_commitment is Some
    }
}

/// The pubdata payload can be produced: it is precomputed, or the counts the
/// reconstruction writes as four-byte words fit.
pub open spec fn spec_pubdata_ready(b: BatchModel) -> bool {
    b.header.pubdata_input is Some || spec_counts_fit_u32(b)
}

/// The whole encoding precondition: the version's required metadata is
/// populated, the pubdata is available where the layout embeds it, and from
/// the revised layout on the caller supplies exactly one commitment artifact
/// per payload.
pub open spec fn spec_encodable(b: BatchModel, da: PubdataDa, artifacts: Seq<Seq<u8>>) -> bool {
    &&& spec_base_ready(b)
    &&& !spec_effective_version(b).spec_is_pre_boojum() ==> spec_pubdata_ready(b)
    &&& !spec_effective_version(b).spec_is_pre_1_4_2() ==> artifacts.len()
        == spec_commitment_payloads(b, da).len()
}

impl L1BatchWithMetadata {
    /// The batch's protocol version, with the documented fallback when the
    /// header records none.
    pub fn effective_version(&self) -> (r: ProtocolVersionId)
        ensures
            r == spec_effective_version(self@),
    {
        match &self.header.protocol_version {
            Some(v) => *v,
            None => ProtocolVersionId::last_potentially_undefined(),
        }
    }
}

/// The commit-call encoder: a transient borrowing view over one batch and a
/// DA mode, consumed by the one serialize operation.
pub struct CommitBatchInfo<'a> {
    pub l1_batch_with_metadata: &'a L1BatchWithMetadata,
    pub pubdata_da: PubdataDa,
}

impl<'a> CommitBatchInfo<'a> {
    pub fn new(l1_batch_with_metadata: &'a L1BatchWithMetadata, pubdata_da: PubdataDa) -> (r: Self)
        ensures
            r.l1_batch_with_metadata == l1_batch_with_metadata,
            r.pubdata_da == pubdata_da,
    {
        Self { l1_batch_with_metadata, pubdata_da }
    }

    /// The byte payloads the external commitment service must produce one
    /// artifact for, in order.  Empty before the revised layout; the whole
    /// pubdata under calldata mode; the blob-sized chunks under blobs mode.
    pub fn commitment_payloads(&self) -> (r: Vec<Vec<u8>>)
        requires
            spec_effective_version(self.l1_batch_with_metadata@).spec_is_pre_1_4_2()
                || spec_pubdata_ready(self.l1_batch_with_metadata@),
        ensures
            spec_bytes_view(r@) == spec_commitment_payloads(
                self.l1_batch_with_metadata@,
                self.pubdata_da,
            ),
    {
        let version = self.l1_batch_with_metadata.effective_version();
        if version.is_pre_1_4_2() {
            let r: Vec<Vec<u8>> = Vec::new();
            proof {
                assert(spec_bytes_view(r@) =~= Seq::<Seq<u8>>::empty());
            }
            r
        } else {
            let pubdata = self.l1_batch_with_metadata.pubdata();
            match self.pubdata_da {
                PubdataDa::Calldata => {
                    let mut r: Vec<Vec<u8>> = Vec::new();
                    r.push(pubdata);
                    proof {
                        assert(spec_bytes_view(r@) =~= seq![
                            spec_pubdata_used(self.l1_batch_with_metadata@),
                        ]);
                    }
                    r
                },
                PubdataDa::Blobs => chunk_pubdata(&pubdata),
            }
        }
    }

    /// The version-independent prefix of the tuple.
    fn base_tokens(&self) -> (r: Vec<FieldValue>)
        requires
            spec_base_ready(self.l1_batch_with_metadata@),
        ensures
            spec_fields_view(r@) == spec_base_fields(self.l1_batch_with_metadata@),
    {
        let b = self.l1_batch_with_metadata;
        let version = b.effective_version();
        let mut t: Vec<FieldValue> = Vec::new();
        if version.is_pre_boojum() {
            t.push(FieldValue::Uint(b.header.number as u64));
            t.push(FieldValue::Uint(b.header.timestamp));
            t.push(FieldValue::Uint(b.metadata.rollup_last_leaf_index));
            t.push(FieldValue::FixedBytes(hash_to_vec(&b.metadata.merkle_root_hash)));
            t.push(FieldValue::Uint(b.header.l1_tx_count as u64));
            t.push(FieldValue::FixedBytes(hash_to_vec(&b.metadata.l2_l1_merkle_root)));
            t.push(FieldValue::FixedBytes(hash_to_vec(&b.header.priority_ops_onchain_data_hash)));
            match &b.metadata.initial_writes_compressed {
                Some(w) => t.push(FieldValue::Bytes(copy_bytes(w))),
                None => unreached(),
            }
            match &b.metadata.repeated_writes_compressed {
                Some(w) => t.push(FieldValue::Bytes(copy_bytes(w))),
                None => unreached(),
            }
            t.push(FieldValue::Bytes(pre_boojum_serialize_commitments(&b.header.l2_to_l1_logs)));
            t.push(FieldValue::BytesArray(copy_byte_vecs(&b.header.l2_to_l1_messages)));
            t.push(FieldValue::BytesArray(copy_byte_vecs(&b.raw_published_factory_deps)));
            proof {
                assert(spec_fields_view(t@) =~= spec_pre_boojum_fields(b@));
            }
        } else {
            t.push(FieldValue::Uint(b.header.number as u64));
            t.push(FieldValue::Uint(b.header.timestamp));
            t.push(FieldValue::Uint(b.metadata.rollup_last_leaf_index));
            t.push(FieldValue::FixedBytes(hash_to_vec(&b.metadata.merkle_root_hash)));
            t.push(FieldValue::Uint(b.header.l1_tx_count as u64));
            t.push(FieldValue::FixedBytes(hash_to_vec(&b.header.priority_ops_onchain_data_hash)));
            match &b.metadata.bootloader_initial_content_commitment {
                Some(h) => t.push(FieldValue::FixedBytes(hash_to_vec(h))),
                None => unreached(),
            }
            match &b.metadata.events_queue_commitment {
                Some(h) => t.push(FieldValue::FixedBytes(hash_to_vec(h))),
                None => unreached(),
            }
            t.push(FieldValue::Bytes(serialize_commitments(&b.header.system_logs)));
            proof {
                assert(spec_fields_view(t@) =~= spec_post_boojum_base_fields(b@));
            }
        }
        t
    }

    /// Serializes the batch commitment into the single tuple the commit call
    /// takes, selecting the layout by the batch's protocol version.  The
    /// commitment artifacts must correspond, in order, to the payloads that
    /// `commitment_payloads` returns; they are embedded verbatim and only
    /// consulted from the revised layout on.
    pub fn into_token(self, commitment_artifacts: &Vec<Vec<u8>>) -> (r: TupleToken)
        requires
            spec_encodable(
                self.l1_batch_with_metadata@,
                self.pubdata_da,
                spec_bytes_view(commitment_artifacts@),
            ),
        ensures
            r@ == spec_commit_tuple(
                self.l1_batch_with_metadata@,
                self.pubdata_da,
                spec_bytes_view(commitment_artifacts@),
            ),
    {
        let ghost b = self.l1_batch_with_metadata@;
        let ghost arts = spec_bytes_view(commitment_artifacts@);
        let mut tokens = self.base_tokens();

        let protocol_version = self.l1_batch_with_metadata.effective_version();

        if protocol_version.is_pre_boojum() {
            return TupleToken { fields: tokens };
        }
        if protocol_version.is_pre_1_4_2() {
            let pubdata = self.l1_batch_with_metadata.pubdata();
            tokens.push(FieldValue::Bytes(pubdata));
            proof {
                assert(spec_fields_view(tokens@) =~= spec_commit_tuple(b, self.pubdata_da, arts));
            }
        } else {
            let pubdata = self.l1_batch_with_metadata.pubdata();
            match self.pubdata_da {
                PubdataDa::Calldata => {
                    let mut field: Vec<u8> = Vec::new();
                    field.push(PUBDATA_SOURCE_CALLDATA);
                    push_vec(&mut field, &pubdata);
                    push_vec(&mut field, &commitment_artifacts[0]);
                    proof {
                        assert(field@ =~= seq![PUBDATA_SOURCE_CALLDATA] + spec_pubdata_used(b)
                            + arts[0]);
                    }
                    tokens.push(FieldValue::Bytes(field));
                },
                PubdataDa::Blobs => {
                    let mut field: Vec<u8> = Vec::new();
                    field.push(PUBDATA_SOURCE_BLOBS);
                    proof {
                        assert(arts.take(0).flatten() =~= Seq::<u8>::empty());
                        assert(field@ =~= seq![PUBDATA_SOURCE_BLOBS] + arts.take(0).flatten());
                    }
                    let mut i: usize = 0;
                    while i < commitment_artifacts.len()
                        invariant
                            i <= commitment_artifacts.len(),
                            field@ == seq![PUBDATA_SOURCE_BLOBS] + arts.take(i as int).flatten(),
                        decreases commitment_artifacts.len() - i,
                    {
                        push_vec(&mut field, &commitment_artifacts[i]);
                        proof {
                            assert(arts.take(i as int + 1) =~= arts.take(i as int).push(
                                arts[i as int],
                            ));
                            arts.take(i as int).lemma_flatten_push(arts[i as int]);
                            assert(field@ =~= seq![PUBDATA_SOURCE_BLOBS] + arts.take(
                                i as int + 1,
                            ).flatten());
                        }
                        i += 1;
                    }
                    proof {
                        assert(arts.take(commitment_artifacts@.len() as int) =~= arts);
                    }
                    tokens.push(FieldValue::Bytes(field));
                },
            }
            proof {
                assert(spec_fields_view(tokens@) =~= spec_commit_tuple(b, self.pubdata_da, arts));
            }
        }
        TupleToken { fields: tokens }
    }

    /// Decoding a commit tuple back into a batch is unsupported by design:
    /// this operation fails on every input.
    pub fn from_token(_token: TupleToken) -> (r: Result<CommitBatchInfo<'a>, TokenizeError>)
        ensures
            r == Err::<CommitBatchInfo<'a>, TokenizeError>(TokenizeError::DecodingNotSupported),
    {
        Err(TokenizeError::DecodingNotSupported)
    }
}

} // verus!
