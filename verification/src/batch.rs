//! The batch-with-metadata model: the plain values the encoder reads, their
//! mathematical views, and the byte-exact serializers for logs and pubdata.

use vstd::prelude::*;

use crate::version::ProtocolVersionId;

verus! {

// ---------------------------------------------------------------------------
// Big-endian byte helpers
// ---------------------------------------------------------------------------

/// The two big-endian bytes of a 16-bit counter.
pub open spec fn spec_be16(x: u16) -> Seq<u8> {
    seq![(x >> 8) as u8, x as u8]
}

/// The four big-endian bytes of a 32-bit counter.
pub open spec fn spec_be32(x: u32) -> Seq<u8> {
    seq![(x >> 24) as u8, (x >> 16) as u8, (x >> 8) as u8, x as u8]
}

pub(crate) fn push_be16(out: &mut Vec<u8>, x: u16)
    ensures
        final(out)@ == old(out)@ + spec_be16(x),
{
    out.push((x >> 8) as u8);
    out.push(x as u8);
    proof {
        assert(out@ =~= old(out)@ + spec_be16(x));
    }
}

pub(crate) fn push_be32(out: &mut Vec<u8>, x: u32)
    ensures
        final(out)@ == old(out)@ + spec_be32(x),
{
    out.push((x >> 24) as u8);
    out.push((x >> 16) as u8);
    out.push((x >> 8) as u8);
    out.push(x as u8);
    proof {
        assert(out@ =~= old(out)@ + spec_be32(x));
    }
}

/// Appends a copy of `data` to `out`.
pub(crate) fn push_vec(out: &mut Vec<u8>, data: &Vec<u8>)
    ensures
        final(out)@ == old(out)@ + data@,
{
    let mut i: usize = 0;
    while i < data.len()
        invariant
            i <= data.len(),
            out@ == old(out)@ + data@.take(i as int),
        decreases data.len() - i,
    {
        out.push(data[i]);
        proof {
            assert(old(out)@ + data@.take(i as int + 1) =~= (old(out)@ + data@.take(
                i as int,
            )).push(data@[i as int]));
        }
        i += 1;
    }
    proof {
        assert(data@.take(data.len() as int) =~= data@);
    }
}

pub(crate) fn push_address(out: &mut Vec<u8>, data: &[u8; 20])
    ensures
        final(out)@ == old(out)@ + data@,
{
    let mut i: usize = 0;
    while i < 20
        invariant
            i <= 20,
            out@ == old(out)@ + data@.take(i as int),
        decreases 20 - i,
    {
        out.push(data[i]);
        proof {
            assert(old(out)@ + data@.take(i as int + 1) =~= (old(out)@ + data@.take(
                i as int,
            )).push(data@[i as int]));
        }
        i += 1;
    }
    proof {
        assert(data@.take(20) =~= data@);
    }
}

pub(crate) fn push_hash(out: &mut Vec<u8>, data: &[u8; 32])
    ensures
        final(out)@ == old(out)@ + data@,
{
    let mut i: usize = 0;
    while i < 32
        invariant
            i <= 32,
            out@ == old(out)@ + data@.take(i as int),
        decreases 32 - i,
    {
        out.push(data[i]);
        proof {
            assert(old(out)@ + data@.take(i as int + 1) =~= (old(out)@ + data@.take(
                i as int,
            )).push(data@[i as int]));
        }
        i += 1;
    }
    proof {
        assert(data@.take(32) =~= data@);
    }
}

/// Returns a fresh vector holding the bytes of a 32-byte hash.
pub(crate) fn hash_to_vec(data: &[u8; 32]) -> (r: Vec<u8>)
    ensures
        r@ == data@,
{
    let mut r: Vec<u8> = Vec::new();
    push_hash(&mut r, data);
    r
}

/// Returns a fresh copy of a byte vector.
pub(crate) fn copy_bytes(data: &Vec<u8>) -> (r: Vec<u8>)
    ensures
        r@ == data@,
{
    let mut r: Vec<u8> = Vec::new();
    push_vec(&mut r, data);
    r
}

/// Returns a fresh copy of a sequence of byte vectors.
pub(crate) fn copy_byte_vecs(items: &Vec<Vec<u8>>) -> (r: Vec<Vec<u8>>)
    ensures
        spec_bytes_view(r@) == spec_bytes_view(items@),
{
    let mut r: Vec<Vec<u8>> = Vec::new();
    let mut i: usize = 0;
    while i < items.len()
        invariant
            i <= items.len(),
            spec_bytes_view(r@) =~= spec_bytes_view(items@).take(i as int),
        decreases items.len() - i,
    {
        r.push(copy_bytes(&items[i]));
        proof {
            assert(spec_bytes_view(r@) =~= spec_bytes_view(items@).take(i as int + 1));
        }
        i += 1;
    }
    proof {
        assert(spec_bytes_view(items@).take(items@.len() as int) =~= spec_bytes_view(items@));
    }
    r
}

// ---------------------------------------------------------------------------
// L2-to-L1 logs
// ---------------------------------------------------------------------------

/// One L2-to-L1 log record, as the settlement contract reads it.
#[derive(Clone, Copy, PartialEq, Eq, Debug)]
pub struct L2ToL1Log {
    pub shard_id: u8,
    pub is_service: bool,
    pub tx_number_in_block: u16,
    pub sender: [u8; 20],
    pub key: [u8; 32],
    pub value: [u8; 32],
}

/// Mathematical view of a log record.
pub struct LogModel {
    pub shard_id: u8,
    pub is_service: bool,
    pub tx_number_in_block: u16,
    pub sender: Seq<u8>,
    pub key: Seq<u8>,
    pub value: Seq<u8>,
}

impl View for L2ToL1Log {
    type V = LogModel;

    open spec fn view(&self) -> LogModel {
        LogModel {
            shard_id: self.shard_id,
            is_service: self.is_service,
            tx_number_in_block: self.tx_number_in_block,
            sender: self.sender@,
            key: self.key@,
            value: self.value@,
        }
    }
}

/// The view of a sequence of log records.
pub open spec fn spec_logs_view(logs: Seq<L2ToL1Log>) -> Seq<LogModel> {
    logs.map_values(|log: L2ToL1Log| log@)
}

/// The view of a sequence of byte vectors.
pub open spec fn spec_bytes_view(items: Seq<Vec<u8>>) -> Seq<Seq<u8>> {
    items.map_values(|item: Vec<u8>| item@)
}

/// The fixed 88-byte wire record of one log: shard id, service flag,
/// transaction index (big endian), sender address, key, value.
pub open spec fn spec_log_bytes(log: LogModel) -> Seq<u8> {
    seq![log.shard_id, (if log.is_service { 1u8 } else { 0u8 })] + spec_be16(
        log.tx_number_in_block,
    ) + log.sender + log.key + log.value
}

/// The packed concatenation of log records, in order.
pub open spec fn spec_logs_bytes(logs: Seq<LogModel>) -> Seq<u8>
    decreases logs.len(),
{
    if logs.len() == 0 {
        Seq::empty()
    } else {
        spec_logs_bytes(logs.drop_last()) + spec_log_bytes(logs.last())
    }
}

/// The legacy log serialization: a four-byte big-endian record count, then
/// the packed records.
pub open spec fn spec_pre_boojum_logs_bytes(logs: Seq<LogModel>) -> Seq<u8> {
    spec_be32(logs.len() as u32) + spec_logs_bytes(logs)
}

/// Appends the 88-byte wire record of one log.
pub(crate) fn serialize_log(out: &mut Vec<u8>, log: &L2ToL1Log)
    ensures
        final(out)@ == old(out)@ + spec_log_bytes(log@),
{
    out.push(log.shard_id);
    out.push(if log.is_service { 1 } else { 0 });
    push_be16(out, log.tx_number_in_block);
    push_address(out, &log.sender);
    push_hash(out, &log.key);
    push_hash(out, &log.value);
    proof {
        assert(out@ =~= old(out)@ + spec_log_bytes(log@));
    }
}

/// Appends the packed records of all logs, in order.
pub(crate) fn append_logs(out: &mut Vec<u8>, logs: &Vec<L2ToL1Log>)
    ensures
        final(out)@ == old(out)@ + spec_logs_bytes(spec_logs_view(logs@)),
{
    let ghost models = spec_logs_view(logs@);
    let mut i: usize = 0;
    while i < logs.len()
        invariant
            i <= logs.len(),
            out@ == old(out)@ + spec_logs_bytes(models.take(i as int)),
        decreases logs.len() - i,
    {
        serialize_log(out, &logs[i]);
        proof {
            assert(models.take(i as int + 1).drop_last() =~= models.take(i as int));
            assert(models.take(i as int + 1).last() == logs@[i as int]@);
        }
        i += 1;
    }
    proof {
        assert(models.take(logs.len() as int) =~= models);
    }
}

/// The current serialization of a batch's system logs: the packed 88-byte
/// records, in order, with no count prefix.
pub fn serialize_commitments(logs: &Vec<L2ToL1Log>) -> (r: Vec<u8>)
    ensures
        r@ == spec_logs_bytes(spec_logs_view(logs@)),
{
    let mut out: Vec<u8> = Vec::new();
    append_logs(&mut out, logs);
    out
}

/// The legacy serialization of a batch's L2-to-L1 logs: a four-byte
/// big-endian record count, then the packed 88-byte records.
pub fn pre_boojum_serialize_commitments(logs: &Vec<L2ToL1Log>) -> (r: Vec<u8>)
    requires
        logs@.len() < 0x1_0000_0000,
    ensures
        r@ == spec_pre_boojum_logs_bytes(spec_logs_view(logs@)),
{
    let mut out: Vec<u8> = Vec::new();
    push_be32(&mut out, logs.len() as u32);
    append_logs(&mut out, logs);
    out
}

// ---------------------------------------------------------------------------
// Batch header and metadata
// ---------------------------------------------------------------------------

/// The finalized batch header: the upstream-computed values the commit call
/// reads.  The priority-operations hash and the optional precomputed pubdata
/// are supplied whole; computing them is out of this core's scope.
pub struct L1BatchHeader {
    pub number: u32,
    pub timestamp: u64,
    pub l1_tx_count: u16,
    pub priority_ops_onchain_data_hash: [u8; 32],
    pub l2_to_l1_logs: Vec<L2ToL1Log>,
    pub system_logs: Vec<L2ToL1Log>,
    pub l2_to_l1_messages: Vec<Vec<u8>>,
    pub pubdata_input: Option<Vec<u8>>,
    pub protocol_version: Option<ProtocolVersionId>,
}

/// The batch's commitment metadata, computed upstream.
pub struct L1BatchMetadata {
    pub rollup_last_leaf_index: u64,
    pub merkle_root_hash: [u8; 32],
    pub l2_l1_merkle_root: [u8; 32],
    pub initial_writes_compressed: Option<Vec<u8>>,
    pub repeated_writes_compressed: Option<Vec<u8>>,
    pub bootloader_initial_content_commitment: Option<[u8; 32]>,
    pub events_queue_commitment: Option<[u8; 32]>,
    pub state_diffs_compressed: Vec<u8>,
}

/// A finalized batch with its metadata and the raw published bytecodes.
pub struct L1BatchWithMetadata {
    pub header: L1BatchHeader,
    pub metadata: L1BatchMetadata,
    pub raw_published_factory_deps: Vec<Vec<u8>>,
}

pub struct HeaderModel {
    pub number: u32,
    pub timestamp: u64,
    pub l1_tx_count: u16,
    pub priority_ops_onchain_data_hash: Seq<u8>,
    pub l2_to_l1_logs: Seq<LogModel>,
    pub system_logs: Seq<LogModel>,
    pub l2_to_l1_messages: Seq<Seq<u8>>,
    pub pubdata_input: Option<Seq<u8>>,
    pub protocol_version: Option<ProtocolVersionId>,
}

pub struct MetadataModel {
    pub rollup_last_leaf_index: u64,
    pub merkle_root_hash: Seq<u8>,
    pub l2_l1_merkle_root: Seq<u8>,
    pub initial_writes_compressed: Option<Seq<u8>>,
    pub repeated_writes_compressed: Option<Seq<u8>>,
    pub bootloader_initial_content_commitment: Option<Seq<u8>>,
    pub events_queue_commitment: Option<Seq<u8>>,
    pub state_diffs_compressed: Seq<u8>,
}

pub struct BatchModel {
    pub header: HeaderModel,
    pub metadata: MetadataModel,
    pub raw_published_factory_deps: Seq<Seq<u8>>,
}

pub open spec fn spec_opt_bytes_view(o: Option<Vec<u8>>) -> Option<Seq<u8>> {
    match o {
        Some(v) => Some(v@),
        None => None,
    }
}

pub open spec fn spec_opt_hash_view(o: Option<[u8; 32]>) -> Option<Seq<u8>> {
    match o {
        Some(h) => Some(h@),
        None => None,
    }
}

impl View for L1BatchHeader {
    type V = HeaderModel;

    open spec fn view(&self) -> HeaderModel {
        HeaderModel {
            number: self.number,
            timestamp: self.timestamp,
            l1_tx_count: self.l1_tx_count,
            priority_ops_onchain_data_hash: self.priority_ops_onchain_data_hash@,
            l2_to_l1_logs: spec_logs_view(self.l2_to_l1_logs@),
            system_logs: spec_logs_view(self.system_logs@),
            l2_to_l1_messages: spec_bytes_view(self.l2_to_l1_messages@),
            pubdata_input: spec_opt_bytes_view(self.pubdata_input),
            protocol_version: self.protocol_version,
        }
    }
}

impl View for L1BatchMetadata {
    type V = MetadataModel;

    open spec fn view(&self) -> MetadataModel {
        MetadataModel {
            rollup_last_leaf_index: self.rollup_last_leaf_index,
            merkle_root_hash: self.merkle_root_hash@,
            l2_l1_merkle_root: self.l2_l1_merkle_root@,
            initial_writes_compressed: spec_opt_bytes_view(self.initial_writes_compressed),
            repeated_writes_compressed: spec_opt_bytes_view(self.repeated_writes_compressed),
            bootloader_initial_content_commitment: spec_opt_hash_view(
                self.bootloader_initial_content_commitment,
            ),
            events_queue_commitment: spec_opt_hash_view(self.events_queue_commitment),
            state_diffs_compressed: self.state_diffs_compressed@,
        }
    }
}

impl View for L1BatchWithMetadata {
    type V = BatchModel;

    open spec fn view(&self) -> BatchModel {
        BatchModel {
            header: self.header@,
            metadata: self.metadata@,
            raw_published_factory_deps: spec_bytes_view(self.raw_published_factory_deps@),
        }
    }
}

// ---------------------------------------------------------------------------
// Pubdata
// ---------------------------------------------------------------------------

/// The concatenation, in order, of each item prefixed by its four-byte
/// big-endian length.
pub open spec fn spec_length_prefixed_bytes(items: Seq<Seq<u8>>) -> Seq<u8>
    decreases items.len(),
{
    if items.len() == 0 {
        Seq::empty()
    } else {
        spec_length_prefixed_bytes(items.drop_last()) + spec_be32(items.last().len() as u32)
            + items.last()
    }
}

/// The counts and lengths that the pubdata layout writes as four-byte words
/// all fit in 32 bits.
pub open spec fn spec_counts_fit_u32(b: BatchModel) -> bool {
    &&& b.header.l2_to_l1_logs.len() < 0x1_0000_0000
    &&& b.header.l2_to_l1_messages.len() < 0x1_0000_0000
    &&& b.raw_published_factory_deps.len() < 0x1_0000_0000
    &&& forall|i: int|
        0 <= i < b.header.l2_to_l1_messages.len() ==> b.header.l2_to_l1_messages[i].len()
            < 0x1_0000_0000
    &&& forall|i: int|
        0 <= i < b.raw_published_factory_deps.len() ==> b.raw_published_factory_deps[i].len()
            < 0x1_0000_0000
}

/// The pubdata payload reconstructed from the header: count-prefixed packed
/// logs, count-prefixed length-prefixed messages, count-prefixed
/// length-prefixed bytecodes, then the compressed state diffs.
pub open spec fn spec_pubdata(b: BatchModel) -> Seq<u8> {
    spec_be32(b.header.l2_to_l1_logs.len() as u32) + spec_logs_bytes(b.header.l2_to_l1_logs)
        + spec_be32(b.header.l2_to_l1_messages.len() as u32) + spec_length_prefixed_bytes(
        b.header.l2_to_l1_messages,
    ) + spec_be32(b.raw_published_factory_deps.len() as u32) + spec_length_prefixed_bytes(
        b.raw_published_factory_deps,
    ) + b.metadata.state_diffs_compressed
}

/// The pubdata the commit call embeds: the precomputed payload when the
/// header carries one, else the payload reconstructed from the header.
pub open spec fn spec_pubdata_used(b: BatchModel) -> Seq<u8> {
    match b.header.pubdata_input {
        Some(p) => p,
        None => spec_pubdata(b),
    }
}

/// Appends each item prefixed by its four-byte big-endian length.
pub(crate) fn append_length_prefixed(out: &mut Vec<u8>, items: &Vec<Vec<u8>>)
    requires
        forall|i: int|
            0 <= i < spec_bytes_view(items@).len() ==> spec_bytes_view(items@)[i].len()
                < 0x1_0000_0000,
    ensures
        final(out)@ == old(out)@ + spec_length_prefixed_bytes(spec_bytes_view(items@)),
{
    let ghost models = spec_bytes_view(items@);
    let mut i: usize = 0;
    while i < items.len()
        invariant
            i <= items.len(),
            out@ == old(out)@ + spec_length_prefixed_bytes(models.take(i as int)),
        decreases items.len() - i,
    {
        push_be32(out, items[i].len() as u32);
        push_vec(out, &items[i]);
        proof {
            assert(models.take(i as int + 1).drop_last() =~= models.take(i as int));
            assert(models.take(i as int + 1).last() == items@[i as int]@);
        }
        i += 1;
    }
    proof {
        assert(models.take(items.len() as int) =~= models);
    }
}

impl L1BatchWithMetadata {
    /// Reconstructs the pubdata payload from the header and metadata.
    pub fn construct_pubdata(&self) -> (r: Vec<u8>)
        requires
            spec_counts_fit_u32(self@),
        ensures
            r@ == spec_pubdata(self@),
    {
        let mut res: Vec<u8> = Vec::new();
        push_be32(&mut res, self.header.l2_to_l1_logs.len() as u32);
        append_logs(&mut res, &self.header.l2_to_l1_logs);
        push_be32(&mut res, self.header.l2_to_l1_messages.len() as u32);
        append_length_prefixed(&mut res, &self.header.l2_to_l1_messages);
        push_be32(&mut res, self.raw_published_factory_deps.len() as u32);
        append_length_prefixed(&mut res, &self.raw_published_factory_deps);
        push_vec(&mut res, &self.metadata.state_diffs_compressed);
        proof {
            assert(res@ =~= spec_pubdata(self@));
        }
        res
    }

    /// The pubdata the commit call embeds: the precomputed payload when
    /// present, else the payload reconstructed on demand.
    pub fn pubdata(&self) -> (r: Vec<u8>)
        requires
            self@.header.pubdata_input is Some || spec_counts_fit_u32(self@),
        ensures
            r@ == spec_pubdata_used(self@),
    {
        match &self.header.pubdata_input {
            Some(p) => copy_bytes(p),
            None => self.construct_pubdata(),
        }
    }
}

} // verus!
