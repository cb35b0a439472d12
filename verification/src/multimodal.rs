//! Multi-modal data exchange between AI agents: message and content types,
//! the adaptive choice of compression, payload encoding with integrity
//! hashes, chunking of large payloads and their reassembly, and range-aware
//! communication profiles.

use vstd::prelude::*;
use crate::crypto::{hmac_sha256, hmac_sha256_tag, le_bytes_u64, push_bytes, push_le_u64};

verus! {

/// A message between AI agents.
#[allow(non_camel_case_types)]
#[derive(Debug, Clone)]
pub struct AI_Message {
    pub session_id: [u8; 32],
    pub sequence_number: u64,
    /// Milliseconds since the Unix epoch.
    pub timestamp_ms: u64,
    pub sender_fingerprint: [u8; 32],
    pub message_type: AI_MessageType,
    /// Encrypted AI data.
    pub payload: Vec<u8>,
    pub signature: [u8; 64],
}

#[derive(Debug, Clone, Copy, PartialEq, Eq, Structural)]
pub enum AudioFormat {
    Pcm,
    Opus,
    Aac,
    Flac,
}

#[derive(Debug, Clone, Copy, PartialEq, Eq, Structural)]
pub enum VideoFormat {
    H264,
    H265,
    Vp8,
    Vp9,
}

#[derive(Debug, Clone, Copy, PartialEq, Eq, Structural)]
pub enum ImageFormat {
    Jpeg,
    Png,
    Webp,
    Tiff,
}

#[derive(Debug, Clone, Copy, PartialEq, Eq, Structural)]
pub enum SensorType {
    Lidar,
    Radar,
    Thermal,
    Imu,
    Gps,
    Environmental,
}

/// Content types of multi-modal data.
#[derive(Debug, Clone)]
pub enum ContentType {
    Text,
    Audio { sample_rate: u32, channels: u8, format: AudioFormat },
    /// Frame rate in thousandths of a frame per second.
    Video { width: u32, height: u32, frame_rate_mfps: u32, format: VideoFormat },
    Image { width: u32, height: u32, format: ImageFormat },
    SensorData { sensor_type: SensorType, precision: u8 },
    BinaryData { mime_type: String },
}

#[derive(Debug, Clone, Copy, PartialEq, Eq, Structural)]
pub enum CompressionAlgorithm {
    /// No compression.
    Uncompressed,
    Brotli,
    Zstd,
    Lz4,
    Adaptive,
}

/// Payload format specifications.
#[derive(Debug)]
pub enum PayloadFormat {
    Raw,
    Compressed(CompressionAlgorithm),
    Chunked { total_chunks: u32, chunk_index: u32 },
    Hybrid(Vec<PayloadFormat>),
}

/// Chunk information for large data transmission.
#[derive(Debug, Clone, Copy)]
pub struct ChunkInfo {
    pub chunk_id: u32,
    pub total_chunks: u32,
    pub chunk_size: u32,
    pub total_size: u64,
    pub chunk_hash: [u8; 32],
}

/// Compression information.
#[derive(Debug, Clone, Copy, PartialEq, Eq, Structural)]
pub struct CompressionInfo {
    pub algorithm: CompressionAlgorithm,
    pub original_size: u64,
    pub compressed_size: u64,
    /// Original over compressed size, per-mille; zero for an empty payload.
    pub compression_ratio_permille: u64,
}

#[derive(Debug, Clone, Copy, PartialEq, Eq, Structural)]
pub enum HashAlgorithm {
    Sha256,
    Blake3,
    Crc32,
}

/// Integrity hash of a span of data.
#[derive(Debug, Clone)]
pub struct IntegrityHash {
    pub algorithm: HashAlgorithm,
    pub hash: Vec<u8>,
    pub offset: u64,
    pub length: u64,
}

#[derive(Debug, Clone, Copy, PartialEq, Eq, Structural)]
pub enum SecurityLevel {
    Standard,
    High,
    Critical,
}

/// Multi-modal metadata for AI messages.
#[derive(Debug, Clone)]
pub struct MultiModalMetadata {
    pub content_types: Vec<ContentType>,
    pub total_size_bytes: u64,
    pub compression_info: Option<CompressionInfo>,
    pub integrity_hashes: Vec<IntegrityHash>,
    pub security_level: SecurityLevel,
    pub range_optimized: bool,
}

#[allow(non_camel_case_types)]
#[derive(Debug, Clone, Copy, PartialEq, Eq, Structural)]
pub enum AI_MessageType {
    Prompt,
    Response,
    ContextUpdate,
    CoordinationSignal,
    ErrorReport,
    AudioData,
    VideoData,
    ImageData,
    SensorData,
    MixedMedia,
    StreamChunk,
    StreamEnd,
    QualityRequest,
    QualityResponse,
    CompressionNegotiation,
}

#[derive(Debug, Clone, PartialEq, Eq)]
pub enum EncodingError {
    CompressionError(String),
    IntegrityError(String),
    UnsupportedContentType,
}

#[derive(Debug, Clone, Copy, PartialEq, Eq, Structural)]
pub enum ChunkingError {
    InvalidChunkOrder,
    IntegrityCheckFailed,
    ChunkSizeExceeded,
}

/// Compression choice: audio takes LZ4 beyond 100 m and Brotli within; video
/// Zstandard; images Brotli; sensor data above 1 MiB adaptive, else LZ4;
/// anything else no compression.
pub open spec fn compression_for(content_type: ContentType, range_cm: u32, data_size: usize) -> CompressionAlgorithm {
    match content_type {
        ContentType::Audio { .. } => if range_cm > 10000 {
            CompressionAlgorithm::Lz4
        } else {
            CompressionAlgorithm::Brotli
        },
        ContentType::Video { .. } => CompressionAlgorithm::Zstd,
        ContentType::Image { .. } => CompressionAlgorithm::Brotli,
        ContentType::SensorData { .. } => if data_size > 1024 * 1024 {
            CompressionAlgorithm::Adaptive
        } else {
            CompressionAlgorithm::Lz4
        },
        _ => CompressionAlgorithm::Uncompressed,
    }
}

/// The integrity digest of this module: each byte (plus `salt`, wrapping)
/// is folded by exclusive or into position `i % 32` of a 32-byte block.
pub open spec fn xor_fold(data: Seq<u8>, n: nat, salt: u8) -> Seq<u8>
    decreases n,
{
    if n == 0 {
        Seq::new(32, |i: int| 0u8)
    } else {
        let h = xor_fold(data, (n - 1) as nat, salt);
        let k = ((n - 1) % 32) as int;
        h.update(k, h[k] ^ (((data[n - 1] + salt) % 256) as u8))
    }
}

/// Digest recorded under the SHA-256 label.
pub open spec fn fold_sha(data: Seq<u8>) -> Seq<u8> {
    xor_fold(data, data.len(), 0)
}

/// Digest recorded under the BLAKE3 label.
pub open spec fn fold_blake(data: Seq<u8>) -> Seq<u8> {
    xor_fold(data, data.len(), 1)
}

fn fold_digest(data: &[u8], salt: u8) -> (r: [u8; 32])
    ensures
        r@ == xor_fold(data@, data@.len(), salt),
{
    let mut hash = [0u8; 32];
    assert(hash@ =~= xor_fold(data@, 0, salt));
    let mut i: usize = 0;
    while i < data.len()
        invariant
            i <= data@.len(),
            hash@ == xor_fold(data@, i as nat, salt),
        decreases data@.len() - i,
    {
        let k = i % 32;
        let b: u8 = ((data[i] as u16 + salt as u16) % 256) as u8;
        hash[k] = hash[k] ^ b;
        i = i + 1;
        assert(hash@ =~= xor_fold(data@, i as nat, salt));
    }
    hash
}

/// Integrity hashing and chunk signing.
#[derive(Debug)]
pub struct IntegrityVerifier {}

/// The key under which chunks are signed.
pub open spec fn chunk_signing_key() -> Seq<u8> {
    Seq::new(32, |i: int| 0u8)
}

/// The signature of a chunk: HMAC-SHA256 of session id, sequence number
/// (little-endian) and payload.
pub open spec fn chunk_signature(data: Seq<u8>, session_id: Seq<u8>, sequence: u64) -> Seq<u8> {
    hmac_sha256(chunk_signing_key(), session_id + le_bytes_u64(sequence) + data)
}

impl IntegrityVerifier {
    pub fn new() -> (r: Self) {
        IntegrityVerifier {}
    }

    /// The digest recorded under the SHA-256 label.
    pub fn hash_sha256(&self, data: &[u8]) -> (r: Result<[u8; 32], EncodingError>)
        ensures
            r is Ok && r->Ok_0@ == fold_sha(data@),
    {
        Ok(fold_digest(data, 0))
    }

    /// The digest recorded under the BLAKE3 label.
    pub fn hash_blake3(&self, data: &[u8]) -> (r: Result<[u8; 32], EncodingError>)
        ensures
            r is Ok && r->Ok_0@ == fold_blake(data@),
    {
        Ok(fold_digest(data, 1))
    }

    /// The two integrity hashes of a payload, each over the whole payload.
    pub fn generate_hashes(&self, data: &[u8]) -> (r: Result<Vec<IntegrityHash>, EncodingError>)
        ensures
            r is Ok,
            r->Ok_0@.len() == 2,
            r->Ok_0@[0].algorithm == HashAlgorithm::Sha256 && r->Ok_0@[0].hash@ == fold_sha(data@) && r->Ok_0@[0].offset == 0
                && r->Ok_0@[0].length == data@.len(),
            r->Ok_0@[1].algorithm == HashAlgorithm::Blake3 && r->Ok_0@[1].hash@ == fold_blake(data@) && r->Ok_0@[1].offset == 0
                && r->Ok_0@[1].length == data@.len(),
    {
        let sha = fold_digest(data, 0);
        let blake = fold_digest(data, 1);
        let mut hashes: Vec<IntegrityHash> = Vec::new();
        hashes.push(IntegrityHash { algorithm: HashAlgorithm::Sha256, hash: vstd::slice::slice_to_vec(sha.as_slice()), offset: 0, length: data.len() as u64 });
        hashes.push(IntegrityHash { algorithm: HashAlgorithm::Blake3, hash: vstd::slice::slice_to_vec(blake.as_slice()), offset: 0, length: data.len() as u64 });
        Ok(hashes)
    }

    /// Signs a chunk.
    pub fn sign_chunk(&self, data: &[u8], session_id: &[u8; 32], sequence: u64) -> (r: Result<Vec<u8>, EncodingError>)
        ensures
            r is Ok && r->Ok_0@ == chunk_signature(data@, session_id@, sequence),
    {
        let mut message: Vec<u8> = Vec::new();
        push_bytes(&mut message, session_id.as_slice());
        push_le_u64(&mut message, sequence);
        push_bytes(&mut message, data);
        let key = [0u8; 32];
        assert(key@ =~= chunk_signing_key());
        let tag = hmac_sha256_tag(key.as_slice(), message.as_slice());
        Ok(vstd::slice::slice_to_vec(tag.as_slice()))
    }
}

/// Brotli stage; it currently forwards data unchanged.
#[derive(Debug)]
pub struct BrotliEngine {}

/// Zstandard stage; it currently forwards data unchanged.
#[derive(Debug)]
pub struct ZstdEngine {}

/// LZ4 stage; it currently forwards data unchanged.
#[derive(Debug)]
pub struct Lz4Engine {}

impl BrotliEngine {
    pub fn new() -> (r: Self) {
        BrotliEngine {}
    }

    pub fn compress(&self, data: &[u8]) -> (r: Result<Vec<u8>, EncodingError>)
        ensures
            r is Ok && r->Ok_0@ == data@,
    {
        Ok(vstd::slice::slice_to_vec(data))
    }
}

impl ZstdEngine {
    pub fn new() -> (r: Self) {
        ZstdEngine {}
    }

    pub fn compress(&self, data: &[u8]) -> (r: Result<Vec<u8>, EncodingError>)
        ensures
            r is Ok && r->Ok_0@ == data@,
    {
        Ok(vstd::slice::slice_to_vec(data))
    }
}

impl Lz4Engine {
    pub fn new() -> (r: Self) {
        Lz4Engine {}
    }

    pub fn compress(&self, data: &[u8]) -> (r: Result<Vec<u8>, EncodingError>)
        ensures
            r is Ok && r->Ok_0@ == data@,
    {
        Ok(vstd::slice::slice_to_vec(data))
    }
}

/// An encoded payload.
#[derive(Debug)]
pub struct EncodedPayload {
    pub data: Vec<u8>,
    pub compression_info: Option<CompressionInfo>,
    pub integrity_hashes: Vec<IntegrityHash>,
    pub format: PayloadFormat,
}

/// Payload encoder for multi-modal data.
#[derive(Debug)]
pub struct PayloadEncoder {
    brotli: BrotliEngine,
    zstd: ZstdEngine,
    lz4: Lz4Engine,
    integrity_verifier: IntegrityVerifier,
}

impl PayloadEncoder {
    pub fn new() -> (r: Self) {
        PayloadEncoder {
            brotli: BrotliEngine::new(),
            zstd: ZstdEngine::new(),
            lz4: Lz4Engine::new(),
            integrity_verifier: IntegrityVerifier::new(),
        }
    }

    /// Number of compression engines available (Brotli, Zstandard, LZ4).
    pub fn engine_count(&self) -> (r: usize)
        ensures
            r == 3,
    {
        3
    }

    pub fn select_compression_algorithm(&self, content_type: &ContentType, range_cm: u32, data_size: usize) -> (r: Result<
        CompressionAlgorithm,
        EncodingError,
    >)
        ensures
            r == Ok::<CompressionAlgorithm, EncodingError>(compression_for(*content_type, range_cm, data_size)),
    {
        match content_type {
            ContentType::Audio { .. } => {
                if range_cm > 10000 {
                    Ok(CompressionAlgorithm::Lz4)
                } else {
                    Ok(CompressionAlgorithm::Brotli)
                }
            },
            ContentType::Video { .. } => Ok(CompressionAlgorithm::Zstd),
            ContentType::Image { .. } => Ok(CompressionAlgorithm::Brotli),
            ContentType::SensorData { .. } => {
                if data_size > 1024 * 1024 {
                    Ok(CompressionAlgorithm::Adaptive)
                } else {
                    Ok(CompressionAlgorithm::Lz4)
                }
            },
            _ => Ok(CompressionAlgorithm::Uncompressed),
        }
    }

    /// Encodes a payload: compresses it with the selected algorithm (when an
    /// engine exists for it), hashes the result, and records the compression.
    pub fn encode_payload(&self, data: &[u8], content_type: &ContentType, range_cm: u32) -> (r: Result<EncodedPayload, EncodingError>)
        ensures
            r is Ok,
            ({
                let p = r->Ok_0;
                let alg = compression_for(*content_type, range_cm, data@.len() as usize);
                &&& p.data@ == data@
                &&& p.integrity_hashes@.len() == 2
                &&& p.integrity_hashes@[0].hash@ == fold_sha(data@)
                &&& p.integrity_hashes@[1].hash@ == fold_blake(data@)
                &&& (match p.format {
                    PayloadFormat::Compressed(a) => a == alg,
                    _ => false,
                })
                &&& alg == CompressionAlgorithm::Uncompressed ==> p.compression_info is None
                &&& alg != CompressionAlgorithm::Uncompressed ==> p.compression_info == Some(CompressionInfo {
                    algorithm: alg,
                    original_size: data@.len() as u64,
                    compressed_size: data@.len() as u64,
                    compression_ratio_permille: if data@.len() == 0 { 0 } else { 1000 },
                })
            }),
    {
        let algorithm = self.select_compression_algorithm(content_type, range_cm, data.len())?;
        let compressed = match algorithm {
            CompressionAlgorithm::Brotli => self.brotli.compress(data)?,
            CompressionAlgorithm::Zstd => self.zstd.compress(data)?,
            CompressionAlgorithm::Lz4 => self.lz4.compress(data)?,
            _ => vstd::slice::slice_to_vec(data),
        };
        let integrity_hashes = self.integrity_verifier.generate_hashes(compressed.as_slice())?;
        let original = data.len() as u64;
        let size = compressed.len() as u64;
        let compression_info = match algorithm {
            CompressionAlgorithm::Uncompressed => None,
            _ => {
                let ratio: u64 = if size == 0 { 0 } else {
                    assert(original == size);
                    1000
                };
                Some(CompressionInfo { algorithm, original_size: original, compressed_size: size, compression_ratio_permille: ratio })
            },
        };
        Ok(EncodedPayload { data: compressed, compression_info, integrity_hashes, format: PayloadFormat::Compressed(algorithm) })
    }
}

// ---------------------------------------------------------------------------
// Chunking
// ---------------------------------------------------------------------------

/// A chunk of a large payload.
#[derive(Debug, Clone)]
pub struct MessageChunk {
    pub session_id: [u8; 32],
    pub sequence_number: u64,
    pub chunk_info: ChunkInfo,
    pub payload: Vec<u8>,
    pub signature: Vec<u8>,
}

/// Number of chunks of at most `max` bytes that `len` bytes take.
pub open spec fn chunk_count(len: int, max: int) -> int {
    (len + max - 1) / max
}

/// The bytes of chunk `i`: the `i`-th run of `max` bytes, the last one shorter.
pub open spec fn chunk_payload(data: Seq<u8>, max: int, i: int) -> Seq<u8> {
    let start = i * max;
    let end = if start + max <= data.len() { start + max } else { data.len() as int };
    data.subrange(start, end)
}

/// Number of chunks carrying a chunk id.
pub open spec fn id_count(chunks: Seq<MessageChunk>, id: int) -> nat
    decreases chunks.len(),
{
    if chunks.len() == 0 {
        0
    } else {
        id_count(chunks.drop_last(), id) + if chunks.last().chunk_info.chunk_id == id {
            1nat
        } else {
            0nat
        }
    }
}

/// Index of the first chunk carrying a chunk id, or the number of chunks when none does.
pub open spec fn first_with_id(chunks: Seq<MessageChunk>, id: int) -> int
    decreases chunks.len(),
{
    if chunks.len() == 0 {
        0
    } else if chunks[0].chunk_info.chunk_id == id {
        0
    } else {
        1 + first_with_id(chunks.drop_first(), id)
    }
}

/// Reassembly from position `i` of the id order, with `acc` gathered so far.
/// Chunks are taken in the order of a stable sort by chunk id: position `i`
/// holds chunk id `i` exactly when id `i - 1` occurs once and id `i` occurs
/// (the first such chunk is taken); otherwise the order is invalid. Each
/// chunk's hash must match its payload.
pub open spec fn reassembly_from(chunks: Seq<MessageChunk>, i: nat, acc: Seq<u8>) -> Result<Seq<u8>, ChunkingError>
    decreases chunks.len() - i,
{
    if i >= chunks.len() {
        Ok(acc)
    } else if (i > 0 && id_count(chunks, i - 1) != 1) || first_with_id(chunks, i as int) >= chunks.len() {
        Err(ChunkingError::InvalidChunkOrder)
    } else {
        let c = chunks[first_with_id(chunks, i as int)];
        if fold_sha(c.payload@) != c.chunk_info.chunk_hash@ {
            Err(ChunkingError::IntegrityCheckFailed)
        } else {
            reassembly_from(chunks, i + 1, acc + c.payload@)
        }
    }
}

/// Chunk manager for large data transmission.
#[derive(Debug)]
pub struct ChunkManager {
    max_chunk_size: usize,
    integrity_verifier: IntegrityVerifier,
}

impl ChunkManager {
    pub closed spec fn max_size(&self) -> nat {
        self.max_chunk_size as nat
    }

    pub fn new(max_chunk_size: usize) -> (r: Self)
        ensures
            r.max_size() == max_chunk_size,
    {
        ChunkManager { max_chunk_size, integrity_verifier: IntegrityVerifier::new() }
    }

    pub fn max_chunk_size(&self) -> (r: usize)
        ensures
            r == self.max_size(),
    {
        self.max_chunk_size
    }

    /// Splits data into chunks of at most the maximum size, numbered from
    /// zero, sequenced from `sequence_start`, each with its hash and signature.
    pub fn create_chunks(&self, data: &[u8], session_id: &[u8; 32], sequence_start: u64) -> (r: Result<Vec<MessageChunk>, ChunkingError>)
        requires
            self.max_size() > 0,
            data@.len() + self.max_size() <= usize::MAX,
            sequence_start + chunk_count(data@.len() as int, self.max_size() as int) <= u64::MAX,
        ensures
            r is Ok,
            ({
                let chunks = r->Ok_0@;
                let n = chunk_count(data@.len() as int, self.max_size() as int);
                &&& chunks.len() == n
                &&& forall|i: int| 0 <= i < n ==> {
                    let c = #[trigger] chunks[i];
                    &&& c.session_id@ == session_id@
                    &&& c.sequence_number == sequence_start + i
                    &&& c.chunk_info.chunk_id == i as u32
                    &&& c.chunk_info.total_chunks == n as u32
                    &&& c.chunk_info.chunk_size == c.payload@.len() as u32
                    &&& c.chunk_info.total_size == data@.len()
                    &&& c.payload@ == chunk_payload(data@, self.max_size() as int, i)
                    &&& c.chunk_info.chunk_hash@ == fold_sha(c.payload@)
                    &&& c.signature@ == chunk_signature(c.payload@, session_id@, c.sequence_number)
                }
            }),
    {
        let len = data.len();
        let max = self.max_chunk_size;
        let n: usize = (len + max - 1) / max;
        let total: u32 = n as u32;
        let mut chunks: Vec<MessageChunk> = Vec::new();
        let mut i: usize = 0;
        while i < n
            invariant
                len == data@.len(),
                max == self.max_size(),
                max > 0,
                n == chunk_count(len as int, max as int),
                total == n as u32,
                sequence_start + n <= u64::MAX,
                len + max <= usize::MAX,
                i <= n,
                chunks@.len() == i,
                forall|k: int| 0 <= k < i ==> {
                    let c = #[trigger] chunks@[k];
                    &&& c.session_id@ == session_id@
                    &&& c.sequence_number == sequence_start + k
                    &&& c.chunk_info.chunk_id == k as u32
                    &&& c.chunk_info.total_chunks == total
                    &&& c.chunk_info.chunk_size == c.payload@.len() as u32
                    &&& c.chunk_info.total_size == len
                    &&& c.payload@ == chunk_payload(data@, max as int, k)
                    &&& c.chunk_info.chunk_hash@ == fold_sha(c.payload@)
                    &&& c.signature@ == chunk_signature(c.payload@, session_id@, c.sequence_number)
                },
            decreases n - i,
        {
            assert(i * max < len) by (nonlinear_arith)
                requires
                    i < n,
                    n == (len as int + max as int - 1) / (max as int),
                    max > 0;
            let start = i * max;
            let end = if max <= len - start { start + max } else { len };
            let mut payload: Vec<u8> = Vec::new();
            let mut j: usize = start;
            while j < end
                invariant
                    start <= j <= end <= data@.len(),
                    payload@ == data@.subrange(start as int, j as int),
                decreases end - j,
            {
                payload.push(data[j]);
                j = j + 1;
                assert(payload@ =~= data@.subrange(start as int, j as int));
            }
            let sequence_number = sequence_start + i as u64;
            let hash = fold_digest(payload.as_slice(), 0);
            let signature = match self.integrity_verifier.sign_chunk(payload.as_slice(), session_id, sequence_number) {
                Ok(s) => s,
                Err(_) => Vec::new(),
            };
            let chunk = MessageChunk {
                session_id: *session_id,
                sequence_number,
                chunk_info: ChunkInfo {
                    chunk_id: i as u32,
                    total_chunks: total,
                    chunk_size: payload.len() as u32,
                    total_size: len as u64,
                    chunk_hash: hash,
                },
                payload,
                signature,
            };
            chunks.push(chunk);
            i = i + 1;
        }
        Ok(chunks)
    }

    fn count_id(chunks: &[MessageChunk], id: u32) -> (r: usize)
        ensures
            r == id_count(chunks@, id as int),
    {
        let mut count: usize = 0;
        let mut k: usize = 0;
        while k < chunks.len()
            invariant
                k <= chunks@.len(),
                count == id_count(chunks@.take(k as int), id as int),
                count <= k,
            decreases chunks@.len() - k,
        {
            assert(chunks@.take(k + 1).drop_last() =~= chunks@.take(k as int));
            if chunks[k].chunk_info.chunk_id == id {
                count = count + 1;
            }
            k = k + 1;
        }
        assert(chunks@.take(k as int) =~= chunks@);
        count
    }

    fn find_id(chunks: &[MessageChunk], id: u32) -> (r: usize)
        ensures
            r == first_with_id(chunks@, id as int),
            r <= chunks@.len(),
    {
        let mut k: usize = 0;
        assert(chunks@.skip(0) =~= chunks@);
        while k < chunks.len()
            invariant
                k <= chunks@.len(),
                first_with_id(chunks@, id as int) == k + first_with_id(chunks@.skip(k as int), id as int),
            decreases chunks@.len() - k,
        {
            assert(chunks@.skip(k as int)[0] == chunks@[k as int]);
            if chunks[k].chunk_info.chunk_id == id {
                return k;
            }
            assert(chunks@.skip(k as int).drop_first() =~= chunks@.skip(k + 1));
            k = k + 1;
        }
        assert(chunks@.skip(k as int).len() == 0);
        k
    }

    /// Reassembles chunks in chunk-id order, checking that the ids run from
    /// zero without gaps or repeats and that each payload matches its hash.
    pub fn reassemble_chunks(&self, chunks: &[MessageChunk]) -> (r: Result<Vec<u8>, ChunkingError>)
        requires
            chunks@.len() <= u32::MAX,
        ensures
            r is Ok <==> reassembly_from(chunks@, 0, seq![]) is Ok,
            r is Ok ==> r->Ok_0@ == reassembly_from(chunks@, 0, seq![])->Ok_0,
            r is Err ==> r->Err_0 == reassembly_from(chunks@, 0, seq![])->Err_0,
    {
        let n = chunks.len();
        let mut out: Vec<u8> = Vec::new();
        let mut i: usize = 0;
        while i < n
            invariant
                n == chunks@.len() <= u32::MAX,
                i <= n,
                reassembly_from(chunks@, 0, seq![]) == reassembly_from(chunks@, i as nat, out@),
            decreases n - i,
        {
            if i > 0 {
                let c = Self::count_id(chunks, (i - 1) as u32);
                if c != 1 {
                    return Err(ChunkingError::InvalidChunkOrder);
                }
            }
            let j = Self::find_id(chunks, i as u32);
            if j >= n {
                return Err(ChunkingError::InvalidChunkOrder);
            }
            let chunk = &chunks[j];
            let h = fold_digest(chunk.payload.as_slice(), 0);
            if !crate::crypto::bytes_equal(h.as_slice(), chunk.chunk_info.chunk_hash.as_slice()) {
                return Err(ChunkingError::IntegrityCheckFailed);
            }
            push_bytes(&mut out, chunk.payload.as_slice());
            i = i + 1;
        }
        Ok(out)
    }
}

proof fn lemma_id_count_indexed(chunks: Seq<MessageChunk>, m: int, id: int)
    requires
        0 <= m <= chunks.len(),
        forall|k: int| 0 <= k < chunks.len() ==> (#[trigger] chunks[k]).chunk_info.chunk_id == k,
    ensures
        id_count(chunks.take(m), id) == (if 0 <= id < m { 1nat } else { 0nat }),
    decreases m,
{
    if m > 0 {
        assert(chunks.take(m).drop_last() =~= chunks.take(m - 1));
        lemma_id_count_indexed(chunks, m - 1, id);
        assert(chunks.take(m).last() == chunks[m - 1]);
    }
}

proof fn lemma_first_with_id_indexed(chunks: Seq<MessageChunk>, start: int, id: int)
    requires
        0 <= start <= id < chunks.len(),
        forall|k: int| 0 <= k < chunks.len() ==> (#[trigger] chunks[k]).chunk_info.chunk_id == k,
    ensures
        first_with_id(chunks.skip(start), id) == id - start,
    decreases id - start,
{
    let s = chunks.skip(start);
    assert(s[0] == chunks[start]);
    if start < id {
        assert(s.drop_first() =~= chunks.skip(start + 1));
        lemma_first_with_id_indexed(chunks, start + 1, id);
    }
}

/// Reassembling the chunks that `create_chunks` makes gives the data back:
/// their ids run from zero in order, each hash matches its payload, and the
/// payloads are consecutive runs of the data.
pub proof fn lemma_chunk_round_trip(data: Seq<u8>, max: int, chunks: Seq<MessageChunk>)
    requires
        max > 0,
        chunks.len() == chunk_count(data.len() as int, max),
        forall|i: int| 0 <= i < chunks.len() ==> (#[trigger] chunks[i]).chunk_info.chunk_id == i,
        forall|i: int| 0 <= i < chunks.len() ==> (#[trigger] chunks[i]).payload@ == chunk_payload(data, max, i),
        forall|i: int| 0 <= i < chunks.len() ==> (#[trigger] chunks[i]).chunk_info.chunk_hash@ == fold_sha(chunks[i].payload@),
    ensures
        reassembly_from(chunks, 0, seq![]) == Ok::<Seq<u8>, ChunkingError>(data),
{
    let n = chunks.len() as int;
    let len = data.len() as int;
    assert(data.take(0) =~= seq![]);
    lemma_reassembly_suffix(data, max, chunks, 0);
    if n == 0 {
        assert(len == 0) by (nonlinear_arith)
            requires n == (len + max - 1) / max, max > 0, len >= 0, n == 0;
        assert(data =~= seq![]);
    } else {
        assert((n - 1) * max < len && len <= n * max) by (nonlinear_arith)
            requires n == (len + max - 1) / max, max > 0, len >= 0, n > 0;
    }
}

/// From chunk `i` on, with the first `i` runs gathered, reassembly completes
/// with the whole data.
proof fn lemma_reassembly_suffix(data: Seq<u8>, max: int, chunks: Seq<MessageChunk>, i: int)
    requires
        max > 0,
        0 <= i <= chunks.len(),
        chunks.len() == chunk_count(data.len() as int, max),
        forall|k: int| 0 <= k < chunks.len() ==> (#[trigger] chunks[k]).chunk_info.chunk_id == k,
        forall|k: int| 0 <= k < chunks.len() ==> (#[trigger] chunks[k]).payload@ == chunk_payload(data, max, k),
        forall|k: int| 0 <= k < chunks.len() ==> (#[trigger] chunks[k]).chunk_info.chunk_hash@ == fold_sha(chunks[k].payload@),
    ensures
        reassembly_from(chunks, i as nat, data.take(if i * max <= data.len() { i * max } else { data.len() as int }))
            == Ok::<Seq<u8>, ChunkingError>(data),
    decreases chunks.len() - i,
{
    let n = chunks.len() as int;
    let len = data.len() as int;
    let taken = if i * max <= len { i * max } else { len };
    if i == n {
        if n == 0 {
            assert(len == 0) by (nonlinear_arith)
                requires n == (len + max - 1) / max, max > 0, len >= 0, n == 0;
        } else {
            assert(len <= n * max) by (nonlinear_arith)
                requires n == (len + max - 1) / max, max > 0, len >= 0;
        }
        assert(data.take(taken) =~= data);
    } else {
        lemma_id_count_indexed(chunks, n, i - 1);
        assert(chunks.take(n) =~= chunks);
        assert(chunks.skip(0) =~= chunks);
        lemma_first_with_id_indexed(chunks, 0, i);
        assert(i * max < len) by (nonlinear_arith)
            requires i < n, n == (len + max - 1) / max, max > 0, len >= 0;
        assert(i * max + max == (i + 1) * max) by (nonlinear_arith);
        lemma_reassembly_suffix(data, max, chunks, i + 1);
        let next = if (i + 1) * max <= len { (i + 1) * max } else { len };
        assert(data.take(taken) + chunks[i].payload@ =~= data.take(next));
    }
}

// ---------------------------------------------------------------------------
// Range-aware profiles
// ---------------------------------------------------------------------------

/// Communication ranges for profile selection.
#[derive(Debug, Clone, Copy, PartialEq, Eq, Structural)]
pub enum CommunicationMode {
    ShortRange,
    LongRange,
    UltraLongRange,
}

#[derive(Debug, Clone, Copy, PartialEq, Eq, Structural)]
pub enum ReliabilityMode {
    BestEffort,
    Acknowledged,
    Guaranteed,
}

/// Communication profile for a range.
#[derive(Debug, Clone, Copy, PartialEq, Eq, Structural)]
pub struct CommunicationProfile {
    pub max_payload_size: usize,
    pub compression_level: u8,
    pub priority_boost: bool,
    pub reliability_mode: ReliabilityMode,
}

/// The profile of a range: short range 1 MiB payloads with light compression
/// on best effort; long range 512 KiB, medium compression, acknowledged;
/// ultra-long range 128 KiB, strong compression, priority, guaranteed.
pub open spec fn profile_for_mode(mode: CommunicationMode) -> CommunicationProfile {
    match mode {
        CommunicationMode::ShortRange => CommunicationProfile {
            max_payload_size: 1048576usize,
            compression_level: 1,
            priority_boost: false,
            reliability_mode: ReliabilityMode::BestEffort,
        },
        CommunicationMode::LongRange => CommunicationProfile {
            max_payload_size: 524288usize,
            compression_level: 3,
            priority_boost: false,
            reliability_mode: ReliabilityMode::Acknowledged,
        },
        CommunicationMode::UltraLongRange => CommunicationProfile {
            max_payload_size: 131072usize,
            compression_level: 5,
            priority_boost: true,
            reliability_mode: ReliabilityMode::Guaranteed,
        },
    }
}

/// Range-aware selection of communication profiles.
#[derive(Debug)]
pub struct RangeAwareOptimizer {
    short_range: CommunicationProfile,
    long_range: CommunicationProfile,
    ultra_long_range: CommunicationProfile,
}

impl RangeAwareOptimizer {
    pub closed spec fn wf(&self) -> bool {
        &&& self.short_range == profile_for_mode(CommunicationMode::ShortRange)
        &&& self.long_range == profile_for_mode(CommunicationMode::LongRange)
        &&& self.ultra_long_range == profile_for_mode(CommunicationMode::UltraLongRange)
    }

    pub fn new() -> (r: Self)
        ensures
            r.wf(),
    {
        RangeAwareOptimizer {
            short_range: CommunicationProfile {
                max_payload_size: 1024 * 1024,
                compression_level: 1,
                priority_boost: false,
                reliability_mode: ReliabilityMode::BestEffort,
            },
            long_range: CommunicationProfile {
                max_payload_size: 512 * 1024,
                compression_level: 3,
                priority_boost: false,
                reliability_mode: ReliabilityMode::Acknowledged,
            },
            ultra_long_range: CommunicationProfile {
                max_payload_size: 128 * 1024,
                compression_level: 5,
                priority_boost: true,
                reliability_mode: ReliabilityMode::Guaranteed,
            },
        }
    }

    pub fn get_profile(&self, mode: CommunicationMode) -> (r: CommunicationProfile)
        requires
            self.wf(),
        ensures
            r == profile_for_mode(mode),
    {
        match mode {
            CommunicationMode::ShortRange => self.short_range,
            CommunicationMode::LongRange => self.long_range,
            CommunicationMode::UltraLongRange => self.ultra_long_range,
        }
    }
}

/// Payload limits shrink as the range grows, and only ultra-long range gets
/// priority.
pub proof fn lemma_profiles_tighten_with_range()
    ensures
        profile_for_mode(CommunicationMode::ShortRange).max_payload_size > profile_for_mode(CommunicationMode::LongRange).max_payload_size,
        profile_for_mode(CommunicationMode::LongRange).max_payload_size > profile_for_mode(CommunicationMode::UltraLongRange).max_payload_size,
        profile_for_mode(CommunicationMode::ShortRange).compression_level < profile_for_mode(CommunicationMode::LongRange).compression_level,
        profile_for_mode(CommunicationMode::LongRange).compression_level < profile_for_mode(CommunicationMode::UltraLongRange).compression_level,
        profile_for_mode(CommunicationMode::UltraLongRange).priority_boost,
{
}

} // verus!
