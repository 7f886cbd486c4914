//! The shared codec vocabulary, codec parameters, and the mapping from
//! container-native codec identifiers to that vocabulary.

use vstd::prelude::*;

verus! {

/// A codec known to the framework. Every container reader labels its streams
/// with one of these, whatever the container calls the codec.
#[derive(Clone, Copy, Debug, PartialEq, Eq, Hash, Structural)]
pub enum CodecType {
    /// MPEG audio layer 1.
    Mp1,
    /// MPEG audio layer 2.
    Mp2,
    /// MPEG audio layer 3.
    Mp3,
    /// Free Lossless Audio Codec.
    Flac,
    /// Opus.
    Opus,
    /// Vorbis.
    Vorbis,
    /// Advanced Audio Coding, any profile.
    Aac,
    /// PCM, signed 16-bit, big-endian.
    PcmS16be,
    /// PCM, signed 24-bit, big-endian.
    PcmS24be,
    /// PCM, signed 32-bit, big-endian.
    PcmS32be,
    /// PCM, signed 16-bit, little-endian.
    PcmS16le,
    /// PCM, signed 24-bit, little-endian.
    PcmS24le,
    /// PCM, signed 32-bit, little-endian.
    PcmS32le,
    /// PCM, 32-bit floating point, little-endian.
    PcmF32le,
    /// PCM, 64-bit floating point, little-endian.
    PcmF64le,
    /// Video for Windows compatibility mode.
    Vcm,
    /// Uncompressed video.
    VideoUncompressed,
    /// MPEG-4 part 2, simple profile.
    Mpeg4IsoSp,
    /// MPEG-4 part 2, advanced simple profile.
    Mpeg4IsoAsp,
    /// MPEG-4 part 2, advanced profile.
    Mpeg4IsoAp,
    /// Microsoft MPEG-4 version 3.
    Mpeg4MsV3,
    /// MPEG-1 video.
    Mpeg1,
    /// MPEG-2 video.
    Mpeg2,
    /// MPEG-4 part 10, AVC.
    Mpeg4IsoAvc,
    /// MPEG-H part 2, HEVC.
    MpeghIsoHevc,
    /// AVS2.
    Avs2,
    /// AVS3.
    Avs3,
    /// RealVideo 1.0.
    Rv10,
    /// RealVideo G2.
    Rv20,
    /// RealVideo 8.
    Rv30,
    /// RealVideo 9 and 10.
    Rv40,
    /// QuickTime video.
    Quicktime,
    /// Theora.
    Theora,
    /// Apple ProRes.
    Prores,
    /// VP8.
    Vp8,
    /// VP9.
    Vp9,
    /// AV1.
    Av1,
    /// FFV1.
    Ffv1,
}

impl CodecType {
    /// The width in bits of one sample, for the PCM codecs; `None` for every
    /// other codec.
    pub open spec fn sample_width(self) -> Option<u64> {
        match self {
            CodecType::PcmS16be | CodecType::PcmS16le => Some(16u64),
            CodecType::PcmS24be | CodecType::PcmS24le => Some(24u64),
            CodecType::PcmS32be | CodecType::PcmS32le | CodecType::PcmF32le => Some(32u64),
            CodecType::PcmF64le => Some(64u64),
            _ => None,
        }
    }
}

/// How the channels of an audio stream are laid out.
#[derive(Clone, Copy, Debug, PartialEq, Eq, Hash, Structural)]
pub enum Layout {
    /// One centre channel.
    Mono,
    /// Left and right.
    Stereo,
    /// Left, right and low-frequency effects.
    TwoPointOne,
    /// Front left and right, centre, rear left and right, low-frequency
    /// effects.
    FivePointOne,
}

/// What a decoder needs to know about a stream before it sees a packet.
///
/// A reader fills the fields in as it learns them from the container, one
/// setter at a time; a field that the container does not give stays `None`.
#[derive(Clone, Copy, Debug, PartialEq, Eq, Structural)]
pub struct CodecParameters {
    /// The codec, once resolved.
    pub codec: Option<CodecType>,
    /// The sample rate in Hz.
    pub sample_rate: Option<u32>,
    /// The channel layout.
    pub channel_layout: Option<Layout>,
    /// The largest number of frames that one packet holds.
    pub max_frames_per_packet: Option<u64>,
    /// The number of bits in one decoded sample.
    pub bits_per_sample: Option<u32>,
}

impl CodecParameters {
    /// Parameters of which nothing is known yet.
    pub open spec fn empty() -> CodecParameters {
        CodecParameters {
            codec: None,
            sample_rate: None,
            channel_layout: None,
            max_frames_per_packet: None,
            bits_per_sample: None,
        }
    }

    /// Parameters of which nothing is known yet.
    pub fn new() -> (r: CodecParameters)
        ensures
            r == CodecParameters::empty(),
    {
        CodecParameters {
            codec: None,
            sample_rate: None,
            channel_layout: None,
            max_frames_per_packet: None,
            bits_per_sample: None,
        }
    }

    /// Sets the codec and leaves every other field as it is.
    pub fn for_codec(&mut self, codec: CodecType) -> (r: &mut CodecParameters)
        ensures
            *r == (CodecParameters { codec: Some(codec), ..*old(self) }),
            *final(self) == *final(r),
    {
        self.codec = Some(codec);
        self
    }

    /// Sets the sample rate in Hz and leaves every other field as it is.
    pub fn with_sample_rate(&mut self, sample_rate: u32) -> (r: &mut CodecParameters)
        ensures
            *r == (CodecParameters { sample_rate: Some(sample_rate), ..*old(self) }),
            *final(self) == *final(r),
    {
        self.sample_rate = Some(sample_rate);
        self
    }

    /// Sets the channel layout and leaves every other field as it is.
    pub fn with_channel_layout(&mut self, channel_layout: Layout) -> (r: &mut CodecParameters)
        ensures
            *r == (CodecParameters { channel_layout: Some(channel_layout), ..*old(self) }),
            *final(self) == *final(r),
    {
        self.channel_layout = Some(channel_layout);
        self
    }

    /// Sets the largest number of frames per packet and leaves every other
    /// field as it is.
    pub fn with_max_frames_per_packet(&mut self, len: u64) -> (r: &mut CodecParameters)
        ensures
            *r == (CodecParameters { max_frames_per_packet: Some(len), ..*old(self) }),
            *final(self) == *final(r),
    {
        self.max_frames_per_packet = Some(len);
        self
    }

    /// Sets the number of bits per decoded sample and leaves every other
    /// field as it is.
    pub fn with_bits_per_sample(&mut self, bits_per_sample: u32) -> (r: &mut CodecParameters)
        ensures
            *r == (CodecParameters { bits_per_sample: Some(bits_per_sample), ..*old(self) }),
            *final(self) == *final(r),
    {
        self.bits_per_sample = Some(bits_per_sample);
        self
    }
}

/// The audio attributes of a track that the codec mapping may consult.
#[derive(Clone, Copy, Debug, PartialEq, Eq, Structural)]
pub struct AudioElement {
    /// Bits per sample, where the container declares it.
    pub bit_depth: Option<u64>,
}

/// What a container's track header says about the codec of one track.
#[derive(Clone, Debug, PartialEq, Eq)]
pub struct TrackElement {
    /// The container-native codec identifier.
    pub codec_id: String,
    /// The audio attributes, for audio tracks.
    pub audio: Option<AudioElement>,
}

impl TrackElement {
    /// The declared bit depth: present only where the track has audio
    /// attributes and they carry one.
    pub open spec fn spec_bit_depth(&self) -> Option<u64> {
        match self.audio {
            Some(audio) => audio.bit_depth,
            None => None,
        }
    }

    /// The declared bit depth of the track, if any.
    #[verifier::when_used_as_spec(spec_bit_depth)]
    pub fn bit_depth(&self) -> (r: Option<u64>)
        ensures
            r == self.spec_bit_depth(),
    {
        match &self.audio {
            Some(audio) => audio.bit_depth,
            None => None,
        }
    }
}

/// Signed integer PCM, big-endian: one codec per supported sample width.
pub open spec fn pcm_int_big(bit_depth: Option<u64>) -> Option<CodecType> {
    if bit_depth == Some(16u64) {
        Some(CodecType::PcmS16be)
    } else if bit_depth == Some(24u64) {
        Some(CodecType::PcmS24be)
    } else if bit_depth == Some(32u64) {
        Some(CodecType::PcmS32be)
    } else {
        None
    }
}

/// Signed integer PCM, little-endian: one codec per supported sample width.
pub open spec fn pcm_int_little(bit_depth: Option<u64>) -> Option<CodecType> {
    if bit_depth == Some(16u64) {
        Some(CodecType::PcmS16le)
    } else if bit_depth == Some(24u64) {
        Some(CodecType::PcmS24le)
    } else if bit_depth == Some(32u64) {
        Some(CodecType::PcmS32le)
    } else {
        None
    }
}

/// IEEE floating-point PCM: one codec per supported sample width.
pub open spec fn pcm_float(bit_depth: Option<u64>) -> Option<CodecType> {
    if bit_depth == Some(32u64) {
        Some(CodecType::PcmF32le)
    } else if bit_depth == Some(64u64) {
        Some(CodecType::PcmF64le)
    } else {
        None
    }
}

/// `true` for the identifiers that name a family of codecs, told apart by
/// the bit depth of the track.
pub open spec fn is_depth_dependent(codec_id: Seq<char>) -> bool {
    ||| codec_id == "A_PCM/INT/BIG"@
    ||| codec_id == "A_PCM/INT/LIT"@
    ||| codec_id == "A_PCM/FLOAT/IEEE"@
}

/// `true` for the identifiers of Advanced Audio Coding, which all map to one
/// codec whatever the profile.
pub open spec fn is_aac(codec_id: Seq<char>) -> bool {
    ||| codec_id == "A_AAC/MPEG2/MAIN"@
    ||| codec_id == "A_AAC/MPEG2/LC"@
    ||| codec_id == "A_AAC/MPEG2/LC/SBR"@
    ||| codec_id == "A_AAC/MPEG2/SSR"@
    ||| codec_id == "A_AAC/MPEG4/MAIN"@
    ||| codec_id == "A_AAC/MPEG4/LC"@
    ||| codec_id == "A_AAC/MPEG4/LC/SBR"@
    ||| codec_id == "A_AAC/MPEG4/SSR"@
    ||| codec_id == "A_AAC/MPEG4/LTP"@
    ||| codec_id == "A_AAC"@
}

/// The codec that a container-native identifier stands for, given the bit
/// depth of the track where the container declares one.
///
/// An identifier outside the table has no codec. An identifier of a
/// depth-dependent family has one only for the widths listed for that
/// family; no width is ever assumed.
pub open spec fn canonical_codec(codec_id: Seq<char>, bit_depth: Option<u64>) -> Option<CodecType> {
    if codec_id == "A_MPEG/L1"@ {
        Some(CodecType::Mp1)
    } else if codec_id == "A_MPEG/L2"@ {
        Some(CodecType::Mp2)
    } else if codec_id == "A_MPEG/L3"@ {
        Some(CodecType::Mp3)
    } else if codec_id == "A_FLAC"@ {
        Some(CodecType::Flac)
    } else if codec_id == "A_OPUS"@ {
        Some(CodecType::Opus)
    } else if codec_id == "A_VORBIS"@ {
        Some(CodecType::Vorbis)
    } else if is_aac(codec_id) {
        Some(CodecType::Aac)
    } else if codec_id == "A_PCM/INT/BIG"@ {
        pcm_int_big(bit_depth)
    } else if codec_id == "A_PCM/INT/LIT"@ {
        pcm_int_little(bit_depth)
    } else if codec_id == "A_PCM/FLOAT/IEEE"@ {
        pcm_float(bit_depth)
    } else if codec_id == "V_MS/VFW/FOURCC"@ {
        Some(CodecType::Vcm)
    } else if codec_id == "V_UNCOMPRESSED"@ {
        Some(CodecType::VideoUncompressed)
    } else if codec_id == "V_MPEG4/ISO/SP"@ {
        Some(CodecType::Mpeg4IsoSp)
    } else if codec_id == "V_MPEG4/ISO/ASP"@ {
        Some(CodecType::Mpeg4IsoAsp)
    } else if codec_id == "V_MPEG4/ISO/AP"@ {
        Some(CodecType::Mpeg4IsoAp)
    } else if codec_id == "V_MPEG4/MS/V3"@ {
        Some(CodecType::Mpeg4MsV3)
    } else if codec_id == "V_MPEG1"@ {
        Some(CodecType::Mpeg1)
    } else if codec_id == "V_MPEG2"@ {
        Some(CodecType::Mpeg2)
    } else if codec_id == "V_MPEG4/ISO/AVC"@ {
        Some(CodecType::Mpeg4IsoAvc)
    } else if codec_id == "V_MPEGH/ISO/HEVC"@ {
        Some(CodecType::MpeghIsoHevc)
    } else if codec_id == "V_AVS2"@ {
        Some(CodecType::Avs2)
    } else if codec_id == "V_AVS3"@ {
        Some(CodecType::Avs3)
    } else if codec_id == "V_REAL/RV10"@ {
        Some(CodecType::Rv10)
    } else if codec_id == "V_REAL/RV20"@ {
        Some(CodecType::Rv20)
    } else if codec_id == "V_REAL/RV30"@ {
        Some(CodecType::Rv30)
    } else if codec_id == "V_REAL/RV40"@ {
        Some(CodecType::Rv40)
    } else if codec_id == "V_QUICKTIME"@ {
        Some(CodecType::Quicktime)
    } else if codec_id == "V_THEORA"@ {
        Some(CodecType::Theora)
    } else if codec_id == "V_PRORES"@ {
        Some(CodecType::Prores)
    } else if codec_id == "V_VP8"@ {
        Some(CodecType::Vp8)
    } else if codec_id == "V_VP9"@ {
        Some(CodecType::Vp9)
    } else if codec_id == "V_AV1"@ {
        Some(CodecType::Av1)
    } else if codec_id == "V_FFV1"@ {
        Some(CodecType::Ffv1)
    } else {
        None
    }
}

/// Whether a depth-dependent family lists the given sample width: 32 and 64
/// bits for floating-point PCM, 16, 24 and 32 bits for integer PCM.
pub open spec fn family_lists(codec_id: Seq<char>, width: u64) -> bool {
    if codec_id == "A_PCM/FLOAT/IEEE"@ {
        width == 32 || width == 64
    } else {
        width == 16 || width == 24 || width == 32
    }
}

/// The identifiers of the depth-dependent families are distinct from every
/// identifier that the table tries before them, and from each other.
proof fn lemma_family_identifiers_stand_alone()
    ensures
        "A_PCM/INT/BIG"@ != "A_PCM/INT/LIT"@,
        "A_PCM/INT/BIG"@ != "A_PCM/FLOAT/IEEE"@,
        "A_PCM/INT/LIT"@ != "A_PCM/FLOAT/IEEE"@,
        forall|codec_id: Seq<char>, bit_depth: Option<u64>|
            #![trigger canonical_codec(codec_id, bit_depth)]
            is_depth_dependent(codec_id) ==> canonical_codec(codec_id, bit_depth) == (if codec_id
                == "A_PCM/INT/BIG"@ {
                pcm_int_big(bit_depth)
            } else if codec_id == "A_PCM/INT/LIT"@ {
                pcm_int_little(bit_depth)
            } else {
                pcm_float(bit_depth)
            }),
{
    // The third character tells the families from everything tried before
    // them; the seventh and the eleventh tell the families apart.
    reveal_strlit("A_MPEG/L1");
    assert("A_MPEG/L1"@[2] == 'M');
    reveal_strlit("A_MPEG/L2");
    assert("A_MPEG/L2"@[2] == 'M');
    reveal_strlit("A_MPEG/L3");
    assert("A_MPEG/L3"@[2] == 'M');
    reveal_strlit("A_FLAC");
    assert("A_FLAC"@[2] == 'F');
    reveal_strlit("A_OPUS");
    assert("A_OPUS"@[2] == 'O');
    reveal_strlit("A_VORBIS");
    assert("A_VORBIS"@[2] == 'V');
    reveal_strlit("A_AAC/MPEG2/MAIN");
    assert("A_AAC/MPEG2/MAIN"@[2] == 'A');
    reveal_strlit("A_AAC/MPEG2/LC");
    assert("A_AAC/MPEG2/LC"@[2] == 'A');
    reveal_strlit("A_AAC/MPEG2/LC/SBR");
    assert("A_AAC/MPEG2/LC/SBR"@[2] == 'A');
    reveal_strlit("A_AAC/MPEG2/SSR");
    assert("A_AAC/MPEG2/SSR"@[2] == 'A');
    reveal_strlit("A_AAC/MPEG4/MAIN");
    assert("A_AAC/MPEG4/MAIN"@[2] == 'A');
    reveal_strlit("A_AAC/MPEG4/LC");
    assert("A_AAC/MPEG4/LC"@[2] == 'A');
    reveal_strlit("A_AAC/MPEG4/LC/SBR");
    assert("A_AAC/MPEG4/LC/SBR"@[2] == 'A');
    reveal_strlit("A_AAC/MPEG4/SSR");
    assert("A_AAC/MPEG4/SSR"@[2] == 'A');
    reveal_strlit("A_AAC/MPEG4/LTP");
    assert("A_AAC/MPEG4/LTP"@[2] == 'A');
    reveal_strlit("A_AAC");
    assert("A_AAC"@[2] == 'A');
    reveal_strlit("A_PCM/INT/BIG");
    assert("A_PCM/INT/BIG"@[2] == 'P');
    reveal_strlit("A_PCM/INT/LIT");
    assert("A_PCM/INT/LIT"@[2] == 'P');
    reveal_strlit("A_PCM/FLOAT/IEEE");
    assert("A_PCM/FLOAT/IEEE"@[2] == 'P');
    assert("A_PCM/INT/BIG"@[6] == 'I' && "A_PCM/INT/BIG"@[10] == 'B');
    assert("A_PCM/INT/LIT"@[6] == 'I' && "A_PCM/INT/LIT"@[10] == 'L');
    assert("A_PCM/FLOAT/IEEE"@[6] == 'F');
}

/// A depth-dependent identifier never yields a guessed codec.
///
/// It has a codec exactly when the track declares a bit depth that the
/// family lists; that codec is the family's codec of exactly that width. With
/// no bit depth, or with one outside the list, there is no codec.
pub proof fn lemma_depth_family_never_guesses(codec_id: Seq<char>, bit_depth: Option<u64>)
    requires
        is_depth_dependent(codec_id),
    ensures
        canonical_codec(codec_id, bit_depth) is Some <==> (bit_depth matches Some(width)
            && family_lists(codec_id, width)),
        canonical_codec(codec_id, bit_depth) matches Some(codec) ==> codec.sample_width()
            == bit_depth,
        codec_id == "A_PCM/INT/BIG"@ ==> canonical_codec(codec_id, bit_depth) == pcm_int_big(
            bit_depth,
        ),
        codec_id == "A_PCM/INT/LIT"@ ==> canonical_codec(codec_id, bit_depth) == pcm_int_little(
            bit_depth,
        ),
        codec_id == "A_PCM/FLOAT/IEEE"@ ==> canonical_codec(codec_id, bit_depth) == pcm_float(
            bit_depth,
        ),
{
    lemma_family_identifiers_stand_alone();
}

/// Outside the depth-dependent families the bit depth plays no part: the
/// identifier alone decides the codec.
pub proof fn lemma_fixed_identifier_ignores_depth(
    codec_id: Seq<char>,
    first: Option<u64>,
    second: Option<u64>,
)
    requires
        !is_depth_dependent(codec_id),
    ensures
        canonical_codec(codec_id, first) == canonical_codec(codec_id, second),
{
}

/// Whether two strings hold the same characters.
fn same_text(a: &str, b: &str) -> (r: bool)
    ensures
        r == (a@ == b@),
{
    let x = a.as_bytes();
    let y = b.as_bytes();
    proof {
        // Two strings with the same encoding decode to the same characters.
        vstd::utf8::encode_utf8_decode_utf8(a@);
        vstd::utf8::encode_utf8_decode_utf8(b@);
    }
    if x.len() != y.len() {
        return false;
    }
    let mut i: usize = 0;
    while i < x.len()
        invariant
            i <= x.len(),
            x@.len() == y@.len(),
            x@ == vstd::utf8::encode_utf8(a@),
            y@ == vstd::utf8::encode_utf8(b@),
            forall|k: int| 0 <= k < i ==> x@[k] == y@[k],
        decreases x.len() - i,
    {
        if x[i] != y[i] {
            return false;
        }
        i += 1;
    }
    assert(x@ =~= y@);
    true
}

/// Whether the identifier is one of those of Advanced Audio Coding.
fn names_aac(codec_id: &str) -> (r: bool)
    ensures
        r == is_aac(codec_id@),
{
    same_text(codec_id, "A_AAC/MPEG2/MAIN")
        || same_text(codec_id, "A_AAC/MPEG2/LC")
        || same_text(codec_id, "A_AAC/MPEG2/LC/SBR")
        || same_text(codec_id, "A_AAC/MPEG2/SSR")
        || same_text(codec_id, "A_AAC/MPEG4/MAIN")
        || same_text(codec_id, "A_AAC/MPEG4/LC")
        || same_text(codec_id, "A_AAC/MPEG4/LC/SBR")
        || same_text(codec_id, "A_AAC/MPEG4/SSR")
        || same_text(codec_id, "A_AAC/MPEG4/LTP")
        || same_text(codec_id, "A_AAC")
}

/// The codec of big-endian signed integer PCM at the given bit depth.
fn pcm_int_big_codec(bit_depth: Option<u64>) -> (r: Option<CodecType>)
    ensures
        r == pcm_int_big(bit_depth),
{
    match bit_depth {
        Some(16) => Some(CodecType::PcmS16be),
        Some(24) => Some(CodecType::PcmS24be),
        Some(32) => Some(CodecType::PcmS32be),
        _ => None,
    }
}

/// The codec of little-endian signed integer PCM at the given bit depth.
fn pcm_int_little_codec(bit_depth: Option<u64>) -> (r: Option<CodecType>)
    ensures
        r == pcm_int_little(bit_depth),
{
    match bit_depth {
        Some(16) => Some(CodecType::PcmS16le),
        Some(24) => Some(CodecType::PcmS24le),
        Some(32) => Some(CodecType::PcmS32le),
        _ => None,
    }
}

/// The codec of IEEE floating-point PCM at the given bit depth.
fn pcm_float_codec(bit_depth: Option<u64>) -> (r: Option<CodecType>)
    ensures
        r == pcm_float(bit_depth),
{
    match bit_depth {
        Some(32) => Some(CodecType::PcmF32le),
        Some(64) => Some(CodecType::PcmF64le),
        _ => None,
    }
}

/// Maps the codec identifier of a track to the shared codec vocabulary.
///
/// Returns `None` for an identifier outside the table, and for an identifier
/// of a depth-dependent family whose track declares no bit depth or one that
/// the family does not list. The caller decides whether a track without a
/// codec is skipped or fails the whole container.
pub fn codec_id_to_type(track: &TrackElement) -> (r: Option<CodecType>)
    ensures
        r == canonical_codec(track.codec_id@, track.spec_bit_depth()),
{
    let bit_depth = track.bit_depth();
    let codec_id = track.codec_id.as_str();

    if same_text(codec_id, "A_MPEG/L1") {
        Some(CodecType::Mp1)
    } else if same_text(codec_id, "A_MPEG/L2") {
        Some(CodecType::Mp2)
    } else if same_text(codec_id, "A_MPEG/L3") {
        Some(CodecType::Mp3)
    } else if same_text(codec_id, "A_FLAC") {
        Some(CodecType::Flac)
    } else if same_text(codec_id, "A_OPUS") {
        Some(CodecType::Opus)
    } else if same_text(codec_id, "A_VORBIS") {
        Some(CodecType::Vorbis)
    } else if names_aac(codec_id) {
        Some(CodecType::Aac)
    } else if same_text(codec_id, "A_PCM/INT/BIG") {
        pcm_int_big_codec(bit_depth)
    } else if same_text(codec_id, "A_PCM/INT/LIT") {
        pcm_int_little_codec(bit_depth)
    } else if same_text(codec_id, "A_PCM/FLOAT/IEEE") {
        pcm_float_codec(bit_depth)
    } else if same_text(codec_id, "V_MS/VFW/FOURCC") {
        Some(CodecType::Vcm)
    } else if same_text(codec_id, "V_UNCOMPRESSED") {
        Some(CodecType::VideoUncompressed)
    } else if same_text(codec_id, "V_MPEG4/ISO/SP") {
        Some(CodecType::Mpeg4IsoSp)
    } else if same_text(codec_id, "V_MPEG4/ISO/ASP") {
        Some(CodecType::Mpeg4IsoAsp)
    } else if same_text(codec_id, "V_MPEG4/ISO/AP") {
        Some(CodecType::Mpeg4IsoAp)
    } else if same_text(codec_id, "V_MPEG4/MS/V3") {
        Some(CodecType::Mpeg4MsV3)
    } else if same_text(codec_id, "V_MPEG1") {
        Some(CodecType::Mpeg1)
    } else if same_text(codec_id, "V_MPEG2") {
        Some(CodecType::Mpeg2)
    } else if same_text(codec_id, "V_MPEG4/ISO/AVC") {
        Some(CodecType::Mpeg4IsoAvc)
    } else if same_text(codec_id, "V_MPEGH/ISO/HEVC") {
        Some(CodecType::MpeghIsoHevc)
    } else if same_text(codec_id, "V_AVS2") {
        Some(CodecType::Avs2)
    } else if same_text(codec_id, "V_AVS3") {
        Some(CodecType::Avs3)
    } else if same_text(codec_id, "V_REAL/RV10") {
        Some(CodecType::Rv10)
    } else if same_text(codec_id, "V_REAL/RV20") {
        Some(CodecType::Rv20)
    } else if same_text(codec_id, "V_REAL/RV30") {
        Some(CodecType::Rv30)
    } else if same_text(codec_id, "V_REAL/RV40") {
        Some(CodecType::Rv40)
    } else if same_text(codec_id, "V_QUICKTIME") {
        Some(CodecType::Quicktime)
    } else if same_text(codec_id, "V_THEORA") {
        Some(CodecType::Theora)
    } else if same_text(codec_id, "V_PRORES") {
        Some(CodecType::Prores)
    } else if same_text(codec_id, "V_VP8") {
        Some(CodecType::Vp8)
    } else if same_text(codec_id, "V_VP9") {
        Some(CodecType::Vp9)
    } else if same_text(codec_id, "V_AV1") {
        Some(CodecType::Av1)
    } else if same_text(codec_id, "V_FFV1") {
        Some(CodecType::Ffv1)
    } else {
        None
    }
}

} // verus!
