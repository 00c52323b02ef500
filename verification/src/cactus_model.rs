//! The catalog of downloadable Cactus speech-to-text and language models.
use vstd::prelude::*;
use vstd::string::*;
use crate::text::{str_eq, occurs_at};

verus! {

/// Where the weights of every downloadable model are published.
pub open spec fn weights_base() -> Seq<char> {
    "https://hyprnote.s3.us-east-1.amazonaws.com/v0/Cactus-Compute/weights/"@
}

/// A Cactus speech-to-text model.
#[derive(Clone, Copy, PartialEq, Eq, Debug, Hash, Structural)]
pub enum CactusSttModel {
    WhisperSmallInt4,
    WhisperSmallInt4Apple,
    WhisperSmallInt8,
    WhisperSmallInt8Apple,
    WhisperMediumInt4,
    WhisperMediumInt4Apple,
    WhisperMediumInt8,
    WhisperMediumInt8Apple,
    ParakeetCtc0_6bInt4,
    ParakeetCtc0_6bInt4Apple,
    ParakeetCtc0_6bInt8,
    ParakeetCtc0_6bInt8Apple,
    ParakeetTdt0_6bV3Int4,
    ParakeetTdt0_6bV3Int4Apple,
    ParakeetTdt0_6bV3Int8,
    ParakeetTdt0_6bV3Int8Apple,
}

/// A Cactus language model.
#[derive(Clone, Copy, PartialEq, Eq, Debug, Hash, Structural)]
pub enum CactusLlmModel {
    Gemma3_270m,
    Lfm2_350m,
    Qwen3_0_6b,
    Lfm2_700m,
    Gemma3_1b,
    Lfm2_5_1_2bInstruct,
    Qwen3_1_7b,
    Lfm2Vl450mApple,
    Lfm2_5Vl1_6bApple,
}

pub open spec fn stt_asset_id(m: CactusSttModel) -> Seq<char> {
    match m {
        CactusSttModel::WhisperSmallInt4 => "cactus-whisper-small-int4"@,
        CactusSttModel::WhisperSmallInt4Apple => "cactus-whisper-small-int4-apple"@,
        CactusSttModel::WhisperSmallInt8 => "cactus-whisper-small-int8"@,
        CactusSttModel::WhisperSmallInt8Apple => "cactus-whisper-small-int8-apple"@,
        CactusSttModel::WhisperMediumInt4 => "cactus-whisper-medium-int4"@,
        CactusSttModel::WhisperMediumInt4Apple => "cactus-whisper-medium-int4-apple"@,
        CactusSttModel::WhisperMediumInt8 => "cactus-whisper-medium-int8"@,
        CactusSttModel::WhisperMediumInt8Apple => "cactus-whisper-medium-int8-apple"@,
        CactusSttModel::ParakeetCtc0_6bInt4 => "cactus-parakeet-ctc-0.6b-int4"@,
        CactusSttModel::ParakeetCtc0_6bInt4Apple => "cactus-parakeet-ctc-0.6b-int4-apple"@,
        CactusSttModel::ParakeetCtc0_6bInt8 => "cactus-parakeet-ctc-0.6b-int8"@,
        CactusSttModel::ParakeetCtc0_6bInt8Apple => "cactus-parakeet-ctc-0.6b-int8-apple"@,
        CactusSttModel::ParakeetTdt0_6bV3Int4 => "cactus-parakeet-tdt-0.6b-v3-int4"@,
        CactusSttModel::ParakeetTdt0_6bV3Int4Apple => "cactus-parakeet-tdt-0.6b-v3-int4-apple"@,
        CactusSttModel::ParakeetTdt0_6bV3Int8 => "cactus-parakeet-tdt-0.6b-v3-int8"@,
        CactusSttModel::ParakeetTdt0_6bV3Int8Apple => "cactus-parakeet-tdt-0.6b-v3-int8-apple"@,
    }
}

pub open spec fn stt_dir_name(m: CactusSttModel) -> Seq<char> {
    match m {
        CactusSttModel::WhisperSmallInt4 => "whisper-small-int4"@,
        CactusSttModel::WhisperSmallInt4Apple => "whisper-small-int4-apple"@,
        CactusSttModel::WhisperSmallInt8 => "whisper-small-int8"@,
        CactusSttModel::WhisperSmallInt8Apple => "whisper-small-int8-apple"@,
        CactusSttModel::WhisperMediumInt4 => "whisper-medium-int4"@,
        CactusSttModel::WhisperMediumInt4Apple => "whisper-medium-int4-apple"@,
        CactusSttModel::WhisperMediumInt8 => "whisper-medium-int8"@,
        CactusSttModel::WhisperMediumInt8Apple => "whisper-medium-int8-apple"@,
        CactusSttModel::ParakeetCtc0_6bInt4 => "parakeet-ctc-0.6b-int4"@,
        CactusSttModel::ParakeetCtc0_6bInt4Apple => "parakeet-ctc-0.6b-int4-apple"@,
        CactusSttModel::ParakeetCtc0_6bInt8 => "parakeet-ctc-0.6b-int8"@,
        CactusSttModel::ParakeetCtc0_6bInt8Apple => "parakeet-ctc-0.6b-int8-apple"@,
        CactusSttModel::ParakeetTdt0_6bV3Int4 => "parakeet-tdt-0.6b-v3-int4"@,
        CactusSttModel::ParakeetTdt0_6bV3Int4Apple => "parakeet-tdt-0.6b-v3-int4-apple"@,
        CactusSttModel::ParakeetTdt0_6bV3Int8 => "parakeet-tdt-0.6b-v3-int8"@,
        CactusSttModel::ParakeetTdt0_6bV3Int8Apple => "parakeet-tdt-0.6b-v3-int8-apple"@,
    }
}

pub open spec fn stt_display_name(m: CactusSttModel) -> Seq<char> {
    match m {
        CactusSttModel::WhisperSmallInt4 => "Whisper Small (INT4)"@,
        CactusSttModel::WhisperSmallInt4Apple => "Whisper Small (INT4, Apple NPU)"@,
        CactusSttModel::WhisperSmallInt8 => "Whisper Small (INT8)"@,
        CactusSttModel::WhisperSmallInt8Apple => "Whisper Small (INT8, Apple NPU)"@,
        CactusSttModel::WhisperMediumInt4 => "Whisper Medium (INT4)"@,
        CactusSttModel::WhisperMediumInt4Apple => "Whisper Medium (INT4, Apple NPU)"@,
        CactusSttModel::WhisperMediumInt8 => "Whisper Medium (INT8)"@,
        CactusSttModel::WhisperMediumInt8Apple => "Whisper Medium (INT8, Apple NPU)"@,
        CactusSttModel::ParakeetCtc0_6bInt4 => "Parakeet CTC 0.6B (INT4)"@,
        CactusSttModel::ParakeetCtc0_6bInt4Apple => "Parakeet CTC 0.6B (INT4, Apple NPU)"@,
        CactusSttModel::ParakeetCtc0_6bInt8 => "Parakeet CTC 0.6B (INT8)"@,
        CactusSttModel::ParakeetCtc0_6bInt8Apple => "Parakeet CTC 0.6B (INT8, Apple NPU)"@,
        CactusSttModel::ParakeetTdt0_6bV3Int4 => "Parakeet TDT 0.6B v3 (INT4)"@,
        CactusSttModel::ParakeetTdt0_6bV3Int4Apple => "Parakeet TDT 0.6B v3 (INT4, Apple NPU)"@,
        CactusSttModel::ParakeetTdt0_6bV3Int8 => "Parakeet TDT 0.6B v3 (INT8)"@,
        CactusSttModel::ParakeetTdt0_6bV3Int8Apple => "Parakeet TDT 0.6B v3 (INT8, Apple NPU)"@,
    }
}

pub open spec fn stt_is_apple(m: CactusSttModel) -> bool {
    match m {
        CactusSttModel::WhisperSmallInt4 => false,
        CactusSttModel::WhisperSmallInt4Apple => true,
        CactusSttModel::WhisperSmallInt8 => false,
        CactusSttModel::WhisperSmallInt8Apple => true,
        CactusSttModel::WhisperMediumInt4 => false,
        CactusSttModel::WhisperMediumInt4Apple => true,
        CactusSttModel::WhisperMediumInt8 => false,
        CactusSttModel::WhisperMediumInt8Apple => true,
        CactusSttModel::ParakeetCtc0_6bInt4 => false,
        CactusSttModel::ParakeetCtc0_6bInt4Apple => true,
        CactusSttModel::ParakeetCtc0_6bInt8 => false,
        CactusSttModel::ParakeetCtc0_6bInt8Apple => true,
        CactusSttModel::ParakeetTdt0_6bV3Int4 => false,
        CactusSttModel::ParakeetTdt0_6bV3Int4Apple => true,
        CactusSttModel::ParakeetTdt0_6bV3Int8 => false,
        CactusSttModel::ParakeetTdt0_6bV3Int8Apple => true,
    }
}

pub open spec fn stt_is_cross_platform(m: CactusSttModel) -> bool {
    match m {
        CactusSttModel::WhisperSmallInt4 => true,
        CactusSttModel::WhisperSmallInt4Apple => false,
        CactusSttModel::WhisperSmallInt8 => true,
        CactusSttModel::WhisperSmallInt8Apple => false,
        CactusSttModel::WhisperMediumInt4 => false,
        CactusSttModel::WhisperMediumInt4Apple => false,
        CactusSttModel::WhisperMediumInt8 => false,
        CactusSttModel::WhisperMediumInt8Apple => false,
        CactusSttModel::ParakeetCtc0_6bInt4 => false,
        CactusSttModel::ParakeetCtc0_6bInt4Apple => false,
        CactusSttModel::ParakeetCtc0_6bInt8 => false,
        CactusSttModel::ParakeetCtc0_6bInt8Apple => false,
        CactusSttModel::ParakeetTdt0_6bV3Int4 => true,
        CactusSttModel::ParakeetTdt0_6bV3Int4Apple => false,
        CactusSttModel::ParakeetTdt0_6bV3Int8 => true,
        CactusSttModel::ParakeetTdt0_6bV3Int8Apple => false,
    }
}

pub open spec fn stt_checksum(m: CactusSttModel) -> Option<u32> {
    match m {
        CactusSttModel::WhisperSmallInt4 => Some(3458434299u32),
        CactusSttModel::WhisperSmallInt4Apple => Some(978654274u32),
        CactusSttModel::WhisperSmallInt8 => Some(4195045602u32),
        CactusSttModel::WhisperSmallInt8Apple => Some(3401367684u32),
        CactusSttModel::WhisperMediumInt4 => None,
        CactusSttModel::WhisperMediumInt4Apple => None,
        CactusSttModel::WhisperMediumInt8 => Some(472491622u32),
        CactusSttModel::WhisperMediumInt8Apple => Some(3175773054u32),
        CactusSttModel::ParakeetCtc0_6bInt4 => Some(110856526u32),
        CactusSttModel::ParakeetCtc0_6bInt4Apple => Some(3331802527u32),
        CactusSttModel::ParakeetCtc0_6bInt8 => Some(1392473619u32),
        CactusSttModel::ParakeetCtc0_6bInt8Apple => Some(3465847421u32),
        CactusSttModel::ParakeetTdt0_6bV3Int4 => Some(4186460235u32),
        CactusSttModel::ParakeetTdt0_6bV3Int4Apple => Some(215115681u32),
        CactusSttModel::ParakeetTdt0_6bV3Int8 => Some(1102737485u32),
        CactusSttModel::ParakeetTdt0_6bV3Int8Apple => Some(3071220293u32),
    }
}

pub open spec fn stt_model_url(m: CactusSttModel) -> Option<Seq<char>> {
    match m {
        CactusSttModel::WhisperSmallInt4 => Some("https://hyprnote.s3.us-east-1.amazonaws.com/v0/Cactus-Compute/weights/whisper-small-int4.zip"@),
        CactusSttModel::WhisperSmallInt4Apple => Some("https://hyprnote.s3.us-east-1.amazonaws.com/v0/Cactus-Compute/weights/whisper-small-int4-apple.zip"@),
        CactusSttModel::WhisperSmallInt8 => Some("https://hyprnote.s3.us-east-1.amazonaws.com/v0/Cactus-Compute/weights/whisper-small-int8.zip"@),
        CactusSttModel::WhisperSmallInt8Apple => Some("https://hyprnote.s3.us-east-1.amazonaws.com/v0/Cactus-Compute/weights/whisper-small-int8-apple.zip"@),
        CactusSttModel::WhisperMediumInt4 => None,
        CactusSttModel::WhisperMediumInt4Apple => None,
        CactusSttModel::WhisperMediumInt8 => Some("https://hyprnote.s3.us-east-1.amazonaws.com/v0/Cactus-Compute/weights/whisper-medium-int8.zip"@),
        CactusSttModel::WhisperMediumInt8Apple => Some("https://hyprnote.s3.us-east-1.amazonaws.com/v0/Cactus-Compute/weights/whisper-medium-int8-apple.zip"@),
        CactusSttModel::ParakeetCtc0_6bInt4 => Some("https://hyprnote.s3.us-east-1.amazonaws.com/v0/Cactus-Compute/weights/parakeet-ctc-0.6b-int4.zip"@),
        CactusSttModel::ParakeetCtc0_6bInt4Apple => Some("https://hyprnote.s3.us-east-1.amazonaws.com/v0/Cactus-Compute/weights/parakeet-ctc-0.6b-int4-apple.zip"@),
        CactusSttModel::ParakeetCtc0_6bInt8 => Some("https://hyprnote.s3.us-east-1.amazonaws.com/v0/Cactus-Compute/weights/parakeet-ctc-0.6b-int8.zip"@),
        CactusSttModel::ParakeetCtc0_6bInt8Apple => Some("https://hyprnote.s3.us-east-1.amazonaws.com/v0/Cactus-Compute/weights/parakeet-ctc-0.6b-int8-apple.zip"@),
        CactusSttModel::ParakeetTdt0_6bV3Int4 => Some("https://hyprnote.s3.us-east-1.amazonaws.com/v0/Cactus-Compute/weights/parakeet-tdt-0.6b-v3-int4.zip"@),
        CactusSttModel::ParakeetTdt0_6bV3Int4Apple => Some("https://hyprnote.s3.us-east-1.amazonaws.com/v0/Cactus-Compute/weights/parakeet-tdt-0.6b-v3-int4-apple.zip"@),
        CactusSttModel::ParakeetTdt0_6bV3Int8 => Some("https://hyprnote.s3.us-east-1.amazonaws.com/v0/Cactus-Compute/weights/parakeet-tdt-0.6b-v3-int8.zip"@),
        CactusSttModel::ParakeetTdt0_6bV3Int8Apple => Some("https://hyprnote.s3.us-east-1.amazonaws.com/v0/Cactus-Compute/weights/parakeet-tdt-0.6b-v3-int8-apple.zip"@),
    }
}

pub open spec fn stt_description(m: CactusSttModel) -> Seq<char> {
    if stt_is_apple(m) {
        "Apple Neural Engine"@
    } else {
        ""@
    }
}

pub open spec fn opt_str_view(o: Option<&str>) -> Option<Seq<char>> {
    match o {
        Some(s) => Some(s@),
        None => None,
    }
}

pub open spec fn llm_asset_id(m: CactusLlmModel) -> Seq<char> {
    match m {
        CactusLlmModel::Gemma3_270m => "cactus-gemma3-270m"@,
        CactusLlmModel::Lfm2_350m => "cactus-lfm2-350m"@,
        CactusLlmModel::Qwen3_0_6b => "cactus-qwen3-0.6b"@,
        CactusLlmModel::Lfm2_700m => "cactus-lfm2-700m"@,
        CactusLlmModel::Gemma3_1b => "cactus-gemma3-1b"@,
        CactusLlmModel::Lfm2_5_1_2bInstruct => "cactus-lfm2.5-1.2b-instruct"@,
        CactusLlmModel::Qwen3_1_7b => "cactus-qwen3-1.7b"@,
        CactusLlmModel::Lfm2Vl450mApple => "cactus-lfm2-vl-450m-apple"@,
        CactusLlmModel::Lfm2_5Vl1_6bApple => "cactus-lfm2.5-vl-1.6b-apple"@,
    }
}

pub open spec fn llm_dir_name(m: CactusLlmModel) -> Seq<char> {
    match m {
        CactusLlmModel::Gemma3_270m => "gemma3-270m"@,
        CactusLlmModel::Lfm2_350m => "lfm2-350m"@,
        CactusLlmModel::Qwen3_0_6b => "qwen3-0.6b"@,
        CactusLlmModel::Lfm2_700m => "lfm2-700m"@,
        CactusLlmModel::Gemma3_1b => "gemma3-1b"@,
        CactusLlmModel::Lfm2_5_1_2bInstruct => "lfm2.5-1.2b-instruct"@,
        CactusLlmModel::Qwen3_1_7b => "qwen3-1.7b"@,
        CactusLlmModel::Lfm2Vl450mApple => "lfm2-vl-450m-apple"@,
        CactusLlmModel::Lfm2_5Vl1_6bApple => "lfm2.5-vl-1.6b-apple"@,
    }
}

pub open spec fn llm_display_name(m: CactusLlmModel) -> Seq<char> {
    match m {
        CactusLlmModel::Gemma3_270m => "Gemma 3 (270M)"@,
        CactusLlmModel::Lfm2_350m => "LFM2 (350M)"@,
        CactusLlmModel::Qwen3_0_6b => "Qwen3 (0.6B)"@,
        CactusLlmModel::Lfm2_700m => "LFM2 (700M)"@,
        CactusLlmModel::Gemma3_1b => "Gemma 3 (1B)"@,
        CactusLlmModel::Lfm2_5_1_2bInstruct => "LFM2.5 Instruct (1.2B)"@,
        CactusLlmModel::Qwen3_1_7b => "Qwen3 (1.7B)"@,
        CactusLlmModel::Lfm2Vl450mApple => "LFM2 VL (450M, Apple NPU)"@,
        CactusLlmModel::Lfm2_5Vl1_6bApple => "LFM2.5 VL (1.6B, Apple NPU)"@,
    }
}

pub open spec fn llm_is_apple(m: CactusLlmModel) -> bool {
    match m {
        CactusLlmModel::Gemma3_270m => false,
        CactusLlmModel::Lfm2_350m => false,
        CactusLlmModel::Qwen3_0_6b => false,
        CactusLlmModel::Lfm2_700m => false,
        CactusLlmModel::Gemma3_1b => false,
        CactusLlmModel::Lfm2_5_1_2bInstruct => false,
        CactusLlmModel::Qwen3_1_7b => false,
        CactusLlmModel::Lfm2Vl450mApple => true,
        CactusLlmModel::Lfm2_5Vl1_6bApple => true,
    }
}

pub const ALL_STT_MODELS: [CactusSttModel; 16] = [
    CactusSttModel::WhisperSmallInt4,
    CactusSttModel::WhisperSmallInt4Apple,
    CactusSttModel::WhisperSmallInt8,
    CactusSttModel::WhisperSmallInt8Apple,
    CactusSttModel::WhisperMediumInt4,
    CactusSttModel::WhisperMediumInt4Apple,
    CactusSttModel::WhisperMediumInt8,
    CactusSttModel::WhisperMediumInt8Apple,
    CactusSttModel::ParakeetCtc0_6bInt4,
    CactusSttModel::ParakeetCtc0_6bInt4Apple,
    CactusSttModel::ParakeetCtc0_6bInt8,
    CactusSttModel::ParakeetCtc0_6bInt8Apple,
    CactusSttModel::ParakeetTdt0_6bV3Int4,
    CactusSttModel::ParakeetTdt0_6bV3Int4Apple,
    CactusSttModel::ParakeetTdt0_6bV3Int8,
    CactusSttModel::ParakeetTdt0_6bV3Int8Apple,
];

pub const ALL_LLM_MODELS: [CactusLlmModel; 9] = [
    CactusLlmModel::Gemma3_270m,
    CactusLlmModel::Lfm2_350m,
    CactusLlmModel::Qwen3_0_6b,
    CactusLlmModel::Lfm2_700m,
    CactusLlmModel::Gemma3_1b,
    CactusLlmModel::Lfm2_5_1_2bInstruct,
    CactusLlmModel::Qwen3_1_7b,
    CactusLlmModel::Lfm2Vl450mApple,
    CactusLlmModel::Lfm2_5Vl1_6bApple,
];

impl CactusSttModel {
    /// Every speech-to-text model, in catalog order.
    pub fn all() -> (r: &'static [CactusSttModel])
        ensures
            r@ == ALL_STT_MODELS@,
    {
        &ALL_STT_MODELS
    }

    /// Whether the model runs on the Apple Neural Engine.
    pub fn is_apple(&self) -> (r: bool)
        ensures
            r == stt_is_apple(*self),
    {
        match self {
            CactusSttModel::WhisperSmallInt4 => false,
            CactusSttModel::WhisperSmallInt4Apple => true,
            CactusSttModel::WhisperSmallInt8 => false,
            CactusSttModel::WhisperSmallInt8Apple => true,
            CactusSttModel::WhisperMediumInt4 => false,
            CactusSttModel::WhisperMediumInt4Apple => true,
            CactusSttModel::WhisperMediumInt8 => false,
            CactusSttModel::WhisperMediumInt8Apple => true,
            CactusSttModel::ParakeetCtc0_6bInt4 => false,
            CactusSttModel::ParakeetCtc0_6bInt4Apple => true,
            CactusSttModel::ParakeetCtc0_6bInt8 => false,
            CactusSttModel::ParakeetCtc0_6bInt8Apple => true,
            CactusSttModel::ParakeetTdt0_6bV3Int4 => false,
            CactusSttModel::ParakeetTdt0_6bV3Int4Apple => true,
            CactusSttModel::ParakeetTdt0_6bV3Int8 => false,
            CactusSttModel::ParakeetTdt0_6bV3Int8Apple => true,
        }
    }

    pub fn is_cross_platform(&self) -> (r: bool)
        ensures
            r == stt_is_cross_platform(*self),
    {
        match self {
            CactusSttModel::WhisperSmallInt4 => true,
            CactusSttModel::WhisperSmallInt4Apple => false,
            CactusSttModel::WhisperSmallInt8 => true,
            CactusSttModel::WhisperSmallInt8Apple => false,
            CactusSttModel::WhisperMediumInt4 => false,
            CactusSttModel::WhisperMediumInt4Apple => false,
            CactusSttModel::WhisperMediumInt8 => false,
            CactusSttModel::WhisperMediumInt8Apple => false,
            CactusSttModel::ParakeetCtc0_6bInt4 => false,
            CactusSttModel::ParakeetCtc0_6bInt4Apple => false,
            CactusSttModel::ParakeetCtc0_6bInt8 => false,
            CactusSttModel::ParakeetCtc0_6bInt8Apple => false,
            CactusSttModel::ParakeetTdt0_6bV3Int4 => true,
            CactusSttModel::ParakeetTdt0_6bV3Int4Apple => false,
            CactusSttModel::ParakeetTdt0_6bV3Int8 => true,
            CactusSttModel::ParakeetTdt0_6bV3Int8Apple => false,
        }
    }

    /// The model's identifier, also its serialized and displayed name.
    pub fn asset_id(&self) -> (r: &'static str)
        ensures
            r@ == stt_asset_id(*self),
    {
        match self {
            CactusSttModel::WhisperSmallInt4 => "cactus-whisper-small-int4",
            CactusSttModel::WhisperSmallInt4Apple => "cactus-whisper-small-int4-apple",
            CactusSttModel::WhisperSmallInt8 => "cactus-whisper-small-int8",
            CactusSttModel::WhisperSmallInt8Apple => "cactus-whisper-small-int8-apple",
            CactusSttModel::WhisperMediumInt4 => "cactus-whisper-medium-int4",
            CactusSttModel::WhisperMediumInt4Apple => "cactus-whisper-medium-int4-apple",
            CactusSttModel::WhisperMediumInt8 => "cactus-whisper-medium-int8",
            CactusSttModel::WhisperMediumInt8Apple => "cactus-whisper-medium-int8-apple",
            CactusSttModel::ParakeetCtc0_6bInt4 => "cactus-parakeet-ctc-0.6b-int4",
            CactusSttModel::ParakeetCtc0_6bInt4Apple => "cactus-parakeet-ctc-0.6b-int4-apple",
            CactusSttModel::ParakeetCtc0_6bInt8 => "cactus-parakeet-ctc-0.6b-int8",
            CactusSttModel::ParakeetCtc0_6bInt8Apple => "cactus-parakeet-ctc-0.6b-int8-apple",
            CactusSttModel::ParakeetTdt0_6bV3Int4 => "cactus-parakeet-tdt-0.6b-v3-int4",
            CactusSttModel::ParakeetTdt0_6bV3Int4Apple => "cactus-parakeet-tdt-0.6b-v3-int4-apple",
            CactusSttModel::ParakeetTdt0_6bV3Int8 => "cactus-parakeet-tdt-0.6b-v3-int8",
            CactusSttModel::ParakeetTdt0_6bV3Int8Apple => "cactus-parakeet-tdt-0.6b-v3-int8-apple",
        }
    }

    /// Name of the directory the weights unpack into.
    pub fn dir_name(&self) -> (r: &'static str)
        ensures
            r@ == stt_dir_name(*self),
    {
        match self {
            CactusSttModel::WhisperSmallInt4 => "whisper-small-int4",
            CactusSttModel::WhisperSmallInt4Apple => "whisper-small-int4-apple",
            CactusSttModel::WhisperSmallInt8 => "whisper-small-int8",
            CactusSttModel::WhisperSmallInt8Apple => "whisper-small-int8-apple",
            CactusSttModel::WhisperMediumInt4 => "whisper-medium-int4",
            CactusSttModel::WhisperMediumInt4Apple => "whisper-medium-int4-apple",
            CactusSttModel::WhisperMediumInt8 => "whisper-medium-int8",
            CactusSttModel::WhisperMediumInt8Apple => "whisper-medium-int8-apple",
            CactusSttModel::ParakeetCtc0_6bInt4 => "parakeet-ctc-0.6b-int4",
            CactusSttModel::ParakeetCtc0_6bInt4Apple => "parakeet-ctc-0.6b-int4-apple",
            CactusSttModel::ParakeetCtc0_6bInt8 => "parakeet-ctc-0.6b-int8",
            CactusSttModel::ParakeetCtc0_6bInt8Apple => "parakeet-ctc-0.6b-int8-apple",
            CactusSttModel::ParakeetTdt0_6bV3Int4 => "parakeet-tdt-0.6b-v3-int4",
            CactusSttModel::ParakeetTdt0_6bV3Int4Apple => "parakeet-tdt-0.6b-v3-int4-apple",
            CactusSttModel::ParakeetTdt0_6bV3Int8 => "parakeet-tdt-0.6b-v3-int8",
            CactusSttModel::ParakeetTdt0_6bV3Int8Apple => "parakeet-tdt-0.6b-v3-int8-apple",
        }
    }

    /// Name of the weights archive.
    pub fn zip_name(&self) -> (r: String)
        ensures
            r@ == stt_dir_name(*self) + ".zip"@,
    {
        String::from_str(self.dir_name()).concat(".zip")
    }

    /// Where the weights can be downloaded from, if they are published.
    pub fn model_url(&self) -> (r: Option<&'static str>)
        ensures
            opt_str_view(r) == stt_model_url(*self),
    {
        match self {
            CactusSttModel::WhisperSmallInt4 => Some("https://hyprnote.s3.us-east-1.amazonaws.com/v0/Cactus-Compute/weights/whisper-small-int4.zip"),
            CactusSttModel::WhisperSmallInt4Apple => Some("https://hyprnote.s3.us-east-1.amazonaws.com/v0/Cactus-Compute/weights/whisper-small-int4-apple.zip"),
            CactusSttModel::WhisperSmallInt8 => Some("https://hyprnote.s3.us-east-1.amazonaws.com/v0/Cactus-Compute/weights/whisper-small-int8.zip"),
            CactusSttModel::WhisperSmallInt8Apple => Some("https://hyprnote.s3.us-east-1.amazonaws.com/v0/Cactus-Compute/weights/whisper-small-int8-apple.zip"),
            CactusSttModel::WhisperMediumInt4 => None,
            CactusSttModel::WhisperMediumInt4Apple => None,
            CactusSttModel::WhisperMediumInt8 => Some("https://hyprnote.s3.us-east-1.amazonaws.com/v0/Cactus-Compute/weights/whisper-medium-int8.zip"),
            CactusSttModel::WhisperMediumInt8Apple => Some("https://hyprnote.s3.us-east-1.amazonaws.com/v0/Cactus-Compute/weights/whisper-medium-int8-apple.zip"),
            CactusSttModel::ParakeetCtc0_6bInt4 => Some("https://hyprnote.s3.us-east-1.amazonaws.com/v0/Cactus-Compute/weights/parakeet-ctc-0.6b-int4.zip"),
            CactusSttModel::ParakeetCtc0_6bInt4Apple => Some("https://hyprnote.s3.us-east-1.amazonaws.com/v0/Cactus-Compute/weights/parakeet-ctc-0.6b-int4-apple.zip"),
            CactusSttModel::ParakeetCtc0_6bInt8 => Some("https://hyprnote.s3.us-east-1.amazonaws.com/v0/Cactus-Compute/weights/parakeet-ctc-0.6b-int8.zip"),
            CactusSttModel::ParakeetCtc0_6bInt8Apple => Some("https://hyprnote.s3.us-east-1.amazonaws.com/v0/Cactus-Compute/weights/parakeet-ctc-0.6b-int8-apple.zip"),
            CactusSttModel::ParakeetTdt0_6bV3Int4 => Some("https://hyprnote.s3.us-east-1.amazonaws.com/v0/Cactus-Compute/weights/parakeet-tdt-0.6b-v3-int4.zip"),
            CactusSttModel::ParakeetTdt0_6bV3Int4Apple => Some("https://hyprnote.s3.us-east-1.amazonaws.com/v0/Cactus-Compute/weights/parakeet-tdt-0.6b-v3-int4-apple.zip"),
            CactusSttModel::ParakeetTdt0_6bV3Int8 => Some("https://hyprnote.s3.us-east-1.amazonaws.com/v0/Cactus-Compute/weights/parakeet-tdt-0.6b-v3-int8.zip"),
            CactusSttModel::ParakeetTdt0_6bV3Int8Apple => Some("https://hyprnote.s3.us-east-1.amazonaws.com/v0/Cactus-Compute/weights/parakeet-tdt-0.6b-v3-int8-apple.zip"),
        }
    }

    /// CRC32 checksum of the published weights archive.
    pub fn checksum(&self) -> (r: Option<u32>)
        ensures
            r == stt_checksum(*self),
    {
        match self {
            CactusSttModel::WhisperSmallInt4 => Some(3458434299),
            CactusSttModel::WhisperSmallInt4Apple => Some(978654274),
            CactusSttModel::WhisperSmallInt8 => Some(4195045602),
            CactusSttModel::WhisperSmallInt8Apple => Some(3401367684),
            CactusSttModel::WhisperMediumInt4 => None,
            CactusSttModel::WhisperMediumInt4Apple => None,
            CactusSttModel::WhisperMediumInt8 => Some(472491622),
            CactusSttModel::WhisperMediumInt8Apple => Some(3175773054),
            CactusSttModel::ParakeetCtc0_6bInt4 => Some(110856526),
            CactusSttModel::ParakeetCtc0_6bInt4Apple => Some(3331802527),
            CactusSttModel::ParakeetCtc0_6bInt8 => Some(1392473619),
            CactusSttModel::ParakeetCtc0_6bInt8Apple => Some(3465847421),
            CactusSttModel::ParakeetTdt0_6bV3Int4 => Some(4186460235),
            CactusSttModel::ParakeetTdt0_6bV3Int4Apple => Some(215115681),
            CactusSttModel::ParakeetTdt0_6bV3Int8 => Some(1102737485),
            CactusSttModel::ParakeetTdt0_6bV3Int8Apple => Some(3071220293),
        }
    }

    pub fn description(&self) -> (r: &'static str)
        ensures
            r@ == stt_description(*self),
    {
        if self.is_apple() {
            "Apple Neural Engine"
        } else {
            ""
        }
    }

    pub fn display_name(&self) -> (r: &'static str)
        ensures
            r@ == stt_display_name(*self),
    {
        match self {
            CactusSttModel::WhisperSmallInt4 => "Whisper Small (INT4)",
            CactusSttModel::WhisperSmallInt4Apple => "Whisper Small (INT4, Apple NPU)",
            CactusSttModel::WhisperSmallInt8 => "Whisper Small (INT8)",
            CactusSttModel::WhisperSmallInt8Apple => "Whisper Small (INT8, Apple NPU)",
            CactusSttModel::WhisperMediumInt4 => "Whisper Medium (INT4)",
            CactusSttModel::WhisperMediumInt4Apple => "Whisper Medium (INT4, Apple NPU)",
            CactusSttModel::WhisperMediumInt8 => "Whisper Medium (INT8)",
            CactusSttModel::WhisperMediumInt8Apple => "Whisper Medium (INT8, Apple NPU)",
            CactusSttModel::ParakeetCtc0_6bInt4 => "Parakeet CTC 0.6B (INT4)",
            CactusSttModel::ParakeetCtc0_6bInt4Apple => "Parakeet CTC 0.6B (INT4, Apple NPU)",
            CactusSttModel::ParakeetCtc0_6bInt8 => "Parakeet CTC 0.6B (INT8)",
            CactusSttModel::ParakeetCtc0_6bInt8Apple => "Parakeet CTC 0.6B (INT8, Apple NPU)",
            CactusSttModel::ParakeetTdt0_6bV3Int4 => "Parakeet TDT 0.6B v3 (INT4)",
            CactusSttModel::ParakeetTdt0_6bV3Int4Apple => "Parakeet TDT 0.6B v3 (INT4, Apple NPU)",
            CactusSttModel::ParakeetTdt0_6bV3Int8 => "Parakeet TDT 0.6B v3 (INT8)",
            CactusSttModel::ParakeetTdt0_6bV3Int8Apple => "Parakeet TDT 0.6B v3 (INT8, Apple NPU)",
        }
    }

    /// The model whose identifier is `s` (the inverse of `asset_id`).
    pub fn from_asset_id(s: &str) -> (r: Option<CactusSttModel>)
        ensures
            match r {
                Some(m) => stt_asset_id(m) == s@ && exists|i: int| 0 <= i < ALL_STT_MODELS@.len() && ALL_STT_MODELS@[i] == m
                    && forall|j: int| 0 <= j < i ==> stt_asset_id(#[trigger] ALL_STT_MODELS@[j]) != s@,
                None => forall|j: int| 0 <= j < ALL_STT_MODELS@.len() ==> stt_asset_id(#[trigger] ALL_STT_MODELS@[j]) != s@,
            },
            forall|m: CactusSttModel| stt_asset_id(m) == s@ ==> r == Some(m),
    {
        let mut k: usize = 0;
        while k < ALL_STT_MODELS.len()
            invariant
                k <= ALL_STT_MODELS@.len(),
                forall|j: int| 0 <= j < k ==> stt_asset_id(#[trigger] ALL_STT_MODELS@[j]) != s@,
            decreases ALL_STT_MODELS@.len() - k,
        {
            let m = ALL_STT_MODELS[k];
            if str_eq(m.asset_id(), s) {
                proof {
                    assert forall|x: CactusSttModel| stt_asset_id(x) == s@ implies Some(m) == Some(x) by {
                        law_stt_asset_id_injective(m, x);
                    }
                }
                return Some(m);
            }
            k = k + 1;
        }
        proof {
            assert forall|x: CactusSttModel| stt_asset_id(x) == s@ implies false by {
                law_stt_all_lists_each_once(x);
                let i = choose|i: int| 0 <= i < ALL_STT_MODELS@.len() && ALL_STT_MODELS@[i] == x;
                assert(stt_asset_id(ALL_STT_MODELS@[i]) != s@);
            }
        }
        None
    }
}

impl CactusLlmModel {
    /// Every language model, in catalog order.
    pub fn all() -> (r: &'static [CactusLlmModel])
        ensures
            r@ == ALL_LLM_MODELS@,
    {
        &ALL_LLM_MODELS
    }

    pub fn is_apple(&self) -> (r: bool)
        ensures
            r == llm_is_apple(*self),
    {
        match self {
            CactusLlmModel::Gemma3_270m => false,
            CactusLlmModel::Lfm2_350m => false,
            CactusLlmModel::Qwen3_0_6b => false,
            CactusLlmModel::Lfm2_700m => false,
            CactusLlmModel::Gemma3_1b => false,
            CactusLlmModel::Lfm2_5_1_2bInstruct => false,
            CactusLlmModel::Qwen3_1_7b => false,
            CactusLlmModel::Lfm2Vl450mApple => true,
            CactusLlmModel::Lfm2_5Vl1_6bApple => true,
        }
    }

    pub fn asset_id(&self) -> (r: &'static str)
        ensures
            r@ == llm_asset_id(*self),
    {
        match self {
            CactusLlmModel::Gemma3_270m => "cactus-gemma3-270m",
            CactusLlmModel::Lfm2_350m => "cactus-lfm2-350m",
            CactusLlmModel::Qwen3_0_6b => "cactus-qwen3-0.6b",
            CactusLlmModel::Lfm2_700m => "cactus-lfm2-700m",
            CactusLlmModel::Gemma3_1b => "cactus-gemma3-1b",
            CactusLlmModel::Lfm2_5_1_2bInstruct => "cactus-lfm2.5-1.2b-instruct",
            CactusLlmModel::Qwen3_1_7b => "cactus-qwen3-1.7b",
            CactusLlmModel::Lfm2Vl450mApple => "cactus-lfm2-vl-450m-apple",
            CactusLlmModel::Lfm2_5Vl1_6bApple => "cactus-lfm2.5-vl-1.6b-apple",
        }
    }

    pub fn dir_name(&self) -> (r: &'static str)
        ensures
            r@ == llm_dir_name(*self),
    {
        match self {
            CactusLlmModel::Gemma3_270m => "gemma3-270m",
            CactusLlmModel::Lfm2_350m => "lfm2-350m",
            CactusLlmModel::Qwen3_0_6b => "qwen3-0.6b",
            CactusLlmModel::Lfm2_700m => "lfm2-700m",
            CactusLlmModel::Gemma3_1b => "gemma3-1b",
            CactusLlmModel::Lfm2_5_1_2bInstruct => "lfm2.5-1.2b-instruct",
            CactusLlmModel::Qwen3_1_7b => "qwen3-1.7b",
            CactusLlmModel::Lfm2Vl450mApple => "lfm2-vl-450m-apple",
            CactusLlmModel::Lfm2_5Vl1_6bApple => "lfm2.5-vl-1.6b-apple",
        }
    }

    pub fn zip_name(&self) -> (r: String)
        ensures
            r@ == llm_dir_name(*self) + ".zip"@,
    {
        String::from_str(self.dir_name()).concat(".zip")
    }

    /// Language model weights are not published for download.
    pub fn model_url(&self) -> (r: Option<&'static str>)
        ensures
            r is None,
    {
        None
    }

    pub fn description(&self) -> (r: &'static str)
        ensures
            r@ == ""@,
    {
        ""
    }

    pub fn display_name(&self) -> (r: &'static str)
        ensures
            r@ == llm_display_name(*self),
    {
        match self {
            CactusLlmModel::Gemma3_270m => "Gemma 3 (270M)",
            CactusLlmModel::Lfm2_350m => "LFM2 (350M)",
            CactusLlmModel::Qwen3_0_6b => "Qwen3 (0.6B)",
            CactusLlmModel::Lfm2_700m => "LFM2 (700M)",
            CactusLlmModel::Gemma3_1b => "Gemma 3 (1B)",
            CactusLlmModel::Lfm2_5_1_2bInstruct => "LFM2.5 Instruct (1.2B)",
            CactusLlmModel::Qwen3_1_7b => "Qwen3 (1.7B)",
            CactusLlmModel::Lfm2Vl450mApple => "LFM2 VL (450M, Apple NPU)",
            CactusLlmModel::Lfm2_5Vl1_6bApple => "LFM2.5 VL (1.6B, Apple NPU)",
        }
    }

    /// The model whose identifier is `s` (the inverse of `asset_id`).
    pub fn from_asset_id(s: &str) -> (r: Option<CactusLlmModel>)
        ensures
            match r {
                Some(m) => llm_asset_id(m) == s@ && exists|i: int| 0 <= i < ALL_LLM_MODELS@.len() && ALL_LLM_MODELS@[i] == m
                    && forall|j: int| 0 <= j < i ==> llm_asset_id(#[trigger] ALL_LLM_MODELS@[j]) != s@,
                None => forall|j: int| 0 <= j < ALL_LLM_MODELS@.len() ==> llm_asset_id(#[trigger] ALL_LLM_MODELS@[j]) != s@,
            },
            forall|m: CactusLlmModel| llm_asset_id(m) == s@ ==> r == Some(m),
    {
        let mut k: usize = 0;
        while k < ALL_LLM_MODELS.len()
            invariant
                k <= ALL_LLM_MODELS@.len(),
                forall|j: int| 0 <= j < k ==> llm_asset_id(#[trigger] ALL_LLM_MODELS@[j]) != s@,
            decreases ALL_LLM_MODELS@.len() - k,
        {
            let m = ALL_LLM_MODELS[k];
            if str_eq(m.asset_id(), s) {
                proof {
                    assert forall|x: CactusLlmModel| llm_asset_id(x) == s@ implies Some(m) == Some(x) by {
                        law_llm_asset_id_injective(m, x);
                    }
                }
                return Some(m);
            }
            k = k + 1;
        }
        proof {
            assert forall|x: CactusLlmModel| llm_asset_id(x) == s@ implies false by {
                law_llm_all_lists_each_once(x);
                let i = choose|i: int| 0 <= i < ALL_LLM_MODELS@.len() && ALL_LLM_MODELS@[i] == x;
                assert(llm_asset_id(ALL_LLM_MODELS@[i]) != s@);
            }
        }
        None
    }
}

/// A Cactus model of either kind.
#[derive(Clone, Copy, PartialEq, Eq, Debug, Hash, Structural)]
pub enum CactusModel {
    Stt(CactusSttModel),
    Llm(CactusLlmModel),
}

/// Every model: the speech-to-text models, then the language models.
pub open spec fn all_models_spec() -> Seq<CactusModel> {
    ALL_STT_MODELS@.map_values(|m: CactusSttModel| CactusModel::Stt(m)) + ALL_LLM_MODELS@.map_values(
        |m: CactusLlmModel| CactusModel::Llm(m),
    )
}

pub open spec fn model_asset_id(m: CactusModel) -> Seq<char> {
    match m {
        CactusModel::Stt(s) => stt_asset_id(s),
        CactusModel::Llm(l) => llm_asset_id(l),
    }
}

pub open spec fn model_dir_name(m: CactusModel) -> Seq<char> {
    match m {
        CactusModel::Stt(s) => stt_dir_name(s),
        CactusModel::Llm(l) => llm_dir_name(l),
    }
}

impl CactusModel {
    pub fn all() -> (r: Vec<CactusModel>)
        ensures
            r@ == all_models_spec(),
    {
        let mut out: Vec<CactusModel> = Vec::new();
        let stt = CactusSttModel::all();
        let mut k: usize = 0;
        while k < stt.len()
            invariant
                stt@ == ALL_STT_MODELS@,
                k <= stt@.len(),
                out@ == ALL_STT_MODELS@.take(k as int).map_values(|m: CactusSttModel| CactusModel::Stt(m)),
            decreases stt@.len() - k,
        {
            out.push(CactusModel::Stt(stt[k]));
            k = k + 1;
            assert(out@ =~= ALL_STT_MODELS@.take(k as int).map_values(|m: CactusSttModel| CactusModel::Stt(m)));
        }
        assert(ALL_STT_MODELS@.take(k as int) =~= ALL_STT_MODELS@);
        let ghost first = out@;
        let llm = CactusLlmModel::all();
        let mut k: usize = 0;
        while k < llm.len()
            invariant
                llm@ == ALL_LLM_MODELS@,
                k <= llm@.len(),
                first == ALL_STT_MODELS@.map_values(|m: CactusSttModel| CactusModel::Stt(m)),
                out@ == first + ALL_LLM_MODELS@.take(k as int).map_values(|m: CactusLlmModel| CactusModel::Llm(m)),
            decreases llm@.len() - k,
        {
            out.push(CactusModel::Llm(llm[k]));
            k = k + 1;
            assert(out@ =~= first + ALL_LLM_MODELS@.take(k as int).map_values(|m: CactusLlmModel| CactusModel::Llm(m)));
        }
        assert(ALL_LLM_MODELS@.take(k as int) =~= ALL_LLM_MODELS@);
        out
    }

    pub fn stt() -> (r: &'static [CactusSttModel])
        ensures
            r@ == ALL_STT_MODELS@,
    {
        CactusSttModel::all()
    }

    pub fn llm() -> (r: &'static [CactusLlmModel])
        ensures
            r@ == ALL_LLM_MODELS@,
    {
        CactusLlmModel::all()
    }

    pub fn is_apple(&self) -> (r: bool)
        ensures
            r == match *self {
                CactusModel::Stt(m) => stt_is_apple(m),
                CactusModel::Llm(m) => llm_is_apple(m),
            },
    {
        match self {
            CactusModel::Stt(m) => m.is_apple(),
            CactusModel::Llm(m) => m.is_apple(),
        }
    }

    pub fn asset_id(&self) -> (r: &'static str)
        ensures
            r@ == model_asset_id(*self),
    {
        match self {
            CactusModel::Stt(m) => m.asset_id(),
            CactusModel::Llm(m) => m.asset_id(),
        }
    }

    pub fn dir_name(&self) -> (r: &'static str)
        ensures
            r@ == model_dir_name(*self),
    {
        match self {
            CactusModel::Stt(m) => m.dir_name(),
            CactusModel::Llm(m) => m.dir_name(),
        }
    }

    pub fn zip_name(&self) -> (r: String)
        ensures
            r@ == model_dir_name(*self) + ".zip"@,
    {
        match self {
            CactusModel::Stt(m) => m.zip_name(),
            CactusModel::Llm(m) => m.zip_name(),
        }
    }

    pub fn model_url(&self) -> (r: Option<&'static str>)
        ensures
            opt_str_view(r) == match *self {
                CactusModel::Stt(m) => stt_model_url(m),
                CactusModel::Llm(_) => None,
            },
    {
        match self {
            CactusModel::Stt(m) => m.model_url(),
            CactusModel::Llm(m) => m.model_url(),
        }
    }

    pub fn checksum(&self) -> (r: Option<u32>)
        ensures
            r == match *self {
                CactusModel::Stt(m) => stt_checksum(m),
                CactusModel::Llm(_) => None,
            },
    {
        match self {
            CactusModel::Stt(m) => m.checksum(),
            CactusModel::Llm(_) => None,
        }
    }

    pub fn description(&self) -> (r: &'static str)
        ensures
            r@ == match *self {
                CactusModel::Stt(m) => stt_description(m),
                CactusModel::Llm(_) => ""@,
            },
    {
        match self {
            CactusModel::Stt(m) => m.description(),
            CactusModel::Llm(m) => m.description(),
        }
    }

    pub fn display_name(&self) -> (r: &'static str)
        ensures
            r@ == match *self {
                CactusModel::Stt(m) => stt_display_name(m),
                CactusModel::Llm(m) => llm_display_name(m),
            },
    {
        match self {
            CactusModel::Stt(m) => m.display_name(),
            CactusModel::Llm(m) => m.display_name(),
        }
    }
}


/// Every published speech-to-text archive lives under the weights location and is
/// named after the model's directory: `model_url` is the base followed by `zip_name`.
pub proof fn law_stt_url_is_weights_archive(m: CactusSttModel)
    ensures
        stt_model_url(m) matches Some(u) ==> u == weights_base() + stt_dir_name(m) + ".zip"@,
{
    reveal_strlit("https://hyprnote.s3.us-east-1.amazonaws.com/v0/Cactus-Compute/weights/");
    reveal_strlit(".zip");
    match m {
        CactusSttModel::WhisperSmallInt4 => {
            reveal_strlit("whisper-small-int4");
            reveal_strlit("https://hyprnote.s3.us-east-1.amazonaws.com/v0/Cactus-Compute/weights/whisper-small-int4.zip");
            assert(stt_model_url(m)->0 =~= weights_base() + stt_dir_name(m) + ".zip"@);
        },
        CactusSttModel::WhisperSmallInt4Apple => {
            reveal_strlit("whisper-small-int4-apple");
            reveal_strlit("https://hyprnote.s3.us-east-1.amazonaws.com/v0/Cactus-Compute/weights/whisper-small-int4-apple.zip");
            assert(stt_model_url(m)->0 =~= weights_base() + stt_dir_name(m) + ".zip"@);
        },
        CactusSttModel::WhisperSmallInt8 => {
            reveal_strlit("whisper-small-int8");
            reveal_strlit("https://hyprnote.s3.us-east-1.amazonaws.com/v0/Cactus-Compute/weights/whisper-small-int8.zip");
            assert(stt_model_url(m)->0 =~= weights_base() + stt_dir_name(m) + ".zip"@);
        },
        CactusSttModel::WhisperSmallInt8Apple => {
            reveal_strlit("whisper-small-int8-apple");
            reveal_strlit("https://hyprnote.s3.us-east-1.amazonaws.com/v0/Cactus-Compute/weights/whisper-small-int8-apple.zip");
            assert(stt_model_url(m)->0 =~= weights_base() + stt_dir_name(m) + ".zip"@);
        },
        CactusSttModel::WhisperMediumInt4 => {},
        CactusSttModel::WhisperMediumInt4Apple => {},
        CactusSttModel::WhisperMediumInt8 => {
            reveal_strlit("whisper-medium-int8");
            reveal_strlit("https://hyprnote.s3.us-east-1.amazonaws.com/v0/Cactus-Compute/weights/whisper-medium-int8.zip");
            assert(stt_model_url(m)->0 =~= weights_base() + stt_dir_name(m) + ".zip"@);
        },
        CactusSttModel::WhisperMediumInt8Apple => {
            reveal_strlit("whisper-medium-int8-apple");
            reveal_strlit("https://hyprnote.s3.us-east-1.amazonaws.com/v0/Cactus-Compute/weights/whisper-medium-int8-apple.zip");
            assert(stt_model_url(m)->0 =~= weights_base() + stt_dir_name(m) + ".zip"@);
        },
        CactusSttModel::ParakeetCtc0_6bInt4 => {
            reveal_strlit("parakeet-ctc-0.6b-int4");
            reveal_strlit("https://hyprnote.s3.us-east-1.amazonaws.com/v0/Cactus-Compute/weights/parakeet-ctc-0.6b-int4.zip");
            assert(stt_model_url(m)->0 =~= weights_base() + stt_dir_name(m) + ".zip"@);
        },
        CactusSttModel::ParakeetCtc0_6bInt4Apple => {
            reveal_strlit("parakeet-ctc-0.6b-int4-apple");
            reveal_strlit("https://hyprnote.s3.us-east-1.amazonaws.com/v0/Cactus-Compute/weights/parakeet-ctc-0.6b-int4-apple.zip");
            assert(stt_model_url(m)->0 =~= weights_base() + stt_dir_name(m) + ".zip"@);
        },
        CactusSttModel::ParakeetCtc0_6bInt8 => {
            reveal_strlit("parakeet-ctc-0.6b-int8");
            reveal_strlit("https://hyprnote.s3.us-east-1.amazonaws.com/v0/Cactus-Compute/weights/parakeet-ctc-0.6b-int8.zip");
            assert(stt_model_url(m)->0 =~= weights_base() + stt_dir_name(m) + ".zip"@);
        },
        CactusSttModel::ParakeetCtc0_6bInt8Apple => {
            reveal_strlit("parakeet-ctc-0.6b-int8-apple");
            reveal_strlit("https://hyprnote.s3.us-east-1.amazonaws.com/v0/Cactus-Compute/weights/parakeet-ctc-0.6b-int8-apple.zip");
            assert(stt_model_url(m)->0 =~= weights_base() + stt_dir_name(m) + ".zip"@);
        },
        CactusSttModel::ParakeetTdt0_6bV3Int4 => {
            reveal_strlit("parakeet-tdt-0.6b-v3-int4");
            reveal_strlit("https://hyprnote.s3.us-east-1.amazonaws.com/v0/Cactus-Compute/weights/parakeet-tdt-0.6b-v3-int4.zip");
            assert(stt_model_url(m)->0 =~= weights_base() + stt_dir_name(m) + ".zip"@);
        },
        CactusSttModel::ParakeetTdt0_6bV3Int4Apple => {
            reveal_strlit("parakeet-tdt-0.6b-v3-int4-apple");
            reveal_strlit("https://hyprnote.s3.us-east-1.amazonaws.com/v0/Cactus-Compute/weights/parakeet-tdt-0.6b-v3-int4-apple.zip");
            assert(stt_model_url(m)->0 =~= weights_base() + stt_dir_name(m) + ".zip"@);
        },
        CactusSttModel::ParakeetTdt0_6bV3Int8 => {
            reveal_strlit("parakeet-tdt-0.6b-v3-int8");
            reveal_strlit("https://hyprnote.s3.us-east-1.amazonaws.com/v0/Cactus-Compute/weights/parakeet-tdt-0.6b-v3-int8.zip");
            assert(stt_model_url(m)->0 =~= weights_base() + stt_dir_name(m) + ".zip"@);
        },
        CactusSttModel::ParakeetTdt0_6bV3Int8Apple => {
            reveal_strlit("parakeet-tdt-0.6b-v3-int8-apple");
            reveal_strlit("https://hyprnote.s3.us-east-1.amazonaws.com/v0/Cactus-Compute/weights/parakeet-tdt-0.6b-v3-int8-apple.zip");
            assert(stt_model_url(m)->0 =~= weights_base() + stt_dir_name(m) + ".zip"@);
        },
    }
}

/// A speech-to-text model has a download location exactly when it has a checksum.
pub proof fn law_stt_url_iff_checksum(m: CactusSttModel)
    ensures
        stt_model_url(m) is Some <==> stt_checksum(m) is Some,
{
}

/// A cross-platform model never targets the Apple Neural Engine, and a model's
/// description names the Apple Neural Engine exactly when it targets it.
pub proof fn law_stt_platforms(m: CactusSttModel)
    ensures
        stt_is_cross_platform(m) ==> !stt_is_apple(m),
        stt_description(m) == "Apple Neural Engine"@ <==> stt_is_apple(m),
{
    reveal_strlit("Apple Neural Engine");
    reveal_strlit("");
    if !stt_is_apple(m) {
        assert(""@.len() != "Apple Neural Engine"@.len());
    }
}

/// Every speech-to-text identifier is its directory name with the `cactus-` prefix.
pub proof fn law_stt_asset_id_prefix(m: CactusSttModel)
    ensures
        stt_asset_id(m) == "cactus-"@ + stt_dir_name(m),
{
    reveal_strlit("cactus-");
    match m {
        CactusSttModel::WhisperSmallInt4 => {
            reveal_strlit("cactus-whisper-small-int4");
            reveal_strlit("whisper-small-int4");
            assert(stt_asset_id(m) =~= "cactus-"@ + stt_dir_name(m));
        },
        CactusSttModel::WhisperSmallInt4Apple => {
            reveal_strlit("cactus-whisper-small-int4-apple");
            reveal_strlit("whisper-small-int4-apple");
            assert(stt_asset_id(m) =~= "cactus-"@ + stt_dir_name(m));
        },
        CactusSttModel::WhisperSmallInt8 => {
            reveal_strlit("cactus-whisper-small-int8");
            reveal_strlit("whisper-small-int8");
            assert(stt_asset_id(m) =~= "cactus-"@ + stt_dir_name(m));
        },
        CactusSttModel::WhisperSmallInt8Apple => {
            reveal_strlit("cactus-whisper-small-int8-apple");
            reveal_strlit("whisper-small-int8-apple");
            assert(stt_asset_id(m) =~= "cactus-"@ + stt_dir_name(m));
        },
        CactusSttModel::WhisperMediumInt4 => {
            reveal_strlit("cactus-whisper-medium-int4");
            reveal_strlit("whisper-medium-int4");
            assert(stt_asset_id(m) =~= "cactus-"@ + stt_dir_name(m));
        },
        CactusSttModel::WhisperMediumInt4Apple => {
            reveal_strlit("cactus-whisper-medium-int4-apple");
            reveal_strlit("whisper-medium-int4-apple");
            assert(stt_asset_id(m) =~= "cactus-"@ + stt_dir_name(m));
        },
        CactusSttModel::WhisperMediumInt8 => {
            reveal_strlit("cactus-whisper-medium-int8");
            reveal_strlit("whisper-medium-int8");
            assert(stt_asset_id(m) =~= "cactus-"@ + stt_dir_name(m));
        },
        CactusSttModel::WhisperMediumInt8Apple => {
            reveal_strlit("cactus-whisper-medium-int8-apple");
            reveal_strlit("whisper-medium-int8-apple");
            assert(stt_asset_id(m) =~= "cactus-"@ + stt_dir_name(m));
        },
        CactusSttModel::ParakeetCtc0_6bInt4 => {
            reveal_strlit("cactus-parakeet-ctc-0.6b-int4");
            reveal_strlit("parakeet-ctc-0.6b-int4");
            assert(stt_asset_id(m) =~= "cactus-"@ + stt_dir_name(m));
        },
        CactusSttModel::ParakeetCtc0_6bInt4Apple => {
            reveal_strlit("cactus-parakeet-ctc-0.6b-int4-apple");
            reveal_strlit("parakeet-ctc-0.6b-int4-apple");
            assert(stt_asset_id(m) =~= "cactus-"@ + stt_dir_name(m));
        },
        CactusSttModel::ParakeetCtc0_6bInt8 => {
            reveal_strlit("cactus-parakeet-ctc-0.6b-int8");
            reveal_strlit("parakeet-ctc-0.6b-int8");
            assert(stt_asset_id(m) =~= "cactus-"@ + stt_dir_name(m));
        },
        CactusSttModel::ParakeetCtc0_6bInt8Apple => {
            reveal_strlit("cactus-parakeet-ctc-0.6b-int8-apple");
            reveal_strlit("parakeet-ctc-0.6b-int8-apple");
            assert(stt_asset_id(m) =~= "cactus-"@ + stt_dir_name(m));
        },
        CactusSttModel::ParakeetTdt0_6bV3Int4 => {
            reveal_strlit("cactus-parakeet-tdt-0.6b-v3-int4");
            reveal_strlit("parakeet-tdt-0.6b-v3-int4");
            assert(stt_asset_id(m) =~= "cactus-"@ + stt_dir_name(m));
        },
        CactusSttModel::ParakeetTdt0_6bV3Int4Apple => {
            reveal_strlit("cactus-parakeet-tdt-0.6b-v3-int4-apple");
            reveal_strlit("parakeet-tdt-0.6b-v3-int4-apple");
            assert(stt_asset_id(m) =~= "cactus-"@ + stt_dir_name(m));
        },
        CactusSttModel::ParakeetTdt0_6bV3Int8 => {
            reveal_strlit("cactus-parakeet-tdt-0.6b-v3-int8");
            reveal_strlit("parakeet-tdt-0.6b-v3-int8");
            assert(stt_asset_id(m) =~= "cactus-"@ + stt_dir_name(m));
        },
        CactusSttModel::ParakeetTdt0_6bV3Int8Apple => {
            reveal_strlit("cactus-parakeet-tdt-0.6b-v3-int8-apple");
            reveal_strlit("parakeet-tdt-0.6b-v3-int8-apple");
            assert(stt_asset_id(m) =~= "cactus-"@ + stt_dir_name(m));
        },
    }
}

/// Every language model identifier is its directory name with the `cactus-` prefix.
pub proof fn law_llm_asset_id_prefix(m: CactusLlmModel)
    ensures
        llm_asset_id(m) == "cactus-"@ + llm_dir_name(m),
{
    reveal_strlit("cactus-");
    match m {
        CactusLlmModel::Gemma3_270m => {
            reveal_strlit("cactus-gemma3-270m");
            reveal_strlit("gemma3-270m");
            assert(llm_asset_id(m) =~= "cactus-"@ + llm_dir_name(m));
        },
        CactusLlmModel::Lfm2_350m => {
            reveal_strlit("cactus-lfm2-350m");
            reveal_strlit("lfm2-350m");
            assert(llm_asset_id(m) =~= "cactus-"@ + llm_dir_name(m));
        },
        CactusLlmModel::Qwen3_0_6b => {
            reveal_strlit("cactus-qwen3-0.6b");
            reveal_strlit("qwen3-0.6b");
            assert(llm_asset_id(m) =~= "cactus-"@ + llm_dir_name(m));
        },
        CactusLlmModel::Lfm2_700m => {
            reveal_strlit("cactus-lfm2-700m");
            reveal_strlit("lfm2-700m");
            assert(llm_asset_id(m) =~= "cactus-"@ + llm_dir_name(m));
        },
        CactusLlmModel::Gemma3_1b => {
            reveal_strlit("cactus-gemma3-1b");
            reveal_strlit("gemma3-1b");
            assert(llm_asset_id(m) =~= "cactus-"@ + llm_dir_name(m));
        },
        CactusLlmModel::Lfm2_5_1_2bInstruct => {
            reveal_strlit("cactus-lfm2.5-1.2b-instruct");
            reveal_strlit("lfm2.5-1.2b-instruct");
            assert(llm_asset_id(m) =~= "cactus-"@ + llm_dir_name(m));
        },
        CactusLlmModel::Qwen3_1_7b => {
            reveal_strlit("cactus-qwen3-1.7b");
            reveal_strlit("qwen3-1.7b");
            assert(llm_asset_id(m) =~= "cactus-"@ + llm_dir_name(m));
        },
        CactusLlmModel::Lfm2Vl450mApple => {
            reveal_strlit("cactus-lfm2-vl-450m-apple");
            reveal_strlit("lfm2-vl-450m-apple");
            assert(llm_asset_id(m) =~= "cactus-"@ + llm_dir_name(m));
        },
        CactusLlmModel::Lfm2_5Vl1_6bApple => {
            reveal_strlit("cactus-lfm2.5-vl-1.6b-apple");
            reveal_strlit("lfm2.5-vl-1.6b-apple");
            assert(llm_asset_id(m) =~= "cactus-"@ + llm_dir_name(m));
        },
    }
}

/// No two speech-to-text models share an identifier, so `from_asset_id` inverts `asset_id`.
pub proof fn law_stt_asset_id_injective(a: CactusSttModel, b: CactusSttModel)
    ensures
        stt_asset_id(a) == stt_asset_id(b) ==> a == b,
{
    reveal_strlit("cactus-whisper-small-int4");
    reveal_strlit("cactus-whisper-small-int4-apple");
    reveal_strlit("cactus-whisper-small-int8");
    reveal_strlit("cactus-whisper-small-int8-apple");
    reveal_strlit("cactus-whisper-medium-int4");
    reveal_strlit("cactus-whisper-medium-int4-apple");
    reveal_strlit("cactus-whisper-medium-int8");
    reveal_strlit("cactus-whisper-medium-int8-apple");
    reveal_strlit("cactus-parakeet-ctc-0.6b-int4");
    reveal_strlit("cactus-parakeet-ctc-0.6b-int4-apple");
    reveal_strlit("cactus-parakeet-ctc-0.6b-int8");
    reveal_strlit("cactus-parakeet-ctc-0.6b-int8-apple");
    reveal_strlit("cactus-parakeet-tdt-0.6b-v3-int4");
    reveal_strlit("cactus-parakeet-tdt-0.6b-v3-int4-apple");
    reveal_strlit("cactus-parakeet-tdt-0.6b-v3-int8");
    reveal_strlit("cactus-parakeet-tdt-0.6b-v3-int8-apple");
    if a != b {
        assert(stt_asset_id(a) != stt_asset_id(b)) by {
            match a {
                CactusSttModel::WhisperSmallInt4 => match b {
                    CactusSttModel::WhisperSmallInt4 => {},
                    CactusSttModel::WhisperSmallInt4Apple => { assert(stt_asset_id(a).len() != stt_asset_id(b).len()); },
                    CactusSttModel::WhisperSmallInt8 => { assert(stt_asset_id(a)[24] != stt_asset_id(b)[24]); },
                    CactusSttModel::WhisperSmallInt8Apple => { assert(stt_asset_id(a).len() != stt_asset_id(b).len()); },
                    CactusSttModel::WhisperMediumInt4 => { assert(stt_asset_id(a).len() != stt_asset_id(b).len()); },
                    CactusSttModel::WhisperMediumInt4Apple => { assert(stt_asset_id(a).len() != stt_asset_id(b).len()); },
                    CactusSttModel::WhisperMediumInt8 => { assert(stt_asset_id(a).len() != stt_asset_id(b).len()); },
                    CactusSttModel::WhisperMediumInt8Apple => { assert(stt_asset_id(a).len() != stt_asset_id(b).len()); },
                    CactusSttModel::ParakeetCtc0_6bInt4 => { assert(stt_asset_id(a).len() != stt_asset_id(b).len()); },
                    CactusSttModel::ParakeetCtc0_6bInt4Apple => { assert(stt_asset_id(a).len() != stt_asset_id(b).len()); },
                    CactusSttModel::ParakeetCtc0_6bInt8 => { assert(stt_asset_id(a).len() != stt_asset_id(b).len()); },
                    CactusSttModel::ParakeetCtc0_6bInt8Apple => { assert(stt_asset_id(a).len() != stt_asset_id(b).len()); },
                    CactusSttModel::ParakeetTdt0_6bV3Int4 => { assert(stt_asset_id(a).len() != stt_asset_id(b).len()); },
                    CactusSttModel::ParakeetTdt0_6bV3Int4Apple => { assert(stt_asset_id(a).len() != stt_asset_id(b).len()); },
                    CactusSttModel::ParakeetTdt0_6bV3Int8 => { assert(stt_asset_id(a).len() != stt_asset_id(b).len()); },
                    CactusSttModel::ParakeetTdt0_6bV3Int8Apple => { assert(stt_asset_id(a).len() != stt_asset_id(b).len()); },
                },
                CactusSttModel::WhisperSmallInt4Apple => match b {
                    CactusSttModel::WhisperSmallInt4 => { assert(stt_asset_id(a).len() != stt_asset_id(b).len()); },
                    CactusSttModel::WhisperSmallInt4Apple => {},
                    CactusSttModel::WhisperSmallInt8 => { assert(stt_asset_id(a).len() != stt_asset_id(b).len()); },
                    CactusSttModel::WhisperSmallInt8Apple => { assert(stt_asset_id(a)[24] != stt_asset_id(b)[24]); },
                    CactusSttModel::WhisperMediumInt4 => { assert(stt_asset_id(a).len() != stt_asset_id(b).len()); },
                    CactusSttModel::WhisperMediumInt4Apple => { assert(stt_asset_id(a).len() != stt_asset_id(b).len()); },
                    CactusSttModel::WhisperMediumInt8 => { assert(stt_asset_id(a).len() != stt_asset_id(b).len()); },
                    CactusSttModel::WhisperMediumInt8Apple => { assert(stt_asset_id(a).len() != stt_asset_id(b).len()); },
                    CactusSttModel::ParakeetCtc0_6bInt4 => { assert(stt_asset_id(a).len() != stt_asset_id(b).len()); },
                    CactusSttModel::ParakeetCtc0_6bInt4Apple => { assert(stt_asset_id(a).len() != stt_asset_id(b).len()); },
                    CactusSttModel::ParakeetCtc0_6bInt8 => { assert(stt_asset_id(a).len() != stt_asset_id(b).len()); },
                    CactusSttModel::ParakeetCtc0_6bInt8Apple => { assert(stt_asset_id(a).len() != stt_asset_id(b).len()); },
                    CactusSttModel::ParakeetTdt0_6bV3Int4 => { assert(stt_asset_id(a).len() != stt_asset_id(b).len()); },
                    CactusSttModel::ParakeetTdt0_6bV3Int4Apple => { assert(stt_asset_id(a).len() != stt_asset_id(b).len()); },
                    CactusSttModel::ParakeetTdt0_6bV3Int8 => { assert(stt_asset_id(a).len() != stt_asset_id(b).len()); },
                    CactusSttModel::ParakeetTdt0_6bV3Int8Apple => { assert(stt_asset_id(a).len() != stt_asset_id(b).len()); },
                },
                CactusSttModel::WhisperSmallInt8 => match b {
                    CactusSttModel::WhisperSmallInt4 => { assert(stt_asset_id(a)[24] != stt_asset_id(b)[24]); },
                    CactusSttModel::WhisperSmallInt4Apple => { assert(stt_asset_id(a).len() != stt_asset_id(b).len()); },
                    CactusSttModel::WhisperSmallInt8 => {},
                    CactusSttModel::WhisperSmallInt8Apple => { assert(stt_asset_id(a).len() != stt_asset_id(b).len()); },
                    CactusSttModel::WhisperMediumInt4 => { assert(stt_asset_id(a).len() != stt_asset_id(b).len()); },
                    CactusSttModel::WhisperMediumInt4Apple => { assert(stt_asset_id(a).len() != stt_asset_id(b).len()); },
                    CactusSttModel::WhisperMediumInt8 => { assert(stt_asset_id(a).len() != stt_asset_id(b).len()); },
                    CactusSttModel::WhisperMediumInt8Apple => { assert(stt_asset_id(a).len() != stt_asset_id(b).len()); },
                    CactusSttModel::ParakeetCtc0_6bInt4 => { assert(stt_asset_id(a).len() != stt_asset_id(b).len()); },
                    CactusSttModel::ParakeetCtc0_6bInt4Apple => { assert(stt_asset_id(a).len() != stt_asset_id(b).len()); },
                    CactusSttModel::ParakeetCtc0_6bInt8 => { assert(stt_asset_id(a).len() != stt_asset_id(b).len()); },
                    CactusSttModel::ParakeetCtc0_6bInt8Apple => { assert(stt_asset_id(a).len() != stt_asset_id(b).len()); },
                    CactusSttModel::ParakeetTdt0_6bV3Int4 => { assert(stt_asset_id(a).len() != stt_asset_id(b).len()); },
                    CactusSttModel::ParakeetTdt0_6bV3Int4Apple => { assert(stt_asset_id(a).len() != stt_asset_id(b).len()); },
                    CactusSttModel::ParakeetTdt0_6bV3Int8 => { assert(stt_asset_id(a).len() != stt_asset_id(b).len()); },
                    CactusSttModel::ParakeetTdt0_6bV3Int8Apple => { assert(stt_asset_id(a).len() != stt_asset_id(b).len()); },
                },
                CactusSttModel::WhisperSmallInt8Apple => match b {
                    CactusSttModel::WhisperSmallInt4 => { assert(stt_asset_id(a).len() != stt_asset_id(b).len()); },
                    CactusSttModel::WhisperSmallInt4Apple => { assert(stt_asset_id(a)[24] != stt_asset_id(b)[24]); },
                    CactusSttModel::WhisperSmallInt8 => { assert(stt_asset_id(a).len() != stt_asset_id(b).len()); },
                    CactusSttModel::WhisperSmallInt8Apple => {},
                    CactusSttModel::WhisperMediumInt4 => { assert(stt_asset_id(a).len() != stt_asset_id(b).len()); },
                    CactusSttModel::WhisperMediumInt4Apple => { assert(stt_asset_id(a).len() != stt_asset_id(b).len()); },
                    CactusSttModel::WhisperMediumInt8 => { assert(stt_asset_id(a).len() != stt_asset_id(b).len()); },
                    CactusSttModel::WhisperMediumInt8Apple => { assert(stt_asset_id(a).len() != stt_asset_id(b).len()); },
                    CactusSttModel::ParakeetCtc0_6bInt4 => { assert(stt_asset_id(a).len() != stt_asset_id(b).len()); },
                    CactusSttModel::ParakeetCtc0_6bInt4Apple => { assert(stt_asset_id(a).len() != stt_asset_id(b).len()); },
                    CactusSttModel::ParakeetCtc0_6bInt8 => { assert(stt_asset_id(a).len() != stt_asset_id(b).len()); },
                    CactusSttModel::ParakeetCtc0_6bInt8Apple => { assert(stt_asset_id(a).len() != stt_asset_id(b).len()); },
                    CactusSttModel::ParakeetTdt0_6bV3Int4 => { assert(stt_asset_id(a).len() != stt_asset_id(b).len()); },
                    CactusSttModel::ParakeetTdt0_6bV3Int4Apple => { assert(stt_asset_id(a).len() != stt_asset_id(b).len()); },
                    CactusSttModel::ParakeetTdt0_6bV3Int8 => { assert(stt_asset_id(a).len() != stt_asset_id(b).len()); },
                    CactusSttModel::ParakeetTdt0_6bV3Int8Apple => { assert(stt_asset_id(a).len() != stt_asset_id(b).len()); },
                },
                CactusSttModel::WhisperMediumInt4 => match b {
                    CactusSttModel::WhisperSmallInt4 => { assert(stt_asset_id(a).len() != stt_asset_id(b).len()); },
                    CactusSttModel::WhisperSmallInt4Apple => { assert(stt_asset_id(a).len() != stt_asset_id(b).len()); },
                    CactusSttModel::WhisperSmallInt8 => { assert(stt_asset_id(a).len() != stt_asset_id(b).len()); },
                    CactusSttModel::WhisperSmallInt8Apple => { assert(stt_asset_id(a).len() != stt_asset_id(b).len()); },
                    CactusSttModel::WhisperMediumInt4 => {},
                    CactusSttModel::WhisperMediumInt4Apple => { assert(stt_asset_id(a).len() != stt_asset_id(b).len()); },
                    CactusSttModel::WhisperMediumInt8 => { assert(stt_asset_id(a)[25] != stt_asset_id(b)[25]); },
                    CactusSttModel::WhisperMediumInt8Apple => { assert(stt_asset_id(a).len() != stt_asset_id(b).len()); },
                    CactusSttModel::ParakeetCtc0_6bInt4 => { assert(stt_asset_id(a).len() != stt_asset_id(b).len()); },
                    CactusSttModel::ParakeetCtc0_6bInt4Apple => { assert(stt_asset_id(a).len() != stt_asset_id(b).len()); },
                    CactusSttModel::ParakeetCtc0_6bInt8 => { assert(stt_asset_id(a).len() != stt_asset_id(b).len()); },
                    CactusSttModel::ParakeetCtc0_6bInt8Apple => { assert(stt_asset_id(a).len() != stt_asset_id(b).len()); },
                    CactusSttModel::ParakeetTdt0_6bV3Int4 => { assert(stt_asset_id(a).len() != stt_asset_id(b).len()); },
                    CactusSttModel::ParakeetTdt0_6bV3Int4Apple => { assert(stt_asset_id(a).len() != stt_asset_id(b).len()); },
                    CactusSttModel::ParakeetTdt0_6bV3Int8 => { assert(stt_asset_id(a).len() != stt_asset_id(b).len()); },
                    CactusSttModel::ParakeetTdt0_6bV3Int8Apple => { assert(stt_asset_id(a).len() != stt_asset_id(b).len()); },
                },
                CactusSttModel::WhisperMediumInt4Apple => match b {
                    CactusSttModel::WhisperSmallInt4 => { assert(stt_asset_id(a).len() != stt_asset_id(b).len()); },
                    CactusSttModel::WhisperSmallInt4Apple => { assert(stt_asset_id(a).len() != stt_asset_id(b).len()); },
                    CactusSttModel::WhisperSmallInt8 => { assert(stt_asset_id(a).len() != stt_asset_id(b).len()); },
                    CactusSttModel::WhisperSmallInt8Apple => { assert(stt_asset_id(a).len() != stt_asset_id(b).len()); },
                    CactusSttModel::WhisperMediumInt4 => { assert(stt_asset_id(a).len() != stt_asset_id(b).len()); },
                    CactusSttModel::WhisperMediumInt4Apple => {},
                    CactusSttModel::WhisperMediumInt8 => { assert(stt_asset_id(a).len() != stt_asset_id(b).len()); },
                    CactusSttModel::WhisperMediumInt8Apple => { assert(stt_asset_id(a)[25] != stt_asset_id(b)[25]); },
                    CactusSttModel::ParakeetCtc0_6bInt4 => { assert(stt_asset_id(a).len() != stt_asset_id(b).len()); },
                    CactusSttModel::ParakeetCtc0_6bInt4Apple => { assert(stt_asset_id(a).len() != stt_asset_id(b).len()); },
                    CactusSttModel::ParakeetCtc0_6bInt8 => { assert(stt_asset_id(a).len() != stt_asset_id(b).len()); },
                    CactusSttModel::ParakeetCtc0_6bInt8Apple => { assert(stt_asset_id(a).len() != stt_asset_id(b).len()); },
                    CactusSttModel::ParakeetTdt0_6bV3Int4 => { assert(stt_asset_id(a)[7] != stt_asset_id(b)[7]); },
                    CactusSttModel::ParakeetTdt0_6bV3Int4Apple => { assert(stt_asset_id(a).len() != stt_asset_id(b).len()); },
                    CactusSttModel::ParakeetTdt0_6bV3Int8 => { assert(stt_asset_id(a)[7] != stt_asset_id(b)[7]); },
                    CactusSttModel::ParakeetTdt0_6bV3Int8Apple => { assert(stt_asset_id(a).len() != stt_asset_id(b).len()); },
                },
                CactusSttModel::WhisperMediumInt8 => match b {
                    CactusSttModel::WhisperSmallInt4 => { assert(stt_asset_id(a).len() != stt_asset_id(b).len()); },
                    CactusSttModel::WhisperSmallInt4Apple => { assert(stt_asset_id(a).len() != stt_asset_id(b).len()); },
                    CactusSttModel::WhisperSmallInt8 => { assert(stt_asset_id(a).len() != stt_asset_id(b).len()); },
                    CactusSttModel::WhisperSmallInt8Apple => { assert(stt_asset_id(a).len() != stt_asset_id(b).len()); },
                    CactusSttModel::WhisperMediumInt4 => { assert(stt_asset_id(a)[25] != stt_asset_id(b)[25]); },
                    CactusSttModel::WhisperMediumInt4Apple => { assert(stt_asset_id(a).len() != stt_asset_id(b).len()); },
                    CactusSttModel::WhisperMediumInt8 => {},
                    CactusSttModel::WhisperMediumInt8Apple => { assert(stt_asset_id(a).len() != stt_asset_id(b).len()); },
                    CactusSttModel::ParakeetCtc0_6bInt4 => { assert(stt_asset_id(a).len() != stt_asset_id(b).len()); },
                    CactusSttModel::ParakeetCtc0_6bInt4Apple => { assert(stt_asset_id(a).len() != stt_asset_id(b).len()); },
                    CactusSttModel::ParakeetCtc0_6bInt8 => { assert(stt_asset_id(a).len() != stt_asset_id(b).len()); },
                    CactusSttModel::ParakeetCtc0_6bInt8Apple => { assert(stt_asset_id(a).len() != stt_asset_id(b).len()); },
                    CactusSttModel::ParakeetTdt0_6bV3Int4 => { assert(stt_asset_id(a).len() != stt_asset_id(b).len()); },
                    CactusSttModel::ParakeetTdt0_6bV3Int4Apple => { assert(stt_asset_id(a).len() != stt_asset_id(b).len()); },
                    CactusSttModel::ParakeetTdt0_6bV3Int8 => { assert(stt_asset_id(a).len() != stt_asset_id(b).len()); },
                    CactusSttModel::ParakeetTdt0_6bV3Int8Apple => { assert(stt_asset_id(a).len() != stt_asset_id(b).len()); },
                },
                CactusSttModel::WhisperMediumInt8Apple => match b {
                    CactusSttModel::WhisperSmallInt4 => { assert(stt_asset_id(a).len() != stt_asset_id(b).len()); },
                    CactusSttModel::WhisperSmallInt4Apple => { assert(stt_asset_id(a).len() != stt_asset_id(b).len()); },
                    CactusSttModel::WhisperSmallInt8 => { assert(stt_asset_id(a).len() != stt_asset_id(b).len()); },
                    CactusSttModel::WhisperSmallInt8Apple => { assert(stt_asset_id(a).len() != stt_asset_id(b).len()); },
                    CactusSttModel::WhisperMediumInt4 => { assert(stt_asset_id(a).len() != stt_asset_id(b).len()); },
                    CactusSttModel::WhisperMediumInt4Apple => { assert(stt_asset_id(a)[25] != stt_asset_id(b)[25]); },
                    CactusSttModel::WhisperMediumInt8 => { assert(stt_asset_id(a).len() != stt_asset_id(b).len()); },
                    CactusSttModel::WhisperMediumInt8Apple => {},
                    CactusSttModel::ParakeetCtc0_6bInt4 => { assert(stt_asset_id(a).len() != stt_asset_id(b).len()); },
                    CactusSttModel::ParakeetCtc0_6bInt4Apple => { assert(stt_asset_id(a).len() != stt_asset_id(b).len()); },
                    CactusSttModel::ParakeetCtc0_6bInt8 => { assert(stt_asset_id(a).len() != stt_asset_id(b).len()); },
                    CactusSttModel::ParakeetCtc0_6bInt8Apple => { assert(stt_asset_id(a).len() != stt_asset_id(b).len()); },
                    CactusSttModel::ParakeetTdt0_6bV3Int4 => { assert(stt_asset_id(a)[7] != stt_asset_id(b)[7]); },
                    CactusSttModel::ParakeetTdt0_6bV3Int4Apple => { assert(stt_asset_id(a).len() != stt_asset_id(b).len()); },
                    CactusSttModel::ParakeetTdt0_6bV3Int8 => { assert(stt_asset_id(a)[7] != stt_asset_id(b)[7]); },
                    CactusSttModel::ParakeetTdt0_6bV3Int8Apple => { assert(stt_asset_id(a).len() != stt_asset_id(b).len()); },
                },
                CactusSttModel::ParakeetCtc0_6bInt4 => match b {
                    CactusSttModel::WhisperSmallInt4 => { assert(stt_asset_id(a).len() != stt_asset_id(b).len()); },
                    CactusSttModel::WhisperSmallInt4Apple => { assert(stt_asset_id(a).len() != stt_asset_id(b).len()); },
                    CactusSttModel::WhisperSmallInt8 => { assert(stt_asset_id(a).len() != stt_asset_id(b).len()); },
                    CactusSttModel::WhisperSmallInt8Apple => { assert(stt_asset_id(a).len() != stt_asset_id(b).len()); },
                    CactusSttModel::WhisperMediumInt4 => { assert(stt_asset_id(a).len() != stt_asset_id(b).len()); },
                    CactusSttModel::WhisperMediumInt4Apple => { assert(stt_asset_id(a).len() != stt_asset_id(b).len()); },
                    CactusSttModel::WhisperMediumInt8 => { assert(stt_asset_id(a).len() != stt_asset_id(b).len()); },
                    CactusSttModel::WhisperMediumInt8Apple => { assert(stt_asset_id(a).len() != stt_asset_id(b).len()); },
                    CactusSttModel::ParakeetCtc0_6bInt4 => {},
                    CactusSttModel::ParakeetCtc0_6bInt4Apple => { assert(stt_asset_id(a).len() != stt_asset_id(b).len()); },
                    CactusSttModel::ParakeetCtc0_6bInt8 => { assert(stt_asset_id(a)[28] != stt_asset_id(b)[28]); },
                    CactusSttModel::ParakeetCtc0_6bInt8Apple => { assert(stt_asset_id(a).len() != stt_asset_id(b).len()); },
                    CactusSttModel::ParakeetTdt0_6bV3Int4 => { assert(stt_asset_id(a).len() != stt_asset_id(b).len()); },
                    CactusSttModel::ParakeetTdt0_6bV3Int4Apple => { assert(stt_asset_id(a).len() != stt_asset_id(b).len()); },
                    CactusSttModel::ParakeetTdt0_6bV3Int8 => { assert(stt_asset_id(a).len() != stt_asset_id(b).len()); },
                    CactusSttModel::ParakeetTdt0_6bV3Int8Apple => { assert(stt_asset_id(a).len() != stt_asset_id(b).len()); },
                },
                CactusSttModel::ParakeetCtc0_6bInt4Apple => match b {
                    CactusSttModel::WhisperSmallInt4 => { assert(stt_asset_id(a).len() != stt_asset_id(b).len()); },
                    CactusSttModel::WhisperSmallInt4Apple => { assert(stt_asset_id(a).len() != stt_asset_id(b).len()); },
                    CactusSttModel::WhisperSmallInt8 => { assert(stt_asset_id(a).len() != stt_asset_id(b).len()); },
                    CactusSttModel::WhisperSmallInt8Apple => { assert(stt_asset_id(a).len() != stt_asset_id(b).len()); },
                    CactusSttModel::WhisperMediumInt4 => { assert(stt_asset_id(a).len() != stt_asset_id(b).len()); },
                    CactusSttModel::WhisperMediumInt4Apple => { assert(stt_asset_id(a).len() != stt_asset_id(b).len()); },
                    CactusSttModel::WhisperMediumInt8 => { assert(stt_asset_id(a).len() != stt_asset_id(b).len()); },
                    CactusSttModel::WhisperMediumInt8Apple => { assert(stt_asset_id(a).len() != stt_asset_id(b).len()); },
                    CactusSttModel::ParakeetCtc0_6bInt4 => { assert(stt_asset_id(a).len() != stt_asset_id(b).len()); },
                    CactusSttModel::ParakeetCtc0_6bInt4Apple => {},
                    CactusSttModel::ParakeetCtc0_6bInt8 => { assert(stt_asset_id(a).len() != stt_asset_id(b).len()); },
                    CactusSttModel::ParakeetCtc0_6bInt8Apple => { assert(stt_asset_id(a)[28] != stt_asset_id(b)[28]); },
                    CactusSttModel::ParakeetTdt0_6bV3Int4 => { assert(stt_asset_id(a).len() != stt_asset_id(b).len()); },
                    CactusSttModel::ParakeetTdt0_6bV3Int4Apple => { assert(stt_asset_id(a).len() != stt_asset_id(b).len()); },
                    CactusSttModel::ParakeetTdt0_6bV3Int8 => { assert(stt_asset_id(a).len() != stt_asset_id(b).len()); },
                    CactusSttModel::ParakeetTdt0_6bV3Int8Apple => { assert(stt_asset_id(a).len() != stt_asset_id(b).len()); },
                },
                CactusSttModel::ParakeetCtc0_6bInt8 => match b {
                    CactusSttModel::WhisperSmallInt4 => { assert(stt_asset_id(a).len() != stt_asset_id(b).len()); },
                    CactusSttModel::WhisperSmallInt4Apple => { assert(stt_asset_id(a).len() != stt_asset_id(b).len()); },
                    CactusSttModel::WhisperSmallInt8 => { assert(stt_asset_id(a).len() != stt_asset_id(b).len()); },
                    CactusSttModel::WhisperSmallInt8Apple => { assert(stt_asset_id(a).len() != stt_asset_id(b).len()); },
                    CactusSttModel::WhisperMediumInt4 => { assert(stt_asset_id(a).len() != stt_asset_id(b).len()); },
                    CactusSttModel::WhisperMediumInt4Apple => { assert(stt_asset_id(a).len() != stt_asset_id(b).len()); },
                    CactusSttModel::WhisperMediumInt8 => { assert(stt_asset_id(a).len() != stt_asset_id(b).len()); },
                    CactusSttModel::WhisperMediumInt8Apple => { assert(stt_asset_id(a).len() != stt_asset_id(b).len()); },
                    CactusSttModel::ParakeetCtc0_6bInt4 => { assert(stt_asset_id(a)[28] != stt_asset_id(b)[28]); },
                    CactusSttModel::ParakeetCtc0_6bInt4Apple => { assert(stt_asset_id(a).len() != stt_asset_id(b).len()); },
                    CactusSttModel::ParakeetCtc0_6bInt8 => {},
                    CactusSttModel::ParakeetCtc0_6bInt8Apple => { assert(stt_asset_id(a).len() != stt_asset_id(b).len()); },
                    CactusSttModel::ParakeetTdt0_6bV3Int4 => { assert(stt_asset_id(a).len() != stt_asset_id(b).len()); },
                    CactusSttModel::ParakeetTdt0_6bV3Int4Apple => { assert(stt_asset_id(a).len() != stt_asset_id(b).len()); },
                    CactusSttModel::ParakeetTdt0_6bV3Int8 => { assert(stt_asset_id(a).len() != stt_asset_id(b).len()); },
                    CactusSttModel::ParakeetTdt0_6bV3Int8Apple => { assert(stt_asset_id(a).len() != stt_asset_id(b).len()); },
                },
                CactusSttModel::ParakeetCtc0_6bInt8Apple => match b {
                    CactusSttModel::WhisperSmallInt4 => { assert(stt_asset_id(a).len() != stt_asset_id(b).len()); },
                    CactusSttModel::WhisperSmallInt4Apple => { assert(stt_asset_id(a).len() != stt_asset_id(b).len()); },
                    CactusSttModel::WhisperSmallInt8 => { assert(stt_asset_id(a).len() != stt_asset_id(b).len()); },
                    CactusSttModel::WhisperSmallInt8Apple => { assert(stt_asset_id(a).len() != stt_asset_id(b).len()); },
                    CactusSttModel::WhisperMediumInt4 => { assert(stt_asset_id(a).len() != stt_asset_id(b).len()); },
                    CactusSttModel::WhisperMediumInt4Apple => { assert(stt_asset_id(a).len() != stt_asset_id(b).len()); },
                    CactusSttModel::WhisperMediumInt8 => { assert(stt_asset_id(a).len() != stt_asset_id(b).len()); },
                    CactusSttModel::WhisperMediumInt8Apple => { assert(stt_asset_id(a).len() != stt_asset_id(b).len()); },
                    CactusSttModel::ParakeetCtc0_6bInt4 => { assert(stt_asset_id(a).len() != stt_asset_id(b).len()); },
                    CactusSttModel::ParakeetCtc0_6bInt4Apple => { assert(stt_asset_id(a)[28] != stt_asset_id(b)[28]); },
                    CactusSttModel::ParakeetCtc0_6bInt8 => { assert(stt_asset_id(a).len() != stt_asset_id(b).len()); },
                    CactusSttModel::ParakeetCtc0_6bInt8Apple => {},
                    CactusSttModel::ParakeetTdt0_6bV3Int4 => { assert(stt_asset_id(a).len() != stt_asset_id(b).len()); },
                    CactusSttModel::ParakeetTdt0_6bV3Int4Apple => { assert(stt_asset_id(a).len() != stt_asset_id(b).len()); },
                    CactusSttModel::ParakeetTdt0_6bV3Int8 => { assert(stt_asset_id(a).len() != stt_asset_id(b).len()); },
                    CactusSttModel::ParakeetTdt0_6bV3Int8Apple => { assert(stt_asset_id(a).len() != stt_asset_id(b).len()); },
                },
                CactusSttModel::ParakeetTdt0_6bV3Int4 => match b {
                    CactusSttModel::WhisperSmallInt4 => { assert(stt_asset_id(a).len() != stt_asset_id(b).len()); },
                    CactusSttModel::WhisperSmallInt4Apple => { assert(stt_asset_id(a).len() != stt_asset_id(b).len()); },
                    CactusSttModel::WhisperSmallInt8 => { assert(stt_asset_id(a).len() != stt_asset_id(b).len()); },
                    CactusSttModel::WhisperSmallInt8Apple => { assert(stt_asset_id(a).len() != stt_asset_id(b).len()); },
                    CactusSttModel::WhisperMediumInt4 => { assert(stt_asset_id(a).len() != stt_asset_id(b).len()); },
                    CactusSttModel::WhisperMediumInt4Apple => { assert(stt_asset_id(a)[7] != stt_asset_id(b)[7]); },
                    CactusSttModel::WhisperMediumInt8 => { assert(stt_asset_id(a).len() != stt_asset_id(b).len()); },
                    CactusSttModel::WhisperMediumInt8Apple => { assert(stt_asset_id(a)[7] != stt_asset_id(b)[7]); },
                    CactusSttModel::ParakeetCtc0_6bInt4 => { assert(stt_asset_id(a).len() != stt_asset_id(b).len()); },
                    CactusSttModel::ParakeetCtc0_6bInt4Apple => { assert(stt_asset_id(a).len() != stt_asset_id(b).len()); },
                    CactusSttModel::ParakeetCtc0_6bInt8 => { assert(stt_asset_id(a).len() != stt_asset_id(b).len()); },
                    CactusSttModel::ParakeetCtc0_6bInt8Apple => { assert(stt_asset_id(a).len() != stt_asset_id(b).len()); },
                    CactusSttModel::ParakeetTdt0_6bV3Int4 => {},
                    CactusSttModel::ParakeetTdt0_6bV3Int4Apple => { assert(stt_asset_id(a).len() != stt_asset_id(b).len()); },
                    CactusSttModel::ParakeetTdt0_6bV3Int8 => { assert(stt_asset_id(a)[31] != stt_asset_id(b)[31]); },
                    CactusSttModel::ParakeetTdt0_6bV3Int8Apple => { assert(stt_asset_id(a).len() != stt_asset_id(b).len()); },
                },
                CactusSttModel::ParakeetTdt0_6bV3Int4Apple => match b {
                    CactusSttModel::WhisperSmallInt4 => { assert(stt_asset_id(a).len() != stt_asset_id(b).len()); },
                    CactusSttModel::WhisperSmallInt4Apple => { assert(stt_asset_id(a).len() != stt_asset_id(b).len()); },
                    CactusSttModel::WhisperSmallInt8 => { assert(stt_asset_id(a).len() != stt_asset_id(b).len()); },
                    CactusSttModel::WhisperSmallInt8Apple => { assert(stt_asset_id(a).len() != stt_asset_id(b).len()); },
                    CactusSttModel::WhisperMediumInt4 => { assert(stt_asset_id(a).len() != stt_asset_id(b).len()); },
                    CactusSttModel::WhisperMediumInt4Apple => { assert(stt_asset_id(a).len() != stt_asset_id(b).len()); },
                    CactusSttModel::WhisperMediumInt8 => { assert(stt_asset_id(a).len() != stt_asset_id(b).len()); },
                    CactusSttModel::WhisperMediumInt8Apple => { assert(stt_asset_id(a).len() != stt_asset_id(b).len()); },
                    CactusSttModel::ParakeetCtc0_6bInt4 => { assert(stt_asset_id(a).len() != stt_asset_id(b).len()); },
                    CactusSttModel::ParakeetCtc0_6bInt4Apple => { assert(stt_asset_id(a).len() != stt_asset_id(b).len()); },
                    CactusSttModel::ParakeetCtc0_6bInt8 => { assert(stt_asset_id(a).len() != stt_asset_id(b).len()); },
                    CactusSttModel::ParakeetCtc0_6bInt8Apple => { assert(stt_asset_id(a).len() != stt_asset_id(b).len()); },
                    CactusSttModel::ParakeetTdt0_6bV3Int4 => { assert(stt_asset_id(a).len() != stt_asset_id(b).len()); },
                    CactusSttModel::ParakeetTdt0_6bV3Int4Apple => {},
                    CactusSttModel::ParakeetTdt0_6bV3Int8 => { assert(stt_asset_id(a).len() != stt_asset_id(b).len()); },
                    CactusSttModel::ParakeetTdt0_6bV3Int8Apple => { assert(stt_asset_id(a)[31] != stt_asset_id(b)[31]); },
                },
                CactusSttModel::ParakeetTdt0_6bV3Int8 => match b {
                    CactusSttModel::WhisperSmallInt4 => { assert(stt_asset_id(a).len() != stt_asset_id(b).len()); },
                    CactusSttModel::WhisperSmallInt4Apple => { assert(stt_asset_id(a).len() != stt_asset_id(b).len()); },
                    CactusSttModel::WhisperSmallInt8 => { assert(stt_asset_id(a).len() != stt_asset_id(b).len()); },
                    CactusSttModel::WhisperSmallInt8Apple => { assert(stt_asset_id(a).len() != stt_asset_id(b).len()); },
                    CactusSttModel::WhisperMediumInt4 => { assert(stt_asset_id(a).len() != stt_asset_id(b).len()); },
                    CactusSttModel::WhisperMediumInt4Apple => { assert(stt_asset_id(a)[7] != stt_asset_id(b)[7]); },
                    CactusSttModel::WhisperMediumInt8 => { assert(stt_asset_id(a).len() != stt_asset_id(b).len()); },
                    CactusSttModel::WhisperMediumInt8Apple => { assert(stt_asset_id(a)[7] != stt_asset_id(b)[7]); },
                    CactusSttModel::ParakeetCtc0_6bInt4 => { assert(stt_asset_id(a).len() != stt_asset_id(b).len()); },
                    CactusSttModel::ParakeetCtc0_6bInt4Apple => { assert(stt_asset_id(a).len() != stt_asset_id(b).len()); },
                    CactusSttModel::ParakeetCtc0_6bInt8 => { assert(stt_asset_id(a).len() != stt_asset_id(b).len()); },
                    CactusSttModel::ParakeetCtc0_6bInt8Apple => { assert(stt_asset_id(a).len() != stt_asset_id(b).len()); },
                    CactusSttModel::ParakeetTdt0_6bV3Int4 => { assert(stt_asset_id(a)[31] != stt_asset_id(b)[31]); },
                    CactusSttModel::ParakeetTdt0_6bV3Int4Apple => { assert(stt_asset_id(a).len() != stt_asset_id(b).len()); },
                    CactusSttModel::ParakeetTdt0_6bV3Int8 => {},
                    CactusSttModel::ParakeetTdt0_6bV3Int8Apple => { assert(stt_asset_id(a).len() != stt_asset_id(b).len()); },
                },
                CactusSttModel::ParakeetTdt0_6bV3Int8Apple => match b {
                    CactusSttModel::WhisperSmallInt4 => { assert(stt_asset_id(a).len() != stt_asset_id(b).len()); },
                    CactusSttModel::WhisperSmallInt4Apple => { assert(stt_asset_id(a).len() != stt_asset_id(b).len()); },
                    CactusSttModel::WhisperSmallInt8 => { assert(stt_asset_id(a).len() != stt_asset_id(b).len()); },
                    CactusSttModel::WhisperSmallInt8Apple => { assert(stt_asset_id(a).len() != stt_asset_id(b).len()); },
                    CactusSttModel::WhisperMediumInt4 => { assert(stt_asset_id(a).len() != stt_asset_id(b).len()); },
                    CactusSttModel::WhisperMediumInt4Apple => { assert(stt_asset_id(a).len() != stt_asset_id(b).len()); },
                    CactusSttModel::WhisperMediumInt8 => { assert(stt_asset_id(a).len() != stt_asset_id(b).len()); },
                    CactusSttModel::WhisperMediumInt8Apple => { assert(stt_asset_id(a).len() != stt_asset_id(b).len()); },
                    CactusSttModel::ParakeetCtc0_6bInt4 => { assert(stt_asset_id(a).len() != stt_asset_id(b).len()); },
                    CactusSttModel::ParakeetCtc0_6bInt4Apple => { assert(stt_asset_id(a).len() != stt_asset_id(b).len()); },
                    CactusSttModel::ParakeetCtc0_6bInt8 => { assert(stt_asset_id(a).len() != stt_asset_id(b).len()); },
                    CactusSttModel::ParakeetCtc0_6bInt8Apple => { assert(stt_asset_id(a).len() != stt_asset_id(b).len()); },
                    CactusSttModel::ParakeetTdt0_6bV3Int4 => { assert(stt_asset_id(a).len() != stt_asset_id(b).len()); },
                    CactusSttModel::ParakeetTdt0_6bV3Int4Apple => { assert(stt_asset_id(a)[31] != stt_asset_id(b)[31]); },
                    CactusSttModel::ParakeetTdt0_6bV3Int8 => { assert(stt_asset_id(a).len() != stt_asset_id(b).len()); },
                    CactusSttModel::ParakeetTdt0_6bV3Int8Apple => {},
                },
            }
        }
    }
}

/// No two language models share an identifier, so `from_asset_id` inverts `asset_id`.
pub proof fn law_llm_asset_id_injective(a: CactusLlmModel, b: CactusLlmModel)
    ensures
        llm_asset_id(a) == llm_asset_id(b) ==> a == b,
{
    reveal_strlit("cactus-gemma3-270m");
    reveal_strlit("cactus-lfm2-350m");
    reveal_strlit("cactus-qwen3-0.6b");
    reveal_strlit("cactus-lfm2-700m");
    reveal_strlit("cactus-gemma3-1b");
    reveal_strlit("cactus-lfm2.5-1.2b-instruct");
    reveal_strlit("cactus-qwen3-1.7b");
    reveal_strlit("cactus-lfm2-vl-450m-apple");
    reveal_strlit("cactus-lfm2.5-vl-1.6b-apple");
    if a != b {
        assert(llm_asset_id(a) != llm_asset_id(b)) by {
            match a {
                CactusLlmModel::Gemma3_270m => match b {
                    CactusLlmModel::Gemma3_270m => {},
                    CactusLlmModel::Lfm2_350m => { assert(llm_asset_id(a).len() != llm_asset_id(b).len()); },
                    CactusLlmModel::Qwen3_0_6b => { assert(llm_asset_id(a).len() != llm_asset_id(b).len()); },
                    CactusLlmModel::Lfm2_700m => { assert(llm_asset_id(a).len() != llm_asset_id(b).len()); },
                    CactusLlmModel::Gemma3_1b => { assert(llm_asset_id(a).len() != llm_asset_id(b).len()); },
                    CactusLlmModel::Lfm2_5_1_2bInstruct => { assert(llm_asset_id(a).len() != llm_asset_id(b).len()); },
                    CactusLlmModel::Qwen3_1_7b => { assert(llm_asset_id(a).len() != llm_asset_id(b).len()); },
                    CactusLlmModel::Lfm2Vl450mApple => { assert(llm_asset_id(a).len() != llm_asset_id(b).len()); },
                    CactusLlmModel::Lfm2_5Vl1_6bApple => { assert(llm_asset_id(a).len() != llm_asset_id(b).len()); },
                },
                CactusLlmModel::Lfm2_350m => match b {
                    CactusLlmModel::Gemma3_270m => { assert(llm_asset_id(a).len() != llm_asset_id(b).len()); },
                    CactusLlmModel::Lfm2_350m => {},
                    CactusLlmModel::Qwen3_0_6b => { assert(llm_asset_id(a).len() != llm_asset_id(b).len()); },
                    CactusLlmModel::Lfm2_700m => { assert(llm_asset_id(a)[12] != llm_asset_id(b)[12]); },
                    CactusLlmModel::Gemma3_1b => { assert(llm_asset_id(a)[7] != llm_asset_id(b)[7]); },
                    CactusLlmModel::Lfm2_5_1_2bInstruct => { assert(llm_asset_id(a).len() != llm_asset_id(b).len()); },
                    CactusLlmModel::Qwen3_1_7b => { assert(llm_asset_id(a).len() != llm_asset_id(b).len()); },
                    CactusLlmModel::Lfm2Vl450mApple => { assert(llm_asset_id(a).len() != llm_asset_id(b).len()); },
                    CactusLlmModel::Lfm2_5Vl1_6bApple => { assert(llm_asset_id(a).len() != llm_asset_id(b).len()); },
                },
                CactusLlmModel::Qwen3_0_6b => match b {
                    CactusLlmModel::Gemma3_270m => { assert(llm_asset_id(a).len() != llm_asset_id(b).len()); },
                    CactusLlmModel::Lfm2_350m => { assert(llm_asset_id(a).len() != llm_asset_id(b).len()); },
                    CactusLlmModel::Qwen3_0_6b => {},
                    CactusLlmModel::Lfm2_700m => { assert(llm_asset_id(a).len() != llm_asset_id(b).len()); },
                    CactusLlmModel::Gemma3_1b => { assert(llm_asset_id(a).len() != llm_asset_id(b).len()); },
                    CactusLlmModel::Lfm2_5_1_2bInstruct => { assert(llm_asset_id(a).len() != llm_asset_id(b).len()); },
                    CactusLlmModel::Qwen3_1_7b => { assert(llm_asset_id(a)[13] != llm_asset_id(b)[13]); },
                    CactusLlmModel::Lfm2Vl450mApple => { assert(llm_asset_id(a).len() != llm_asset_id(b).len()); },
                    CactusLlmModel::Lfm2_5Vl1_6bApple => { assert(llm_asset_id(a).len() != llm_asset_id(b).len()); },
                },
                CactusLlmModel::Lfm2_700m => match b {
                    CactusLlmModel::Gemma3_270m => { assert(llm_asset_id(a).len() != llm_asset_id(b).len()); },
                    CactusLlmModel::Lfm2_350m => { assert(llm_asset_id(a)[12] != llm_asset_id(b)[12]); },
                    CactusLlmModel::Qwen3_0_6b => { assert(llm_asset_id(a).len() != llm_asset_id(b).len()); },
                    CactusLlmModel::Lfm2_700m => {},
                    CactusLlmModel::Gemma3_1b => { assert(llm_asset_id(a)[7] != llm_asset_id(b)[7]); },
                    CactusLlmModel::Lfm2_5_1_2bInstruct => { assert(llm_asset_id(a).len() != llm_asset_id(b).len()); },
                    CactusLlmModel::Qwen3_1_7b => { assert(llm_asset_id(a).len() != llm_asset_id(b).len()); },
                    CactusLlmModel::Lfm2Vl450mApple => { assert(llm_asset_id(a).len() != llm_asset_id(b).len()); },
                    CactusLlmModel::Lfm2_5Vl1_6bApple => { assert(llm_asset_id(a).len() != llm_asset_id(b).len()); },
                },
                CactusLlmModel::Gemma3_1b => match b {
                    CactusLlmModel::Gemma3_270m => { assert(llm_asset_id(a).len() != llm_asset_id(b).len()); },
                    CactusLlmModel::Lfm2_350m => { assert(llm_asset_id(a)[7] != llm_asset_id(b)[7]); },
                    CactusLlmModel::Qwen3_0_6b => { assert(llm_asset_id(a).len() != llm_asset_id(b).len()); },
                    CactusLlmModel::Lfm2_700m => { assert(llm_asset_id(a)[7] != llm_asset_id(b)[7]); },
                    CactusLlmModel::Gemma3_1b => {},
                    CactusLlmModel::Lfm2_5_1_2bInstruct => { assert(llm_asset_id(a).len() != llm_asset_id(b).len()); },
                    CactusLlmModel::Qwen3_1_7b => { assert(llm_asset_id(a).len() != llm_asset_id(b).len()); },
                    CactusLlmModel::Lfm2Vl450mApple => { assert(llm_asset_id(a).len() != llm_asset_id(b).len()); },
                    CactusLlmModel::Lfm2_5Vl1_6bApple => { assert(llm_asset_id(a).len() != llm_asset_id(b).len()); },
                },
                CactusLlmModel::Lfm2_5_1_2bInstruct => match b {
                    CactusLlmModel::Gemma3_270m => { assert(llm_asset_id(a).len() != llm_asset_id(b).len()); },
                    CactusLlmModel::Lfm2_350m => { assert(llm_asset_id(a).len() != llm_asset_id(b).len()); },
                    CactusLlmModel::Qwen3_0_6b => { assert(llm_asset_id(a).len() != llm_asset_id(b).len()); },
                    CactusLlmModel::Lfm2_700m => { assert(llm_asset_id(a).len() != llm_asset_id(b).len()); },
                    CactusLlmModel::Gemma3_1b => { assert(llm_asset_id(a).len() != llm_asset_id(b).len()); },
                    CactusLlmModel::Lfm2_5_1_2bInstruct => {},
                    CactusLlmModel::Qwen3_1_7b => { assert(llm_asset_id(a).len() != llm_asset_id(b).len()); },
                    CactusLlmModel::Lfm2Vl450mApple => { assert(llm_asset_id(a).len() != llm_asset_id(b).len()); },
                    CactusLlmModel::Lfm2_5Vl1_6bApple => { assert(llm_asset_id(a)[14] != llm_asset_id(b)[14]); },
                },
                CactusLlmModel::Qwen3_1_7b => match b {
                    CactusLlmModel::Gemma3_270m => { assert(llm_asset_id(a).len() != llm_asset_id(b).len()); },
                    CactusLlmModel::Lfm2_350m => { assert(llm_asset_id(a).len() != llm_asset_id(b).len()); },
                    CactusLlmModel::Qwen3_0_6b => { assert(llm_asset_id(a)[13] != llm_asset_id(b)[13]); },
                    CactusLlmModel::Lfm2_700m => { assert(llm_asset_id(a).len() != llm_asset_id(b).len()); },
                    CactusLlmModel::Gemma3_1b => { assert(llm_asset_id(a).len() != llm_asset_id(b).len()); },
                    CactusLlmModel::Lfm2_5_1_2bInstruct => { assert(llm_asset_id(a).len() != llm_asset_id(b).len()); },
                    CactusLlmModel::Qwen3_1_7b => {},
                    CactusLlmModel::Lfm2Vl450mApple => { assert(llm_asset_id(a).len() != llm_asset_id(b).len()); },
                    CactusLlmModel::Lfm2_5Vl1_6bApple => { assert(llm_asset_id(a).len() != llm_asset_id(b).len()); },
                },
                CactusLlmModel::Lfm2Vl450mApple => match b {
                    CactusLlmModel::Gemma3_270m => { assert(llm_asset_id(a).len() != llm_asset_id(b).len()); },
                    CactusLlmModel::Lfm2_350m => { assert(llm_asset_id(a).len() != llm_asset_id(b).len()); },
                    CactusLlmModel::Qwen3_0_6b => { assert(llm_asset_id(a).len() != llm_asset_id(b).len()); },
                    CactusLlmModel::Lfm2_700m => { assert(llm_asset_id(a).len() != llm_asset_id(b).len()); },
                    CactusLlmModel::Gemma3_1b => { assert(llm_asset_id(a).len() != llm_asset_id(b).len()); },
                    CactusLlmModel::Lfm2_5_1_2bInstruct => { assert(llm_asset_id(a).len() != llm_asset_id(b).len()); },
                    CactusLlmModel::Qwen3_1_7b => { assert(llm_asset_id(a).len() != llm_asset_id(b).len()); },
                    CactusLlmModel::Lfm2Vl450mApple => {},
                    CactusLlmModel::Lfm2_5Vl1_6bApple => { assert(llm_asset_id(a).len() != llm_asset_id(b).len()); },
                },
                CactusLlmModel::Lfm2_5Vl1_6bApple => match b {
                    CactusLlmModel::Gemma3_270m => { assert(llm_asset_id(a).len() != llm_asset_id(b).len()); },
                    CactusLlmModel::Lfm2_350m => { assert(llm_asset_id(a).len() != llm_asset_id(b).len()); },
                    CactusLlmModel::Qwen3_0_6b => { assert(llm_asset_id(a).len() != llm_asset_id(b).len()); },
                    CactusLlmModel::Lfm2_700m => { assert(llm_asset_id(a).len() != llm_asset_id(b).len()); },
                    CactusLlmModel::Gemma3_1b => { assert(llm_asset_id(a).len() != llm_asset_id(b).len()); },
                    CactusLlmModel::Lfm2_5_1_2bInstruct => { assert(llm_asset_id(a)[14] != llm_asset_id(b)[14]); },
                    CactusLlmModel::Qwen3_1_7b => { assert(llm_asset_id(a).len() != llm_asset_id(b).len()); },
                    CactusLlmModel::Lfm2Vl450mApple => { assert(llm_asset_id(a).len() != llm_asset_id(b).len()); },
                    CactusLlmModel::Lfm2_5Vl1_6bApple => {},
                },
            }
        }
    }
}

/// Every speech-to-text model is listed by `all` exactly once.
pub proof fn law_stt_all_lists_each_once(m: CactusSttModel)
    ensures
        ALL_STT_MODELS@.contains(m),
        ALL_STT_MODELS@.no_duplicates(),
{
    match m {
        CactusSttModel::WhisperSmallInt4 => { assert(ALL_STT_MODELS@[0] == m); },
        CactusSttModel::WhisperSmallInt4Apple => { assert(ALL_STT_MODELS@[1] == m); },
        CactusSttModel::WhisperSmallInt8 => { assert(ALL_STT_MODELS@[2] == m); },
        CactusSttModel::WhisperSmallInt8Apple => { assert(ALL_STT_MODELS@[3] == m); },
        CactusSttModel::WhisperMediumInt4 => { assert(ALL_STT_MODELS@[4] == m); },
        CactusSttModel::WhisperMediumInt4Apple => { assert(ALL_STT_MODELS@[5] == m); },
        CactusSttModel::WhisperMediumInt8 => { assert(ALL_STT_MODELS@[6] == m); },
        CactusSttModel::WhisperMediumInt8Apple => { assert(ALL_STT_MODELS@[7] == m); },
        CactusSttModel::ParakeetCtc0_6bInt4 => { assert(ALL_STT_MODELS@[8] == m); },
        CactusSttModel::ParakeetCtc0_6bInt4Apple => { assert(ALL_STT_MODELS@[9] == m); },
        CactusSttModel::ParakeetCtc0_6bInt8 => { assert(ALL_STT_MODELS@[10] == m); },
        CactusSttModel::ParakeetCtc0_6bInt8Apple => { assert(ALL_STT_MODELS@[11] == m); },
        CactusSttModel::ParakeetTdt0_6bV3Int4 => { assert(ALL_STT_MODELS@[12] == m); },
        CactusSttModel::ParakeetTdt0_6bV3Int4Apple => { assert(ALL_STT_MODELS@[13] == m); },
        CactusSttModel::ParakeetTdt0_6bV3Int8 => { assert(ALL_STT_MODELS@[14] == m); },
        CactusSttModel::ParakeetTdt0_6bV3Int8Apple => { assert(ALL_STT_MODELS@[15] == m); },
    }
}

/// Every language model is listed by `all` exactly once.
pub proof fn law_llm_all_lists_each_once(m: CactusLlmModel)
    ensures
        ALL_LLM_MODELS@.contains(m),
        ALL_LLM_MODELS@.no_duplicates(),
{
    match m {
        CactusLlmModel::Gemma3_270m => { assert(ALL_LLM_MODELS@[0] == m); },
        CactusLlmModel::Lfm2_350m => { assert(ALL_LLM_MODELS@[1] == m); },
        CactusLlmModel::Qwen3_0_6b => { assert(ALL_LLM_MODELS@[2] == m); },
        CactusLlmModel::Lfm2_700m => { assert(ALL_LLM_MODELS@[3] == m); },
        CactusLlmModel::Gemma3_1b => { assert(ALL_LLM_MODELS@[4] == m); },
        CactusLlmModel::Lfm2_5_1_2bInstruct => { assert(ALL_LLM_MODELS@[5] == m); },
        CactusLlmModel::Qwen3_1_7b => { assert(ALL_LLM_MODELS@[6] == m); },
        CactusLlmModel::Lfm2Vl450mApple => { assert(ALL_LLM_MODELS@[7] == m); },
        CactusLlmModel::Lfm2_5Vl1_6bApple => { assert(ALL_LLM_MODELS@[8] == m); },
    }
}


/// Whether `s` ends with `suffix`.
pub open spec fn ends_with_seq(s: Seq<char>, suffix: Seq<char>) -> bool {
    suffix.len() <= s.len() && s.subrange(s.len() - suffix.len(), s.len() as int) == suffix
}

proof fn lemma_ends_with_last(s: Seq<char>, suffix: Seq<char>)
    requires
        ends_with_seq(s, suffix),
        suffix.len() > 0,
    ensures
        s[s.len() - 1] == suffix[suffix.len() - 1],
{
    assert(s.subrange(s.len() - suffix.len(), s.len() as int)[suffix.len() - 1] == s[s.len() - 1]);
}

proof fn lemma_occurs_first_char(s: Seq<char>, p: Seq<char>, i: int)
    requires
        occurs_at(s, p, i),
        p.len() > 0,
    ensures
        0 <= i < s.len(),
        s[i] == p[0],
{
    assert(s.subrange(i, i + p.len())[0] == s[i]);
}

/// A name without an upper-case `A` cannot mention the Apple NPU.
proof fn lemma_no_apple_npu(s: Seq<char>)
    requires
        forall|j: int| 0 <= j < s.len() ==> s[j] != 'A',
    ensures
        !(exists|i: int| occurs_at(s, "Apple NPU"@, i)),
{
    reveal_strlit("Apple NPU");
    if exists|i: int| occurs_at(s, "Apple NPU"@, i) {
        let i = choose|i: int| occurs_at(s, "Apple NPU"@, i);
        lemma_occurs_first_char(s, "Apple NPU"@, i);
    }
}

/// A speech-to-text model targets the Apple Neural Engine exactly when its identifier
/// ends in `-apple`, exactly when its directory ends in `-apple`, exactly when its display
/// name mentions the Apple NPU, and exactly when its description is "Apple Neural Engine";
/// every other model has an empty description.
pub proof fn law_stt_apple_markers(m: CactusSttModel)
    ensures
        stt_is_apple(m) <==> ends_with_seq(stt_asset_id(m), "-apple"@),
        stt_is_apple(m) <==> ends_with_seq(stt_dir_name(m), "-apple"@),
        stt_is_apple(m) <==> (exists|i: int| occurs_at(stt_display_name(m), "Apple NPU"@, i)),
        stt_is_apple(m) <==> stt_description(m) == "Apple Neural Engine"@,
        !stt_is_apple(m) ==> stt_description(m) == ""@,
{
    reveal_strlit("-apple");
    reveal_strlit("Apple NPU");
    law_stt_platforms(m);
    if !stt_is_apple(m) {
        reveal_strlit("");
    }
    match m {
        CactusSttModel::WhisperSmallInt4 => {
            reveal_strlit("cactus-whisper-small-int4");
            reveal_strlit("whisper-small-int4");
            reveal_strlit("Whisper Small (INT4)");
            if ends_with_seq(stt_asset_id(m), "-apple"@) { lemma_ends_with_last(stt_asset_id(m), "-apple"@); }
            if ends_with_seq(stt_dir_name(m), "-apple"@) { lemma_ends_with_last(stt_dir_name(m), "-apple"@); }
            lemma_no_apple_npu(stt_display_name(m));
        },
        CactusSttModel::WhisperSmallInt4Apple => {
            reveal_strlit("cactus-whisper-small-int4-apple");
            reveal_strlit("whisper-small-int4-apple");
            reveal_strlit("Whisper Small (INT4, Apple NPU)");
            assert(stt_asset_id(m).subrange(25, 31) =~= "-apple"@);
            assert(stt_dir_name(m).subrange(18, 24) =~= "-apple"@);
            assert(stt_display_name(m).subrange(21, 30) =~= "Apple NPU"@);
            assert(occurs_at(stt_display_name(m), "Apple NPU"@, 21));
        },
        CactusSttModel::WhisperSmallInt8 => {
            reveal_strlit("cactus-whisper-small-int8");
            reveal_strlit("whisper-small-int8");
            reveal_strlit("Whisper Small (INT8)");
            if ends_with_seq(stt_asset_id(m), "-apple"@) { lemma_ends_with_last(stt_asset_id(m), "-apple"@); }
            if ends_with_seq(stt_dir_name(m), "-apple"@) { lemma_ends_with_last(stt_dir_name(m), "-apple"@); }
            lemma_no_apple_npu(stt_display_name(m));
        },
        CactusSttModel::WhisperSmallInt8Apple => {
            reveal_strlit("cactus-whisper-small-int8-apple");
            reveal_strlit("whisper-small-int8-apple");
            reveal_strlit("Whisper Small (INT8, Apple NPU)");
            assert(stt_asset_id(m).subrange(25, 31) =~= "-apple"@);
            assert(stt_dir_name(m).subrange(18, 24) =~= "-apple"@);
            assert(stt_display_name(m).subrange(21, 30) =~= "Apple NPU"@);
            assert(occurs_at(stt_display_name(m), "Apple NPU"@, 21));
        },
        CactusSttModel::WhisperMediumInt4 => {
            reveal_strlit("cactus-whisper-medium-int4");
            reveal_strlit("whisper-medium-int4");
            reveal_strlit("Whisper Medium (INT4)");
            if ends_with_seq(stt_asset_id(m), "-apple"@) { lemma_ends_with_last(stt_asset_id(m), "-apple"@); }
            if ends_with_seq(stt_dir_name(m), "-apple"@) { lemma_ends_with_last(stt_dir_name(m), "-apple"@); }
            lemma_no_apple_npu(stt_display_name(m));
        },
        CactusSttModel::WhisperMediumInt4Apple => {
            reveal_strlit("cactus-whisper-medium-int4-apple");
            reveal_strlit("whisper-medium-int4-apple");
            reveal_strlit("Whisper Medium (INT4, Apple NPU)");
            assert(stt_asset_id(m).subrange(26, 32) =~= "-apple"@);
            assert(stt_dir_name(m).subrange(19, 25) =~= "-apple"@);
            assert(stt_display_name(m).subrange(22, 31) =~= "Apple NPU"@);
            assert(occurs_at(stt_display_name(m), "Apple NPU"@, 22));
        },
        CactusSttModel::WhisperMediumInt8 => {
            reveal_strlit("cactus-whisper-medium-int8");
            reveal_strlit("whisper-medium-int8");
            reveal_strlit("Whisper Medium (INT8)");
            if ends_with_seq(stt_asset_id(m), "-apple"@) { lemma_ends_with_last(stt_asset_id(m), "-apple"@); }
            if ends_with_seq(stt_dir_name(m), "-apple"@) { lemma_ends_with_last(stt_dir_name(m), "-apple"@); }
            lemma_no_apple_npu(stt_display_name(m));
        },
        CactusSttModel::WhisperMediumInt8Apple => {
            reveal_strlit("cactus-whisper-medium-int8-apple");
            reveal_strlit("whisper-medium-int8-apple");
            reveal_strlit("Whisper Medium (INT8, Apple NPU)");
            assert(stt_asset_id(m).subrange(26, 32) =~= "-apple"@);
            assert(stt_dir_name(m).subrange(19, 25) =~= "-apple"@);
            assert(stt_display_name(m).subrange(22, 31) =~= "Apple NPU"@);
            assert(occurs_at(stt_display_name(m), "Apple NPU"@, 22));
        },
        CactusSttModel::ParakeetCtc0_6bInt4 => {
            reveal_strlit("cactus-parakeet-ctc-0.6b-int4");
            reveal_strlit("parakeet-ctc-0.6b-int4");
            reveal_strlit("Parakeet CTC 0.6B (INT4)");
            if ends_with_seq(stt_asset_id(m), "-apple"@) { lemma_ends_with_last(stt_asset_id(m), "-apple"@); }
            if ends_with_seq(stt_dir_name(m), "-apple"@) { lemma_ends_with_last(stt_dir_name(m), "-apple"@); }
            lemma_no_apple_npu(stt_display_name(m));
        },
        CactusSttModel::ParakeetCtc0_6bInt4Apple => {
            reveal_strlit("cactus-parakeet-ctc-0.6b-int4-apple");
            reveal_strlit("parakeet-ctc-0.6b-int4-apple");
            reveal_strlit("Parakeet CTC 0.6B (INT4, Apple NPU)");
            assert(stt_asset_id(m).subrange(29, 35) =~= "-apple"@);
            assert(stt_dir_name(m).subrange(22, 28) =~= "-apple"@);
            assert(stt_display_name(m).subrange(25, 34) =~= "Apple NPU"@);
            assert(occurs_at(stt_display_name(m), "Apple NPU"@, 25));
        },
        CactusSttModel::ParakeetCtc0_6bInt8 => {
            reveal_strlit("cactus-parakeet-ctc-0.6b-int8");
            reveal_strlit("parakeet-ctc-0.6b-int8");
            reveal_strlit("Parakeet CTC 0.6B (INT8)");
            if ends_with_seq(stt_asset_id(m), "-apple"@) { lemma_ends_with_last(stt_asset_id(m), "-apple"@); }
            if ends_with_seq(stt_dir_name(m), "-apple"@) { lemma_ends_with_last(stt_dir_name(m), "-apple"@); }
            lemma_no_apple_npu(stt_display_name(m));
        },
        CactusSttModel::ParakeetCtc0_6bInt8Apple => {
            reveal_strlit("cactus-parakeet-ctc-0.6b-int8-apple");
            reveal_strlit("parakeet-ctc-0.6b-int8-apple");
            reveal_strlit("Parakeet CTC 0.6B (INT8, Apple NPU)");
            assert(stt_asset_id(m).subrange(29, 35) =~= "-apple"@);
            assert(stt_dir_name(m).subrange(22, 28) =~= "-apple"@);
            assert(stt_display_name(m).subrange(25, 34) =~= "Apple NPU"@);
            assert(occurs_at(stt_display_name(m), "Apple NPU"@, 25));
        },
        CactusSttModel::ParakeetTdt0_6bV3Int4 => {
            reveal_strlit("cactus-parakeet-tdt-0.6b-v3-int4");
            reveal_strlit("parakeet-tdt-0.6b-v3-int4");
            reveal_strlit("Parakeet TDT 0.6B v3 (INT4)");
            if ends_with_seq(stt_asset_id(m), "-apple"@) { lemma_ends_with_last(stt_asset_id(m), "-apple"@); }
            if ends_with_seq(stt_dir_name(m), "-apple"@) { lemma_ends_with_last(stt_dir_name(m), "-apple"@); }
            lemma_no_apple_npu(stt_display_name(m));
        },
        CactusSttModel::ParakeetTdt0_6bV3Int4Apple => {
            reveal_strlit("cactus-parakeet-tdt-0.6b-v3-int4-apple");
            reveal_strlit("parakeet-tdt-0.6b-v3-int4-apple");
            reveal_strlit("Parakeet TDT 0.6B v3 (INT4, Apple NPU)");
            assert(stt_asset_id(m).subrange(32, 38) =~= "-apple"@);
            assert(stt_dir_name(m).subrange(25, 31) =~= "-apple"@);
            assert(stt_display_name(m).subrange(28, 37) =~= "Apple NPU"@);
            assert(occurs_at(stt_display_name(m), "Apple NPU"@, 28));
        },
        CactusSttModel::ParakeetTdt0_6bV3Int8 => {
            reveal_strlit("cactus-parakeet-tdt-0.6b-v3-int8");
            reveal_strlit("parakeet-tdt-0.6b-v3-int8");
            reveal_strlit("Parakeet TDT 0.6B v3 (INT8)");
            if ends_with_seq(stt_asset_id(m), "-apple"@) { lemma_ends_with_last(stt_asset_id(m), "-apple"@); }
            if ends_with_seq(stt_dir_name(m), "-apple"@) { lemma_ends_with_last(stt_dir_name(m), "-apple"@); }
            lemma_no_apple_npu(stt_display_name(m));
        },
        CactusSttModel::ParakeetTdt0_6bV3Int8Apple => {
            reveal_strlit("cactus-parakeet-tdt-0.6b-v3-int8-apple");
            reveal_strlit("parakeet-tdt-0.6b-v3-int8-apple");
            reveal_strlit("Parakeet TDT 0.6B v3 (INT8, Apple NPU)");
            assert(stt_asset_id(m).subrange(32, 38) =~= "-apple"@);
            assert(stt_dir_name(m).subrange(25, 31) =~= "-apple"@);
            assert(stt_display_name(m).subrange(28, 37) =~= "Apple NPU"@);
            assert(occurs_at(stt_display_name(m), "Apple NPU"@, 28));
        },
    }
}

/// A language model targets the Apple Neural Engine exactly when its identifier ends
/// in `-apple`.
pub proof fn law_llm_apple_suffix(m: CactusLlmModel)
    ensures
        llm_is_apple(m) <==> ends_with_seq(llm_asset_id(m), "-apple"@),
{
    reveal_strlit("-apple");
    match m {
        CactusLlmModel::Gemma3_270m => {
            reveal_strlit("cactus-gemma3-270m");
            if ends_with_seq(llm_asset_id(m), "-apple"@) { lemma_ends_with_last(llm_asset_id(m), "-apple"@); }
        },
        CactusLlmModel::Lfm2_350m => {
            reveal_strlit("cactus-lfm2-350m");
            if ends_with_seq(llm_asset_id(m), "-apple"@) { lemma_ends_with_last(llm_asset_id(m), "-apple"@); }
        },
        CactusLlmModel::Qwen3_0_6b => {
            reveal_strlit("cactus-qwen3-0.6b");
            if ends_with_seq(llm_asset_id(m), "-apple"@) { lemma_ends_with_last(llm_asset_id(m), "-apple"@); }
        },
        CactusLlmModel::Lfm2_700m => {
            reveal_strlit("cactus-lfm2-700m");
            if ends_with_seq(llm_asset_id(m), "-apple"@) { lemma_ends_with_last(llm_asset_id(m), "-apple"@); }
        },
        CactusLlmModel::Gemma3_1b => {
            reveal_strlit("cactus-gemma3-1b");
            if ends_with_seq(llm_asset_id(m), "-apple"@) { lemma_ends_with_last(llm_asset_id(m), "-apple"@); }
        },
        CactusLlmModel::Lfm2_5_1_2bInstruct => {
            reveal_strlit("cactus-lfm2.5-1.2b-instruct");
            if ends_with_seq(llm_asset_id(m), "-apple"@) { lemma_ends_with_last(llm_asset_id(m), "-apple"@); }
        },
        CactusLlmModel::Qwen3_1_7b => {
            reveal_strlit("cactus-qwen3-1.7b");
            if ends_with_seq(llm_asset_id(m), "-apple"@) { lemma_ends_with_last(llm_asset_id(m), "-apple"@); }
        },
        CactusLlmModel::Lfm2Vl450mApple => {
            reveal_strlit("cactus-lfm2-vl-450m-apple");
            assert(llm_asset_id(m).subrange(19, 25) =~= "-apple"@);
        },
        CactusLlmModel::Lfm2_5Vl1_6bApple => {
            reveal_strlit("cactus-lfm2.5-vl-1.6b-apple");
            assert(llm_asset_id(m).subrange(21, 27) =~= "-apple"@);
        },
    }
}

/// Of the speech-to-text catalog, exactly eight models target the Apple Neural Engine.
pub proof fn law_stt_apple_count()
    ensures
        ALL_STT_MODELS@.filter(|m: CactusSttModel| stt_is_apple(m)).len() == 8,
{
    reveal_with_fuel(Seq::filter, 17);
}


/// No speech-to-text identifier is also a language model identifier.
proof fn lemma_stt_llm_ids_differ(a: CactusSttModel, b: CactusLlmModel)
    ensures
        stt_asset_id(a) != llm_asset_id(b),
{
    reveal_strlit("cactus-whisper-small-int4");
    reveal_strlit("cactus-whisper-small-int4-apple");
    reveal_strlit("cactus-whisper-small-int8");
    reveal_strlit("cactus-whisper-small-int8-apple");
    reveal_strlit("cactus-whisper-medium-int4");
    reveal_strlit("cactus-whisper-medium-int4-apple");
    reveal_strlit("cactus-whisper-medium-int8");
    reveal_strlit("cactus-whisper-medium-int8-apple");
    reveal_strlit("cactus-parakeet-ctc-0.6b-int4");
    reveal_strlit("cactus-parakeet-ctc-0.6b-int4-apple");
    reveal_strlit("cactus-parakeet-ctc-0.6b-int8");
    reveal_strlit("cactus-parakeet-ctc-0.6b-int8-apple");
    reveal_strlit("cactus-parakeet-tdt-0.6b-v3-int4");
    reveal_strlit("cactus-parakeet-tdt-0.6b-v3-int4-apple");
    reveal_strlit("cactus-parakeet-tdt-0.6b-v3-int8");
    reveal_strlit("cactus-parakeet-tdt-0.6b-v3-int8-apple");
    reveal_strlit("cactus-gemma3-270m");
    reveal_strlit("cactus-lfm2-350m");
    reveal_strlit("cactus-qwen3-0.6b");
    reveal_strlit("cactus-lfm2-700m");
    reveal_strlit("cactus-gemma3-1b");
    reveal_strlit("cactus-lfm2.5-1.2b-instruct");
    reveal_strlit("cactus-qwen3-1.7b");
    reveal_strlit("cactus-lfm2-vl-450m-apple");
    reveal_strlit("cactus-lfm2.5-vl-1.6b-apple");
    match a {
        CactusSttModel::WhisperSmallInt4 => match b {
            CactusLlmModel::Gemma3_270m => { assert(stt_asset_id(a).len() != llm_asset_id(b).len()); },
            CactusLlmModel::Lfm2_350m => { assert(stt_asset_id(a).len() != llm_asset_id(b).len()); },
            CactusLlmModel::Qwen3_0_6b => { assert(stt_asset_id(a).len() != llm_asset_id(b).len()); },
            CactusLlmModel::Lfm2_700m => { assert(stt_asset_id(a).len() != llm_asset_id(b).len()); },
            CactusLlmModel::Gemma3_1b => { assert(stt_asset_id(a).len() != llm_asset_id(b).len()); },
            CactusLlmModel::Lfm2_5_1_2bInstruct => { assert(stt_asset_id(a).len() != llm_asset_id(b).len()); },
            CactusLlmModel::Qwen3_1_7b => { assert(stt_asset_id(a).len() != llm_asset_id(b).len()); },
            CactusLlmModel::Lfm2Vl450mApple => { assert(stt_asset_id(a)[7] != llm_asset_id(b)[7]); },
            CactusLlmModel::Lfm2_5Vl1_6bApple => { assert(stt_asset_id(a).len() != llm_asset_id(b).len()); },
        },
        CactusSttModel::WhisperSmallInt4Apple => match b {
            CactusLlmModel::Gemma3_270m => { assert(stt_asset_id(a).len() != llm_asset_id(b).len()); },
            CactusLlmModel::Lfm2_350m => { assert(stt_asset_id(a).len() != llm_asset_id(b).len()); },
            CactusLlmModel::Qwen3_0_6b => { assert(stt_asset_id(a).len() != llm_asset_id(b).len()); },
            CactusLlmModel::Lfm2_700m => { assert(stt_asset_id(a).len() != llm_asset_id(b).len()); },
            CactusLlmModel::Gemma3_1b => { assert(stt_asset_id(a).len() != llm_asset_id(b).len()); },
            CactusLlmModel::Lfm2_5_1_2bInstruct => { assert(stt_asset_id(a).len() != llm_asset_id(b).len()); },
            CactusLlmModel::Qwen3_1_7b => { assert(stt_asset_id(a).len() != llm_asset_id(b).len()); },
            CactusLlmModel::Lfm2Vl450mApple => { assert(stt_asset_id(a).len() != llm_asset_id(b).len()); },
            CactusLlmModel::Lfm2_5Vl1_6bApple => { assert(stt_asset_id(a).len() != llm_asset_id(b).len()); },
        },
        CactusSttModel::WhisperSmallInt8 => match b {
            CactusLlmModel::Gemma3_270m => { assert(stt_asset_id(a).len() != llm_asset_id(b).len()); },
            CactusLlmModel::Lfm2_350m => { assert(stt_asset_id(a).len() != llm_asset_id(b).len()); },
            CactusLlmModel::Qwen3_0_6b => { assert(stt_asset_id(a).len() != llm_asset_id(b).len()); },
            CactusLlmModel::Lfm2_700m => { assert(stt_asset_id(a).len() != llm_asset_id(b).len()); },
            CactusLlmModel::Gemma3_1b => { assert(stt_asset_id(a).len() != llm_asset_id(b).len()); },
            CactusLlmModel::Lfm2_5_1_2bInstruct => { assert(stt_asset_id(a).len() != llm_asset_id(b).len()); },
            CactusLlmModel::Qwen3_1_7b => { assert(stt_asset_id(a).len() != llm_asset_id(b).len()); },
            CactusLlmModel::Lfm2Vl450mApple => { assert(stt_asset_id(a)[7] != llm_asset_id(b)[7]); },
            CactusLlmModel::Lfm2_5Vl1_6bApple => { assert(stt_asset_id(a).len() != llm_asset_id(b).len()); },
        },
        CactusSttModel::WhisperSmallInt8Apple => match b {
            CactusLlmModel::Gemma3_270m => { assert(stt_asset_id(a).len() != llm_asset_id(b).len()); },
            CactusLlmModel::Lfm2_350m => { assert(stt_asset_id(a).len() != llm_asset_id(b).len()); },
            CactusLlmModel::Qwen3_0_6b => { assert(stt_asset_id(a).len() != llm_asset_id(b).len()); },
            CactusLlmModel::Lfm2_700m => { assert(stt_asset_id(a).len() != llm_asset_id(b).len()); },
            CactusLlmModel::Gemma3_1b => { assert(stt_asset_id(a).len() != llm_asset_id(b).len()); },
            CactusLlmModel::Lfm2_5_1_2bInstruct => { assert(stt_asset_id(a).len() != llm_asset_id(b).len()); },
            CactusLlmModel::Qwen3_1_7b => { assert(stt_asset_id(a).len() != llm_asset_id(b).len()); },
            CactusLlmModel::Lfm2Vl450mApple => { assert(stt_asset_id(a).len() != llm_asset_id(b).len()); },
            CactusLlmModel::Lfm2_5Vl1_6bApple => { assert(stt_asset_id(a).len() != llm_asset_id(b).len()); },
        },
        CactusSttModel::WhisperMediumInt4 => match b {
            CactusLlmModel::Gemma3_270m => { assert(stt_asset_id(a).len() != llm_asset_id(b).len()); },
            CactusLlmModel::Lfm2_350m => { assert(stt_asset_id(a).len() != llm_asset_id(b).len()); },
            CactusLlmModel::Qwen3_0_6b => { assert(stt_asset_id(a).len() != llm_asset_id(b).len()); },
            CactusLlmModel::Lfm2_700m => { assert(stt_asset_id(a).len() != llm_asset_id(b).len()); },
            CactusLlmModel::Gemma3_1b => { assert(stt_asset_id(a).len() != llm_asset_id(b).len()); },
            CactusLlmModel::Lfm2_5_1_2bInstruct => { assert(stt_asset_id(a).len() != llm_asset_id(b).len()); },
            CactusLlmModel::Qwen3_1_7b => { assert(stt_asset_id(a).len() != llm_asset_id(b).len()); },
            CactusLlmModel::Lfm2Vl450mApple => { assert(stt_asset_id(a).len() != llm_asset_id(b).len()); },
            CactusLlmModel::Lfm2_5Vl1_6bApple => { assert(stt_asset_id(a).len() != llm_asset_id(b).len()); },
        },
        CactusSttModel::WhisperMediumInt4Apple => match b {
            CactusLlmModel::Gemma3_270m => { assert(stt_asset_id(a).len() != llm_asset_id(b).len()); },
            CactusLlmModel::Lfm2_350m => { assert(stt_asset_id(a).len() != llm_asset_id(b).len()); },
            CactusLlmModel::Qwen3_0_6b => { assert(stt_asset_id(a).len() != llm_asset_id(b).len()); },
            CactusLlmModel::Lfm2_700m => { assert(stt_asset_id(a).len() != llm_asset_id(b).len()); },
            CactusLlmModel::Gemma3_1b => { assert(stt_asset_id(a).len() != llm_asset_id(b).len()); },
            CactusLlmModel::Lfm2_5_1_2bInstruct => { assert(stt_asset_id(a).len() != llm_asset_id(b).len()); },
            CactusLlmModel::Qwen3_1_7b => { assert(stt_asset_id(a).len() != llm_asset_id(b).len()); },
            CactusLlmModel::Lfm2Vl450mApple => { assert(stt_asset_id(a).len() != llm_asset_id(b).len()); },
            CactusLlmModel::Lfm2_5Vl1_6bApple => { assert(stt_asset_id(a).len() != llm_asset_id(b).len()); },
        },
        CactusSttModel::WhisperMediumInt8 => match b {
            CactusLlmModel::Gemma3_270m => { assert(stt_asset_id(a).len() != llm_asset_id(b).len()); },
            CactusLlmModel::Lfm2_350m => { assert(stt_asset_id(a).len() != llm_asset_id(b).len()); },
            CactusLlmModel::Qwen3_0_6b => { assert(stt_asset_id(a).len() != llm_asset_id(b).len()); },
            CactusLlmModel::Lfm2_700m => { assert(stt_asset_id(a).len() != llm_asset_id(b).len()); },
            CactusLlmModel::Gemma3_1b => { assert(stt_asset_id(a).len() != llm_asset_id(b).len()); },
            CactusLlmModel::Lfm2_5_1_2bInstruct => { assert(stt_asset_id(a).len() != llm_asset_id(b).len()); },
            CactusLlmModel::Qwen3_1_7b => { assert(stt_asset_id(a).len() != llm_asset_id(b).len()); },
            CactusLlmModel::Lfm2Vl450mApple => { assert(stt_asset_id(a).len() != llm_asset_id(b).len()); },
            CactusLlmModel::Lfm2_5Vl1_6bApple => { assert(stt_asset_id(a).len() != llm_asset_id(b).len()); },
        },
        CactusSttModel::WhisperMediumInt8Apple => match b {
            CactusLlmModel::Gemma3_270m => { assert(stt_asset_id(a).len() != llm_asset_id(b).len()); },
            CactusLlmModel::Lfm2_350m => { assert(stt_asset_id(a).len() != llm_asset_id(b).len()); },
            CactusLlmModel::Qwen3_0_6b => { assert(stt_asset_id(a).len() != llm_asset_id(b).len()); },
            CactusLlmModel::Lfm2_700m => { assert(stt_asset_id(a).len() != llm_asset_id(b).len()); },
            CactusLlmModel::Gemma3_1b => { assert(stt_asset_id(a).len() != llm_asset_id(b).len()); },
            CactusLlmModel::Lfm2_5_1_2bInstruct => { assert(stt_asset_id(a).len() != llm_asset_id(b).len()); },
            CactusLlmModel::Qwen3_1_7b => { assert(stt_asset_id(a).len() != llm_asset_id(b).len()); },
            CactusLlmModel::Lfm2Vl450mApple => { assert(stt_asset_id(a).len() != llm_asset_id(b).len()); },
            CactusLlmModel::Lfm2_5Vl1_6bApple => { assert(stt_asset_id(a).len() != llm_asset_id(b).len()); },
        },
        CactusSttModel::ParakeetCtc0_6bInt4 => match b {
            CactusLlmModel::Gemma3_270m => { assert(stt_asset_id(a).len() != llm_asset_id(b).len()); },
            CactusLlmModel::Lfm2_350m => { assert(stt_asset_id(a).len() != llm_asset_id(b).len()); },
            CactusLlmModel::Qwen3_0_6b => { assert(stt_asset_id(a).len() != llm_asset_id(b).len()); },
            CactusLlmModel::Lfm2_700m => { assert(stt_asset_id(a).len() != llm_asset_id(b).len()); },
            CactusLlmModel::Gemma3_1b => { assert(stt_asset_id(a).len() != llm_asset_id(b).len()); },
            CactusLlmModel::Lfm2_5_1_2bInstruct => { assert(stt_asset_id(a).len() != llm_asset_id(b).len()); },
            CactusLlmModel::Qwen3_1_7b => { assert(stt_asset_id(a).len() != llm_asset_id(b).len()); },
            CactusLlmModel::Lfm2Vl450mApple => { assert(stt_asset_id(a).len() != llm_asset_id(b).len()); },
            CactusLlmModel::Lfm2_5Vl1_6bApple => { assert(stt_asset_id(a).len() != llm_asset_id(b).len()); },
        },
        CactusSttModel::ParakeetCtc0_6bInt4Apple => match b {
            CactusLlmModel::Gemma3_270m => { assert(stt_asset_id(a).len() != llm_asset_id(b).len()); },
            CactusLlmModel::Lfm2_350m => { assert(stt_asset_id(a).len() != llm_asset_id(b).len()); },
            CactusLlmModel::Qwen3_0_6b => { assert(stt_asset_id(a).len() != llm_asset_id(b).len()); },
            CactusLlmModel::Lfm2_700m => { assert(stt_asset_id(a).len() != llm_asset_id(b).len()); },
            CactusLlmModel::Gemma3_1b => { assert(stt_asset_id(a).len() != llm_asset_id(b).len()); },
            CactusLlmModel::Lfm2_5_1_2bInstruct => { assert(stt_asset_id(a).len() != llm_asset_id(b).len()); },
            CactusLlmModel::Qwen3_1_7b => { assert(stt_asset_id(a).len() != llm_asset_id(b).len()); },
            CactusLlmModel::Lfm2Vl450mApple => { assert(stt_asset_id(a).len() != llm_asset_id(b).len()); },
            CactusLlmModel::Lfm2_5Vl1_6bApple => { assert(stt_asset_id(a).len() != llm_asset_id(b).len()); },
        },
        CactusSttModel::ParakeetCtc0_6bInt8 => match b {
            CactusLlmModel::Gemma3_270m => { assert(stt_asset_id(a).len() != llm_asset_id(b).len()); },
            CactusLlmModel::Lfm2_350m => { assert(stt_asset_id(a).len() != llm_asset_id(b).len()); },
            CactusLlmModel::Qwen3_0_6b => { assert(stt_asset_id(a).len() != llm_asset_id(b).len()); },
            CactusLlmModel::Lfm2_700m => { assert(stt_asset_id(a).len() != llm_asset_id(b).len()); },
            CactusLlmModel::Gemma3_1b => { assert(stt_asset_id(a).len() != llm_asset_id(b).len()); },
            CactusLlmModel::Lfm2_5_1_2bInstruct => { assert(stt_asset_id(a).len() != llm_asset_id(b).len()); },
            CactusLlmModel::Qwen3_1_7b => { assert(stt_asset_id(a).len() != llm_asset_id(b).len()); },
            CactusLlmModel::Lfm2Vl450mApple => { assert(stt_asset_id(a).len() != llm_asset_id(b).len()); },
            CactusLlmModel::Lfm2_5Vl1_6bApple => { assert(stt_asset_id(a).len() != llm_asset_id(b).len()); },
        },
        CactusSttModel::ParakeetCtc0_6bInt8Apple => match b {
            CactusLlmModel::Gemma3_270m => { assert(stt_asset_id(a).len() != llm_asset_id(b).len()); },
            CactusLlmModel::Lfm2_350m => { assert(stt_asset_id(a).len() != llm_asset_id(b).len()); },
            CactusLlmModel::Qwen3_0_6b => { assert(stt_asset_id(a).len() != llm_asset_id(b).len()); },
            CactusLlmModel::Lfm2_700m => { assert(stt_asset_id(a).len() != llm_asset_id(b).len()); },
            CactusLlmModel::Gemma3_1b => { assert(stt_asset_id(a).len() != llm_asset_id(b).len()); },
            CactusLlmModel::Lfm2_5_1_2bInstruct => { assert(stt_asset_id(a).len() != llm_asset_id(b).len()); },
            CactusLlmModel::Qwen3_1_7b => { assert(stt_asset_id(a).len() != llm_asset_id(b).len()); },
            CactusLlmModel::Lfm2Vl450mApple => { assert(stt_asset_id(a).len() != llm_asset_id(b).len()); },
            CactusLlmModel::Lfm2_5Vl1_6bApple => { assert(stt_asset_id(a).len() != llm_asset_id(b).len()); },
        },
        CactusSttModel::ParakeetTdt0_6bV3Int4 => match b {
            CactusLlmModel::Gemma3_270m => { assert(stt_asset_id(a).len() != llm_asset_id(b).len()); },
            CactusLlmModel::Lfm2_350m => { assert(stt_asset_id(a).len() != llm_asset_id(b).len()); },
            CactusLlmModel::Qwen3_0_6b => { assert(stt_asset_id(a).len() != llm_asset_id(b).len()); },
            CactusLlmModel::Lfm2_700m => { assert(stt_asset_id(a).len() != llm_asset_id(b).len()); },
            CactusLlmModel::Gemma3_1b => { assert(stt_asset_id(a).len() != llm_asset_id(b).len()); },
            CactusLlmModel::Lfm2_5_1_2bInstruct => { assert(stt_asset_id(a).len() != llm_asset_id(b).len()); },
            CactusLlmModel::Qwen3_1_7b => { assert(stt_asset_id(a).len() != llm_asset_id(b).len()); },
            CactusLlmModel::Lfm2Vl450mApple => { assert(stt_asset_id(a).len() != llm_asset_id(b).len()); },
            CactusLlmModel::Lfm2_5Vl1_6bApple => { assert(stt_asset_id(a).len() != llm_asset_id(b).len()); },
        },
        CactusSttModel::ParakeetTdt0_6bV3Int4Apple => match b {
            CactusLlmModel::Gemma3_270m => { assert(stt_asset_id(a).len() != llm_asset_id(b).len()); },
            CactusLlmModel::Lfm2_350m => { assert(stt_asset_id(a).len() != llm_asset_id(b).len()); },
            CactusLlmModel::Qwen3_0_6b => { assert(stt_asset_id(a).len() != llm_asset_id(b).len()); },
            CactusLlmModel::Lfm2_700m => { assert(stt_asset_id(a).len() != llm_asset_id(b).len()); },
            CactusLlmModel::Gemma3_1b => { assert(stt_asset_id(a).len() != llm_asset_id(b).len()); },
            CactusLlmModel::Lfm2_5_1_2bInstruct => { assert(stt_asset_id(a).len() != llm_asset_id(b).len()); },
            CactusLlmModel::Qwen3_1_7b => { assert(stt_asset_id(a).len() != llm_asset_id(b).len()); },
            CactusLlmModel::Lfm2Vl450mApple => { assert(stt_asset_id(a).len() != llm_asset_id(b).len()); },
            CactusLlmModel::Lfm2_5Vl1_6bApple => { assert(stt_asset_id(a).len() != llm_asset_id(b).len()); },
        },
        CactusSttModel::ParakeetTdt0_6bV3Int8 => match b {
            CactusLlmModel::Gemma3_270m => { assert(stt_asset_id(a).len() != llm_asset_id(b).len()); },
            CactusLlmModel::Lfm2_350m => { assert(stt_asset_id(a).len() != llm_asset_id(b).len()); },
            CactusLlmModel::Qwen3_0_6b => { assert(stt_asset_id(a).len() != llm_asset_id(b).len()); },
            CactusLlmModel::Lfm2_700m => { assert(stt_asset_id(a).len() != llm_asset_id(b).len()); },
            CactusLlmModel::Gemma3_1b => { assert(stt_asset_id(a).len() != llm_asset_id(b).len()); },
            CactusLlmModel::Lfm2_5_1_2bInstruct => { assert(stt_asset_id(a).len() != llm_asset_id(b).len()); },
            CactusLlmModel::Qwen3_1_7b => { assert(stt_asset_id(a).len() != llm_asset_id(b).len()); },
            CactusLlmModel::Lfm2Vl450mApple => { assert(stt_asset_id(a).len() != llm_asset_id(b).len()); },
            CactusLlmModel::Lfm2_5Vl1_6bApple => { assert(stt_asset_id(a).len() != llm_asset_id(b).len()); },
        },
        CactusSttModel::ParakeetTdt0_6bV3Int8Apple => match b {
            CactusLlmModel::Gemma3_270m => { assert(stt_asset_id(a).len() != llm_asset_id(b).len()); },
            CactusLlmModel::Lfm2_350m => { assert(stt_asset_id(a).len() != llm_asset_id(b).len()); },
            CactusLlmModel::Qwen3_0_6b => { assert(stt_asset_id(a).len() != llm_asset_id(b).len()); },
            CactusLlmModel::Lfm2_700m => { assert(stt_asset_id(a).len() != llm_asset_id(b).len()); },
            CactusLlmModel::Gemma3_1b => { assert(stt_asset_id(a).len() != llm_asset_id(b).len()); },
            CactusLlmModel::Lfm2_5_1_2bInstruct => { assert(stt_asset_id(a).len() != llm_asset_id(b).len()); },
            CactusLlmModel::Qwen3_1_7b => { assert(stt_asset_id(a).len() != llm_asset_id(b).len()); },
            CactusLlmModel::Lfm2Vl450mApple => { assert(stt_asset_id(a).len() != llm_asset_id(b).len()); },
            CactusLlmModel::Lfm2_5Vl1_6bApple => { assert(stt_asset_id(a).len() != llm_asset_id(b).len()); },
        },
    }
}

/// The speech-to-text catalog lists each model right before its Apple Neural Engine
/// build: at every even position a model that does not target it, and after it the
/// same model's Apple build, whose identifier and directory are the first one's with
/// `-apple` appended.
pub proof fn law_stt_apple_pairs(k: int)
    requires
        0 <= k < 8,
    ensures
        !stt_is_apple(ALL_STT_MODELS@[2 * k]),
        stt_is_apple(ALL_STT_MODELS@[2 * k + 1]),
        stt_asset_id(ALL_STT_MODELS@[2 * k + 1]) == stt_asset_id(ALL_STT_MODELS@[2 * k]) + "-apple"@,
        stt_dir_name(ALL_STT_MODELS@[2 * k + 1]) == stt_dir_name(ALL_STT_MODELS@[2 * k]) + "-apple"@,
{
    reveal_strlit("-apple");
    if k == 0 {
        reveal_strlit("cactus-whisper-small-int4");
        reveal_strlit("cactus-whisper-small-int4-apple");
        reveal_strlit("whisper-small-int4");
        reveal_strlit("whisper-small-int4-apple");
        assert(ALL_STT_MODELS@[0] == CactusSttModel::WhisperSmallInt4);
        assert(ALL_STT_MODELS@[1] == CactusSttModel::WhisperSmallInt4Apple);
        assert(stt_asset_id(ALL_STT_MODELS@[1]) =~= stt_asset_id(ALL_STT_MODELS@[0]) + "-apple"@);
        assert(stt_dir_name(ALL_STT_MODELS@[1]) =~= stt_dir_name(ALL_STT_MODELS@[0]) + "-apple"@);
    } else if k == 1 {
        reveal_strlit("cactus-whisper-small-int8");
        reveal_strlit("cactus-whisper-small-int8-apple");
        reveal_strlit("whisper-small-int8");
        reveal_strlit("whisper-small-int8-apple");
        assert(ALL_STT_MODELS@[2] == CactusSttModel::WhisperSmallInt8);
        assert(ALL_STT_MODELS@[3] == CactusSttModel::WhisperSmallInt8Apple);
        assert(stt_asset_id(ALL_STT_MODELS@[3]) =~= stt_asset_id(ALL_STT_MODELS@[2]) + "-apple"@);
        assert(stt_dir_name(ALL_STT_MODELS@[3]) =~= stt_dir_name(ALL_STT_MODELS@[2]) + "-apple"@);
    } else if k == 2 {
        reveal_strlit("cactus-whisper-medium-int4");
        reveal_strlit("cactus-whisper-medium-int4-apple");
        reveal_strlit("whisper-medium-int4");
        reveal_strlit("whisper-medium-int4-apple");
        assert(ALL_STT_MODELS@[4] == CactusSttModel::WhisperMediumInt4);
        assert(ALL_STT_MODELS@[5] == CactusSttModel::WhisperMediumInt4Apple);
        assert(stt_asset_id(ALL_STT_MODELS@[5]) =~= stt_asset_id(ALL_STT_MODELS@[4]) + "-apple"@);
        assert(stt_dir_name(ALL_STT_MODELS@[5]) =~= stt_dir_name(ALL_STT_MODELS@[4]) + "-apple"@);
    } else if k == 3 {
        reveal_strlit("cactus-whisper-medium-int8");
        reveal_strlit("cactus-whisper-medium-int8-apple");
        reveal_strlit("whisper-medium-int8");
        reveal_strlit("whisper-medium-int8-apple");
        assert(ALL_STT_MODELS@[6] == CactusSttModel::WhisperMediumInt8);
        assert(ALL_STT_MODELS@[7] == CactusSttModel::WhisperMediumInt8Apple);
        assert(stt_asset_id(ALL_STT_MODELS@[7]) =~= stt_asset_id(ALL_STT_MODELS@[6]) + "-apple"@);
        assert(stt_dir_name(ALL_STT_MODELS@[7]) =~= stt_dir_name(ALL_STT_MODELS@[6]) + "-apple"@);
    } else if k == 4 {
        reveal_strlit("cactus-parakeet-ctc-0.6b-int4");
        reveal_strlit("cactus-parakeet-ctc-0.6b-int4-apple");
        reveal_strlit("parakeet-ctc-0.6b-int4");
        reveal_strlit("parakeet-ctc-0.6b-int4-apple");
        assert(ALL_STT_MODELS@[8] == CactusSttModel::ParakeetCtc0_6bInt4);
        assert(ALL_STT_MODELS@[9] == CactusSttModel::ParakeetCtc0_6bInt4Apple);
        assert(stt_asset_id(ALL_STT_MODELS@[9]) =~= stt_asset_id(ALL_STT_MODELS@[8]) + "-apple"@);
        assert(stt_dir_name(ALL_STT_MODELS@[9]) =~= stt_dir_name(ALL_STT_MODELS@[8]) + "-apple"@);
    } else if k == 5 {
        reveal_strlit("cactus-parakeet-ctc-0.6b-int8");
        reveal_strlit("cactus-parakeet-ctc-0.6b-int8-apple");
        reveal_strlit("parakeet-ctc-0.6b-int8");
        reveal_strlit("parakeet-ctc-0.6b-int8-apple");
        assert(ALL_STT_MODELS@[10] == CactusSttModel::ParakeetCtc0_6bInt8);
        assert(ALL_STT_MODELS@[11] == CactusSttModel::ParakeetCtc0_6bInt8Apple);
        assert(stt_asset_id(ALL_STT_MODELS@[11]) =~= stt_asset_id(ALL_STT_MODELS@[10]) + "-apple"@);
        assert(stt_dir_name(ALL_STT_MODELS@[11]) =~= stt_dir_name(ALL_STT_MODELS@[10]) + "-apple"@);
    } else if k == 6 {
        reveal_strlit("cactus-parakeet-tdt-0.6b-v3-int4");
        reveal_strlit("cactus-parakeet-tdt-0.6b-v3-int4-apple");
        reveal_strlit("parakeet-tdt-0.6b-v3-int4");
        reveal_strlit("parakeet-tdt-0.6b-v3-int4-apple");
        assert(ALL_STT_MODELS@[12] == CactusSttModel::ParakeetTdt0_6bV3Int4);
        assert(ALL_STT_MODELS@[13] == CactusSttModel::ParakeetTdt0_6bV3Int4Apple);
        assert(stt_asset_id(ALL_STT_MODELS@[13]) =~= stt_asset_id(ALL_STT_MODELS@[12]) + "-apple"@);
        assert(stt_dir_name(ALL_STT_MODELS@[13]) =~= stt_dir_name(ALL_STT_MODELS@[12]) + "-apple"@);
    } else if k == 7 {
        reveal_strlit("cactus-parakeet-tdt-0.6b-v3-int8");
        reveal_strlit("cactus-parakeet-tdt-0.6b-v3-int8-apple");
        reveal_strlit("parakeet-tdt-0.6b-v3-int8");
        reveal_strlit("parakeet-tdt-0.6b-v3-int8-apple");
        assert(ALL_STT_MODELS@[14] == CactusSttModel::ParakeetTdt0_6bV3Int8);
        assert(ALL_STT_MODELS@[15] == CactusSttModel::ParakeetTdt0_6bV3Int8Apple);
        assert(stt_asset_id(ALL_STT_MODELS@[15]) =~= stt_asset_id(ALL_STT_MODELS@[14]) + "-apple"@);
        assert(stt_dir_name(ALL_STT_MODELS@[15]) =~= stt_dir_name(ALL_STT_MODELS@[14]) + "-apple"@);
    }
}

/// The identifiers of the speech-to-text catalog are pairwise distinct.
pub proof fn law_stt_asset_ids_distinct(i: int, j: int)
    requires
        0 <= i < j < 16,
    ensures
        stt_asset_id(ALL_STT_MODELS@[i]) != stt_asset_id(ALL_STT_MODELS@[j]),
{
    law_stt_all_lists_each_once(ALL_STT_MODELS@[i]);
    law_stt_asset_id_injective(ALL_STT_MODELS@[i], ALL_STT_MODELS@[j]);
}

/// The identifiers of the whole catalog, all 25 models of both kinds, are pairwise
/// distinct, so an identifier names one model.
pub proof fn law_model_asset_ids_distinct(i: int, j: int)
    requires
        0 <= i < j < all_models_spec().len(),
    ensures
        all_models_spec().len() == 25,
        model_asset_id(all_models_spec()[i]) != model_asset_id(all_models_spec()[j]),
{
    let all = all_models_spec();
    let stt = ALL_STT_MODELS@;
    let llm = ALL_LLM_MODELS@;
    assert(all.len() == 25);
    if j < 16 {
        assert(all[i] == CactusModel::Stt(stt[i]));
        assert(all[j] == CactusModel::Stt(stt[j]));
        law_stt_asset_ids_distinct(i, j);
    } else if i < 16 {
        assert(all[i] == CactusModel::Stt(stt[i]));
        assert(all[j] == CactusModel::Llm(llm[j - 16]));
        lemma_stt_llm_ids_differ(stt[i], llm[j - 16]);
    } else {
        assert(all[i] == CactusModel::Llm(llm[i - 16]));
        assert(all[j] == CactusModel::Llm(llm[j - 16]));
        law_llm_all_lists_each_once(llm[i - 16]);
        law_llm_asset_id_injective(llm[i - 16], llm[j - 16]);
    }
}


/// The CRC-32 published for each model archive, by the archive's address.
pub open spec fn published_archive_crc(url: Seq<char>) -> Option<u32> {
    if url == "https://hyprnote.s3.us-east-1.amazonaws.com/v0/Cactus-Compute/weights/whisper-small-int4.zip"@ {
        Some(3458434299u32)
    } else if url == "https://hyprnote.s3.us-east-1.amazonaws.com/v0/Cactus-Compute/weights/whisper-small-int4-apple.zip"@ {
        Some(978654274u32)
    } else if url == "https://hyprnote.s3.us-east-1.amazonaws.com/v0/Cactus-Compute/weights/whisper-small-int8.zip"@ {
        Some(4195045602u32)
    } else if url == "https://hyprnote.s3.us-east-1.amazonaws.com/v0/Cactus-Compute/weights/whisper-small-int8-apple.zip"@ {
        Some(3401367684u32)
    } else if url == "https://hyprnote.s3.us-east-1.amazonaws.com/v0/Cactus-Compute/weights/whisper-medium-int8.zip"@ {
        Some(472491622u32)
    } else if url == "https://hyprnote.s3.us-east-1.amazonaws.com/v0/Cactus-Compute/weights/whisper-medium-int8-apple.zip"@ {
        Some(3175773054u32)
    } else if url == "https://hyprnote.s3.us-east-1.amazonaws.com/v0/Cactus-Compute/weights/parakeet-ctc-0.6b-int4.zip"@ {
        Some(110856526u32)
    } else if url == "https://hyprnote.s3.us-east-1.amazonaws.com/v0/Cactus-Compute/weights/parakeet-ctc-0.6b-int4-apple.zip"@ {
        Some(3331802527u32)
    } else if url == "https://hyprnote.s3.us-east-1.amazonaws.com/v0/Cactus-Compute/weights/parakeet-ctc-0.6b-int8.zip"@ {
        Some(1392473619u32)
    } else if url == "https://hyprnote.s3.us-east-1.amazonaws.com/v0/Cactus-Compute/weights/parakeet-ctc-0.6b-int8-apple.zip"@ {
        Some(3465847421u32)
    } else if url == "https://hyprnote.s3.us-east-1.amazonaws.com/v0/Cactus-Compute/weights/parakeet-tdt-0.6b-v3-int4.zip"@ {
        Some(4186460235u32)
    } else if url == "https://hyprnote.s3.us-east-1.amazonaws.com/v0/Cactus-Compute/weights/parakeet-tdt-0.6b-v3-int4-apple.zip"@ {
        Some(215115681u32)
    } else if url == "https://hyprnote.s3.us-east-1.amazonaws.com/v0/Cactus-Compute/weights/parakeet-tdt-0.6b-v3-int8.zip"@ {
        Some(1102737485u32)
    } else if url == "https://hyprnote.s3.us-east-1.amazonaws.com/v0/Cactus-Compute/weights/parakeet-tdt-0.6b-v3-int8-apple.zip"@ {
        Some(3071220293u32)
    } else {
        None
    }
}

/// A model's checksum is the one published for the archive at its own download
/// address; a model without a download address has none.
pub proof fn law_stt_checksum_is_archive_crc(m: CactusSttModel)
    ensures
        stt_checksum(m) == match stt_model_url(m) {
            Some(u) => published_archive_crc(u),
            None => None,
        },
{
    match m {
        CactusSttModel::WhisperSmallInt4 => {
            reveal_strlit("https://hyprnote.s3.us-east-1.amazonaws.com/v0/Cactus-Compute/weights/whisper-small-int4.zip");
        },
        CactusSttModel::WhisperSmallInt4Apple => {
            reveal_strlit("https://hyprnote.s3.us-east-1.amazonaws.com/v0/Cactus-Compute/weights/whisper-small-int4-apple.zip");
            reveal_strlit("https://hyprnote.s3.us-east-1.amazonaws.com/v0/Cactus-Compute/weights/whisper-small-int4.zip");
            assert("https://hyprnote.s3.us-east-1.amazonaws.com/v0/Cactus-Compute/weights/whisper-small-int4-apple.zip"@.len() != "https://hyprnote.s3.us-east-1.amazonaws.com/v0/Cactus-Compute/weights/whisper-small-int4.zip"@.len());
        },
        CactusSttModel::WhisperSmallInt8 => {
            reveal_strlit("https://hyprnote.s3.us-east-1.amazonaws.com/v0/Cactus-Compute/weights/whisper-small-int8.zip");
            reveal_strlit("https://hyprnote.s3.us-east-1.amazonaws.com/v0/Cactus-Compute/weights/whisper-small-int4.zip");
            assert("https://hyprnote.s3.us-east-1.amazonaws.com/v0/Cactus-Compute/weights/whisper-small-int8.zip"@[87] != "https://hyprnote.s3.us-east-1.amazonaws.com/v0/Cactus-Compute/weights/whisper-small-int4.zip"@[87]);
            reveal_strlit("https://hyprnote.s3.us-east-1.amazonaws.com/v0/Cactus-Compute/weights/whisper-small-int4-apple.zip");
            assert("https://hyprnote.s3.us-east-1.amazonaws.com/v0/Cactus-Compute/weights/whisper-small-int8.zip"@.len() != "https://hyprnote.s3.us-east-1.amazonaws.com/v0/Cactus-Compute/weights/whisper-small-int4-apple.zip"@.len());
        },
        CactusSttModel::WhisperSmallInt8Apple => {
            reveal_strlit("https://hyprnote.s3.us-east-1.amazonaws.com/v0/Cactus-Compute/weights/whisper-small-int8-apple.zip");
            reveal_strlit("https://hyprnote.s3.us-east-1.amazonaws.com/v0/Cactus-Compute/weights/whisper-small-int4.zip");
            assert("https://hyprnote.s3.us-east-1.amazonaws.com/v0/Cactus-Compute/weights/whisper-small-int8-apple.zip"@.len() != "https://hyprnote.s3.us-east-1.amazonaws.com/v0/Cactus-Compute/weights/whisper-small-int4.zip"@.len());
            reveal_strlit("https://hyprnote.s3.us-east-1.amazonaws.com/v0/Cactus-Compute/weights/whisper-small-int4-apple.zip");
            assert("https://hyprnote.s3.us-east-1.amazonaws.com/v0/Cactus-Compute/weights/whisper-small-int8-apple.zip"@[87] != "https://hyprnote.s3.us-east-1.amazonaws.com/v0/Cactus-Compute/weights/whisper-small-int4-apple.zip"@[87]);
            reveal_strlit("https://hyprnote.s3.us-east-1.amazonaws.com/v0/Cactus-Compute/weights/whisper-small-int8.zip");
            assert("https://hyprnote.s3.us-east-1.amazonaws.com/v0/Cactus-Compute/weights/whisper-small-int8-apple.zip"@.len() != "https://hyprnote.s3.us-east-1.amazonaws.com/v0/Cactus-Compute/weights/whisper-small-int8.zip"@.len());
        },
        CactusSttModel::WhisperMediumInt4 => {},
        CactusSttModel::WhisperMediumInt4Apple => {},
        CactusSttModel::WhisperMediumInt8 => {
            reveal_strlit("https://hyprnote.s3.us-east-1.amazonaws.com/v0/Cactus-Compute/weights/whisper-medium-int8.zip");
            reveal_strlit("https://hyprnote.s3.us-east-1.amazonaws.com/v0/Cactus-Compute/weights/whisper-small-int4.zip");
            assert("https://hyprnote.s3.us-east-1.amazonaws.com/v0/Cactus-Compute/weights/whisper-medium-int8.zip"@.len() != "https://hyprnote.s3.us-east-1.amazonaws.com/v0/Cactus-Compute/weights/whisper-small-int4.zip"@.len());
            reveal_strlit("https://hyprnote.s3.us-east-1.amazonaws.com/v0/Cactus-Compute/weights/whisper-small-int4-apple.zip");
            assert("https://hyprnote.s3.us-east-1.amazonaws.com/v0/Cactus-Compute/weights/whisper-medium-int8.zip"@.len() != "https://hyprnote.s3.us-east-1.amazonaws.com/v0/Cactus-Compute/weights/whisper-small-int4-apple.zip"@.len());
            reveal_strlit("https://hyprnote.s3.us-east-1.amazonaws.com/v0/Cactus-Compute/weights/whisper-small-int8.zip");
            assert("https://hyprnote.s3.us-east-1.amazonaws.com/v0/Cactus-Compute/weights/whisper-medium-int8.zip"@.len() != "https://hyprnote.s3.us-east-1.amazonaws.com/v0/Cactus-Compute/weights/whisper-small-int8.zip"@.len());
            reveal_strlit("https://hyprnote.s3.us-east-1.amazonaws.com/v0/Cactus-Compute/weights/whisper-small-int8-apple.zip");
            assert("https://hyprnote.s3.us-east-1.amazonaws.com/v0/Cactus-Compute/weights/whisper-medium-int8.zip"@.len() != "https://hyprnote.s3.us-east-1.amazonaws.com/v0/Cactus-Compute/weights/whisper-small-int8-apple.zip"@.len());
        },
        CactusSttModel::WhisperMediumInt8Apple => {
            reveal_strlit("https://hyprnote.s3.us-east-1.amazonaws.com/v0/Cactus-Compute/weights/whisper-medium-int8-apple.zip");
            reveal_strlit("https://hyprnote.s3.us-east-1.amazonaws.com/v0/Cactus-Compute/weights/whisper-small-int4.zip");
            assert("https://hyprnote.s3.us-east-1.amazonaws.com/v0/Cactus-Compute/weights/whisper-medium-int8-apple.zip"@.len() != "https://hyprnote.s3.us-east-1.amazonaws.com/v0/Cactus-Compute/weights/whisper-small-int4.zip"@.len());
            reveal_strlit("https://hyprnote.s3.us-east-1.amazonaws.com/v0/Cactus-Compute/weights/whisper-small-int4-apple.zip");
            assert("https://hyprnote.s3.us-east-1.amazonaws.com/v0/Cactus-Compute/weights/whisper-medium-int8-apple.zip"@.len() != "https://hyprnote.s3.us-east-1.amazonaws.com/v0/Cactus-Compute/weights/whisper-small-int4-apple.zip"@.len());
            reveal_strlit("https://hyprnote.s3.us-east-1.amazonaws.com/v0/Cactus-Compute/weights/whisper-small-int8.zip");
            assert("https://hyprnote.s3.us-east-1.amazonaws.com/v0/Cactus-Compute/weights/whisper-medium-int8-apple.zip"@.len() != "https://hyprnote.s3.us-east-1.amazonaws.com/v0/Cactus-Compute/weights/whisper-small-int8.zip"@.len());
            reveal_strlit("https://hyprnote.s3.us-east-1.amazonaws.com/v0/Cactus-Compute/weights/whisper-small-int8-apple.zip");
            assert("https://hyprnote.s3.us-east-1.amazonaws.com/v0/Cactus-Compute/weights/whisper-medium-int8-apple.zip"@.len() != "https://hyprnote.s3.us-east-1.amazonaws.com/v0/Cactus-Compute/weights/whisper-small-int8-apple.zip"@.len());
            reveal_strlit("https://hyprnote.s3.us-east-1.amazonaws.com/v0/Cactus-Compute/weights/whisper-medium-int8.zip");
            assert("https://hyprnote.s3.us-east-1.amazonaws.com/v0/Cactus-Compute/weights/whisper-medium-int8-apple.zip"@.len() != "https://hyprnote.s3.us-east-1.amazonaws.com/v0/Cactus-Compute/weights/whisper-medium-int8.zip"@.len());
        },
        CactusSttModel::ParakeetCtc0_6bInt4 => {
            reveal_strlit("https://hyprnote.s3.us-east-1.amazonaws.com/v0/Cactus-Compute/weights/parakeet-ctc-0.6b-int4.zip");
            reveal_strlit("https://hyprnote.s3.us-east-1.amazonaws.com/v0/Cactus-Compute/weights/whisper-small-int4.zip");
            assert("https://hyprnote.s3.us-east-1.amazonaws.com/v0/Cactus-Compute/weights/parakeet-ctc-0.6b-int4.zip"@.len() != "https://hyprnote.s3.us-east-1.amazonaws.com/v0/Cactus-Compute/weights/whisper-small-int4.zip"@.len());
            reveal_strlit("https://hyprnote.s3.us-east-1.amazonaws.com/v0/Cactus-Compute/weights/whisper-small-int4-apple.zip");
            assert("https://hyprnote.s3.us-east-1.amazonaws.com/v0/Cactus-Compute/weights/parakeet-ctc-0.6b-int4.zip"@.len() != "https://hyprnote.s3.us-east-1.amazonaws.com/v0/Cactus-Compute/weights/whisper-small-int4-apple.zip"@.len());
            reveal_strlit("https://hyprnote.s3.us-east-1.amazonaws.com/v0/Cactus-Compute/weights/whisper-small-int8.zip");
            assert("https://hyprnote.s3.us-east-1.amazonaws.com/v0/Cactus-Compute/weights/parakeet-ctc-0.6b-int4.zip"@.len() != "https://hyprnote.s3.us-east-1.amazonaws.com/v0/Cactus-Compute/weights/whisper-small-int8.zip"@.len());
            reveal_strlit("https://hyprnote.s3.us-east-1.amazonaws.com/v0/Cactus-Compute/weights/whisper-small-int8-apple.zip");
            assert("https://hyprnote.s3.us-east-1.amazonaws.com/v0/Cactus-Compute/weights/parakeet-ctc-0.6b-int4.zip"@.len() != "https://hyprnote.s3.us-east-1.amazonaws.com/v0/Cactus-Compute/weights/whisper-small-int8-apple.zip"@.len());
            reveal_strlit("https://hyprnote.s3.us-east-1.amazonaws.com/v0/Cactus-Compute/weights/whisper-medium-int8.zip");
            assert("https://hyprnote.s3.us-east-1.amazonaws.com/v0/Cactus-Compute/weights/parakeet-ctc-0.6b-int4.zip"@.len() != "https://hyprnote.s3.us-east-1.amazonaws.com/v0/Cactus-Compute/weights/whisper-medium-int8.zip"@.len());
            reveal_strlit("https://hyprnote.s3.us-east-1.amazonaws.com/v0/Cactus-Compute/weights/whisper-medium-int8-apple.zip");
            assert("https://hyprnote.s3.us-east-1.amazonaws.com/v0/Cactus-Compute/weights/parakeet-ctc-0.6b-int4.zip"@.len() != "https://hyprnote.s3.us-east-1.amazonaws.com/v0/Cactus-Compute/weights/whisper-medium-int8-apple.zip"@.len());
        },
        CactusSttModel::ParakeetCtc0_6bInt4Apple => {
            reveal_strlit("https://hyprnote.s3.us-east-1.amazonaws.com/v0/Cactus-Compute/weights/parakeet-ctc-0.6b-int4-apple.zip");
            reveal_strlit("https://hyprnote.s3.us-east-1.amazonaws.com/v0/Cactus-Compute/weights/whisper-small-int4.zip");
            assert("https://hyprnote.s3.us-east-1.amazonaws.com/v0/Cactus-Compute/weights/parakeet-ctc-0.6b-int4-apple.zip"@.len() != "https://hyprnote.s3.us-east-1.amazonaws.com/v0/Cactus-Compute/weights/whisper-small-int4.zip"@.len());
            reveal_strlit("https://hyprnote.s3.us-east-1.amazonaws.com/v0/Cactus-Compute/weights/whisper-small-int4-apple.zip");
            assert("https://hyprnote.s3.us-east-1.amazonaws.com/v0/Cactus-Compute/weights/parakeet-ctc-0.6b-int4-apple.zip"@.len() != "https://hyprnote.s3.us-east-1.amazonaws.com/v0/Cactus-Compute/weights/whisper-small-int4-apple.zip"@.len());
            reveal_strlit("https://hyprnote.s3.us-east-1.amazonaws.com/v0/Cactus-Compute/weights/whisper-small-int8.zip");
            assert("https://hyprnote.s3.us-east-1.amazonaws.com/v0/Cactus-Compute/weights/parakeet-ctc-0.6b-int4-apple.zip"@.len() != "https://hyprnote.s3.us-east-1.amazonaws.com/v0/Cactus-Compute/weights/whisper-small-int8.zip"@.len());
            reveal_strlit("https://hyprnote.s3.us-east-1.amazonaws.com/v0/Cactus-Compute/weights/whisper-small-int8-apple.zip");
            assert("https://hyprnote.s3.us-east-1.amazonaws.com/v0/Cactus-Compute/weights/parakeet-ctc-0.6b-int4-apple.zip"@.len() != "https://hyprnote.s3.us-east-1.amazonaws.com/v0/Cactus-Compute/weights/whisper-small-int8-apple.zip"@.len());
            reveal_strlit("https://hyprnote.s3.us-east-1.amazonaws.com/v0/Cactus-Compute/weights/whisper-medium-int8.zip");
            assert("https://hyprnote.s3.us-east-1.amazonaws.com/v0/Cactus-Compute/weights/parakeet-ctc-0.6b-int4-apple.zip"@.len() != "https://hyprnote.s3.us-east-1.amazonaws.com/v0/Cactus-Compute/weights/whisper-medium-int8.zip"@.len());
            reveal_strlit("https://hyprnote.s3.us-east-1.amazonaws.com/v0/Cactus-Compute/weights/whisper-medium-int8-apple.zip");
            assert("https://hyprnote.s3.us-east-1.amazonaws.com/v0/Cactus-Compute/weights/parakeet-ctc-0.6b-int4-apple.zip"@.len() != "https://hyprnote.s3.us-east-1.amazonaws.com/v0/Cactus-Compute/weights/whisper-medium-int8-apple.zip"@.len());
            reveal_strlit("https://hyprnote.s3.us-east-1.amazonaws.com/v0/Cactus-Compute/weights/parakeet-ctc-0.6b-int4.zip");
            assert("https://hyprnote.s3.us-east-1.amazonaws.com/v0/Cactus-Compute/weights/parakeet-ctc-0.6b-int4-apple.zip"@.len() != "https://hyprnote.s3.us-east-1.amazonaws.com/v0/Cactus-Compute/weights/parakeet-ctc-0.6b-int4.zip"@.len());
        },
        CactusSttModel::ParakeetCtc0_6bInt8 => {
            reveal_strlit("https://hyprnote.s3.us-east-1.amazonaws.com/v0/Cactus-Compute/weights/parakeet-ctc-0.6b-int8.zip");
            reveal_strlit("https://hyprnote.s3.us-east-1.amazonaws.com/v0/Cactus-Compute/weights/whisper-small-int4.zip");
            assert("https://hyprnote.s3.us-east-1.amazonaws.com/v0/Cactus-Compute/weights/parakeet-ctc-0.6b-int8.zip"@.len() != "https://hyprnote.s3.us-east-1.amazonaws.com/v0/Cactus-Compute/weights/whisper-small-int4.zip"@.len());
            reveal_strlit("https://hyprnote.s3.us-east-1.amazonaws.com/v0/Cactus-Compute/weights/whisper-small-int4-apple.zip");
            assert("https://hyprnote.s3.us-east-1.amazonaws.com/v0/Cactus-Compute/weights/parakeet-ctc-0.6b-int8.zip"@.len() != "https://hyprnote.s3.us-east-1.amazonaws.com/v0/Cactus-Compute/weights/whisper-small-int4-apple.zip"@.len());
            reveal_strlit("https://hyprnote.s3.us-east-1.amazonaws.com/v0/Cactus-Compute/weights/whisper-small-int8.zip");
            assert("https://hyprnote.s3.us-east-1.amazonaws.com/v0/Cactus-Compute/weights/parakeet-ctc-0.6b-int8.zip"@.len() != "https://hyprnote.s3.us-east-1.amazonaws.com/v0/Cactus-Compute/weights/whisper-small-int8.zip"@.len());
            reveal_strlit("https://hyprnote.s3.us-east-1.amazonaws.com/v0/Cactus-Compute/weights/whisper-small-int8-apple.zip");
            assert("https://hyprnote.s3.us-east-1.amazonaws.com/v0/Cactus-Compute/weights/parakeet-ctc-0.6b-int8.zip"@.len() != "https://hyprnote.s3.us-east-1.amazonaws.com/v0/Cactus-Compute/weights/whisper-small-int8-apple.zip"@.len());
            reveal_strlit("https://hyprnote.s3.us-east-1.amazonaws.com/v0/Cactus-Compute/weights/whisper-medium-int8.zip");
            assert("https://hyprnote.s3.us-east-1.amazonaws.com/v0/Cactus-Compute/weights/parakeet-ctc-0.6b-int8.zip"@.len() != "https://hyprnote.s3.us-east-1.amazonaws.com/v0/Cactus-Compute/weights/whisper-medium-int8.zip"@.len());
            reveal_strlit("https://hyprnote.s3.us-east-1.amazonaws.com/v0/Cactus-Compute/weights/whisper-medium-int8-apple.zip");
            assert("https://hyprnote.s3.us-east-1.amazonaws.com/v0/Cactus-Compute/weights/parakeet-ctc-0.6b-int8.zip"@.len() != "https://hyprnote.s3.us-east-1.amazonaws.com/v0/Cactus-Compute/weights/whisper-medium-int8-apple.zip"@.len());
            reveal_strlit("https://hyprnote.s3.us-east-1.amazonaws.com/v0/Cactus-Compute/weights/parakeet-ctc-0.6b-int4.zip");
            assert("https://hyprnote.s3.us-east-1.amazonaws.com/v0/Cactus-Compute/weights/parakeet-ctc-0.6b-int8.zip"@[91] != "https://hyprnote.s3.us-east-1.amazonaws.com/v0/Cactus-Compute/weights/parakeet-ctc-0.6b-int4.zip"@[91]);
            reveal_strlit("https://hyprnote.s3.us-east-1.amazonaws.com/v0/Cactus-Compute/weights/parakeet-ctc-0.6b-int4-apple.zip");
            assert("https://hyprnote.s3.us-east-1.amazonaws.com/v0/Cactus-Compute/weights/parakeet-ctc-0.6b-int8.zip"@.len() != "https://hyprnote.s3.us-east-1.amazonaws.com/v0/Cactus-Compute/weights/parakeet-ctc-0.6b-int4-apple.zip"@.len());
        },
        CactusSttModel::ParakeetCtc0_6bInt8Apple => {
            reveal_strlit("https://hyprnote.s3.us-east-1.amazonaws.com/v0/Cactus-Compute/weights/parakeet-ctc-0.6b-int8-apple.zip");
            reveal_strlit("https://hyprnote.s3.us-east-1.amazonaws.com/v0/Cactus-Compute/weights/whisper-small-int4.zip");
            assert("https://hyprnote.s3.us-east-1.amazonaws.com/v0/Cactus-Compute/weights/parakeet-ctc-0.6b-int8-apple.zip"@.len() != "https://hyprnote.s3.us-east-1.amazonaws.com/v0/Cactus-Compute/weights/whisper-small-int4.zip"@.len());
            reveal_strlit("https://hyprnote.s3.us-east-1.amazonaws.com/v0/Cactus-Compute/weights/whisper-small-int4-apple.zip");
            assert("https://hyprnote.s3.us-east-1.amazonaws.com/v0/Cactus-Compute/weights/parakeet-ctc-0.6b-int8-apple.zip"@.len() != "https://hyprnote.s3.us-east-1.amazonaws.com/v0/Cactus-Compute/weights/whisper-small-int4-apple.zip"@.len());
            reveal_strlit("https://hyprnote.s3.us-east-1.amazonaws.com/v0/Cactus-Compute/weights/whisper-small-int8.zip");
            assert("https://hyprnote.s3.us-east-1.amazonaws.com/v0/Cactus-Compute/weights/parakeet-ctc-0.6b-int8-apple.zip"@.len() != "https://hyprnote.s3.us-east-1.amazonaws.com/v0/Cactus-Compute/weights/whisper-small-int8.zip"@.len());
            reveal_strlit("https://hyprnote.s3.us-east-1.amazonaws.com/v0/Cactus-Compute/weights/whisper-small-int8-apple.zip");
            assert("https://hyprnote.s3.us-east-1.amazonaws.com/v0/Cactus-Compute/weights/parakeet-ctc-0.6b-int8-apple.zip"@.len() != "https://hyprnote.s3.us-east-1.amazonaws.com/v0/Cactus-Compute/weights/whisper-small-int8-apple.zip"@.len());
            reveal_strlit("https://hyprnote.s3.us-east-1.amazonaws.com/v0/Cactus-Compute/weights/whisper-medium-int8.zip");
            assert("https://hyprnote.s3.us-east-1.amazonaws.com/v0/Cactus-Compute/weights/parakeet-ctc-0.6b-int8-apple.zip"@.len() != "https://hyprnote.s3.us-east-1.amazonaws.com/v0/Cactus-Compute/weights/whisper-medium-int8.zip"@.len());
            reveal_strlit("https://hyprnote.s3.us-east-1.amazonaws.com/v0/Cactus-Compute/weights/whisper-medium-int8-apple.zip");
            assert("https://hyprnote.s3.us-east-1.amazonaws.com/v0/Cactus-Compute/weights/parakeet-ctc-0.6b-int8-apple.zip"@.len() != "https://hyprnote.s3.us-east-1.amazonaws.com/v0/Cactus-Compute/weights/whisper-medium-int8-apple.zip"@.len());
            reveal_strlit("https://hyprnote.s3.us-east-1.amazonaws.com/v0/Cactus-Compute/weights/parakeet-ctc-0.6b-int4.zip");
            assert("https://hyprnote.s3.us-east-1.amazonaws.com/v0/Cactus-Compute/weights/parakeet-ctc-0.6b-int8-apple.zip"@.len() != "https://hyprnote.s3.us-east-1.amazonaws.com/v0/Cactus-Compute/weights/parakeet-ctc-0.6b-int4.zip"@.len());
            reveal_strlit("https://hyprnote.s3.us-east-1.amazonaws.com/v0/Cactus-Compute/weights/parakeet-ctc-0.6b-int4-apple.zip");
            assert("https://hyprnote.s3.us-east-1.amazonaws.com/v0/Cactus-Compute/weights/parakeet-ctc-0.6b-int8-apple.zip"@[91] != "https://hyprnote.s3.us-east-1.amazonaws.com/v0/Cactus-Compute/weights/parakeet-ctc-0.6b-int4-apple.zip"@[91]);
            reveal_strlit("https://hyprnote.s3.us-east-1.amazonaws.com/v0/Cactus-Compute/weights/parakeet-ctc-0.6b-int8.zip");
            assert("https://hyprnote.s3.us-east-1.amazonaws.com/v0/Cactus-Compute/weights/parakeet-ctc-0.6b-int8-apple.zip"@.len() != "https://hyprnote.s3.us-east-1.amazonaws.com/v0/Cactus-Compute/weights/parakeet-ctc-0.6b-int8.zip"@.len());
        },
        CactusSttModel::ParakeetTdt0_6bV3Int4 => {
            reveal_strlit("https://hyprnote.s3.us-east-1.amazonaws.com/v0/Cactus-Compute/weights/parakeet-tdt-0.6b-v3-int4.zip");
            reveal_strlit("https://hyprnote.s3.us-east-1.amazonaws.com/v0/Cactus-Compute/weights/whisper-small-int4.zip");
            assert("https://hyprnote.s3.us-east-1.amazonaws.com/v0/Cactus-Compute/weights/parakeet-tdt-0.6b-v3-int4.zip"@.len() != "https://hyprnote.s3.us-east-1.amazonaws.com/v0/Cactus-Compute/weights/whisper-small-int4.zip"@.len());
            reveal_strlit("https://hyprnote.s3.us-east-1.amazonaws.com/v0/Cactus-Compute/weights/whisper-small-int4-apple.zip");
            assert("https://hyprnote.s3.us-east-1.amazonaws.com/v0/Cactus-Compute/weights/parakeet-tdt-0.6b-v3-int4.zip"@.len() != "https://hyprnote.s3.us-east-1.amazonaws.com/v0/Cactus-Compute/weights/whisper-small-int4-apple.zip"@.len());
            reveal_strlit("https://hyprnote.s3.us-east-1.amazonaws.com/v0/Cactus-Compute/weights/whisper-small-int8.zip");
            assert("https://hyprnote.s3.us-east-1.amazonaws.com/v0/Cactus-Compute/weights/parakeet-tdt-0.6b-v3-int4.zip"@.len() != "https://hyprnote.s3.us-east-1.amazonaws.com/v0/Cactus-Compute/weights/whisper-small-int8.zip"@.len());
            reveal_strlit("https://hyprnote.s3.us-east-1.amazonaws.com/v0/Cactus-Compute/weights/whisper-small-int8-apple.zip");
            assert("https://hyprnote.s3.us-east-1.amazonaws.com/v0/Cactus-Compute/weights/parakeet-tdt-0.6b-v3-int4.zip"@.len() != "https://hyprnote.s3.us-east-1.amazonaws.com/v0/Cactus-Compute/weights/whisper-small-int8-apple.zip"@.len());
            reveal_strlit("https://hyprnote.s3.us-east-1.amazonaws.com/v0/Cactus-Compute/weights/whisper-medium-int8.zip");
            assert("https://hyprnote.s3.us-east-1.amazonaws.com/v0/Cactus-Compute/weights/parakeet-tdt-0.6b-v3-int4.zip"@.len() != "https://hyprnote.s3.us-east-1.amazonaws.com/v0/Cactus-Compute/weights/whisper-medium-int8.zip"@.len());
            reveal_strlit("https://hyprnote.s3.us-east-1.amazonaws.com/v0/Cactus-Compute/weights/whisper-medium-int8-apple.zip");
            assert("https://hyprnote.s3.us-east-1.amazonaws.com/v0/Cactus-Compute/weights/parakeet-tdt-0.6b-v3-int4.zip"@[70] != "https://hyprnote.s3.us-east-1.amazonaws.com/v0/Cactus-Compute/weights/whisper-medium-int8-apple.zip"@[70]);
            reveal_strlit("https://hyprnote.s3.us-east-1.amazonaws.com/v0/Cactus-Compute/weights/parakeet-ctc-0.6b-int4.zip");
            assert("https://hyprnote.s3.us-east-1.amazonaws.com/v0/Cactus-Compute/weights/parakeet-tdt-0.6b-v3-int4.zip"@.len() != "https://hyprnote.s3.us-east-1.amazonaws.com/v0/Cactus-Compute/weights/parakeet-ctc-0.6b-int4.zip"@.len());
            reveal_strlit("https://hyprnote.s3.us-east-1.amazonaws.com/v0/Cactus-Compute/weights/parakeet-ctc-0.6b-int4-apple.zip");
            assert("https://hyprnote.s3.us-east-1.amazonaws.com/v0/Cactus-Compute/weights/parakeet-tdt-0.6b-v3-int4.zip"@.len() != "https://hyprnote.s3.us-east-1.amazonaws.com/v0/Cactus-Compute/weights/parakeet-ctc-0.6b-int4-apple.zip"@.len());
            reveal_strlit("https://hyprnote.s3.us-east-1.amazonaws.com/v0/Cactus-Compute/weights/parakeet-ctc-0.6b-int8.zip");
            assert("https://hyprnote.s3.us-east-1.amazonaws.com/v0/Cactus-Compute/weights/parakeet-tdt-0.6b-v3-int4.zip"@.len() != "https://hyprnote.s3.us-east-1.amazonaws.com/v0/Cactus-Compute/weights/parakeet-ctc-0.6b-int8.zip"@.len());
            reveal_strlit("https://hyprnote.s3.us-east-1.amazonaws.com/v0/Cactus-Compute/weights/parakeet-ctc-0.6b-int8-apple.zip");
            assert("https://hyprnote.s3.us-east-1.amazonaws.com/v0/Cactus-Compute/weights/parakeet-tdt-0.6b-v3-int4.zip"@.len() != "https://hyprnote.s3.us-east-1.amazonaws.com/v0/Cactus-Compute/weights/parakeet-ctc-0.6b-int8-apple.zip"@.len());
        },
        CactusSttModel::ParakeetTdt0_6bV3Int4Apple => {
            reveal_strlit("https://hyprnote.s3.us-east-1.amazonaws.com/v0/Cactus-Compute/weights/parakeet-tdt-0.6b-v3-int4-apple.zip");
            reveal_strlit("https://hyprnote.s3.us-east-1.amazonaws.com/v0/Cactus-Compute/weights/whisper-small-int4.zip");
            assert("https://hyprnote.s3.us-east-1.amazonaws.com/v0/Cactus-Compute/weights/parakeet-tdt-0.6b-v3-int4-apple.zip"@.len() != "https://hyprnote.s3.us-east-1.amazonaws.com/v0/Cactus-Compute/weights/whisper-small-int4.zip"@.len());
            reveal_strlit("https://hyprnote.s3.us-east-1.amazonaws.com/v0/Cactus-Compute/weights/whisper-small-int4-apple.zip");
            assert("https://hyprnote.s3.us-east-1.amazonaws.com/v0/Cactus-Compute/weights/parakeet-tdt-0.6b-v3-int4-apple.zip"@.len() != "https://hyprnote.s3.us-east-1.amazonaws.com/v0/Cactus-Compute/weights/whisper-small-int4-apple.zip"@.len());
            reveal_strlit("https://hyprnote.s3.us-east-1.amazonaws.com/v0/Cactus-Compute/weights/whisper-small-int8.zip");
            assert("https://hyprnote.s3.us-east-1.amazonaws.com/v0/Cactus-Compute/weights/parakeet-tdt-0.6b-v3-int4-apple.zip"@.len() != "https://hyprnote.s3.us-east-1.amazonaws.com/v0/Cactus-Compute/weights/whisper-small-int8.zip"@.len());
            reveal_strlit("https://hyprnote.s3.us-east-1.amazonaws.com/v0/Cactus-Compute/weights/whisper-small-int8-apple.zip");
            assert("https://hyprnote.s3.us-east-1.amazonaws.com/v0/Cactus-Compute/weights/parakeet-tdt-0.6b-v3-int4-apple.zip"@.len() != "https://hyprnote.s3.us-east-1.amazonaws.com/v0/Cactus-Compute/weights/whisper-small-int8-apple.zip"@.len());
            reveal_strlit("https://hyprnote.s3.us-east-1.amazonaws.com/v0/Cactus-Compute/weights/whisper-medium-int8.zip");
            assert("https://hyprnote.s3.us-east-1.amazonaws.com/v0/Cactus-Compute/weights/parakeet-tdt-0.6b-v3-int4-apple.zip"@.len() != "https://hyprnote.s3.us-east-1.amazonaws.com/v0/Cactus-Compute/weights/whisper-medium-int8.zip"@.len());
            reveal_strlit("https://hyprnote.s3.us-east-1.amazonaws.com/v0/Cactus-Compute/weights/whisper-medium-int8-apple.zip");
            assert("https://hyprnote.s3.us-east-1.amazonaws.com/v0/Cactus-Compute/weights/parakeet-tdt-0.6b-v3-int4-apple.zip"@.len() != "https://hyprnote.s3.us-east-1.amazonaws.com/v0/Cactus-Compute/weights/whisper-medium-int8-apple.zip"@.len());
            reveal_strlit("https://hyprnote.s3.us-east-1.amazonaws.com/v0/Cactus-Compute/weights/parakeet-ctc-0.6b-int4.zip");
            assert("https://hyprnote.s3.us-east-1.amazonaws.com/v0/Cactus-Compute/weights/parakeet-tdt-0.6b-v3-int4-apple.zip"@.len() != "https://hyprnote.s3.us-east-1.amazonaws.com/v0/Cactus-Compute/weights/parakeet-ctc-0.6b-int4.zip"@.len());
            reveal_strlit("https://hyprnote.s3.us-east-1.amazonaws.com/v0/Cactus-Compute/weights/parakeet-ctc-0.6b-int4-apple.zip");
            assert("https://hyprnote.s3.us-east-1.amazonaws.com/v0/Cactus-Compute/weights/parakeet-tdt-0.6b-v3-int4-apple.zip"@.len() != "https://hyprnote.s3.us-east-1.amazonaws.com/v0/Cactus-Compute/weights/parakeet-ctc-0.6b-int4-apple.zip"@.len());
            reveal_strlit("https://hyprnote.s3.us-east-1.amazonaws.com/v0/Cactus-Compute/weights/parakeet-ctc-0.6b-int8.zip");
            assert("https://hyprnote.s3.us-east-1.amazonaws.com/v0/Cactus-Compute/weights/parakeet-tdt-0.6b-v3-int4-apple.zip"@.len() != "https://hyprnote.s3.us-east-1.amazonaws.com/v0/Cactus-Compute/weights/parakeet-ctc-0.6b-int8.zip"@.len());
            reveal_strlit("https://hyprnote.s3.us-east-1.amazonaws.com/v0/Cactus-Compute/weights/parakeet-ctc-0.6b-int8-apple.zip");
            assert("https://hyprnote.s3.us-east-1.amazonaws.com/v0/Cactus-Compute/weights/parakeet-tdt-0.6b-v3-int4-apple.zip"@.len() != "https://hyprnote.s3.us-east-1.amazonaws.com/v0/Cactus-Compute/weights/parakeet-ctc-0.6b-int8-apple.zip"@.len());
            reveal_strlit("https://hyprnote.s3.us-east-1.amazonaws.com/v0/Cactus-Compute/weights/parakeet-tdt-0.6b-v3-int4.zip");
            assert("https://hyprnote.s3.us-east-1.amazonaws.com/v0/Cactus-Compute/weights/parakeet-tdt-0.6b-v3-int4-apple.zip"@.len() != "https://hyprnote.s3.us-east-1.amazonaws.com/v0/Cactus-Compute/weights/parakeet-tdt-0.6b-v3-int4.zip"@.len());
        },
        CactusSttModel::ParakeetTdt0_6bV3Int8 => {
            reveal_strlit("https://hyprnote.s3.us-east-1.amazonaws.com/v0/Cactus-Compute/weights/parakeet-tdt-0.6b-v3-int8.zip");
            reveal_strlit("https://hyprnote.s3.us-east-1.amazonaws.com/v0/Cactus-Compute/weights/whisper-small-int4.zip");
            assert("https://hyprnote.s3.us-east-1.amazonaws.com/v0/Cactus-Compute/weights/parakeet-tdt-0.6b-v3-int8.zip"@.len() != "https://hyprnote.s3.us-east-1.amazonaws.com/v0/Cactus-Compute/weights/whisper-small-int4.zip"@.len());
            reveal_strlit("https://hyprnote.s3.us-east-1.amazonaws.com/v0/Cactus-Compute/weights/whisper-small-int4-apple.zip");
            assert("https://hyprnote.s3.us-east-1.amazonaws.com/v0/Cactus-Compute/weights/parakeet-tdt-0.6b-v3-int8.zip"@.len() != "https://hyprnote.s3.us-east-1.amazonaws.com/v0/Cactus-Compute/weights/whisper-small-int4-apple.zip"@.len());
            reveal_strlit("https://hyprnote.s3.us-east-1.amazonaws.com/v0/Cactus-Compute/weights/whisper-small-int8.zip");
            assert("https://hyprnote.s3.us-east-1.amazonaws.com/v0/Cactus-Compute/weights/parakeet-tdt-0.6b-v3-int8.zip"@.len() != "https://hyprnote.s3.us-east-1.amazonaws.com/v0/Cactus-Compute/weights/whisper-small-int8.zip"@.len());
            reveal_strlit("https://hyprnote.s3.us-east-1.amazonaws.com/v0/Cactus-Compute/weights/whisper-small-int8-apple.zip");
            assert("https://hyprnote.s3.us-east-1.amazonaws.com/v0/Cactus-Compute/weights/parakeet-tdt-0.6b-v3-int8.zip"@.len() != "https://hyprnote.s3.us-east-1.amazonaws.com/v0/Cactus-Compute/weights/whisper-small-int8-apple.zip"@.len());
            reveal_strlit("https://hyprnote.s3.us-east-1.amazonaws.com/v0/Cactus-Compute/weights/whisper-medium-int8.zip");
            assert("https://hyprnote.s3.us-east-1.amazonaws.com/v0/Cactus-Compute/weights/parakeet-tdt-0.6b-v3-int8.zip"@.len() != "https://hyprnote.s3.us-east-1.amazonaws.com/v0/Cactus-Compute/weights/whisper-medium-int8.zip"@.len());
            reveal_strlit("https://hyprnote.s3.us-east-1.amazonaws.com/v0/Cactus-Compute/weights/whisper-medium-int8-apple.zip");
            assert("https://hyprnote.s3.us-east-1.amazonaws.com/v0/Cactus-Compute/weights/parakeet-tdt-0.6b-v3-int8.zip"@[70] != "https://hyprnote.s3.us-east-1.amazonaws.com/v0/Cactus-Compute/weights/whisper-medium-int8-apple.zip"@[70]);
            reveal_strlit("https://hyprnote.s3.us-east-1.amazonaws.com/v0/Cactus-Compute/weights/parakeet-ctc-0.6b-int4.zip");
            assert("https://hyprnote.s3.us-east-1.amazonaws.com/v0/Cactus-Compute/weights/parakeet-tdt-0.6b-v3-int8.zip"@.len() != "https://hyprnote.s3.us-east-1.amazonaws.com/v0/Cactus-Compute/weights/parakeet-ctc-0.6b-int4.zip"@.len());
            reveal_strlit("https://hyprnote.s3.us-east-1.amazonaws.com/v0/Cactus-Compute/weights/parakeet-ctc-0.6b-int4-apple.zip");
            assert("https://hyprnote.s3.us-east-1.amazonaws.com/v0/Cactus-Compute/weights/parakeet-tdt-0.6b-v3-int8.zip"@.len() != "https://hyprnote.s3.us-east-1.amazonaws.com/v0/Cactus-Compute/weights/parakeet-ctc-0.6b-int4-apple.zip"@.len());
            reveal_strlit("https://hyprnote.s3.us-east-1.amazonaws.com/v0/Cactus-Compute/weights/parakeet-ctc-0.6b-int8.zip");
            assert("https://hyprnote.s3.us-east-1.amazonaws.com/v0/Cactus-Compute/weights/parakeet-tdt-0.6b-v3-int8.zip"@.len() != "https://hyprnote.s3.us-east-1.amazonaws.com/v0/Cactus-Compute/weights/parakeet-ctc-0.6b-int8.zip"@.len());
            reveal_strlit("https://hyprnote.s3.us-east-1.amazonaws.com/v0/Cactus-Compute/weights/parakeet-ctc-0.6b-int8-apple.zip");
            assert("https://hyprnote.s3.us-east-1.amazonaws.com/v0/Cactus-Compute/weights/parakeet-tdt-0.6b-v3-int8.zip"@.len() != "https://hyprnote.s3.us-east-1.amazonaws.com/v0/Cactus-Compute/weights/parakeet-ctc-0.6b-int8-apple.zip"@.len());
            reveal_strlit("https://hyprnote.s3.us-east-1.amazonaws.com/v0/Cactus-Compute/weights/parakeet-tdt-0.6b-v3-int4.zip");
            assert("https://hyprnote.s3.us-east-1.amazonaws.com/v0/Cactus-Compute/weights/parakeet-tdt-0.6b-v3-int8.zip"@[94] != "https://hyprnote.s3.us-east-1.amazonaws.com/v0/Cactus-Compute/weights/parakeet-tdt-0.6b-v3-int4.zip"@[94]);
            reveal_strlit("https://hyprnote.s3.us-east-1.amazonaws.com/v0/Cactus-Compute/weights/parakeet-tdt-0.6b-v3-int4-apple.zip");
            assert("https://hyprnote.s3.us-east-1.amazonaws.com/v0/Cactus-Compute/weights/parakeet-tdt-0.6b-v3-int8.zip"@.len() != "https://hyprnote.s3.us-east-1.amazonaws.com/v0/Cactus-Compute/weights/parakeet-tdt-0.6b-v3-int4-apple.zip"@.len());
        },
        CactusSttModel::ParakeetTdt0_6bV3Int8Apple => {
            reveal_strlit("https://hyprnote.s3.us-east-1.amazonaws.com/v0/Cactus-Compute/weights/parakeet-tdt-0.6b-v3-int8-apple.zip");
            reveal_strlit("https://hyprnote.s3.us-east-1.amazonaws.com/v0/Cactus-Compute/weights/whisper-small-int4.zip");
            assert("https://hyprnote.s3.us-east-1.amazonaws.com/v0/Cactus-Compute/weights/parakeet-tdt-0.6b-v3-int8-apple.zip"@.len() != "https://hyprnote.s3.us-east-1.amazonaws.com/v0/Cactus-Compute/weights/whisper-small-int4.zip"@.len());
            reveal_strlit("https://hyprnote.s3.us-east-1.amazonaws.com/v0/Cactus-Compute/weights/whisper-small-int4-apple.zip");
            assert("https://hyprnote.s3.us-east-1.amazonaws.com/v0/Cactus-Compute/weights/parakeet-tdt-0.6b-v3-int8-apple.zip"@.len() != "https://hyprnote.s3.us-east-1.amazonaws.com/v0/Cactus-Compute/weights/whisper-small-int4-apple.zip"@.len());
            reveal_strlit("https://hyprnote.s3.us-east-1.amazonaws.com/v0/Cactus-Compute/weights/whisper-small-int8.zip");
            assert("https://hyprnote.s3.us-east-1.amazonaws.com/v0/Cactus-Compute/weights/parakeet-tdt-0.6b-v3-int8-apple.zip"@.len() != "https://hyprnote.s3.us-east-1.amazonaws.com/v0/Cactus-Compute/weights/whisper-small-int8.zip"@.len());
            reveal_strlit("https://hyprnote.s3.us-east-1.amazonaws.com/v0/Cactus-Compute/weights/whisper-small-int8-apple.zip");
            assert("https://hyprnote.s3.us-east-1.amazonaws.com/v0/Cactus-Compute/weights/parakeet-tdt-0.6b-v3-int8-apple.zip"@.len() != "https://hyprnote.s3.us-east-1.amazonaws.com/v0/Cactus-Compute/weights/whisper-small-int8-apple.zip"@.len());
            reveal_strlit("https://hyprnote.s3.us-east-1.amazonaws.com/v0/Cactus-Compute/weights/whisper-medium-int8.zip");
            assert("https://hyprnote.s3.us-east-1.amazonaws.com/v0/Cactus-Compute/weights/parakeet-tdt-0.6b-v3-int8-apple.zip"@.len() != "https://hyprnote.s3.us-east-1.amazonaws.com/v0/Cactus-Compute/weights/whisper-medium-int8.zip"@.len());
            reveal_strlit("https://hyprnote.s3.us-east-1.amazonaws.com/v0/Cactus-Compute/weights/whisper-medium-int8-apple.zip");
            assert("https://hyprnote.s3.us-east-1.amazonaws.com/v0/Cactus-Compute/weights/parakeet-tdt-0.6b-v3-int8-apple.zip"@.len() != "https://hyprnote.s3.us-east-1.amazonaws.com/v0/Cactus-Compute/weights/whisper-medium-int8-apple.zip"@.len());
            reveal_strlit("https://hyprnote.s3.us-east-1.amazonaws.com/v0/Cactus-Compute/weights/parakeet-ctc-0.6b-int4.zip");
            assert("https://hyprnote.s3.us-east-1.amazonaws.com/v0/Cactus-Compute/weights/parakeet-tdt-0.6b-v3-int8-apple.zip"@.len() != "https://hyprnote.s3.us-east-1.amazonaws.com/v0/Cactus-Compute/weights/parakeet-ctc-0.6b-int4.zip"@.len());
            reveal_strlit("https://hyprnote.s3.us-east-1.amazonaws.com/v0/Cactus-Compute/weights/parakeet-ctc-0.6b-int4-apple.zip");
            assert("https://hyprnote.s3.us-east-1.amazonaws.com/v0/Cactus-Compute/weights/parakeet-tdt-0.6b-v3-int8-apple.zip"@.len() != "https://hyprnote.s3.us-east-1.amazonaws.com/v0/Cactus-Compute/weights/parakeet-ctc-0.6b-int4-apple.zip"@.len());
            reveal_strlit("https://hyprnote.s3.us-east-1.amazonaws.com/v0/Cactus-Compute/weights/parakeet-ctc-0.6b-int8.zip");
            assert("https://hyprnote.s3.us-east-1.amazonaws.com/v0/Cactus-Compute/weights/parakeet-tdt-0.6b-v3-int8-apple.zip"@.len() != "https://hyprnote.s3.us-east-1.amazonaws.com/v0/Cactus-Compute/weights/parakeet-ctc-0.6b-int8.zip"@.len());
            reveal_strlit("https://hyprnote.s3.us-east-1.amazonaws.com/v0/Cactus-Compute/weights/parakeet-ctc-0.6b-int8-apple.zip");
            assert("https://hyprnote.s3.us-east-1.amazonaws.com/v0/Cactus-Compute/weights/parakeet-tdt-0.6b-v3-int8-apple.zip"@.len() != "https://hyprnote.s3.us-east-1.amazonaws.com/v0/Cactus-Compute/weights/parakeet-ctc-0.6b-int8-apple.zip"@.len());
            reveal_strlit("https://hyprnote.s3.us-east-1.amazonaws.com/v0/Cactus-Compute/weights/parakeet-tdt-0.6b-v3-int4.zip");
            assert("https://hyprnote.s3.us-east-1.amazonaws.com/v0/Cactus-Compute/weights/parakeet-tdt-0.6b-v3-int8-apple.zip"@.len() != "https://hyprnote.s3.us-east-1.amazonaws.com/v0/Cactus-Compute/weights/parakeet-tdt-0.6b-v3-int4.zip"@.len());
            reveal_strlit("https://hyprnote.s3.us-east-1.amazonaws.com/v0/Cactus-Compute/weights/parakeet-tdt-0.6b-v3-int4-apple.zip");
            assert("https://hyprnote.s3.us-east-1.amazonaws.com/v0/Cactus-Compute/weights/parakeet-tdt-0.6b-v3-int8-apple.zip"@[94] != "https://hyprnote.s3.us-east-1.amazonaws.com/v0/Cactus-Compute/weights/parakeet-tdt-0.6b-v3-int4-apple.zip"@[94]);
            reveal_strlit("https://hyprnote.s3.us-east-1.amazonaws.com/v0/Cactus-Compute/weights/parakeet-tdt-0.6b-v3-int8.zip");
            assert("https://hyprnote.s3.us-east-1.amazonaws.com/v0/Cactus-Compute/weights/parakeet-tdt-0.6b-v3-int8-apple.zip"@.len() != "https://hyprnote.s3.us-east-1.amazonaws.com/v0/Cactus-Compute/weights/parakeet-tdt-0.6b-v3-int8.zip"@.len());
        },
    }
}

} // verus!
