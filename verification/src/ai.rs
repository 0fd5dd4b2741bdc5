//! On-device AI: model descriptors and their size and speed tables.
//!
//! Inference itself is outside this core (the platform runs it, with NPU
//! acceleration where available); here live the model descriptor and the
//! capacity tables consumers plan with.

use vstd::prelude::*;

verus! {

/// Supported model families.
#[derive(Clone, Copy, Debug, PartialEq, Eq, Structural)]
pub enum ModelType {
    /// LLaMA 3.2 3B
    LLaMA3_2_3B,
    /// Gemma 2B
    Gemma2B,
    /// Phi-3 Mini
    Phi3Mini,
}

/// Quantization levels.
#[derive(Clone, Copy, Debug, PartialEq, Eq, Structural)]
pub enum Quantization {
    /// Full precision
    FP32,
    /// Half precision
    FP16,
    /// 8-bit integer
    INT8,
    /// 4-bit integer
    INT4,
}

/// A completed inference.
#[derive(Debug)]
pub struct InferenceResponse {
    /// Generated text
    pub text: String,
    /// Tokens generated
    pub tokens: u32,
    /// Inference time in milliseconds
    pub time_ms: u32,
}

/// AI errors.
#[derive(Clone, Copy, Debug, PartialEq, Eq, Structural)]
pub enum AiError {
    /// Model not loaded
    ModelNotLoaded,
    /// Unsupported language
    UnsupportedLanguage,
    /// Out of memory
    OutOfMemory,
    /// Inference failed
    InferenceFailed,
}

/// The memory footprint of a model at a quantization, in bytes.
pub open spec fn model_size_of(model: ModelType, quant: Quantization) -> int {
    match (model, quant) {
        (ModelType::LLaMA3_2_3B, Quantization::FP32) => 12_000_000_000,
        (ModelType::LLaMA3_2_3B, Quantization::FP16) => 6_000_000_000,
        (ModelType::LLaMA3_2_3B, Quantization::INT8) => 3_000_000_000,
        (ModelType::LLaMA3_2_3B, Quantization::INT4) => 1_500_000_000,
        (ModelType::Gemma2B, Quantization::INT8) => 2_000_000_000,
        (ModelType::Phi3Mini, Quantization::INT4) => 1_800_000_000,
        _ => 3_000_000_000,
    }
}

/// The generation speed a quantization reaches, in tokens per second.
pub open spec fn inference_speed_of(quant: Quantization) -> u32 {
    match quant {
        Quantization::FP32 => 10,
        Quantization::FP16 => 20,
        Quantization::INT8 => 40,
        Quantization::INT4 => 80,
    }
}

/// One loaded or loadable model.
pub struct AiModel {
    /// Model family
    model_type: ModelType,
    /// Quantization level
    quantization: Quantization,
    /// Whether the weights are loaded
    loaded: bool,
    /// Supported language codes (ISO 639-1)
    languages: Vec<String>,
}

impl AiModel {
    /// Spec view of the model family.
    pub closed spec fn spec_model_type(&self) -> ModelType {
        self.model_type
    }

    /// Spec view of the quantization.
    pub closed spec fn spec_quantization(&self) -> Quantization {
        self.quantization
    }

    /// Spec view of the loaded flag.
    pub closed spec fn spec_loaded(&self) -> bool {
        self.loaded
    }

    /// Spec view of the supported languages.
    pub closed spec fn spec_languages(&self) -> Seq<String> {
        self.languages@
    }

    /// An unloaded model with the supported language set: ten Indian and
    /// twelve international languages.
    pub fn new(model_type: ModelType, quantization: Quantization) -> (r: Self)
        ensures
            r.spec_model_type() == model_type,
            r.spec_quantization() == quantization,
            !r.spec_loaded(),
            r.spec_languages().len() == 22,
    {
        let mut languages: Vec<String> = Vec::new();
        languages.push("hi".to_string());
        languages.push("bn".to_string());
        languages.push("te".to_string());
        languages.push("mr".to_string());
        languages.push("ta".to_string());
        languages.push("gu".to_string());
        languages.push("kn".to_string());
        languages.push("ml".to_string());
        languages.push("pa".to_string());
        languages.push("or".to_string());
        languages.push("en".to_string());
        languages.push("es".to_string());
        languages.push("fr".to_string());
        languages.push("de".to_string());
        languages.push("zh".to_string());
        languages.push("ja".to_string());
        languages.push("ko".to_string());
        languages.push("ar".to_string());
        languages.push("ru".to_string());
        languages.push("pt".to_string());
        languages.push("it".to_string());
        languages.push("tr".to_string());
        AiModel { model_type, quantization, loaded: false, languages }
    }

    /// Load the model. Reading and verifying the weights belongs to the
    /// platform layer; the model is marked loaded.
    pub fn load(&mut self) -> (r: Result<(), AiError>)
        ensures
            r is Ok,
            final(self).spec_loaded(),
            final(self).spec_model_type() == old(self).spec_model_type(),
            final(self).spec_quantization() == old(self).spec_quantization(),
            final(self).spec_languages() == old(self).spec_languages(),
    {
        if self.loaded {
            return Ok(());
        }
        self.loaded = true;
        Ok(())
    }

    /// The model's memory footprint in bytes.
    pub fn get_model_size(&self) -> (r: u64)
        ensures
            r == model_size_of(self.spec_model_type(), self.spec_quantization()),
    {
        match (self.model_type, self.quantization) {
            (ModelType::LLaMA3_2_3B, Quantization::FP32) => 12_000_000_000,
            (ModelType::LLaMA3_2_3B, Quantization::FP16) => 6_000_000_000,
            (ModelType::LLaMA3_2_3B, Quantization::INT8) => 3_000_000_000,
            (ModelType::LLaMA3_2_3B, Quantization::INT4) => 1_500_000_000,
            (ModelType::Gemma2B, Quantization::INT8) => 2_000_000_000,
            (ModelType::Phi3Mini, Quantization::INT4) => 1_800_000_000,
            _ => 3_000_000_000,
        }
    }

    /// The generation speed at this quantization, in tokens per second.
    pub fn get_inference_speed(&self) -> (r: u32)
        ensures
            r == inference_speed_of(self.spec_quantization()),
    {
        match self.quantization {
            Quantization::FP32 => 10,
            Quantization::FP16 => 20,
            Quantization::INT8 => 40,
            Quantization::INT4 => 80,
        }
    }
}

} // verus!
