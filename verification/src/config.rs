//! The shared application configuration: engine thresholds, model
//! registry, retrieval, performance and interface settings, and the API
//! keys. One instance is shared read-mostly across sessions.

use vstd::prelude::*;
use vstd::string::StrSliceExecFns;
use vstd::string::StringExecFns;

verus! {

/// The whole application configuration.
#[derive(Debug, Clone)]
pub struct AppConfig {
    pub engine: EngineConfig,
    pub models: ModelRegistryConfig,
    pub retrieval: RetrievalConfig,
    pub performance: PerformanceConfig,
    pub ui: UIConfig,
    pub api_keys: ApiKeysConfig,
}

/// Credentials for the model providers.
#[derive(Debug, Clone)]
pub struct ApiKeysConfig {
    pub openai_api_key: Option<String>,
    pub openai_base_url: Option<String>,
    pub mistral_api_key: Option<String>,
    pub deepseek_api_key: Option<String>,
    pub gemini_api_key: Option<String>,
}

/// The engine's stage thresholds.
#[derive(Debug, Clone)]
pub struct EngineConfig {
    pub clarify: ClarifyConfig,
    pub iteration: IterationConfig,
    pub verification: VerificationConfig,
}

/// Clarification limits; the confidence threshold is in thousandths.
#[derive(Debug, Clone)]
pub struct ClarifyConfig {
    pub max_rounds: u32,
    pub confidence_threshold: u32,
    pub questions_per_round: u32,
}

/// Iteration limits; the improvement threshold is in thousandths.
#[derive(Debug, Clone)]
pub struct IterationConfig {
    pub max_iterations: u32,
    pub improvement_threshold: u32,
    pub min_consecutive_improvements: u32,
    pub innovation_styles: Vec<Vec<u8>>,
}

/// Verification switches; the confidence threshold is in thousandths.
#[derive(Debug, Clone)]
pub struct VerificationConfig {
    pub enable_fact_checking: bool,
    pub enable_logic_checking: bool,
    pub confidence_threshold: u32,
    pub max_evidence_sources: u32,
}

/// Which model serves each stage.
#[derive(Debug, Clone)]
pub struct ModelRegistryConfig {
    pub clarifier: String,
    pub innovator: String,
    pub critic: String,
    pub synthesizer: String,
    pub verifier: String,
    pub summarizer: String,
    pub embedding: String,
    pub fallback_chains: Vec<(String, Vec<String>)>,
}

impl ModelRegistryConfig {
    /// Well-formedness: no model name keys a fallback chain twice.
    pub open spec fn wf(&self) -> bool {
        forall|i: int, j: int|
            0 <= i < j < self.fallback_chains@.len() ==> self.fallback_chains@[i].0@
                != self.fallback_chains@[j].0@
    }
}

/// Knowledge-retrieval settings; the relevance threshold is in
/// thousandths.
#[derive(Debug, Clone)]
pub struct RetrievalConfig {
    pub embed_model: String,
    pub chunk_size: usize,
    pub overlap: usize,
    pub max_results: usize,
    pub relevance_threshold: u32,
}

/// Concurrency and caching limits.
#[derive(Debug, Clone)]
pub struct PerformanceConfig {
    pub max_concurrent_agents: u32,
    pub timeout_seconds: u64,
    pub cache_size: usize,
    pub enable_streaming: bool,
}

/// Front-end preferences.
#[derive(Debug, Clone)]
pub struct UIConfig {
    pub theme: String,
    pub language: String,
    pub auto_save: bool,
    pub show_debug_info: bool,
}

impl Default for AppConfig {
    /// The stock configuration: the documented thresholds, the default
    /// model registry, and no credentials.
    fn default() -> (r: Self)
        ensures
            r.engine.clarify.max_rounds == 5,
            r.engine.clarify.confidence_threshold == 800,
            r.engine.clarify.questions_per_round == 3,
            r.engine.iteration.max_iterations == 10,
            r.engine.iteration.improvement_threshold == 10,
            r.engine.iteration.min_consecutive_improvements == 3,
            r.engine.verification.enable_fact_checking,
            r.engine.verification.enable_logic_checking,
            r.engine.verification.confidence_threshold == 700,
            r.engine.verification.max_evidence_sources == 5,
            r.api_keys.openai_api_key is None,
            r.api_keys.mistral_api_key is None,
            r.api_keys.deepseek_api_key is None,
            r.api_keys.gemini_api_key is None,
            r.api_keys.openai_base_url is Some,
            r.models.wf(),
    {
        let mut innovation_styles: Vec<Vec<u8>> = Vec::new();
        innovation_styles.push(("conservative").as_bytes_vec());
        innovation_styles.push(("aggressive").as_bytes_vec());
        innovation_styles.push(("practical").as_bytes_vec());
        let mut fallback_chains: Vec<(String, Vec<String>)> = Vec::new();
        let mut gpt_chain: Vec<String> = Vec::new();
        gpt_chain.push(String::from_str("gpt-4o-mini"));
        gpt_chain.push(String::from_str("mistral-large-latest"));
        fallback_chains.push((String::from_str("gpt-4o"), gpt_chain));
        let mut mistral_chain: Vec<String> = Vec::new();
        mistral_chain.push(String::from_str("gpt-4o"));
        mistral_chain.push(String::from_str("gpt-4o-mini"));
        fallback_chains.push((String::from_str("mistral-large-latest"), mistral_chain));
        proof {
            reveal_strlit("gpt-4o");
            reveal_strlit("mistral-large-latest");
            assert(fallback_chains@[0].0@ != fallback_chains@[1].0@) by {
                assert(fallback_chains@[0].0@.len() == 6);
                assert(fallback_chains@[1].0@.len() == 20);
            }
        }
        AppConfig {
            engine: EngineConfig {
                clarify: ClarifyConfig {
                    max_rounds: 5,
                    confidence_threshold: 800,
                    questions_per_round: 3,
                },
                iteration: IterationConfig {
                    max_iterations: 10,
                    improvement_threshold: 10,
                    min_consecutive_improvements: 3,
                    innovation_styles,
                },
                verification: VerificationConfig {
                    enable_fact_checking: true,
                    enable_logic_checking: true,
                    confidence_threshold: 700,
                    max_evidence_sources: 5,
                },
            },
            models: ModelRegistryConfig {
                clarifier: String::from_str("gpt-4o-mini"),
                innovator: String::from_str("mistral-large-latest"),
                critic: String::from_str("gpt-4o"),
                synthesizer: String::from_str("mistral-large-latest"),
                verifier: String::from_str("gpt-4o"),
                summarizer: String::from_str("gpt-4o-mini"),
                embedding: String::from_str("text-embedding-3-large"),
                fallback_chains,
            },
            retrieval: RetrievalConfig {
                embed_model: String::from_str("text-embedding-3-large"),
                chunk_size: 1000,
                overlap: 150,
                max_results: 20,
                relevance_threshold: 700,
            },
            performance: PerformanceConfig {
                max_concurrent_agents: 5,
                timeout_seconds: 30,
                cache_size: 1000,
                enable_streaming: true,
            },
            ui: UIConfig {
                theme: String::from_str("light"),
                language: String::from_str("zh-CN"),
                auto_save: true,
                show_debug_info: false,
            },
            api_keys: ApiKeysConfig {
                openai_api_key: None,
                openai_base_url: Some(String::from_str("https://api.openai.com/v1")),
                mistral_api_key: None,
                deepseek_api_key: None,
                gemini_api_key: None,
            },
        }
    }
}

impl AppConfig {
    /// The stock configuration.
    pub fn new() -> (r: Self)
        ensures
            r.engine.clarify.confidence_threshold == 800,
            r.engine.iteration.improvement_threshold == 10,
    {
        AppConfig::default()
    }

    /// The OpenAI credential, if configured.
    pub fn openai_api_key(&self) -> (r: Option<&String>)
        ensures
            r is Some <==> self.api_keys.openai_api_key is Some,
    {
        self.api_keys.openai_api_key.as_ref()
    }

    /// The OpenAI endpoint, if configured.
    pub fn openai_base_url(&self) -> (r: Option<&String>)
        ensures
            r is Some <==> self.api_keys.openai_base_url is Some,
    {
        self.api_keys.openai_base_url.as_ref()
    }

    /// The Mistral credential, if configured.
    pub fn mistral_api_key(&self) -> (r: Option<&String>)
        ensures
            r is Some <==> self.api_keys.mistral_api_key is Some,
    {
        self.api_keys.mistral_api_key.as_ref()
    }

    /// The DeepSeek credential, if configured.
    pub fn deepseek_api_key(&self) -> (r: Option<&String>)
        ensures
            r is Some <==> self.api_keys.deepseek_api_key is Some,
    {
        self.api_keys.deepseek_api_key.as_ref()
    }

    /// The Gemini credential, if configured.
    pub fn gemini_api_key(&self) -> (r: Option<&String>)
        ensures
            r is Some <==> self.api_keys.gemini_api_key is Some,
    {
        self.api_keys.gemini_api_key.as_ref()
    }
}

} // verus!
