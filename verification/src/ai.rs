//! The choice of AI provider and its credentials, and the dimension of
//! the character embedder.

use crate::text::chars::clone_text;
use vstd::prelude::*;

verus! {

/// The AI providers.
#[derive(Debug, Clone, Copy, PartialEq, Eq, Structural)]
pub enum AiProviderType {
    Doubao,
    OpenAi,
    DeepSeek,
    LmStudio,
}

/// One message of a conversation.
#[derive(Debug)]
pub struct ChatMessage {
    pub role: String,
    pub content: String,
}

impl Clone for ChatMessage {
    fn clone(&self) -> (copy: Self)
        ensures
            copy == *self,
    {
        ChatMessage { role: self.role.clone(), content: self.content.clone() }
    }
}

/// Which provider is used, and what is needed to reach each of them.
pub struct AiService {
    pub provider_type: AiProviderType,
    pub doubao_api_key: Option<String>,
    pub openai_api_key: Option<String>,
    pub deepseek_api_key: Option<String>,
    pub lm_studio_url: String,
}

/// The settings of an AI service, with its texts as character sequences.
pub struct AiServiceView {
    pub provider_type: AiProviderType,
    pub doubao_api_key: Option<Seq<char>>,
    pub openai_api_key: Option<Seq<char>>,
    pub deepseek_api_key: Option<Seq<char>>,
    pub lm_studio_url: Seq<char>,
}

impl AiServiceView {
    /// The settings of a new service: the local LM Studio at its usual
    /// address, and no keys.
    pub open spec fn initial() -> AiServiceView {
        AiServiceView {
            provider_type: AiProviderType::LmStudio,
            doubao_api_key: None,
            openai_api_key: None,
            deepseek_api_key: None,
            lm_studio_url: "http://localhost:1234"@,
        }
    }

    /// The key of the selected provider. LM Studio needs none.
    pub open spec fn selected_key(self) -> Option<Seq<char>> {
        match self.provider_type {
            AiProviderType::Doubao => self.doubao_api_key,
            AiProviderType::OpenAi => self.openai_api_key,
            AiProviderType::DeepSeek => self.deepseek_api_key,
            AiProviderType::LmStudio => None,
        }
    }

    /// The selected provider can be called: it is LM Studio, or its key
    /// is set.
    pub open spec fn is_ready(self) -> bool {
        self.provider_type == AiProviderType::LmStudio || self.selected_key() is Some
    }
}

impl View for AiService {
    type V = AiServiceView;

    open spec fn view(&self) -> AiServiceView {
        AiServiceView {
            provider_type: self.provider_type,
            doubao_api_key: self.doubao_api_key.deep_view(),
            openai_api_key: self.openai_api_key.deep_view(),
            deepseek_api_key: self.deepseek_api_key.deep_view(),
            lm_studio_url: self.lm_studio_url@,
        }
    }
}

impl Clone for AiService {
    fn clone(&self) -> (copy: Self)
        ensures
            copy == *self,
    {
        AiService {
            provider_type: self.provider_type,
            doubao_api_key: clone_text(&self.doubao_api_key),
            openai_api_key: clone_text(&self.openai_api_key),
            deepseek_api_key: clone_text(&self.deepseek_api_key),
            lm_studio_url: self.lm_studio_url.clone(),
        }
    }
}

impl Default for AiService {
    fn default() -> (service: Self)
        ensures
            service@ == AiServiceView::initial(),
    {
        AiService {
            provider_type: AiProviderType::LmStudio,
            doubao_api_key: None,
            openai_api_key: None,
            deepseek_api_key: None,
            lm_studio_url: String::from_str("http://localhost:1234"),
        }
    }
}

impl AiService {
    /// A service that uses the local LM Studio and has no keys.
    pub fn new() -> (service: Self)
        ensures
            service@ == AiServiceView::initial(),
    {
        AiService::default()
    }

    /// Selects the provider. Keys and address stay.
    pub fn set_provider(&mut self, provider_type: AiProviderType)
        ensures
            final(self)@ == (AiServiceView { provider_type, ..old(self)@ }),
    {
        self.provider_type = provider_type;
    }

    /// Sets the key for Doubao. Nothing else changes.
    pub fn set_doubao_key(&mut self, api_key: String)
        ensures
            final(self)@ == (AiServiceView { doubao_api_key: Some(api_key@), ..old(self)@ }),
    {
        self.doubao_api_key = Some(api_key);
    }

    /// Sets the key for OpenAI. Nothing else changes.
    pub fn set_openai_key(&mut self, api_key: String)
        ensures
            final(self)@ == (AiServiceView { openai_api_key: Some(api_key@), ..old(self)@ }),
    {
        self.openai_api_key = Some(api_key);
    }

    /// Sets the key for DeepSeek. Nothing else changes.
    pub fn set_deepseek_key(&mut self, api_key: String)
        ensures
            final(self)@ == (AiServiceView { deepseek_api_key: Some(api_key@), ..old(self)@ }),
    {
        self.deepseek_api_key = Some(api_key);
    }

    /// Sets the address of LM Studio. Nothing else changes.
    pub fn set_lm_studio_url(&mut self, url: String)
        ensures
            final(self)@ == (AiServiceView { lm_studio_url: url@, ..old(self)@ }),
    {
        self.lm_studio_url = url;
    }

    /// The key to call the selected provider with: none for LM Studio,
    /// and none where the provider's key was never set.
    pub fn selected_key(&self) -> (key: Option<String>)
        ensures
            key.deep_view() == self@.selected_key(),
    {
        match self.provider_type {
            AiProviderType::Doubao => clone_text(&self.doubao_api_key),
            AiProviderType::OpenAi => clone_text(&self.openai_api_key),
            AiProviderType::DeepSeek => clone_text(&self.deepseek_api_key),
            AiProviderType::LmStudio => None,
        }
    }

    /// Whether the selected provider can be called.
    pub fn is_ready(&self) -> (ready: bool)
        ensures
            ready == self@.is_ready(),
    {
        match self.provider_type {
            AiProviderType::Doubao => self.doubao_api_key.is_some(),
            AiProviderType::OpenAi => self.openai_api_key.is_some(),
            AiProviderType::DeepSeek => self.deepseek_api_key.is_some(),
            AiProviderType::LmStudio => true,
        }
    }
}

/// An embedder that counts characters into a fixed number of buckets.
pub struct SimpleEmbedder {
    dimension: usize,
}

impl SimpleEmbedder {
    /// The number of buckets.
    pub closed spec fn dimension_spec(&self) -> usize {
        self.dimension
    }

    pub fn new(dimension: usize) -> (embedder: Self)
        ensures
            embedder.dimension_spec() == dimension,
    {
        SimpleEmbedder { dimension }
    }

    #[verifier::when_used_as_spec(dimension_spec)]
    pub fn dimension(&self) -> (dimension: usize)
        ensures
            dimension == self.dimension_spec(),
    {
        self.dimension
    }

    /// The bucket a character is counted in.
    pub open spec fn bucket_spec(&self, c: char) -> int {
        (c as u32 as int) % (self.dimension_spec() as int)
    }

    /// The bucket a character is counted in.
    pub fn bucket(&self, c: char) -> (index: usize)
        requires
            self.dimension_spec() > 0,
        ensures
            index == self.bucket_spec(c),
            index < self.dimension_spec(),
    {
        (c as u32 as usize) % self.dimension
    }
}

} // verus!
