//! Engine configuration: the value object carrying provider identity and
//! connection/auth parameters. A configuration is never mutated after
//! construction — an update replaces a session's stored copy wholesale.

use vstd::prelude::*;

verus! {

/// Configuration selecting a speech-to-text provider and its credentials.
#[derive(Debug, Clone, PartialEq)]
pub struct ASRConfig {
    /// Identifier of the speech-to-text provider.
    pub provider: String,
    /// Credential presented to the provider.
    pub api_key: String,
    /// Recognition language tag.
    pub language: String,
}

/// Mathematical model of a configuration value.
pub struct ASRConfigV {
    pub provider: Seq<char>,
    pub api_key: Seq<char>,
    pub language: Seq<char>,
}

impl ASRConfig {
    /// An exact copy of this configuration.
    pub fn duplicate(&self) -> (r: Self)
        ensures
            r@ == self@,
    {
        Self {
            provider: self.provider.clone(),
            api_key: self.api_key.clone(),
            language: self.language.clone(),
        }
    }
}

impl View for ASRConfig {
    type V = ASRConfigV;

    open spec fn view(&self) -> ASRConfigV {
        ASRConfigV {
            provider: self.provider@,
            api_key: self.api_key@,
            language: self.language@,
        }
    }
}

impl DeepView for ASRConfig {
    type V = ASRConfigV;

    open spec fn deep_view(&self) -> ASRConfigV {
        self.view()
    }
}

} // verus!
