use vstd::prelude::*;

verus! {

/// The kind of record a lookup did not find.
#[derive(Clone, Copy, Debug, PartialEq, Eq, Structural)]
pub enum Missing {
    Session,
    Mode,
    Effect,
    Style,
    Order,
}

/// A setting of the payment provider that must be configured.
#[derive(Clone, Copy, Debug, PartialEq, Eq, Structural)]
pub enum Setting {
    AppId,
    MerchantId,
    ApiKey,
}

/// Errors surfaced by the library.
#[derive(Debug, PartialEq, Eq)]
pub enum BoothError {
    /// A session, mode, effect, style or order does not exist.
    NotFound(Missing),
    /// An order type or status string was not recognised.
    InvalidArgument,
    /// A record with the same identifier already exists.
    DuplicateId,
    /// The backing store could not be read or written.
    StoreUnavailable,
    /// The image generation client failed after its own fallbacks.
    GenerationFailed,
    /// A required payment provider setting is absent.
    MissingSetting(Setting),
}

impl BoothError {
    /// A human-readable message for the error.
    pub fn message(&self) -> (r: String) {
        match self {
            BoothError::NotFound(Missing::Session) => String::from_str("Session not found"),
            BoothError::NotFound(Missing::Mode) => String::from_str("Mode not found"),
            BoothError::NotFound(Missing::Effect) => String::from_str("Effect not found"),
            BoothError::NotFound(Missing::Style) => String::from_str("Style not found"),
            BoothError::NotFound(Missing::Order) => String::from_str("Order not found"),
            BoothError::InvalidArgument => String::from_str("Invalid argument"),
            BoothError::DuplicateId => String::from_str("Record already exists"),
            BoothError::StoreUnavailable => String::from_str("Store unavailable"),
            BoothError::GenerationFailed => String::from_str("AI generation failed"),
            BoothError::MissingSetting(Setting::AppId) => String::from_str("WECHAT_APP_ID not set"),
            BoothError::MissingSetting(Setting::MerchantId) => String::from_str("WECHAT_MCH_ID not set"),
            BoothError::MissingSetting(Setting::ApiKey) => String::from_str("WECHAT_API_KEY not set"),
        }
    }
}

} // verus!
