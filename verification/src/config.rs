//! The settings of the build service: the runner image and the time budget.

use vstd::prelude::*;
use crate::text::{chars_of, decimal_reading, read_decimal, Decimal};

verus! {

/// The image that runs a build where none is set.
pub const DEFAULT_RUNNER_IMAGE: &'static str = "soroban-runner";

/// The time budget of a build, in seconds, where none is set.
pub const DEFAULT_TIMEOUT_SECS: u64 = 90;

/// Why settings are refused.
#[derive(Clone, Copy, Debug, PartialEq, Eq, Structural)]
pub enum ConfigError {
    /// The time budget is zero or negative.
    TimeoutNotPositive,
}

/// The settings of the build service. The time budget is never zero.
#[derive(Debug)]
pub struct BuildConfig {
    runner_image: String,
    timeout_secs: u64,
}

/// The view of an optional string slice.
pub open spec fn opt_str(s: Option<&str>) -> Option<Seq<char>> {
    match s {
        Some(s) => Some(s@),
        None => None,
    }
}

/// The time budget that the setting `text` asks for. No setting, and one
/// that is no number or a positive number beyond 64 bits, gives the
/// default; a number may carry a sign; zero and negative numbers are
/// refused.
pub open spec fn timeout_setting(text: Option<Seq<char>>) -> Result<u64, ConfigError> {
    match text {
        None => Ok(DEFAULT_TIMEOUT_SECS),
        Some(t) => {
            let negative = t.len() > 0 && t[0] == '-';
            let signed = negative || (t.len() > 0 && t[0] == '+');
            let digits = if signed {
                t.skip(1)
            } else {
                t
            };
            match decimal_reading(digits) {
                Decimal::Malformed => Ok(DEFAULT_TIMEOUT_SECS),
                Decimal::TooLarge => if negative {
                    Err(ConfigError::TimeoutNotPositive)
                } else {
                    Ok(DEFAULT_TIMEOUT_SECS)
                },
                Decimal::Value(v) => if negative || v == 0 {
                    Err(ConfigError::TimeoutNotPositive)
                } else {
                    Ok(v)
                },
            }
        },
    }
}

/// The image that the setting `image` asks for: itself, or the default
/// where there is none.
pub open spec fn image_setting(image: Option<Seq<char>>) -> Seq<char> {
    match image {
        Some(name) => name,
        None => DEFAULT_RUNNER_IMAGE@,
    }
}

/// Reads the time budget from its setting.
pub fn read_timeout(text: Option<&str>) -> (r: Result<u64, ConfigError>)
    ensures
        r == timeout_setting(opt_str(text)),
        r matches Ok(secs) ==> secs > 0,
{
    match text {
        None => Ok(DEFAULT_TIMEOUT_SECS),
        Some(t) => {
            let chars = chars_of(t);
            let negative = chars.len() > 0 && chars[0] == '-';
            let signed = negative || (chars.len() > 0 && chars[0] == '+');
            let from: usize = if signed {
                1
            } else {
                0
            };
            assert(chars@.skip(0) =~= chars@);
            match read_decimal(&chars, from) {
                Decimal::Malformed => Ok(DEFAULT_TIMEOUT_SECS),
                Decimal::TooLarge => if negative {
                    Err(ConfigError::TimeoutNotPositive)
                } else {
                    Ok(DEFAULT_TIMEOUT_SECS)
                },
                Decimal::Value(v) => if negative || v == 0 {
                    Err(ConfigError::TimeoutNotPositive)
                } else {
                    Ok(v)
                },
            }
        },
    }
}

impl BuildConfig {
    /// The time budget is not zero.
    #[verifier::type_invariant]
    spec fn budget_is_positive(self) -> bool {
        self.timeout_secs > 0
    }

    /// The image that runs a build.
    pub closed spec fn image(&self) -> Seq<char> {
        self.runner_image@
    }

    /// The time budget of a build, in seconds.
    pub closed spec fn timeout(&self) -> u64 {
        self.timeout_secs
    }

    /// Settings with the given image and time budget; a budget of zero is
    /// refused.
    pub fn new(runner_image: String, timeout_secs: u64) -> (r: Result<BuildConfig, ConfigError>)
        ensures
            match r {
                Ok(config) => timeout_secs > 0 && config.image() == runner_image@
                    && config.timeout() == timeout_secs,
                Err(error) => timeout_secs == 0 && error == ConfigError::TimeoutNotPositive,
            },
    {
        if timeout_secs == 0 {
            Err(ConfigError::TimeoutNotPositive)
        } else {
            Ok(BuildConfig { runner_image, timeout_secs })
        }
    }

    /// Settings from the values that are set for the image and for the time
    /// budget, each where it is set.
    pub fn from_settings(image: Option<&str>, timeout: Option<&str>) -> (r: Result<
        BuildConfig,
        ConfigError,
    >)
        ensures
            match timeout_setting(opt_str(timeout)) {
                Ok(secs) => r matches Ok(config) && config.timeout() == secs && config.image()
                    == image_setting(opt_str(image)),
                Err(error) => r matches Err(e) && e == error,
            },
    {
        let secs = match read_timeout(timeout) {
            Ok(secs) => secs,
            Err(error) => {
                return Err(error);
            },
        };
        let runner_image = match image {
            Some(name) => String::from_str(name),
            None => String::from_str(DEFAULT_RUNNER_IMAGE),
        };
        Ok(BuildConfig { runner_image, timeout_secs: secs })
    }

    /// The image that runs a build.
    pub fn runner_image(&self) -> (name: &str)
        ensures
            name@ == self.image(),
    {
        self.runner_image.as_str()
    }

    /// The time budget of a build, in seconds; never zero.
    pub fn timeout_secs(&self) -> (secs: u64)
        ensures
            secs == self.timeout(),
            secs > 0,
    {
        proof {
            use_type_invariant(self);
        }
        self.timeout_secs
    }
}

} // verus!
