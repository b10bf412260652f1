//! Service configuration: the platform credential and the log level.
//!
//! The environment itself (variables, an optional local file that seeds
//! them) is read by the caller at the process edge; this module holds the
//! validation rules and builds the configuration from the values read.

use vstd::prelude::*;

use crate::error::BotError;

verus! {

/// A token is well-formed when it contains the `:` separator and has at
/// least 20 characters.
pub open spec fn spec_valid_token(token: Seq<char>) -> bool {
    &&& token.len() >= 20
    &&& exists|i: int| 0 <= i < token.len() && token[i] == ':'
}

/// The log level that a run uses: the configured value, or `"info"` when
/// none was configured or the configured value is empty.
pub open spec fn spec_log_level_or_default(log_level: Option<Seq<char>>) -> Seq<char> {
    match log_level {
        Some(level) => if level.len() > 0 {
            level
        } else {
            "info"@
        },
        None => "info"@,
    }
}

/// Token validation is strict in both directions: a string shorter than 20
/// characters is rejected even when it contains the separator, and a string
/// of 20 or more characters is rejected when the separator is missing.
pub proof fn lemma_token_needs_length_and_separator(token: Seq<char>)
    ensures
        token.len() < 20 ==> !spec_valid_token(token),
        !(exists|i: int| 0 <= i < token.len() && token[i] == ':') ==> !spec_valid_token(token),
{
}

/// Validated service configuration, built once at process start and then
/// only read.
#[derive(Debug, Clone)]
pub struct BotConfig {
    /// Platform bot token; well-formed by construction.
    token: String,
    /// Logging level; `"info"` unless configured otherwise.
    log_level: String,
}

impl BotConfig {
    /// The credential this configuration holds.
    pub closed spec fn spec_token(&self) -> Seq<char> {
        self.token@
    }

    /// The log level this configuration holds.
    pub closed spec fn spec_log_level(&self) -> Seq<char> {
        self.log_level@
    }

    /// Every constructed configuration carries a well-formed token.
    pub open spec fn wf(&self) -> bool {
        spec_valid_token(self.spec_token())
    }

    /// Checks the credential format: the token must contain the `:`
    /// separator and be at least 20 characters long; any other string is
    /// rejected with a `Config` error.
    pub fn validate_token(token: &str) -> (result: Result<(), BotError>)
        ensures
            result is Ok <==> spec_valid_token(token@),
            result matches Err(e) ==> e matches BotError::Config(reason)
                && reason@ == "Invalid token format!"@,
    {
        let len = token.unicode_len();
        let mut has_separator = false;
        let mut i: usize = 0;
        while i < len
            invariant
                len == token@.len(),
                i <= len,
                has_separator <==> exists|j: int| 0 <= j < i && token@[j] == ':',
            decreases len - i,
        {
            if token.get_char(i) == ':' {
                has_separator = true;
            }
            i = i + 1;
        }
        if !has_separator || len < 20 {
            return Err(BotError::Config(String::from_str("Invalid token format!")));
        }
        Ok(())
    }

    /// Builds the configuration from the values found in the environment:
    /// the credential (required) and the log level (optional). A missing
    /// credential and a malformed credential are the two `Config` errors;
    /// nothing else can fail.
    pub fn from_values(token: Option<String>, log_level: Option<String>) -> (result: Result<
        BotConfig,
        BotError,
    >)
        ensures
            result is Ok <==> (token matches Some(t) && spec_valid_token(t@)),
            result matches Ok(config) ==> {
                &&& config.wf()
                &&& config.spec_token() == token->Some_0@
                &&& config.spec_log_level() == spec_log_level_or_default(
                    match log_level {
                        Some(l) => Some(l@),
                        None => None,
                    },
                )
            },
            token is None ==> (result matches Err(e) && e matches BotError::Config(reason)
                && reason@ == "TELOXIDE_TOKEN environment variable not set"@),
            (token matches Some(t) && !spec_valid_token(t@)) ==> (result matches Err(e)
                && e matches BotError::Config(reason) && reason@ == "Invalid token format!"@),
    {
        let token = match token {
            Some(t) => t,
            None => {
                return Err(
                    BotError::Config(
                        String::from_str("TELOXIDE_TOKEN environment variable not set"),
                    ),
                );
            },
        };
        match Self::validate_token(token.as_str()) {
            Ok(_) => {},
            Err(e) => {
                return Err(e);
            },
        }
        let log_level = match log_level {
            Some(level) => if level.as_str().unicode_len() > 0 {
                level
            } else {
                String::from_str("info")
            },
            None => String::from_str("info"),
        };
        Ok(BotConfig { token, log_level })
    }

    /// The bot token.
    pub fn token(&self) -> (token: &str)
        ensures
            token@ == self.spec_token(),
    {
        self.token.as_str()
    }

    /// The logging level.
    pub fn log_level(&self) -> (level: &str)
        ensures
            level@ == self.spec_log_level(),
    {
        self.log_level.as_str()
    }
}

} // verus!
