//! Field-level validation of the data that creates or edits a bot.

use vstd::prelude::*;
use crate::external::{regex_accepts, regex_is_match};
use crate::model::{BotModel, BotType, Error};

verus! {

/// Usernames are made of letters, digits, `_`, `.` and `-`; this keeps out
/// zero-width spaces and lookalike characters.
pub const USERNAME_PATTERN: &'static str = "^(\\p{L}|[\\d_.-])+$";

/// Shortest allowed username, in characters.
pub const USERNAME_MIN_LEN: usize = 2;

/// Longest allowed username, in characters.
pub const USERNAME_MAX_LEN: usize = 32;

pub open spec fn valid_username(name: Seq<char>) -> bool {
    &&& USERNAME_MIN_LEN <= name.len() <= USERNAME_MAX_LEN
    &&& regex_accepts(USERNAME_PATTERN@, name) == Some(true)
}

/// Decides a username's validity from its length and from whether the
/// username pattern matched it (`None`: the pattern did not compile).
pub fn username_verdict(name: &String, matched: Option<bool>) -> (r: Result<(), Error>)
    ensures
        r is Ok <==> USERNAME_MIN_LEN <= name@.len() <= USERNAME_MAX_LEN && matched == Some(true),
        r is Err ==> r == Err::<(), Error>(Error::ValidationFailed),
{
    let n = name.as_str().unicode_len();
    if n < USERNAME_MIN_LEN || n > USERNAME_MAX_LEN {
        return Err(Error::ValidationFailed);
    }
    match matched {
        Some(true) => Ok(()),
        _ => Err(Error::ValidationFailed),
    }
}

/// Checks a username's length and characters.
pub fn validate_username(name: &String) -> (r: Result<(), Error>)
    ensures
        r is Ok <==> valid_username(name@),
        r is Err ==> r == Err::<(), Error>(Error::ValidationFailed),
{
    let matched = regex_is_match(USERNAME_PATTERN, name.as_str());
    username_verdict(name, matched)
}

/// What a user supplies to create a bot.
#[derive(Clone, Debug, PartialEq, Eq)]
pub struct DataCreateBot {
    /// Username of the bot.
    pub name: String,
    /// Message the bot greets with.
    pub welcome: Option<String>,
    pub bot_type: Option<BotType>,
    /// Model settings, for a prompt bot.
    pub model: Option<BotModel>,
}

impl DataCreateBot {
    pub open spec fn spec_valid(self) -> bool {
        &&& valid_username(self.name@)
        &&& (self.model matches Some(m) ==> m.spec_valid())
    }

    /// Checks the name and, where given, the model settings.
    pub fn validate(&self) -> (r: Result<(), Error>)
        ensures
            r is Ok <==> self.spec_valid(),
            r is Err ==> r == Err::<(), Error>(Error::ValidationFailed),
    {
        validate_username(&self.name)?;
        match &self.model {
            Some(m) => m.validate(),
            None => Ok(()),
        }
    }
}

/// Longest profile text, in characters.
pub const PROFILE_CONTENT_MAX_LEN: usize = 2000;

/// Longest attachment id, in characters.
pub const ATTACHMENT_ID_MAX_LEN: usize = 128;

/// Profile data given for a user.
#[derive(Clone, Debug, PartialEq, Eq)]
pub struct UserProfileData {
    /// Text of the profile.
    pub content: Option<String>,
    /// Attachment id of the profile background.
    pub background: Option<String>,
}

impl UserProfileData {
    pub open spec fn spec_valid(self) -> bool {
        &&& (self.content matches Some(c) ==> c@.len() <= PROFILE_CONTENT_MAX_LEN)
        &&& (self.background matches Some(b) ==> 1 <= b@.len() <= ATTACHMENT_ID_MAX_LEN)
    }

    /// Checks the lengths of the profile text and of the background id.
    pub fn validate(&self) -> (r: Result<(), Error>)
        ensures
            r is Ok <==> self.spec_valid(),
            r is Err ==> r == Err::<(), Error>(Error::ValidationFailed),
    {
        if let Some(c) = &self.content {
            if c.as_str().unicode_len() > PROFILE_CONTENT_MAX_LEN {
                return Err(Error::ValidationFailed);
            }
        }
        if let Some(b) = &self.background {
            let n = b.as_str().unicode_len();
            if n < 1 || n > ATTACHMENT_ID_MAX_LEN {
                return Err(Error::ValidationFailed);
            }
        }
        Ok(())
    }
}

} // verus!
