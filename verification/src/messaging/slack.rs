//! Reports sent to a Slack channel.
use vstd::prelude::*;
use vstd::string::*;

use super::Messaging;
use crate::cli::options::CliArgs;
use crate::error::FoxsurError;

verus! {

/// A Slack bot that posts to one channel.
#[derive(Debug)]
pub struct Slack {
    bot_token: String,
    channel_id: String,
}

impl Slack {
    /// The bot token.
    pub closed spec fn token(&self) -> String {
        self.bot_token
    }

    /// The channel that reports are posted to.
    pub closed spec fn channel(&self) -> String {
        self.channel_id
    }

    /// The channel that reports are posted to.
    pub fn channel_id(&self) -> (r: &String)
        ensures
            *r == self.channel(),
    {
        &self.channel_id
    }

    /// The value of the `Authorization` header of a post: `Bearer {bot_token}`.
    pub fn authorization(&self) -> (r: String)
        ensures
            r@ == "Bearer "@ + self.token()@,
    {
        String::from_str("Bearer ").concat(self.bot_token.as_str())
    }
}

impl Messaging for Slack {
    fn init(options: &CliArgs) -> (r: Result<Self, FoxsurError>)
        ensures
            options.slack is None ==> r == Err::<Slack, FoxsurError>(FoxsurError::SlackOptionsNotFound),
            options.slack matches Some(s) ==> (r matches Ok(h) && h.token() == s.bot_token && h.channel() == s.channel_id),
    {
        match &options.slack {
            Some(s) => Ok(Slack { bot_token: s.bot_token.clone(), channel_id: s.channel_id.clone() }),
            None => Err(FoxsurError::SlackOptionsNotFound),
        }
    }
}

} // verus!
