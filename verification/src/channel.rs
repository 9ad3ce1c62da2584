//! Channel selection: maps the persisted channel choice to the channel in
//! use and to the directory that holds the channels.

use vstd::prelude::*;
use vstd::string::StringExecFns;

use crate::config::LocalConfig;
use crate::local_data::LocalData;
use crate::text::path_join;
use crate::text::spec_path_join;

verus! {

/// Knows the channel in use and where the channels live.
#[derive(Debug)]
pub struct ChannelManager {
    pub channel_path: String,
    pub channel: String,
}

impl ChannelManager {
    /// Adopts the persisted channel choice, or the default channel when
    /// none was ever chosen.
    pub fn new(config: &LocalConfig, using_channel: Option<String>) -> (r: ChannelManager)
        ensures
            r.channel@ == match using_channel {
                Some(c) => c@,
                None => "default"@,
            },
            r.channel_path@ == spec_path_join(config.work_path.appdata_path@, "channel"@),
    {
        let channel = match using_channel {
            Some(c) => c,
            None => String::from_str("default"),
        };
        ChannelManager {
            channel_path: path_join(config.work_path.appdata_path.as_str(), "channel"),
            channel,
        }
    }

    /// The record to persist so that the given channel is used from now
    /// on.
    pub fn use_channel(&self, channel: &str) -> (r: LocalData)
        ensures
            match r.using_channel {
                Some(c) => c@ == channel@,
                None => false,
            },
    {
        LocalData { using_channel: Some(channel.to_owned()) }
    }

    /// The channel in use.
    pub fn current_channel(&self) -> (r: &str)
        ensures
            r@ == self.channel@,
    {
        self.channel.as_str()
    }
}

} // verus!
