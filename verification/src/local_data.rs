//! The cli-wide local data record: which channel is in use.  Reading and
//! writing the file is the caller's business.

use vstd::prelude::*;

use crate::config::LocalConfig;
use crate::text::path_join;
use crate::text::spec_path_join;

verus! {

/// The record stored in the cli context file.
#[derive(Debug)]
pub struct LocalData {
    pub using_channel: Option<String>,
}

/// Knows where the cli context file lives.
#[derive(Debug)]
pub struct LocalDataManager {
    pub local_data_path: String,
}

impl LocalDataManager {
    /// Computes the context file path under the userdata directory.
    pub fn new(config: &LocalConfig) -> (r: LocalDataManager)
        ensures
            r.local_data_path@ == spec_path_join(
                config.work_path.userdata_path@,
                "cli/context.toml"@,
            ),
    {
        LocalDataManager {
            local_data_path: path_join(config.work_path.userdata_path.as_str(), "cli/context.toml"),
        }
    }
}

} // verus!
