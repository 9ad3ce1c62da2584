//! Typed configuration: the resolved configuration the modules consume,
//! the raw shape read from the configuration file, and the defaulting
//! rules that turn one into the other.  Locating and reading the file is
//! the caller's business.

use std::collections::HashMap;

use vstd::prelude::*;

use crate::text::path_join;
use crate::text::spec_path_join;

verus! {

/// The resolved configuration.
pub struct LocalConfig {
    pub debug_mode: bool,
    pub work_path: WorkPath,
    pub download: Download,
    pub connect: Option<Connect>,
}

/// The filesystem roots the application works under.
pub struct WorkPath {
    pub application_path: Option<String>,
    pub userdata_path: String,
    pub server_path: String,
    pub appdata_path: String,
}

/// Options of the metadata download module.
pub struct Download {
    pub waiting_interval: Option<u64>,
    pub timeout_interval: Option<u64>,
    pub proxy: Option<String>,
    pub available_sites: Vec<AvailableSite>,
}

/// A site whose metadata can be downloaded, and the rule that handles it.
#[derive(Debug)]
pub struct AvailableSite {
    pub site: String,
    pub rule: String,
}

/// Options of the database connect module.
pub struct Connect {
    pub driver: String,
    pub url: String,
    pub query: String,
    pub parser: HashMap<String, ConnectParser>,
}

/// How the rows of one site are read into download results.
pub struct ConnectParser {
    pub site: String,
    pub title: Option<String>,
    pub description: Option<String>,
    pub tag: Option<ConnectParserTag>,
    pub book: Option<ConnectParserBook>,
    pub relation: Option<ConnectParserRelation>,
    pub additional_info: Option<HashMap<String, String>>,
    pub translate_underscore_to_space: Option<Vec<String>>,
}

/// Selectors for the tag fields of a row.
pub struct ConnectParserTag {
    pub selector: String,
    pub code: String,
    pub name: Option<String>,
    pub other_name: Option<String>,
    pub tag_type: Option<String>,
}

/// Selectors for the book fields of a row.
pub struct ConnectParserBook {
    pub selector: String,
    pub code: String,
    pub title: Option<String>,
    pub other_title: Option<String>,
}

/// Selectors for the relation fields of a row.
pub struct ConnectParserRelation {
    pub selector: Vec<String>,
}

/// The raw shape of the configuration file: every part optional.
pub struct LocalConfigFile {
    pub debug_mode: Option<bool>,
    pub work_path: LocalConfigFileWorkPath,
    pub download: Option<LocalConfigFileDownload>,
    pub connect: Option<LocalConfigDbConnect>,
}

/// The raw work paths of the configuration file.
pub struct LocalConfigFileWorkPath {
    pub application_path: Option<String>,
    pub server_path: Option<String>,
    pub appdata_path: Option<String>,
    pub userdata_path: Option<String>,
}

/// The raw download options of the configuration file.
pub struct LocalConfigFileDownload {
    pub waiting_interval: Option<u64>,
    pub timeout_interval: Option<u64>,
    pub proxy: Option<String>,
    pub available_sites: Option<Vec<AvailableSite>>,
}

/// The raw connect options of the configuration file.
pub struct LocalConfigDbConnect {
    pub driver: String,
    pub url: String,
    pub query: String,
    pub parser: HashMap<String, ConnectParser>,
}

/// The raw configuration an absent file stands for: everything left to
/// its default.
pub fn default_config_file() -> (r: LocalConfigFile)
    ensures
        r.debug_mode is None,
        r.work_path.application_path is None,
        r.work_path.server_path is None,
        r.work_path.appdata_path is None,
        r.work_path.userdata_path is None,
        r.download is None,
        r.connect is None,
{
    LocalConfigFile {
        debug_mode: None,
        work_path: LocalConfigFileWorkPath {
            application_path: None,
            server_path: None,
            appdata_path: None,
            userdata_path: None,
        },
        download: None,
        connect: None,
    }
}

/// The userdata directory after defaulting: the configured one, or the
/// platform one.
pub open spec fn resolved_userdata(
    configured: Option<String>,
    platform_userdata: Seq<char>,
) -> Seq<char> {
    match configured {
        Some(u) => u@,
        None => platform_userdata,
    }
}

/// Resolves the raw configuration file against the platform userdata
/// directory: absent paths default to fixed spots under the userdata
/// directory, absent options to their neutral values.
pub fn resolve_config(data: LocalConfigFile, platform_userdata: &str) -> (r: LocalConfig)
    ensures
        r.debug_mode == match data.debug_mode {
            Some(b) => b,
            None => false,
        },
        r.work_path.application_path == data.work_path.application_path,
        r.work_path.userdata_path@ == resolved_userdata(
            data.work_path.userdata_path,
            platform_userdata@,
        ),
        r.work_path.server_path@ == match data.work_path.server_path {
            Some(p) => p@,
            None => spec_path_join(
                resolved_userdata(data.work_path.userdata_path, platform_userdata@),
                "server"@,
            ),
        },
        r.work_path.appdata_path@ == match data.work_path.appdata_path {
            Some(p) => p@,
            None => spec_path_join(
                resolved_userdata(data.work_path.userdata_path, platform_userdata@),
                "appdata"@,
            ),
        },
        r.download.waiting_interval == match data.download {
            Some(ref d) => d.waiting_interval,
            None => None::<u64>,
        },
        r.download.timeout_interval == match data.download {
            Some(ref d) => d.timeout_interval,
            None => None::<u64>,
        },
        r.download.proxy == match data.download {
            Some(ref d) => d.proxy,
            None => None::<String>,
        },
        r.download.available_sites@ == match data.download {
            Some(ref d) => match d.available_sites {
                Some(ref s) => s@,
                None => Seq::<AvailableSite>::empty(),
            },
            None => Seq::<AvailableSite>::empty(),
        },
        r.connect == match data.connect {
            Some(c) => Some(Connect { driver: c.driver, url: c.url, query: c.query, parser: c.parser }),
            None => None::<Connect>,
        },
{
    let userdata_path: String = match data.work_path.userdata_path {
        Some(u) => u,
        None => platform_userdata.to_owned(),
    };
    let server_path: String = match data.work_path.server_path {
        Some(p) => p,
        None => path_join(userdata_path.as_str(), "server"),
    };
    let appdata_path: String = match data.work_path.appdata_path {
        Some(p) => p,
        None => path_join(userdata_path.as_str(), "appdata"),
    };
    let download: Download = match data.download {
        Some(d) => Download {
            waiting_interval: d.waiting_interval,
            timeout_interval: d.timeout_interval,
            proxy: d.proxy,
            available_sites: match d.available_sites {
                Some(s) => s,
                None => Vec::new(),
            },
        },
        None => Download {
            waiting_interval: None,
            timeout_interval: None,
            proxy: None,
            available_sites: Vec::new(),
        },
    };
    let connect: Option<Connect> = match data.connect {
        Some(c) => Some(Connect { driver: c.driver, url: c.url, query: c.query, parser: c.parser }),
        None => None,
    };
    LocalConfig {
        debug_mode: match data.debug_mode {
            Some(b) => b,
            None => false,
        },
        work_path: WorkPath {
            application_path: data.work_path.application_path,
            userdata_path,
            server_path,
            appdata_path,
        },
        download,
        connect,
    }
}

} // verus!
