//! The remaining modules: text utilities, origin id parsing, the
//! underscore translator, download mapping, apply reduction,
//! configuration resolution and channel selection.

use hedge_cli::apply::{reduce_apply_files, reduce_apply_setting, ApplyFile, ApplyFileSetting};
use hedge_cli::bulk::SourceDataBulkForm;
use hedge_cli::channel::ChannelManager;
use hedge_cli::config::{
    default_config_file, resolve_config, LocalConfigDbConnect, LocalConfigFile,
    LocalConfigFileWorkPath,
};
use hedge_cli::connect::{
    build_connect_query, map_result_underscore_to_space, parse_origin_pid, replace_all,
    ConnectModule, ConnectPlan, UnderscoreTranslator,
};
use hedge_cli::download::{get_tag_types, merge_relations, DownloadResult, DownloadTag};
use hedge_cli::error::{ApiResultError, ApplicationError};
use hedge_cli::import::OrderTimeType;
use hedge_cli::local_data::LocalDataManager;
use hedge_cli::text::{i32_to_string, path_join, u64_to_string, underscore_to_space};
use std::collections::HashMap;

fn empty_setting() -> ApplyFileSetting {
    ApplyFileSetting {
        meta: None,
        query: None,
        import: None,
        storage: None,
        server: None,
        find_similar: None,
        source_sites: None,
    }
}

fn server_form(port: &str) -> hedge_cli::setting::ServerOptionUpdateForm {
    hedge_cli::setting::ServerOptionUpdateForm {
        port: Some(port.to_string()),
        token: None,
        time_offset_hour: None,
    }
}

#[test]
fn decimal_rendering_is_exact() {
    assert_eq!(u64_to_string(0), "0");
    assert_eq!(u64_to_string(7), "7");
    assert_eq!(u64_to_string(12034), "12034");
    assert_eq!(i32_to_string(-250), "-250");
    assert_eq!(i32_to_string(i32::MIN), "-2147483648");
}

#[test]
fn underscores_become_spaces() {
    assert_eq!(underscore_to_space("long_hair_blue"), "long hair blue");
    assert_eq!(underscore_to_space("no-underscore"), "no-underscore");
    assert_eq!(underscore_to_space(""), "");
}

#[test]
fn path_join_uses_one_slash() {
    assert_eq!(path_join("/a/b", "c.dat"), "/a/b/c.dat");
}

#[test]
fn origin_pid_parses_bare_and_part_forms() {
    assert_eq!(parse_origin_pid("123").unwrap(), (123, None));
    assert_eq!(parse_origin_pid("123_1").unwrap(), (123, Some(1)));
    assert_eq!(parse_origin_pid("123_p4").unwrap(), (123, Some(4)));
    assert!(parse_origin_pid("abc").is_err());
    assert!(parse_origin_pid("12_").is_err());
    assert!(parse_origin_pid("").is_err());
}

#[test]
fn tag_type_codes_are_named() {
    assert_eq!(get_tag_types(1), "artist");
    assert_eq!(get_tag_types(2), "studio");
    assert_eq!(get_tag_types(3), "copyright");
    assert_eq!(get_tag_types(4), "character");
    assert_eq!(get_tag_types(8), "medium");
    assert_eq!(get_tag_types(9), "meta");
    assert_eq!(get_tag_types(0), "general");
    assert_eq!(get_tag_types(5), "genre");
}

#[test]
fn order_time_codes_are_exact() {
    assert_eq!(OrderTimeType::CreateTime.to_json_code(), "CREATE_TIME");
    assert_eq!(OrderTimeType::UpdateTime.to_json_code(), "UPDATE_TIME");
    assert_eq!(OrderTimeType::ImportTime.to_json_code(), "IMPORT_TIME");
}

#[test]
fn relations_merge_children_and_parent() {
    assert_eq!(merge_relations(Some(vec![2, 3]), Some(9)), Some(vec![2, 3, 9]));
    assert_eq!(merge_relations(Some(vec![2]), None), Some(vec![2]));
    assert_eq!(merge_relations(None, Some(9)), Some(vec![9]));
    assert_eq!(merge_relations(None, None), None);
}

#[test]
fn update_form_carries_the_download_result_over() {
    let r = DownloadResult {
        title: Some("t".to_string()),
        description: None,
        tags: Some(vec![DownloadTag {
            code: "c".to_string(),
            name: Some("n".to_string()),
            other_name: None,
            tag_type: Some("artist".to_string()),
        }]),
        books: None,
        relations: Some(vec![5, 6]),
        additional_info: None,
    };
    let form = r.to_update_form();
    assert_eq!(form.title.as_deref(), Some("t"));
    assert!(form.description.is_none());
    assert!(form.status.is_none());
    assert_eq!(form.relations, Some(vec![5, 6]));
    let tags = form.tags.unwrap();
    assert_eq!(tags.len(), 1);
    assert_eq!(tags[0].code, "c");
    assert_eq!(tags[0].name.as_deref(), Some("n"));
    assert_eq!(tags[0].tag_type.as_deref(), Some("artist"));
}

#[test]
fn translator_reads_flags_and_fields() {
    let types = vec![
        "title".to_string(),
        "tag.name".to_string(),
        "additional_info.artist".to_string(),
    ];
    let t = UnderscoreTranslator::new(&types).unwrap();
    assert!(t.title);
    assert!(!t.description);
    assert!(t.tag_name);
    assert!(!t.tag_code);
    assert_eq!(t.additional_info, vec!["artist".to_string()]);
}

#[test]
fn translator_rejects_unknown_types() {
    let types = vec!["title".to_string(), "cover".to_string()];
    assert!(UnderscoreTranslator::new(&types).is_err());
}

#[test]
fn translation_touches_only_configured_parts() {
    let types = vec!["title".to_string(), "tag.name".to_string()];
    let t = UnderscoreTranslator::new(&types).unwrap();
    let r = DownloadResult {
        title: Some("a_b".to_string()),
        description: Some("c_d".to_string()),
        tags: Some(vec![DownloadTag {
            code: "x_y".to_string(),
            name: Some("p_q".to_string()),
            other_name: None,
            tag_type: None,
        }]),
        books: None,
        relations: None,
        additional_info: None,
    };
    let out = map_result_underscore_to_space(r, &t);
    assert_eq!(out.title.as_deref(), Some("a b"));
    assert_eq!(out.description.as_deref(), Some("c_d"));
    let tags = out.tags.unwrap();
    assert_eq!(tags[0].code, "x_y");
    assert_eq!(tags[0].name.as_deref(), Some("p q"));
}

#[test]
fn reduce_setting_rejects_a_field_declared_twice() {
    let mut a = empty_setting();
    a.server = Some(server_form("9000"));
    let mut b = empty_setting();
    b.server = Some(server_form("9001"));
    let r = reduce_apply_setting(vec![a, b]);
    assert!(r.is_err());
}

#[test]
fn reduce_setting_merges_distinct_fields() {
    let mut a = empty_setting();
    a.server = Some(server_form("9000"));
    let b = empty_setting();
    let r = reduce_apply_setting(vec![a, b]).unwrap().unwrap();
    assert_eq!(r.server.unwrap().port.as_deref(), Some("9000"));
    assert!(r.storage.is_none());
    let none = reduce_apply_setting(vec![empty_setting()]).unwrap();
    assert!(none.is_none());
}

#[test]
fn reduce_files_strings_bulk_entries_together() {
    let one = ApplyFile {
        source_data: Some(vec![SourceDataBulkForm {
            source_site: "s1".to_string(),
            source_id: 1,
            status: None,
            title: None,
            description: None,
            tags: None,
            books: None,
            relations: None,
            links: None,
            additional_info: None,
        }]),
        tags: None,
        topics: None,
        authors: None,
        setting: None,
    };
    let two = ApplyFile {
        source_data: Some(vec![SourceDataBulkForm {
            source_site: "s2".to_string(),
            source_id: 2,
            status: None,
            title: None,
            description: None,
            tags: None,
            books: None,
            relations: None,
            links: None,
            additional_info: None,
        }]),
        tags: None,
        topics: None,
        authors: None,
        setting: None,
    };
    let out = reduce_apply_files(vec![one, two]).unwrap();
    let sd = out.source_data.unwrap();
    // The reduction drains its input from the back: later files first.
    assert_eq!(sd.len(), 2);
    assert_eq!(sd[0].source_site, "s2");
    assert_eq!(sd[1].source_site, "s1");
    assert!(out.tags.is_none());
    assert!(out.setting.is_none());
}

#[test]
fn config_resolution_defaults_paths_under_userdata() {
    let resolved = resolve_config(default_config_file(), "/home/u/.config/Hedge-v3");
    assert!(!resolved.debug_mode);
    assert_eq!(resolved.work_path.userdata_path, "/home/u/.config/Hedge-v3");
    assert_eq!(resolved.work_path.server_path, "/home/u/.config/Hedge-v3/server");
    assert_eq!(resolved.work_path.appdata_path, "/home/u/.config/Hedge-v3/appdata");
    assert!(resolved.work_path.application_path.is_none());
    assert!(resolved.download.available_sites.is_empty());
    assert!(resolved.connect.is_none());
}

#[test]
fn configured_paths_override_the_defaults() {
    let file = LocalConfigFile {
        debug_mode: Some(true),
        work_path: LocalConfigFileWorkPath {
            application_path: Some("/apps/hedge".to_string()),
            server_path: Some("/srv/hedge".to_string()),
            appdata_path: None,
            userdata_path: Some("/data".to_string()),
        },
        download: None,
        connect: None,
    };
    let resolved = resolve_config(file, "/home/u/.config/Hedge-v3");
    assert!(resolved.debug_mode);
    assert_eq!(resolved.work_path.userdata_path, "/data");
    assert_eq!(resolved.work_path.server_path, "/srv/hedge");
    assert_eq!(resolved.work_path.appdata_path, "/data/appdata");
    assert_eq!(resolved.work_path.application_path.as_deref(), Some("/apps/hedge"));
}

#[test]
fn channel_defaults_and_persists() {
    let config = resolve_config(default_config_file(), "/home/u/.config/Hedge-v3");
    let cm = ChannelManager::new(&config, None);
    assert_eq!(cm.current_channel(), "default");
    let cm = ChannelManager::new(&config, Some("work".to_string()));
    assert_eq!(cm.current_channel(), "work");
    let record = cm.use_channel("other");
    assert_eq!(record.using_channel.as_deref(), Some("other"));
    let ldm = LocalDataManager::new(&config);
    assert_eq!(ldm.local_data_path, "/home/u/.config/Hedge-v3/cli/context.toml");
}

#[test]
fn connect_plan_depends_on_driver() {
    let config = resolve_config(default_config_file(), "/u");
    let module = ConnectModule::new(&config);
    assert_eq!(module.connect_plan(), ConnectPlan::NotConfigured);

    let file = LocalConfigFile {
        debug_mode: None,
        work_path: LocalConfigFileWorkPath {
            application_path: None,
            server_path: None,
            appdata_path: None,
            userdata_path: None,
        },
        download: None,
        connect: Some(LocalConfigDbConnect {
            driver: "SQLite".to_string(),
            url: "/db.sqlite".to_string(),
            query: "select 1".to_string(),
            parser: HashMap::new(),
        }),
    };
    let config = resolve_config(file, "/u");
    let module = ConnectModule::new(&config);
    assert_eq!(module.connect_plan(), ConnectPlan::OpenSqlite);

    let file = LocalConfigFile {
        debug_mode: None,
        work_path: LocalConfigFileWorkPath {
            application_path: None,
            server_path: None,
            appdata_path: None,
            userdata_path: None,
        },
        download: None,
        connect: Some(LocalConfigDbConnect {
            driver: "postgres".to_string(),
            url: "u".to_string(),
            query: "q".to_string(),
            parser: HashMap::new(),
        }),
    };
    let config = resolve_config(file, "/u");
    let module = ConnectModule::new(&config);
    assert_eq!(module.connect_plan(), ConnectPlan::UnsupportedDriver);
}

#[test]
fn errors_describe_themselves() {
    let e = ApplicationError::new("Channel is not initialized.");
    assert_eq!(e.describe(), "Channel is not initialized.");
    let e = ApiResultError::new("ALREADY_EXISTS", "record exists");
    assert_eq!(e.describe(), "ALREADY_EXISTS: record exists");
    assert_eq!(e.code, "ALREADY_EXISTS");
}

#[test]
fn statement_text_fills_the_placeholders() {
    let sql = build_connect_query(
        "select * from t where s in $site and k in $split limit $limit",
        &vec!["a".to_string(), "b".to_string()],
        Some(10),
        &vec!["pixiv".to_string()],
    );
    assert_eq!(sql, "select * from t where s in ('pixiv') and k in ('a', 'b') limit 10");
    let sql = build_connect_query("limit $limit", &vec![], None, &vec![]);
    assert_eq!(sql, "limit 65536");
    assert_eq!(replace_all("a..b..c", "..", "-"), "a-b-c");
    assert_eq!(replace_all("aaa", "aa", "b"), "ba");
    assert_eq!(replace_all("", "x", "y"), "");
}
