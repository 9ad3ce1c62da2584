//! Setting resources: the options read from the backend and the partial
//! update forms sent to it.

use std::collections::HashMap;

use vstd::prelude::*;

verus! {

/// The backend's server options.
pub struct ServerOption {
    pub port: Option<String>,
    pub token: Option<String>,
    pub time_offset_hour: Option<i32>,
}

/// The backend's storage options.
pub struct StorageOption {
    pub storage_path: Option<String>,
    pub auto_clean_trashes: bool,
    pub auto_clean_trashes_interval_day: i32,
    pub block_max_size: i64,
    pub block_max_count: i32,
}

/// The backend's find-similar options.
pub struct FindSimilarOption {
    pub auto_find_similar: bool,
    pub auto_task_conf: Option<FindSimilarTaskConfig>,
    pub default_task_conf: FindSimilarTaskConfig,
}

/// The backend's query options.
pub struct QueryOption {
    pub chinese_symbol_reflect: bool,
    pub translate_underscore_to_space: bool,
    pub query_limit_of_query_items: i32,
    pub warning_limit_of_union_items: i32,
    pub warning_limit_of_intersect_items: i32,
}

/// The backend's meta options.
pub struct MetaOption {
    pub auto_clean_tagme: bool,
    pub only_character_topic: bool,
    pub resolve_tag_conflict_by_parent: bool,
    pub binding_partition_with_order_time: bool,
    pub tuning_order_time: bool,
    pub centralize_collection: bool,
    pub topic_colors: HashMap<String, String>,
    pub author_colors: HashMap<String, String>,
}

/// The backend's import options.
pub struct ImportOption {
    pub auto_analyse_source_data: bool,
    pub prevent_none_source_data: bool,
    pub auto_reflect_meta_tag: bool,
    pub reflect_meta_tag_type: Vec<String>,
    pub auto_convert_format: bool,
    pub auto_convert_png_threshold_size_mb: i64,
    pub set_tagme_of_tag: bool,
    pub set_tagme_of_source: bool,
    pub set_order_time_by: String,
    pub source_analyse_rules: Vec<SourceAnalyseRule>,
}

/// One configured source site.
pub struct SourceSite {
    pub name: String,
    pub title: String,
    pub id_mode: String,
    pub part_mode: String,
    pub additional_info: Vec<AdditionalInfo>,
    pub source_link_rules: Vec<String>,
    pub tag_types: Vec<String>,
    pub tag_type_mappings: Vec<HashMap<String, String>>,
}

/// Partial update of the server options.
pub struct ServerOptionUpdateForm {
    pub port: Option<String>,
    pub token: Option<String>,
    pub time_offset_hour: Option<i32>,
}

/// Partial update of the storage options.
pub struct StorageOptionUpdateForm {
    pub storage_path: Option<String>,
    pub auto_clean_trashes: Option<bool>,
    pub auto_clean_trashes_interval_day: Option<i32>,
    pub block_max_size: Option<i64>,
    pub block_max_count: Option<i32>,
}

/// Partial update of the find-similar options.
pub struct FindSimilarOptionUpdateForm {
    pub auto_find_similar: Option<bool>,
    pub auto_task_conf: Option<FindSimilarTaskConfig>,
    pub default_task_conf: Option<FindSimilarTaskConfig>,
}

/// Partial update of the query options.
pub struct QueryOptionUpdateForm {
    pub chinese_symbol_reflect: Option<bool>,
    pub translate_underscore_to_space: Option<bool>,
    pub query_limit_of_query_items: Option<i32>,
    pub warning_limit_of_union_items: Option<i32>,
    pub warning_limit_of_intersect_items: Option<i32>,
}

/// Partial update of the meta options.
pub struct MetaOptionUpdateForm {
    pub auto_clean_tagme: Option<bool>,
    pub only_character_topic: Option<bool>,
    pub resolve_tag_conflict_by_parent: Option<bool>,
    pub binding_partition_with_order_time: Option<bool>,
    pub tuning_order_time: Option<bool>,
    pub centralize_collection: Option<bool>,
    pub topic_colors: Option<HashMap<String, String>>,
    pub author_colors: Option<HashMap<String, String>>,
}

/// Partial update of the import options.
pub struct ImportOptionUpdateForm {
    pub auto_analyse_source_data: Option<bool>,
    pub prevent_none_source_data: Option<bool>,
    pub auto_reflect_meta_tag: Option<bool>,
    pub reflect_meta_tag_type: Option<Vec<String>>,
    pub auto_convert_format: Option<bool>,
    pub auto_convert_png_threshold_size_mb: Option<i64>,
    pub set_tagme_of_tag: Option<bool>,
    pub set_tagme_of_source: Option<bool>,
    pub set_order_time_by: Option<String>,
    pub source_analyse_rules: Option<Vec<SourceAnalyseRule>>,
}

/// Update of one source site.
pub struct SourceSiteUpdateForm {
    pub name: String,
    pub title: Option<String>,
    pub id_mode: Option<String>,
    pub part_mode: Option<String>,
    pub additional_info: Option<Vec<AdditionalInfo>>,
    pub source_link_rules: Option<Vec<String>>,
    pub tag_types: Option<Vec<String>>,
    pub tag_type_mappings: Option<HashMap<String, String>>,
}

/// How one find-similar task is configured.
pub struct FindSimilarTaskConfig {
    pub find_by_source_identity: bool,
    pub find_by_source_relation: bool,
    pub find_by_source_mark: bool,
    pub find_by_similarity: bool,
    pub filter_by_other_import: bool,
    pub filter_by_partition: bool,
    pub filter_by_topic: bool,
    pub filter_by_author: bool,
    pub filter_by_source_tag_type: Vec<FindSimilarTaskConfigSourceTagType>,
}

/// One source tag type a find-similar task filters by.
pub struct FindSimilarTaskConfigSourceTagType {
    pub source_site: String,
    pub tag_type: String,
}

/// One filename analyse rule of a source site.
pub struct SourceAnalyseRule {
    pub site: String,
    pub regex: String,
    pub id_group: String,
    pub part_group: Option<String>,
    pub part_name_group: Option<String>,
    pub extras: Option<Vec<SourceAnalyseRuleExtra>>,
}

/// One extra capture of a filename analyse rule.
pub struct SourceAnalyseRuleExtra {
    pub group: String,
    pub target: String,
    pub optional: bool,
    pub tag_type: Option<String>,
    pub additional_info_field: Option<String>,
    pub translate_underscore_to_space: Option<bool>,
}

/// One additional-info field a source site offers.
pub struct AdditionalInfo {
    pub field: String,
    pub label: String,
}

} // verus!
