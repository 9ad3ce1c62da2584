//! Bulk update forms and results of the metadata resources.

use vstd::prelude::*;

use crate::server::ErrorResult;

verus! {

/// Counts of a bulk update, with the errors of the failed targets.
pub struct BulkResult<I> {
    pub success: i32,
    pub failed: i32,
    pub errors: Vec<BulkResultError<I>>,
}

/// One failed target of a bulk update.
pub struct BulkResultError<I> {
    pub target: I,
    pub error: ErrorResult,
}

/// Identity of one source-data record.
pub struct SourceDataIdentity {
    pub source_site: String,
    pub source_id: i64,
}

/// Bulk form of a tag.
pub struct TagBulkForm {
    pub name: String,
    pub rename: Option<String>,
    pub other_names: Option<Vec<String>>,
    pub tag_type: Option<String>,
    pub is_sequence_group: Option<bool>,
    pub is_override_group: Option<bool>,
    pub description: Option<String>,
    pub links: Option<Vec<String>>,
    pub color: Option<String>,
    pub mapping_source_tags: Option<Vec<MappingSourceTagForm>>,
    pub children: Option<Vec<Box<TagBulkForm>>>,
}

/// Bulk form of a topic.
pub struct TopicBulkForm {
    pub name: String,
    pub rename: Option<String>,
    pub other_names: Option<Vec<String>>,
    pub tag_type: Option<String>,
    pub keywords: Option<Vec<String>>,
    pub description: Option<String>,
    pub favorite: Option<bool>,
    pub score: Option<i32>,
    pub mapping_source_tags: Option<Vec<MappingSourceTagForm>>,
    pub children: Option<Vec<Box<TopicBulkForm>>>,
}

/// Bulk form of an author.
pub struct AuthorBulkForm {
    pub name: String,
    pub rename: Option<String>,
    pub other_names: Option<Vec<String>>,
    pub tag_type: Option<String>,
    pub keywords: Option<Vec<String>>,
    pub description: Option<String>,
    pub favorite: Option<bool>,
    pub score: Option<i32>,
    pub mapping_source_tags: Option<Vec<MappingSourceTagForm>>,
}

/// Bulk form of a source-data record.
pub struct SourceDataBulkForm {
    pub source_site: String,
    pub source_id: i64,
    pub status: Option<String>,
    pub title: Option<String>,
    pub description: Option<String>,
    pub tags: Option<Vec<SourceTagForm>>,
    pub books: Option<Vec<SourceBookForm>>,
    pub relations: Option<Vec<i64>>,
    pub links: Option<Vec<String>>,
    pub additional_info: Option<Vec<AdditionalInfoForm>>,
}

/// Form of one source tag.
pub struct SourceTagForm {
    pub code: String,
    pub name: Option<String>,
    pub other_name: Option<String>,
    pub tag_type: Option<String>,
}

/// Form of one source book.
pub struct SourceBookForm {
    pub code: String,
    pub title: Option<String>,
    pub other_title: Option<String>,
}

/// One additional-info field and its value.
pub struct AdditionalInfoForm {
    pub field: String,
    pub value: String,
}

/// Mapping from a source tag to a metadata tag.
pub struct MappingSourceTagForm {
    pub site: String,
    pub code: String,
    pub name: Option<String>,
    pub other_name: Option<String>,
    pub tag_type: Option<String>,
}

} // verus!
