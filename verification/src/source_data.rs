//! Source-data resource shapes: query results and the update form.

use vstd::prelude::*;

verus! {

/// One row of a source-data query.
pub struct SourceDataRes {
    pub site: String,
    pub site_name: String,
    pub source_id: String,
    pub tag_count: i32,
    pub book_count: i32,
    pub relation_count: i32,
    pub status: String,
}

/// The detail of one source-data record, as far as it is read here.
pub struct SourceDataDetailRes {
    pub status: String,
}

/// One result of analysing a filename for its source.
pub struct SourceDataAnalyseResult {
    pub image_id: Option<i32>,
    pub error: Option<String>,
}

/// Form updating one source-data record.
pub struct SourceDataUpdateForm {
    pub title: Option<String>,
    pub description: Option<String>,
    pub status: Option<String>,
    pub tags: Option<Vec<SourceTagForm>>,
    pub books: Option<Vec<SourceBookForm>>,
    pub relations: Option<Vec<i64>>,
    pub additional_info: Option<Vec<AdditionalInfoForm>>,
}

/// Form of one source tag.
pub struct SourceTagForm {
    pub code: String,
    pub name: Option<String>,
    pub other_name: Option<String>,
    pub tag_type: Option<String>,
}

/// Form of one source book.
pub struct SourceBookForm {
    pub code: String,
    pub title: Option<String>,
    pub other_title: Option<String>,
}

/// One additional-info field and its value.
pub struct AdditionalInfoForm {
    pub field: String,
    pub value: String,
}

} // verus!
