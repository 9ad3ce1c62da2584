//! Import resource shapes, and the order-time category names sent to the
//! backend.

use vstd::prelude::*;

verus! {

/// The category a batch update may order times by.
#[derive(PartialEq, Eq, Structural, Clone, Copy, Debug)]
pub enum OrderTimeType {
    CreateTime,
    UpdateTime,
    ImportTime,
}

impl OrderTimeType {
    /// The code the backend expects for the category.
    pub open spec fn spec_json_code(self) -> Seq<char> {
        match self {
            OrderTimeType::CreateTime => "CREATE_TIME"@,
            OrderTimeType::UpdateTime => "UPDATE_TIME"@,
            OrderTimeType::ImportTime => "IMPORT_TIME"@,
        }
    }

    /// Prints the code the backend expects for the category.
    pub fn to_json_code(&self) -> (r: &'static str)
        ensures
            r@ == self.spec_json_code(),
    {
        match self {
            OrderTimeType::CreateTime => "CREATE_TIME",
            OrderTimeType::UpdateTime => "UPDATE_TIME",
            OrderTimeType::ImportTime => "IMPORT_TIME",
        }
    }
}

/// The source identity carried by an imported file.
pub struct SourceDataPath {
    pub source_site: String,
    pub source_id: i64,
    pub source_part: Option<i32>,
    pub source_part_name: Option<String>,
}

/// The file paths of an imported image.
pub struct NullableFilePath {
    pub original: String,
    pub thumbnail: Option<String>,
    pub sample: Option<String>,
}

/// One imported image.
pub struct ImportImageRes {
    pub id: i32,
    pub file_path: NullableFilePath,
    pub source: Option<SourceDataPath>,
    pub tagme: Vec<String>,
    pub file_name: Option<String>,
    pub partition_time: String,
    pub order_time: String,
}

/// The outcome of saving the imported files.
pub struct ImportSaveRes {
    pub total: i32,
    pub errors: Vec<ImportSaveErrorItem>,
}

/// Why one imported file could not be saved.
pub struct ImportSaveErrorItem {
    pub import_id: i32,
    pub file_not_ready: bool,
    pub not_existed_collection_id: Option<i32>,
    pub not_existed_clone_image_id: Option<i32>,
    pub not_existed_book_ids: Option<Vec<i32>>,
    pub not_existed_folder_ids: Option<Vec<i32>>,
}

} // verus!
