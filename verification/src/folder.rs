//! Folder resource forms.

use vstd::prelude::*;

verus! {

/// Form creating a folder, optionally with its images.
pub struct FolderCreateForm {
    pub title: String,
    pub folder_type: String,
    pub parent_id: Option<i32>,
    pub ordinal: Option<u32>,
    pub images: Option<Vec<i32>>,
}

/// Form renaming or moving a folder.
pub struct FolderUpdateForm {
    pub title: String,
    pub parent_id: Option<i32>,
    pub ordinal: Option<u32>,
}

/// Form changing part of a folder's images.
pub struct FolderImagesPartialUpdateForm {
    pub action: String,
    pub images: Option<Vec<i32>>,
    pub ordinal: Option<u32>,
}

} // verus!
