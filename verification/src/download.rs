//! Download results: what a metadata download yields, and its mapping to
//! the source-data update form.

use vstd::prelude::*;

use crate::source_data::AdditionalInfoForm;
use crate::source_data::SourceBookForm;
use crate::source_data::SourceDataUpdateForm;
use crate::source_data::SourceTagForm;

verus! {

/// How one download went: retries taken, milliseconds spent.
pub struct DownloadAttachInfo {
    pub retry_count: i32,
    pub time_cost: i64,
}

/// The metadata one download yields.  Additional info is kept as an
/// ordered list of field/value pairs.
pub struct DownloadResult {
    pub title: Option<String>,
    pub description: Option<String>,
    pub tags: Option<Vec<DownloadTag>>,
    pub books: Option<Vec<DownloadBook>>,
    pub relations: Option<Vec<i64>>,
    pub additional_info: Option<Vec<AdditionalInfoForm>>,
}

/// One downloaded tag.
pub struct DownloadTag {
    pub code: String,
    pub name: Option<String>,
    pub other_name: Option<String>,
    pub tag_type: Option<String>,
}

/// One downloaded book.
pub struct DownloadBook {
    pub code: String,
    pub title: Option<String>,
    pub other_title: Option<String>,
}

/// Copies an optional string.
fn clone_opt_string(o: &Option<String>) -> (r: Option<String>)
    ensures
        r == *o,
{
    match o {
        Some(s) => Some(s.clone()),
        None => None,
    }
}

impl DownloadResult {
    /// The update form holding exactly this result: every field carried
    /// over unchanged, with no status and no links.
    pub fn to_update_form(&self) -> (r: SourceDataUpdateForm)
        ensures
            r.title == self.title,
            r.description == self.description,
            r.status is None,
            match (self.relations, r.relations) {
                (Some(a), Some(b)) => b@ == a@,
                (None, None) => true,
                _ => false,
            },
            match (self.tags, r.tags) {
                (Some(st), Some(rt)) => rt@.len() == st@.len() && forall|i: int|
                    0 <= i < st@.len() ==> rt@[i].code == st@[i].code && rt@[i].name == st@[i].name
                        && rt@[i].other_name == st@[i].other_name && rt@[i].tag_type
                        == st@[i].tag_type,
                (None, None) => true,
                _ => false,
            },
            match (self.books, r.books) {
                (Some(sb), Some(rb)) => rb@.len() == sb@.len() && forall|i: int|
                    0 <= i < sb@.len() ==> rb@[i].code == sb@[i].code && rb@[i].title == sb@[i].title
                        && rb@[i].other_title == sb@[i].other_title,
                (None, None) => true,
                _ => false,
            },
            match (self.additional_info, r.additional_info) {
                (Some(sa), Some(ra)) => ra@ == sa@,
                (None, None) => true,
                _ => false,
            },
    {
        let tags: Option<Vec<SourceTagForm>> = match &self.tags {
            Some(st) => {
                let mut rt: Vec<SourceTagForm> = Vec::new();
                let mut i: usize = 0;
                while i < st.len()
                    invariant
                        i <= st@.len(),
                        rt@.len() == i,
                        forall|k: int|
                            0 <= k < i ==> rt@[k].code == st@[k].code && rt@[k].name == st@[k].name
                                && rt@[k].other_name == st@[k].other_name && rt@[k].tag_type
                                == st@[k].tag_type,
                    decreases st@.len() - i,
                {
                    let tag = &st[i];
                    rt.push(
                        SourceTagForm {
                            code: tag.code.clone(),
                            name: clone_opt_string(&tag.name),
                            other_name: clone_opt_string(&tag.other_name),
                            tag_type: clone_opt_string(&tag.tag_type),
                        },
                    );
                    i = i + 1;
                }
                Some(rt)
            },
            None => None,
        };
        let books: Option<Vec<SourceBookForm>> = match &self.books {
            Some(sb) => {
                let mut rb: Vec<SourceBookForm> = Vec::new();
                let mut i: usize = 0;
                while i < sb.len()
                    invariant
                        i <= sb@.len(),
                        rb@.len() == i,
                        forall|k: int|
                            0 <= k < i ==> rb@[k].code == sb@[k].code && rb@[k].title
                                == sb@[k].title && rb@[k].other_title == sb@[k].other_title,
                    decreases sb@.len() - i,
                {
                    let book = &sb[i];
                    rb.push(
                        SourceBookForm {
                            code: book.code.clone(),
                            title: clone_opt_string(&book.title),
                            other_title: clone_opt_string(&book.other_title),
                        },
                    );
                    i = i + 1;
                }
                Some(rb)
            },
            None => None,
        };
        let relations: Option<Vec<i64>> = match &self.relations {
            Some(sr) => {
                let mut rr: Vec<i64> = Vec::new();
                let mut i: usize = 0;
                while i < sr.len()
                    invariant
                        i <= sr@.len(),
                        rr@ =~= sr@.take(i as int),
                    decreases sr@.len() - i,
                {
                    rr.push(sr[i]);
                    i = i + 1;
                }
                proof {
                    assert(sr@.take(sr@.len() as int) =~= sr@);
                }
                Some(rr)
            },
            None => None,
        };
        let additional_info: Option<Vec<AdditionalInfoForm>> = match &self.additional_info {
            Some(sa) => {
                let mut ra: Vec<AdditionalInfoForm> = Vec::new();
                let mut i: usize = 0;
                while i < sa.len()
                    invariant
                        i <= sa@.len(),
                        ra@.len() == i,
                        forall|k: int| 0 <= k < i ==> ra@[k] == sa@[k],
                    decreases sa@.len() - i,
                {
                    let entry = &sa[i];
                    ra.push(
                        AdditionalInfoForm { field: entry.field.clone(), value: entry.value.clone() },
                    );
                    proof {
                        assert(ra@[i as int] == sa@[i as int]);
                    }
                    i = i + 1;
                }
                proof {
                    assert(ra@ =~= sa@);
                }
                Some(ra)
            },
            None => None,
        };
        SourceDataUpdateForm {
            title: clone_opt_string(&self.title),
            description: clone_opt_string(&self.description),
            status: None,
            tags,
            books,
            relations,
            additional_info,
        }
    }
}

/// Joins the downloaded children and parent into the relation list: both
/// when both are present, either alone, nothing when neither exists.
pub fn merge_relations(children: Option<Vec<i64>>, parent: Option<i64>) -> (r: Option<Vec<i64>>)
    ensures
        match (children, parent) {
            (Some(c), Some(p)) => r matches Some(v) && v@ == c@ + seq![p],
            (Some(c), None) => r matches Some(v) && v@ == c@,
            (None, Some(p)) => r matches Some(v) && v@ == seq![p],
            (None, None) => r is None,
        },
{
    match (children, parent) {
        (Some(mut c), Some(p)) => {
            c.push(p);
            Some(c)
        },
        (Some(c), None) => Some(c),
        (None, Some(p)) => {
            let mut v: Vec<i64> = Vec::new();
            v.push(p);
            proof {
                assert(v@ =~= seq![p]);
            }
            Some(v)
        },
        (None, None) => None,
    }
}

/// The tag type name of a downloaded tag's numeric type code.  Only the
/// codes the site actually sends are given a name.
pub fn get_tag_types(type_code: i64) -> (r: &'static str)
    requires
        type_code == 0 || type_code == 1 || type_code == 2 || type_code == 3 || type_code == 4
            || type_code == 5 || type_code == 8 || type_code == 9,
    ensures
        type_code == 1 ==> r@ == "artist"@,
        type_code == 2 ==> r@ == "studio"@,
        type_code == 3 ==> r@ == "copyright"@,
        type_code == 4 ==> r@ == "character"@,
        type_code == 8 ==> r@ == "medium"@,
        type_code == 9 ==> r@ == "meta"@,
        type_code == 0 ==> r@ == "general"@,
        type_code == 5 ==> r@ == "genre"@,
{
    if type_code == 1 {
        "artist"
    } else if type_code == 2 {
        "studio"
    } else if type_code == 3 {
        "copyright"
    } else if type_code == 4 {
        "character"
    } else if type_code == 8 {
        "medium"
    } else if type_code == 9 {
        "meta"
    } else if type_code == 0 {
        "general"
    } else {
        "genre"
    }
}

} // verus!
