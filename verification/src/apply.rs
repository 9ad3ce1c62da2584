//! The apply file: the shape read from files or standard input, and the
//! reduction of several such files into one.

use vstd::prelude::*;

use crate::bulk::AuthorBulkForm;
use crate::bulk::SourceDataBulkForm;
use crate::bulk::TagBulkForm;
use crate::bulk::TopicBulkForm;
use crate::error::ApplicationError;
use crate::setting::FindSimilarOptionUpdateForm;
use crate::setting::ImportOptionUpdateForm;
use crate::setting::MetaOptionUpdateForm;
use crate::setting::QueryOptionUpdateForm;
use crate::setting::ServerOptionUpdateForm;
use crate::setting::SourceSiteUpdateForm;
use crate::setting::StorageOptionUpdateForm;

verus! {

/// One apply file: bulk updates and setting updates, every part
/// optional.
pub struct ApplyFile {
    pub source_data: Option<Vec<SourceDataBulkForm>>,
    pub tags: Option<Vec<TagBulkForm>>,
    pub topics: Option<Vec<TopicBulkForm>>,
    pub authors: Option<Vec<AuthorBulkForm>>,
    pub setting: Option<ApplyFileSetting>,
}

/// The setting part of an apply file.
pub struct ApplyFileSetting {
    pub meta: Option<MetaOptionUpdateForm>,
    pub query: Option<QueryOptionUpdateForm>,
    pub import: Option<ImportOptionUpdateForm>,
    pub storage: Option<StorageOptionUpdateForm>,
    pub server: Option<ServerOptionUpdateForm>,
    pub find_similar: Option<FindSimilarOptionUpdateForm>,
    pub source_sites: Option<Vec<SourceSiteUpdateForm>>,
}

/// The `server` values declared over a list of settings, in order.
pub open spec fn collected_server(s: Seq<ApplyFileSetting>) -> Seq<ServerOptionUpdateForm>
    decreases s.len(),
{
    if s.len() == 0 {
        Seq::empty()
    } else {
        collected_server(s.drop_last()) + (match s.last().server {
            Some(v) => seq![v],
            None => Seq::empty(),
        })
    }
}

/// A prefix never declares `server` more often than the whole list.
proof fn lemma_collected_server_take(s: Seq<ApplyFileSetting>, i: int)
    requires
        0 <= i <= s.len(),
    ensures
        collected_server(s.take(i)).len() <= collected_server(s).len(),
    decreases s.len() - i,
{
    if i == s.len() {
        assert(s.take(i) =~= s);
    } else {
        let t1 = s.take(i + 1);
        assert(t1.drop_last() =~= s.take(i));
        assert(t1.last() == s[i]);
        lemma_collected_server_take(s, i + 1);
    }
}

/// The one `server` value a merged setting holds, when any.
pub open spec fn the_server(s: Seq<ApplyFileSetting>) -> Option<ServerOptionUpdateForm> {
    if collected_server(s).len() >= 1 {
        Some(collected_server(s)[0])
    } else {
        None
    }
}

/// The `storage` values declared over a list of settings, in order.
pub open spec fn collected_storage(s: Seq<ApplyFileSetting>) -> Seq<StorageOptionUpdateForm>
    decreases s.len(),
{
    if s.len() == 0 {
        Seq::empty()
    } else {
        collected_storage(s.drop_last()) + (match s.last().storage {
            Some(v) => seq![v],
            None => Seq::empty(),
        })
    }
}

/// A prefix never declares `storage` more often than the whole list.
proof fn lemma_collected_storage_take(s: Seq<ApplyFileSetting>, i: int)
    requires
        0 <= i <= s.len(),
    ensures
        collected_storage(s.take(i)).len() <= collected_storage(s).len(),
    decreases s.len() - i,
{
    if i == s.len() {
        assert(s.take(i) =~= s);
    } else {
        let t1 = s.take(i + 1);
        assert(t1.drop_last() =~= s.take(i));
        assert(t1.last() == s[i]);
        lemma_collected_storage_take(s, i + 1);
    }
}

/// The one `storage` value a merged setting holds, when any.
pub open spec fn the_storage(s: Seq<ApplyFileSetting>) -> Option<StorageOptionUpdateForm> {
    if collected_storage(s).len() >= 1 {
        Some(collected_storage(s)[0])
    } else {
        None
    }
}

/// The `query` values declared over a list of settings, in order.
pub open spec fn collected_query(s: Seq<ApplyFileSetting>) -> Seq<QueryOptionUpdateForm>
    decreases s.len(),
{
    if s.len() == 0 {
        Seq::empty()
    } else {
        collected_query(s.drop_last()) + (match s.last().query {
            Some(v) => seq![v],
            None => Seq::empty(),
        })
    }
}

/// A prefix never declares `query` more often than the whole list.
proof fn lemma_collected_query_take(s: Seq<ApplyFileSetting>, i: int)
    requires
        0 <= i <= s.len(),
    ensures
        collected_query(s.take(i)).len() <= collected_query(s).len(),
    decreases s.len() - i,
{
    if i == s.len() {
        assert(s.take(i) =~= s);
    } else {
        let t1 = s.take(i + 1);
        assert(t1.drop_last() =~= s.take(i));
        assert(t1.last() == s[i]);
        lemma_collected_query_take(s, i + 1);
    }
}

/// The one `query` value a merged setting holds, when any.
pub open spec fn the_query(s: Seq<ApplyFileSetting>) -> Option<QueryOptionUpdateForm> {
    if collected_query(s).len() >= 1 {
        Some(collected_query(s)[0])
    } else {
        None
    }
}

/// The `meta` values declared over a list of settings, in order.
pub open spec fn collected_meta(s: Seq<ApplyFileSetting>) -> Seq<MetaOptionUpdateForm>
    decreases s.len(),
{
    if s.len() == 0 {
        Seq::empty()
    } else {
        collected_meta(s.drop_last()) + (match s.last().meta {
            Some(v) => seq![v],
            None => Seq::empty(),
        })
    }
}

/// A prefix never declares `meta` more often than the whole list.
proof fn lemma_collected_meta_take(s: Seq<ApplyFileSetting>, i: int)
    requires
        0 <= i <= s.len(),
    ensures
        collected_meta(s.take(i)).len() <= collected_meta(s).len(),
    decreases s.len() - i,
{
    if i == s.len() {
        assert(s.take(i) =~= s);
    } else {
        let t1 = s.take(i + 1);
        assert(t1.drop_last() =~= s.take(i));
        assert(t1.last() == s[i]);
        lemma_collected_meta_take(s, i + 1);
    }
}

/// The one `meta` value a merged setting holds, when any.
pub open spec fn the_meta(s: Seq<ApplyFileSetting>) -> Option<MetaOptionUpdateForm> {
    if collected_meta(s).len() >= 1 {
        Some(collected_meta(s)[0])
    } else {
        None
    }
}

/// The `import` values declared over a list of settings, in order.
pub open spec fn collected_import_opt(s: Seq<ApplyFileSetting>) -> Seq<ImportOptionUpdateForm>
    decreases s.len(),
{
    if s.len() == 0 {
        Seq::empty()
    } else {
        collected_import_opt(s.drop_last()) + (match s.last().import {
            Some(v) => seq![v],
            None => Seq::empty(),
        })
    }
}

/// A prefix never declares `import` more often than the whole list.
proof fn lemma_collected_import_opt_take(s: Seq<ApplyFileSetting>, i: int)
    requires
        0 <= i <= s.len(),
    ensures
        collected_import_opt(s.take(i)).len() <= collected_import_opt(s).len(),
    decreases s.len() - i,
{
    if i == s.len() {
        assert(s.take(i) =~= s);
    } else {
        let t1 = s.take(i + 1);
        assert(t1.drop_last() =~= s.take(i));
        assert(t1.last() == s[i]);
        lemma_collected_import_opt_take(s, i + 1);
    }
}

/// The one `import` value a merged setting holds, when any.
pub open spec fn the_import_opt(s: Seq<ApplyFileSetting>) -> Option<ImportOptionUpdateForm> {
    if collected_import_opt(s).len() >= 1 {
        Some(collected_import_opt(s)[0])
    } else {
        None
    }
}

/// The `find_similar` values declared over a list of settings, in order.
pub open spec fn collected_find_similar(s: Seq<ApplyFileSetting>) -> Seq<FindSimilarOptionUpdateForm>
    decreases s.len(),
{
    if s.len() == 0 {
        Seq::empty()
    } else {
        collected_find_similar(s.drop_last()) + (match s.last().find_similar {
            Some(v) => seq![v],
            None => Seq::empty(),
        })
    }
}

/// A prefix never declares `find_similar` more often than the whole list.
proof fn lemma_collected_find_similar_take(s: Seq<ApplyFileSetting>, i: int)
    requires
        0 <= i <= s.len(),
    ensures
        collected_find_similar(s.take(i)).len() <= collected_find_similar(s).len(),
    decreases s.len() - i,
{
    if i == s.len() {
        assert(s.take(i) =~= s);
    } else {
        let t1 = s.take(i + 1);
        assert(t1.drop_last() =~= s.take(i));
        assert(t1.last() == s[i]);
        lemma_collected_find_similar_take(s, i + 1);
    }
}

/// The one `find_similar` value a merged setting holds, when any.
pub open spec fn the_find_similar(s: Seq<ApplyFileSetting>) -> Option<FindSimilarOptionUpdateForm> {
    if collected_find_similar(s).len() >= 1 {
        Some(collected_find_similar(s)[0])
    } else {
        None
    }
}

/// The `source_sites` values declared over a list of settings, in order.
pub open spec fn collected_source_sites(s: Seq<ApplyFileSetting>) -> Seq<Vec<SourceSiteUpdateForm>>
    decreases s.len(),
{
    if s.len() == 0 {
        Seq::empty()
    } else {
        collected_source_sites(s.drop_last()) + (match s.last().source_sites {
            Some(v) => seq![v],
            None => Seq::empty(),
        })
    }
}

/// A prefix never declares `source_sites` more often than the whole list.
proof fn lemma_collected_source_sites_take(s: Seq<ApplyFileSetting>, i: int)
    requires
        0 <= i <= s.len(),
    ensures
        collected_source_sites(s.take(i)).len() <= collected_source_sites(s).len(),
    decreases s.len() - i,
{
    if i == s.len() {
        assert(s.take(i) =~= s);
    } else {
        let t1 = s.take(i + 1);
        assert(t1.drop_last() =~= s.take(i));
        assert(t1.last() == s[i]);
        lemma_collected_source_sites_take(s, i + 1);
    }
}

/// The one `source_sites` value a merged setting holds, when any.
pub open spec fn the_source_sites(s: Seq<ApplyFileSetting>) -> Option<Vec<SourceSiteUpdateForm>> {
    if collected_source_sites(s).len() >= 1 {
        Some(collected_source_sites(s)[0])
    } else {
        None
    }
}

/// Whether any field of the settings is declared more than once.
pub open spec fn any_setting_twice(s: Seq<ApplyFileSetting>) -> bool {
    ||| collected_server(s).len() >= 2
    ||| collected_storage(s).len() >= 2
    ||| collected_query(s).len() >= 2
    ||| collected_meta(s).len() >= 2
    ||| collected_import_opt(s).len() >= 2
    ||| collected_find_similar(s).len() >= 2
    ||| collected_source_sites(s).len() >= 2
}

/// Whether any field of the settings is declared at all.
pub open spec fn any_setting_present(s: Seq<ApplyFileSetting>) -> bool {
    ||| collected_server(s).len() >= 1
    ||| collected_storage(s).len() >= 1
    ||| collected_query(s).len() >= 1
    ||| collected_meta(s).len() >= 1
    ||| collected_import_opt(s).len() >= 1
    ||| collected_find_similar(s).len() >= 1
    ||| collected_source_sites(s).len() >= 1
}

/// Merges several setting parts: each field may be declared in at most
/// one of them — a field declared twice fails — and the merged part
/// exists exactly when some field is declared.
pub fn reduce_apply_setting(settings: Vec<ApplyFileSetting>) -> (r: Result<
    Option<ApplyFileSetting>,
    ApplicationError,
>)
    ensures
        r is Err <==> any_setting_twice(settings@),
        r matches Ok(opt) ==> {
            &&& (opt is Some <==> any_setting_present(settings@))
            &&& opt matches Some(ret) ==> {
                &&& ret.server == the_server(settings@)
                &&& ret.storage == the_storage(settings@)
                &&& ret.query == the_query(settings@)
                &&& ret.meta == the_meta(settings@)
                &&& ret.import == the_import_opt(settings@)
                &&& ret.find_similar == the_find_similar(settings@)
                &&& ret.source_sites == the_source_sites(settings@)
            }
        },
{
    let ghost orig = settings@;
    let n: usize = settings.len();
    proof {
        assert(orig.len() == n);
    }
    let mut ret = ApplyFileSetting {
        meta: None,
        query: None,
        import: None,
        storage: None,
        server: None,
        find_similar: None,
        source_sites: None,
    };
    let mut rest = settings;
    let mut i: usize = 0;
    proof {
        assert(orig.take(0) =~= Seq::<ApplyFileSetting>::empty());
        assert(rest@ =~= orig.skip(0));
    }
    while rest.len() > 0
        invariant
            orig == settings@,
            orig.len() <= usize::MAX,
            0 <= i <= orig.len(),
            rest@ == orig.skip(i as int),
            ret.server == the_server(orig.take(i as int)),
            collected_server(orig.take(i as int)).len() <= 1,
            ret.storage == the_storage(orig.take(i as int)),
            collected_storage(orig.take(i as int)).len() <= 1,
            ret.query == the_query(orig.take(i as int)),
            collected_query(orig.take(i as int)).len() <= 1,
            ret.meta == the_meta(orig.take(i as int)),
            collected_meta(orig.take(i as int)).len() <= 1,
            ret.import == the_import_opt(orig.take(i as int)),
            collected_import_opt(orig.take(i as int)).len() <= 1,
            ret.find_similar == the_find_similar(orig.take(i as int)),
            collected_find_similar(orig.take(i as int)).len() <= 1,
            ret.source_sites == the_source_sites(orig.take(i as int)),
            collected_source_sites(orig.take(i as int)).len() <= 1,
        decreases rest@.len(),
    {
        let setting = rest.remove(0);
        proof {
            assert(orig.skip(i as int)[0] == orig[i as int]);
            assert(setting == orig[i as int]);
            assert(rest@ =~= orig.skip(i as int + 1));
            let t1 = orig.take(i as int + 1);
            assert(t1.drop_last() =~= orig.take(i as int));
            assert(t1.last() == orig[i as int]);
        }
        if let Some(server_value) = setting.server {
            if ret.server.is_none() {
                ret.server = Some(server_value);
            } else {
                proof {
                    assert(collected_server(orig.take(i as int + 1)).len() >= 2);
                    lemma_collected_server_take(orig, i as int + 1);
                    assert(collected_server(orig).len() >= 2);
                    assert(any_setting_twice(orig));
                }
                return Err(ApplicationError::new("setting.server is declared multiple times."));
            }
        }
        if let Some(storage_value) = setting.storage {
            if ret.storage.is_none() {
                ret.storage = Some(storage_value);
            } else {
                proof {
                    assert(collected_storage(orig.take(i as int + 1)).len() >= 2);
                    lemma_collected_storage_take(orig, i as int + 1);
                    assert(collected_storage(orig).len() >= 2);
                    assert(any_setting_twice(orig));
                }
                return Err(ApplicationError::new("setting.storage is declared multiple times."));
            }
        }
        if let Some(query_value) = setting.query {
            if ret.query.is_none() {
                ret.query = Some(query_value);
            } else {
                proof {
                    assert(collected_query(orig.take(i as int + 1)).len() >= 2);
                    lemma_collected_query_take(orig, i as int + 1);
                    assert(collected_query(orig).len() >= 2);
                    assert(any_setting_twice(orig));
                }
                return Err(ApplicationError::new("setting.query is declared multiple times."));
            }
        }
        if let Some(meta_value) = setting.meta {
            if ret.meta.is_none() {
                ret.meta = Some(meta_value);
            } else {
                proof {
                    assert(collected_meta(orig.take(i as int + 1)).len() >= 2);
                    lemma_collected_meta_take(orig, i as int + 1);
                    assert(collected_meta(orig).len() >= 2);
                    assert(any_setting_twice(orig));
                }
                return Err(ApplicationError::new("setting.meta is declared multiple times."));
            }
        }
        if let Some(import_value) = setting.import {
            if ret.import.is_none() {
                ret.import = Some(import_value);
            } else {
                proof {
                    assert(collected_import_opt(orig.take(i as int + 1)).len() >= 2);
                    lemma_collected_import_opt_take(orig, i as int + 1);
                    assert(collected_import_opt(orig).len() >= 2);
                    assert(any_setting_twice(orig));
                }
                return Err(ApplicationError::new("setting.import is declared multiple times."));
            }
        }
        if let Some(find_similar_value) = setting.find_similar {
            if ret.find_similar.is_none() {
                ret.find_similar = Some(find_similar_value);
            } else {
                proof {
                    assert(collected_find_similar(orig.take(i as int + 1)).len() >= 2);
                    lemma_collected_find_similar_take(orig, i as int + 1);
                    assert(collected_find_similar(orig).len() >= 2);
                    assert(any_setting_twice(orig));
                }
                return Err(ApplicationError::new("setting.find_similar is declared multiple times."));
            }
        }
        if let Some(source_sites_value) = setting.source_sites {
            if ret.source_sites.is_none() {
                ret.source_sites = Some(source_sites_value);
            } else {
                proof {
                    assert(collected_source_sites(orig.take(i as int + 1)).len() >= 2);
                    lemma_collected_source_sites_take(orig, i as int + 1);
                    assert(collected_source_sites(orig).len() >= 2);
                    assert(any_setting_twice(orig));
                }
                return Err(ApplicationError::new("setting.source_sites is declared multiple times."));
            }
        }
        i = i + 1;
    }
    proof {
        assert(orig.take(i as int) =~= orig);
    }
    let any = ret.meta.is_some() || ret.query.is_some() || ret.import.is_some()
        || ret.server.is_some() || ret.storage.is_some() || ret.find_similar.is_some()
        || ret.source_sites.is_some();
    if any {
        Ok(Some(ret))
    } else {
        Ok(None)
    }
}

/// The `source_data` entries of the files, those of later files first — the
/// order in which the reduction drains its input.
pub open spec fn gathered_source_data(files: Seq<ApplyFile>) -> Seq<SourceDataBulkForm>
    decreases files.len(),
{
    if files.len() == 0 {
        Seq::empty()
    } else {
        (match files.last().source_data {
            Some(v) => v@,
            None => Seq::empty(),
        }) + gathered_source_data(files.drop_last())
    }
}

/// Putting one file in front of the rest adds its `source_data` entries at the
/// back of the gathered sequence.
proof fn lemma_gathered_source_data_cons(x: ApplyFile, v: Seq<ApplyFile>)
    ensures
        gathered_source_data(seq![x] + v) == gathered_source_data(v) + (match x.source_data {
            Some(w) => w@,
            None => Seq::empty(),
        }),
    decreases v.len(),
{
    reveal_with_fuel(gathered_source_data, 3);
    let s = seq![x] + v;
    if v.len() == 0 {
        assert(s.drop_last() =~= Seq::<ApplyFile>::empty());
        assert(s.last() == x);
        assert(gathered_source_data(s) =~= gathered_source_data(v) + (match x.source_data {
            Some(w) => w@,
            None => Seq::empty(),
        }));
    } else {
        assert(s.last() == v.last());
        assert(s.drop_last() =~= seq![x] + v.drop_last());
        lemma_gathered_source_data_cons(x, v.drop_last());
        assert(gathered_source_data(s) =~= gathered_source_data(v) + (match x.source_data {
            Some(w) => w@,
            None => Seq::empty(),
        }));
    }
}

/// The `tags` entries of the files, those of later files first — the
/// order in which the reduction drains its input.
pub open spec fn gathered_tags(files: Seq<ApplyFile>) -> Seq<TagBulkForm>
    decreases files.len(),
{
    if files.len() == 0 {
        Seq::empty()
    } else {
        (match files.last().tags {
            Some(v) => v@,
            None => Seq::empty(),
        }) + gathered_tags(files.drop_last())
    }
}

/// Putting one file in front of the rest adds its `tags` entries at the
/// back of the gathered sequence.
proof fn lemma_gathered_tags_cons(x: ApplyFile, v: Seq<ApplyFile>)
    ensures
        gathered_tags(seq![x] + v) == gathered_tags(v) + (match x.tags {
            Some(w) => w@,
            None => Seq::empty(),
        }),
    decreases v.len(),
{
    reveal_with_fuel(gathered_tags, 3);
    let s = seq![x] + v;
    if v.len() == 0 {
        assert(s.drop_last() =~= Seq::<ApplyFile>::empty());
        assert(s.last() == x);
        assert(gathered_tags(s) =~= gathered_tags(v) + (match x.tags {
            Some(w) => w@,
            None => Seq::empty(),
        }));
    } else {
        assert(s.last() == v.last());
        assert(s.drop_last() =~= seq![x] + v.drop_last());
        lemma_gathered_tags_cons(x, v.drop_last());
        assert(gathered_tags(s) =~= gathered_tags(v) + (match x.tags {
            Some(w) => w@,
            None => Seq::empty(),
        }));
    }
}

/// The `topics` entries of the files, those of later files first — the
/// order in which the reduction drains its input.
pub open spec fn gathered_topics(files: Seq<ApplyFile>) -> Seq<TopicBulkForm>
    decreases files.len(),
{
    if files.len() == 0 {
        Seq::empty()
    } else {
        (match files.last().topics {
            Some(v) => v@,
            None => Seq::empty(),
        }) + gathered_topics(files.drop_last())
    }
}

/// Putting one file in front of the rest adds its `topics` entries at the
/// back of the gathered sequence.
proof fn lemma_gathered_topics_cons(x: ApplyFile, v: Seq<ApplyFile>)
    ensures
        gathered_topics(seq![x] + v) == gathered_topics(v) + (match x.topics {
            Some(w) => w@,
            None => Seq::empty(),
        }),
    decreases v.len(),
{
    reveal_with_fuel(gathered_topics, 3);
    let s = seq![x] + v;
    if v.len() == 0 {
        assert(s.drop_last() =~= Seq::<ApplyFile>::empty());
        assert(s.last() == x);
        assert(gathered_topics(s) =~= gathered_topics(v) + (match x.topics {
            Some(w) => w@,
            None => Seq::empty(),
        }));
    } else {
        assert(s.last() == v.last());
        assert(s.drop_last() =~= seq![x] + v.drop_last());
        lemma_gathered_topics_cons(x, v.drop_last());
        assert(gathered_topics(s) =~= gathered_topics(v) + (match x.topics {
            Some(w) => w@,
            None => Seq::empty(),
        }));
    }
}

/// The `authors` entries of the files, those of later files first — the
/// order in which the reduction drains its input.
pub open spec fn gathered_authors(files: Seq<ApplyFile>) -> Seq<AuthorBulkForm>
    decreases files.len(),
{
    if files.len() == 0 {
        Seq::empty()
    } else {
        (match files.last().authors {
            Some(v) => v@,
            None => Seq::empty(),
        }) + gathered_authors(files.drop_last())
    }
}

/// Putting one file in front of the rest adds its `authors` entries at the
/// back of the gathered sequence.
proof fn lemma_gathered_authors_cons(x: ApplyFile, v: Seq<ApplyFile>)
    ensures
        gathered_authors(seq![x] + v) == gathered_authors(v) + (match x.authors {
            Some(w) => w@,
            None => Seq::empty(),
        }),
    decreases v.len(),
{
    reveal_with_fuel(gathered_authors, 3);
    let s = seq![x] + v;
    if v.len() == 0 {
        assert(s.drop_last() =~= Seq::<ApplyFile>::empty());
        assert(s.last() == x);
        assert(gathered_authors(s) =~= gathered_authors(v) + (match x.authors {
            Some(w) => w@,
            None => Seq::empty(),
        }));
    } else {
        assert(s.last() == v.last());
        assert(s.drop_last() =~= seq![x] + v.drop_last());
        lemma_gathered_authors_cons(x, v.drop_last());
        assert(gathered_authors(s) =~= gathered_authors(v) + (match x.authors {
            Some(w) => w@,
            None => Seq::empty(),
        }));
    }
}

/// The setting parts of the files, those of later files first — the
/// order in which the reduction drains its input.
pub open spec fn gathered_settings(files: Seq<ApplyFile>) -> Seq<ApplyFileSetting>
    decreases files.len(),
{
    if files.len() == 0 {
        Seq::empty()
    } else {
        (match files.last().setting {
            Some(v) => seq![v],
            None => Seq::empty(),
        }) + gathered_settings(files.drop_last())
    }
}

/// Putting one file in front of the rest adds its setting part at the
/// back of the gathered sequence.
proof fn lemma_gathered_settings_cons(x: ApplyFile, v: Seq<ApplyFile>)
    ensures
        gathered_settings(seq![x] + v) == gathered_settings(v) + (match x.setting {
            Some(w) => seq![w],
            None => Seq::empty(),
        }),
    decreases v.len(),
{
    reveal_with_fuel(gathered_settings, 3);
    let s = seq![x] + v;
    if v.len() == 0 {
        assert(s.drop_last() =~= Seq::<ApplyFile>::empty());
        assert(s.last() == x);
        assert(gathered_settings(s) =~= gathered_settings(v) + (match x.setting {
            Some(w) => seq![w],
            None => Seq::empty(),
        }));
    } else {
        assert(s.last() == v.last());
        assert(s.drop_last() =~= seq![x] + v.drop_last());
        lemma_gathered_settings_cons(x, v.drop_last());
        assert(gathered_settings(s) =~= gathered_settings(v) + (match x.setting {
            Some(w) => seq![w],
            None => Seq::empty(),
        }));
    }
}

/// Merges several apply files into one: the bulk entries of all files
/// are strung together (later files first), each setting field may be
/// declared by at most one file, and an empty part stays absent.
pub fn reduce_apply_files(files: Vec<ApplyFile>) -> (r: Result<ApplyFile, ApplicationError>)
    ensures
        r is Err <==> any_setting_twice(gathered_settings(files@)),
        r matches Ok(out) ==> {
            &&& match out.source_data {
                Some(v) => v@ == gathered_source_data(files@) && v@.len() > 0,
                None => gathered_source_data(files@).len() == 0,
            }
            &&& match out.tags {
                Some(v) => v@ == gathered_tags(files@) && v@.len() > 0,
                None => gathered_tags(files@).len() == 0,
            }
            &&& match out.topics {
                Some(v) => v@ == gathered_topics(files@) && v@.len() > 0,
                None => gathered_topics(files@).len() == 0,
            }
            &&& match out.authors {
                Some(v) => v@ == gathered_authors(files@) && v@.len() > 0,
                None => gathered_authors(files@).len() == 0,
            }
            &&& (out.setting is Some <==> any_setting_present(gathered_settings(files@)))
            &&& out.setting matches Some(st) ==> {
                &&& st.server == the_server(gathered_settings(files@))
                &&& st.storage == the_storage(gathered_settings(files@))
                &&& st.query == the_query(gathered_settings(files@))
                &&& st.meta == the_meta(gathered_settings(files@))
                &&& st.import == the_import_opt(gathered_settings(files@))
                &&& st.find_similar == the_find_similar(gathered_settings(files@))
                &&& st.source_sites == the_source_sites(gathered_settings(files@))
            }
        },
{
    let ghost orig = files@;
    let mut cur = files;
    let mut ret_source_data: Vec<SourceDataBulkForm> = Vec::new();
    let mut ret_tags: Vec<TagBulkForm> = Vec::new();
    let mut ret_topics: Vec<TopicBulkForm> = Vec::new();
    let mut ret_authors: Vec<AuthorBulkForm> = Vec::new();
    let mut ret_settings: Vec<ApplyFileSetting> = Vec::new();
    proof {
        assert(orig.skip(orig.len() as int) =~= Seq::<ApplyFile>::empty());
    }
    while cur.len() > 0
        invariant
            orig == files@,
            cur@.len() <= orig.len(),
            cur@ == orig.take(cur@.len() as int),
            ret_source_data@ == gathered_source_data(orig.skip(cur@.len() as int)),
            ret_tags@ == gathered_tags(orig.skip(cur@.len() as int)),
            ret_topics@ == gathered_topics(orig.skip(cur@.len() as int)),
            ret_authors@ == gathered_authors(orig.skip(cur@.len() as int)),
            ret_settings@ == gathered_settings(orig.skip(cur@.len() as int)),
        decreases cur@.len(),
    {
        let mlen: usize = cur.len();
        let ghost m = mlen as int;
        proof {
            assert(cur@ == orig.take(m));
        }
        let f = match cur.pop() {
            Some(f) => f,
            None => {
                proof {
                    assert(false);
                }
                return Err(ApplicationError::new("apply files is empty."));
            },
        };
        proof {
            assert(cur@ =~= orig.take(m - 1));
            assert(f == orig[m - 1]);
            assert(orig.skip(m - 1) =~= seq![orig[m - 1]] + orig.skip(m));
            lemma_gathered_source_data_cons(orig[m - 1], orig.skip(m));
            lemma_gathered_tags_cons(orig[m - 1], orig.skip(m));
            lemma_gathered_topics_cons(orig[m - 1], orig.skip(m));
            lemma_gathered_authors_cons(orig[m - 1], orig.skip(m));
            lemma_gathered_settings_cons(orig[m - 1], orig.skip(m));
        }
        if let Some(mut source_data) = f.source_data {
            ret_source_data.append(&mut source_data);
        }
        if let Some(mut tags) = f.tags {
            ret_tags.append(&mut tags);
        }
        if let Some(mut topics) = f.topics {
            ret_topics.append(&mut topics);
        }
        if let Some(mut authors) = f.authors {
            ret_authors.append(&mut authors);
        }
        if let Some(setting) = f.setting {
            ret_settings.push(setting);
        }
        proof {
            assert(ret_source_data@ =~= gathered_source_data(orig.skip(m - 1)));
            assert(ret_tags@ =~= gathered_tags(orig.skip(m - 1)));
            assert(ret_topics@ =~= gathered_topics(orig.skip(m - 1)));
            assert(ret_authors@ =~= gathered_authors(orig.skip(m - 1)));
            assert(ret_settings@ =~= gathered_settings(orig.skip(m - 1)));
        }
    }
    proof {
        assert(orig.skip(0) =~= orig);
    }
    let setting = match reduce_apply_setting(ret_settings) {
        Ok(s) => s,
        Err(e) => {
            return Err(e);
        },
    };
    Ok(
        ApplyFile {
            source_data: if ret_source_data.is_empty() {
                None
            } else {
                Some(ret_source_data)
            },
            tags: if ret_tags.is_empty() {
                None
            } else {
                Some(ret_tags)
            },
            topics: if ret_topics.is_empty() {
                None
            } else {
                Some(ret_topics)
            },
            authors: if ret_authors.is_empty() {
                None
            } else {
                Some(ret_authors)
            },
            setting,
        },
    )
}

} // verus!
