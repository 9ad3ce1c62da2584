//! The database connect module: decides how to connect, parses the
//! origin id column, and applies the underscore-to-space translation to
//! freshly read download results.

use vstd::prelude::*;
use vstd::string::StrSliceExecFns;

use crate::config::Connect;
use crate::config::LocalConfig;
use crate::download::DownloadBook;
use crate::download::DownloadResult;
use crate::download::DownloadTag;
use crate::error::ApplicationError;
use crate::session::take_number;
use crate::text::chars_eq;
use crate::text::spec_digits;
use crate::text::spec_underscore_to_space;
use crate::text::underscore_to_space;

verus! {

/// Knows the connect configuration.
pub struct ConnectModule<'t> {
    pub config: &'t Option<Connect>,
}

/// How to connect: the configuration is missing, the driver is the
/// supported embedded database, or the driver is something else.
#[derive(PartialEq, Eq, Structural, Clone, Copy, Debug)]
pub enum ConnectPlan {
    NotConfigured,
    OpenSqlite,
    UnsupportedDriver,
}

/// The driver word names the embedded database, compared without regard
/// to ascii case.
pub open spec fn spec_is_sqlite(s: Seq<char>) -> bool {
    &&& s.len() == 6
    &&& (s[0] == 's' || s[0] == 'S')
    &&& (s[1] == 'q' || s[1] == 'Q')
    &&& (s[2] == 'l' || s[2] == 'L')
    &&& (s[3] == 'i' || s[3] == 'I')
    &&& (s[4] == 't' || s[4] == 'T')
    &&& (s[5] == 'e' || s[5] == 'E')
}

/// Decides whether the driver word names the embedded database.
fn is_sqlite(s: &str) -> (r: bool)
    ensures
        r == spec_is_sqlite(s@),
{
    if s.unicode_len() != 6 {
        return false;
    }
    let c0 = s.get_char(0);
    let c1 = s.get_char(1);
    let c2 = s.get_char(2);
    let c3 = s.get_char(3);
    let c4 = s.get_char(4);
    let c5 = s.get_char(5);
    (c0 == 's' || c0 == 'S') && (c1 == 'q' || c1 == 'Q') && (c2 == 'l' || c2 == 'L') && (c3 == 'i'
        || c3 == 'I') && (c4 == 't' || c4 == 'T') && (c5 == 'e' || c5 == 'E')
}

impl<'t> ConnectModule<'t> {
    /// A connect module over the loaded configuration.
    pub fn new(config: &'t LocalConfig) -> (r: ConnectModule<'t>)
        ensures
            r.config == &config.connect,
    {
        ConnectModule { config: &config.connect }
    }

    /// Decides how to connect: missing configuration and an unsupported
    /// driver each fail with their own error; only the embedded database
    /// is opened.
    pub fn connect_plan(&self) -> (r: ConnectPlan)
        ensures
            r == match self.config {
                None => ConnectPlan::NotConfigured,
                Some(c) => if spec_is_sqlite(c.driver@) {
                    ConnectPlan::OpenSqlite
                } else {
                    ConnectPlan::UnsupportedDriver
                },
            },
    {
        match self.config {
            None => ConnectPlan::NotConfigured,
            Some(c) => {
                if is_sqlite(c.driver.as_str()) {
                    ConnectPlan::OpenSqlite
                } else {
                    ConnectPlan::UnsupportedDriver
                }
            },
        }
    }
}

// ---------------------------------------------------------------------------
// Origin id parsing.
// ---------------------------------------------------------------------------

/// Index of the first underscore, if any.
pub open spec fn find_underscore(s: Seq<char>) -> Option<int>
    decreases s.len(),
{
    if s.len() == 0 {
        None
    } else if s[0] == '_' {
        Some(0)
    } else {
        match find_underscore(s.skip(1)) {
            Some(j) => Some(1 + j),
            None => None,
        }
    }
}

/// The sequence with every leading `p` removed.
pub open spec fn trim_p_front(s: Seq<char>) -> Seq<char>
    decreases s.len(),
{
    if s.len() > 0 && s[0] == 'p' {
        trim_p_front(s.skip(1))
    } else {
        s
    }
}

/// The sequence with every trailing `p` removed.
pub open spec fn trim_p_back(s: Seq<char>) -> Seq<char>
    decreases s.len(),
{
    if s.len() > 0 && s.last() == 'p' {
        trim_p_back(s.drop_last())
    } else {
        s
    }
}

/// The sequence with every leading and trailing `p` removed.
pub open spec fn trim_p(s: Seq<char>) -> Seq<char> {
    trim_p_back(trim_p_front(s))
}

/// A whole text read as a number of one to eighteen digits, at most
/// `max`.
pub open spec fn spec_number(s: Seq<char>, max: int) -> Option<int> {
    match take_number(s, max) {
        Some((v, rest)) => if rest.len() == 0 {
            Some(v)
        } else {
            None
        },
        None => None,
    }
}

/// Meaning of an origin id column: either a bare source id, or a source
/// id and a part, split at the first underscore, the part stripped of its
/// `p` marks.
pub open spec fn spec_parse_origin_pid(s: Seq<char>) -> Option<(int, Option<int>)> {
    match find_underscore(s) {
        Some(i) => match spec_number(s.take(i), 0x7fff_ffff_ffff_ffff) {
            Some(id) => match spec_number(trim_p(s.skip(i + 1)), 0x7fff_ffff) {
                Some(part) => Some((id, Some(part))),
                None => None,
            },
            None => None,
        },
        None => match spec_number(s, 0x7fff_ffff_ffff_ffff) {
            Some(id) => Some((id, None)),
            None => None,
        },
    }
}

/// Reads a whole text as a number.
fn number_exec(s: &str, max: i64) -> (r: Option<i64>)
    requires
        max >= 0,
    ensures
        match r {
            Some(v) => 0 <= v <= max && spec_number(s@, max as int) == Some(v as int),
            None => spec_number(s@, max as int) is None,
        },
{
    match crate::session::take_number_exec(s, max) {
        Some((v, rest)) => {
            if rest.unicode_len() == 0 {
                Some(v)
            } else {
                None
            }
        },
        None => None,
    }
}

/// Finds the first underscore.
fn find_underscore_exec(s: &str) -> (r: Option<usize>)
    ensures
        match r {
            Some(i) => find_underscore(s@) == Some(i as int),
            None => find_underscore(s@) is None,
        },
{
    let len = s.unicode_len();
    let mut i: usize = 0;
    proof {
        assert(s@.skip(0) =~= s@);
    }
    while i < len
        invariant
            i <= len,
            len == s@.len(),
            find_underscore(s@) == match find_underscore(s@.skip(i as int)) {
                Some(j) => Some(i + j),
                None => None::<int>,
            },
        decreases len - i,
    {
        let c = s.get_char(i);
        proof {
            let t = s@.skip(i as int);
            assert(t[0] == s@[i as int]);
            assert(t.skip(1) =~= s@.skip(i as int + 1));
        }
        if c == '_' {
            return Some(i);
        }
        i = i + 1;
    }
    proof {
        assert(s@.skip(i as int) =~= Seq::<char>::empty());
    }
    None
}

/// A found underscore lies within the sequence.
proof fn lemma_find_underscore_bounds(s: Seq<char>)
    ensures
        match find_underscore(s) {
            Some(i) => 0 <= i < s.len(),
            None => true,
        },
    decreases s.len(),
{
    if s.len() > 0 && s[0] != '_' {
        lemma_find_underscore_bounds(s.skip(1));
    }
}

/// Strips every leading and trailing `p`.
fn trim_p_exec(s: &str) -> (r: &str)
    ensures
        r@ == trim_p(s@),
{
    let len = s.unicode_len();
    let mut i: usize = 0;
    proof {
        assert(s@.skip(0) =~= s@);
    }
    while i < len && s.get_char(i) == 'p'
        invariant
            i <= len,
            len == s@.len(),
            trim_p_front(s@) == trim_p_front(s@.skip(i as int)),
        decreases len - i,
    {
        proof {
            let t = s@.skip(i as int);
            assert(t[0] == s@[i as int]);
            assert(t.skip(1) =~= s@.skip(i as int + 1));
        }
        i = i + 1;
    }
    proof {
        let t = s@.skip(i as int);
        if i < len {
            assert(t[0] == s@[i as int]);
            assert(trim_p_front(t) == t);
        } else {
            assert(t =~= Seq::<char>::empty());
            assert(trim_p_front(t) == t);
        }
    }
    let front = s.substring_char(i, len);
    proof {
        assert(front@ =~= s@.skip(i as int));
    }
    let flen = front.unicode_len();
    let mut j: usize = flen;
    proof {
        assert(front@.take(flen as int) =~= front@);
    }
    while j > 0 && front.get_char(j - 1) == 'p'
        invariant
            j <= flen,
            flen == front@.len(),
            trim_p_back(front@) == trim_p_back(front@.take(j as int)),
        decreases j,
    {
        proof {
            let t = front@.take(j as int);
            assert(t.last() == front@[j - 1]);
            assert(t.drop_last() =~= front@.take(j as int - 1));
        }
        j = j - 1;
    }
    proof {
        let t = front@.take(j as int);
        if j > 0 {
            assert(t.last() == front@[j - 1]);
            assert(trim_p_back(t) == t);
        } else {
            assert(t =~= Seq::<char>::empty());
            assert(trim_p_back(t) == t);
        }
    }
    let r = front.substring_char(0, j);
    proof {
        assert(r@ =~= front@.take(j as int));
    }
    r
}

/// Parses the origin id column into a source id and an optional part;
/// fails with an error naming the column when the text is not numeric.
pub fn parse_origin_pid(pid: &str) -> (r: Result<(i64, Option<i32>), ApplicationError>)
    ensures
        match r {
            Ok((id, part)) => spec_parse_origin_pid(pid@) == Some(
                (
                    id as int,
                    match part {
                        Some(p) => Some(p as int),
                        None => None::<int>,
                    },
                ),
            ),
            Err(_) => spec_parse_origin_pid(pid@) is None,
        },
{
    match find_underscore_exec(pid) {
        Some(i) => {
            proof {
                lemma_find_underscore_bounds(pid@);
            }
            let len = pid.unicode_len();
            let left = pid.substring_char(0, i);
            let right = pid.substring_char(i + 1, len);
            proof {
                assert(left@ =~= pid@.take(i as int));
                assert(right@ =~= pid@.skip(i as int + 1));
            }
            let id = match number_exec(left, 9223372036854775807i64) {
                Some(v) => v,
                None => {
                    return Err(ApplicationError::new("Cannot parse origin pid."));
                },
            };
            let part_text = trim_p_exec(right);
            let part = match number_exec(part_text, 2147483647i64) {
                Some(v) => v as i32,
                None => {
                    return Err(ApplicationError::new("Cannot parse origin pid part."));
                },
            };
            Ok((id, Some(part)))
        },
        None => {
            match number_exec(pid, 9223372036854775807i64) {
                Some(v) => Ok((v, None)),
                None => Err(ApplicationError::new("Cannot parse origin pid.")),
            }
        },
    }
}

// ---------------------------------------------------------------------------
// Underscore-to-space translation of download results.
// ---------------------------------------------------------------------------

/// The prefix naming one additional-info field in a translate type.
pub open spec fn ai_prefix() -> Seq<char> {
    "additional_info."@
}

/// A translate type naming an additional-info field.
pub open spec fn is_ai_type(s: Seq<char>) -> bool {
    s.len() >= ai_prefix().len() && s.take(ai_prefix().len() as int) == ai_prefix()
}

/// What one configured translate type means.
#[derive(PartialEq, Eq, Structural, Clone, Copy, Debug)]
pub enum TranslateKind {
    Title,
    Description,
    TagCode,
    TagName,
    TagOtherName,
    TagType,
    BookCode,
    BookTitle,
    BookOtherTitle,
    AiField,
    Unknown,
}

/// Reads one translate type word.
pub open spec fn spec_translate_kind(s: Seq<char>) -> TranslateKind {
    if s == "title"@ {
        TranslateKind::Title
    } else if s == "description"@ {
        TranslateKind::Description
    } else if s == "tag.code"@ {
        TranslateKind::TagCode
    } else if s == "tag.name"@ {
        TranslateKind::TagName
    } else if s == "tag.other_name"@ {
        TranslateKind::TagOtherName
    } else if s == "tag.type"@ {
        TranslateKind::TagType
    } else if s == "book.code"@ {
        TranslateKind::BookCode
    } else if s == "book.title"@ {
        TranslateKind::BookTitle
    } else if s == "book.other_title"@ {
        TranslateKind::BookOtherTitle
    } else if is_ai_type(s) {
        TranslateKind::AiField
    } else {
        TranslateKind::Unknown
    }
}

/// Some translate type of the list means the given kind.
pub open spec fn has_kind(ts: Seq<String>, k: TranslateKind) -> bool
    decreases ts.len(),
{
    if ts.len() == 0 {
        false
    } else {
        has_kind(ts.drop_last(), k) || spec_translate_kind(ts.last()@) == k
    }
}

/// The additional-info fields named by the translate types, in order.
pub open spec fn ai_suffixes(ts: Seq<String>) -> Seq<Seq<char>>
    decreases ts.len(),
{
    if ts.len() == 0 {
        Seq::empty()
    } else {
        ai_suffixes(ts.drop_last()) + (if spec_translate_kind(ts.last()@) is AiField {
            seq![ts.last()@.skip(ai_prefix().len() as int)]
        } else {
            Seq::empty()
        })
    }
}

/// A list has the kind of any of its members.
proof fn lemma_has_kind_member(ts: Seq<String>, i: int, k: TranslateKind)
    requires
        0 <= i < ts.len(),
        spec_translate_kind(ts[i]@) == k,
    ensures
        has_kind(ts, k),
    decreases ts.len(),
{
    if i < ts.len() - 1 {
        lemma_has_kind_member(ts.drop_last(), i, k);
    }
}

/// Classifies one translate type word, handing out the named
/// additional-info field when there is one.
fn classify_type(s: &str) -> (r: (TranslateKind, Option<String>))
    ensures
        r.0 == spec_translate_kind(s@),
        r.0 is AiField ==> (r.1 matches Some(f) && f@ == s@.skip(ai_prefix().len() as int)),
{
    if chars_eq(s, "title") {
        (TranslateKind::Title, None)
    } else if chars_eq(s, "description") {
        (TranslateKind::Description, None)
    } else if chars_eq(s, "tag.code") {
        (TranslateKind::TagCode, None)
    } else if chars_eq(s, "tag.name") {
        (TranslateKind::TagName, None)
    } else if chars_eq(s, "tag.other_name") {
        (TranslateKind::TagOtherName, None)
    } else if chars_eq(s, "tag.type") {
        (TranslateKind::TagType, None)
    } else if chars_eq(s, "book.code") {
        (TranslateKind::BookCode, None)
    } else if chars_eq(s, "book.title") {
        (TranslateKind::BookTitle, None)
    } else if chars_eq(s, "book.other_title") {
        (TranslateKind::BookOtherTitle, None)
    } else {
        let slen = s.unicode_len();
        let plen = "additional_info.".unicode_len();
        if slen >= plen {
            let head = s.substring_char(0, plen);
            if chars_eq(head, "additional_info.") {
                let field = s.substring_char(plen, slen);
                proof {
                    assert(head@ =~= s@.take(plen as int));
                    assert(field@ =~= s@.skip(plen as int));
                    assert(is_ai_type(s@));
                }
                (TranslateKind::AiField, Some(field.to_owned()))
            } else {
                proof {
                    assert(!is_ai_type(s@)) by {
                        assert(head@ =~= s@.take(plen as int));
                    }
                }
                (TranslateKind::Unknown, None)
            }
        } else {
            (TranslateKind::Unknown, None)
        }
    }
}

/// Which parts of a freshly read download result get their underscores
/// replaced by spaces.
pub struct UnderscoreTranslator {
    pub title: bool,
    pub description: bool,
    pub tag_code: bool,
    pub tag_name: bool,
    pub tag_other_name: bool,
    pub tag_type: bool,
    pub book_code: bool,
    pub book_title: bool,
    pub book_other_title: bool,
    pub additional_info: Vec<String>,
}

impl UnderscoreTranslator {
    /// The field set holds the name.
    pub open spec fn ai_contains(&self, field: Seq<char>) -> bool {
        exists|j: int| 0 <= j < self.additional_info@.len() && self.additional_info@[j]@ == field
    }

    /// A translator that touches nothing.
    pub fn empty() -> (r: UnderscoreTranslator)
        ensures
            !r.title,
            !r.description,
            !r.tag_code,
            !r.tag_name,
            !r.tag_other_name,
            !r.tag_type,
            !r.book_code,
            !r.book_title,
            !r.book_other_title,
            r.additional_info@.len() == 0,
    {
        UnderscoreTranslator {
            title: false,
            description: false,
            tag_code: false,
            tag_name: false,
            tag_other_name: false,
            tag_type: false,
            book_code: false,
            book_title: false,
            book_other_title: false,
            additional_info: Vec::new(),
        }
    }

    /// Reads the configured translate types: each flag is set exactly
    /// when its type occurs, the named additional-info fields are kept in
    /// order, and any unrecognized type fails.
    pub fn new(types: &Vec<String>) -> (r: Result<UnderscoreTranslator, ApplicationError>)
        ensures
            r is Err <==> has_kind(types@, TranslateKind::Unknown),
            r matches Ok(t) ==> {
                &&& t.title == has_kind(types@, TranslateKind::Title)
                &&& t.description == has_kind(types@, TranslateKind::Description)
                &&& t.tag_code == has_kind(types@, TranslateKind::TagCode)
                &&& t.tag_name == has_kind(types@, TranslateKind::TagName)
                &&& t.tag_other_name == has_kind(types@, TranslateKind::TagOtherName)
                &&& t.tag_type == has_kind(types@, TranslateKind::TagType)
                &&& t.book_code == has_kind(types@, TranslateKind::BookCode)
                &&& t.book_title == has_kind(types@, TranslateKind::BookTitle)
                &&& t.book_other_title == has_kind(types@, TranslateKind::BookOtherTitle)
                &&& t.additional_info@.map_values(|x: String| x@) == ai_suffixes(types@)
            },
    {
        let mut title = false;
        let mut description = false;
        let mut tag_code = false;
        let mut tag_name = false;
        let mut tag_other_name = false;
        let mut tag_type = false;
        let mut book_code = false;
        let mut book_title = false;
        let mut book_other_title = false;
        let mut ai: Vec<String> = Vec::new();
        let mut i: usize = 0;
        proof {
            assert(types@.take(0) =~= Seq::<String>::empty());
            assert(ai@.map_values(|x: String| x@) =~= ai_suffixes(types@.take(0)));
        }
        while i < types.len()
            invariant
                i <= types@.len(),
                !has_kind(types@.take(i as int), TranslateKind::Unknown),
                title == has_kind(types@.take(i as int), TranslateKind::Title),
                description == has_kind(types@.take(i as int), TranslateKind::Description),
                tag_code == has_kind(types@.take(i as int), TranslateKind::TagCode),
                tag_name == has_kind(types@.take(i as int), TranslateKind::TagName),
                tag_other_name == has_kind(types@.take(i as int), TranslateKind::TagOtherName),
                tag_type == has_kind(types@.take(i as int), TranslateKind::TagType),
                book_code == has_kind(types@.take(i as int), TranslateKind::BookCode),
                book_title == has_kind(types@.take(i as int), TranslateKind::BookTitle),
                book_other_title == has_kind(types@.take(i as int), TranslateKind::BookOtherTitle),
                ai@.map_values(|x: String| x@) == ai_suffixes(types@.take(i as int)),
            decreases types@.len() - i,
        {
            let s = &types[i];
            let ghost prev_ai = ai@;
            let (kind, ai_field) = classify_type(s.as_str());
            if matches!(kind, TranslateKind::Unknown) {
                proof {
                    lemma_has_kind_member(types@, i as int, TranslateKind::Unknown);
                }
                return Err(ApplicationError::new("Unrecognized underscore translate type."));
            }
            if matches!(kind, TranslateKind::Title) {
                title = true;
            }
            if matches!(kind, TranslateKind::Description) {
                description = true;
            }
            if matches!(kind, TranslateKind::TagCode) {
                tag_code = true;
            }
            if matches!(kind, TranslateKind::TagName) {
                tag_name = true;
            }
            if matches!(kind, TranslateKind::TagOtherName) {
                tag_other_name = true;
            }
            if matches!(kind, TranslateKind::TagType) {
                tag_type = true;
            }
            if matches!(kind, TranslateKind::BookCode) {
                book_code = true;
            }
            if matches!(kind, TranslateKind::BookTitle) {
                book_title = true;
            }
            if matches!(kind, TranslateKind::BookOtherTitle) {
                book_other_title = true;
            }
            if matches!(kind, TranslateKind::AiField) {
                let field = match ai_field {
                    Some(f) => f,
                    None => {
                        proof {
                            assert(false);
                        }
                        String::new()
                    },
                };
                ai.push(field);
                proof {
                    assert(ai@.map_values(|x: String| x@) =~= prev_ai.map_values(
                        |x: String| x@,
                    ).push(types@[i as int]@.skip(ai_prefix().len() as int)));
                }
            }
            proof {
                let t1 = types@.take(i as int + 1);
                assert(t1.drop_last() =~= types@.take(i as int));
                assert(t1.last() == types@[i as int]);
                if spec_translate_kind(types@[i as int]@) is AiField {
                    assert(ai_suffixes(t1) =~= ai_suffixes(types@.take(i as int)).push(
                        types@[i as int]@.skip(ai_prefix().len() as int),
                    ));
                } else {
                    assert(ai_suffixes(t1) =~= ai_suffixes(types@.take(i as int)));
                }
            }
            i = i + 1;
        }
        proof {
            assert(types@.take(types@.len() as int) =~= types@);
        }
        Ok(
            UnderscoreTranslator {
                title,
                description,
                tag_code,
                tag_name,
                tag_other_name,
                tag_type,
                book_code,
                book_title,
                book_other_title,
                additional_info: ai,
            },
        )
    }
}
/// The text with its underscores replaced when the translation applies,
/// unchanged otherwise.
pub open spec fn mapped_text(orig: Seq<char>, res: Seq<char>, apply: bool) -> bool {
    res == if apply {
        spec_underscore_to_space(orig)
    } else {
        orig
    }
}

/// As `mapped_text`, lifted to an optional text.
pub open spec fn mapped_opt(orig: Option<String>, res: Option<String>, apply: bool) -> bool {
    match (orig, res) {
        (Some(a), Some(b)) => mapped_text(a@, b@, apply),
        (None, None) => true,
        _ => false,
    }
}

/// Applies the translation to an optional text.
fn map_opt(o: Option<String>, apply: bool) -> (r: Option<String>)
    ensures
        mapped_opt(o, r, apply),
{
    if apply {
        match o {
            Some(s) => Some(underscore_to_space(s.as_str())),
            None => None,
        }
    } else {
        o
    }
}

/// Decides whether the list holds the given text.
fn contains_str(v: &Vec<String>, s: &str) -> (r: bool)
    ensures
        r == exists|j: int| 0 <= j < v@.len() && v@[j]@ == s@,
{
    let mut i: usize = 0;
    while i < v.len()
        invariant
            i <= v@.len(),
            forall|k: int| 0 <= k < i ==> v@[k]@ != s@,
        decreases v@.len() - i,
    {
        if chars_eq(v[i].as_str(), s) {
            return true;
        }
        i = i + 1;
    }
    false
}

/// Applies the configured underscore-to-space translation to a freshly
/// read download result: each translated part has its underscores
/// replaced, every other part is kept as it came.
pub fn map_result_underscore_to_space(
    r: DownloadResult,
    translator: &UnderscoreTranslator,
) -> (out: DownloadResult)
    ensures
        mapped_opt(r.title, out.title, translator.title),
        mapped_opt(r.description, out.description, translator.description),
        match (r.tags, out.tags) {
            (Some(a), Some(b)) => b@.len() == a@.len() && forall|i: int|
                0 <= i < a@.len() ==> mapped_text(a@[i].code@, b@[i].code@, translator.tag_code)
                    && mapped_opt(a@[i].name, b@[i].name, translator.tag_name) && mapped_opt(
                    a@[i].other_name,
                    b@[i].other_name,
                    translator.tag_other_name,
                ) && mapped_opt(a@[i].tag_type, b@[i].tag_type, translator.tag_type),
            (None, None) => true,
            _ => false,
        },
        match (r.books, out.books) {
            (Some(a), Some(b)) => b@.len() == a@.len() && forall|i: int|
                0 <= i < a@.len() ==> mapped_text(a@[i].code@, b@[i].code@, translator.book_code)
                    && mapped_opt(a@[i].title, b@[i].title, translator.book_title) && mapped_opt(
                    a@[i].other_title,
                    b@[i].other_title,
                    translator.book_other_title,
                ),
            (None, None) => true,
            _ => false,
        },
        match (r.relations, out.relations) {
            (Some(a), Some(b)) => b@ == a@,
            (None, None) => true,
            _ => false,
        },
        match (r.additional_info, out.additional_info) {
            (Some(a), Some(b)) => b@.len() == a@.len() && forall|i: int|
                0 <= i < a@.len() ==> b@[i].field@ == a@[i].field@ && mapped_text(
                    a@[i].value@,
                    b@[i].value@,
                    translator.ai_contains(a@[i].field@),
                ),
            (None, None) => true,
            _ => false,
        },
{
    let title = map_opt(r.title, translator.title);
    let description = map_opt(r.description, translator.description);
    let tags = match r.tags {
        Some(a) => {
            let mut b: Vec<DownloadTag> = Vec::new();
            let mut i: usize = 0;
            while i < a.len()
                invariant
                    i <= a@.len(),
                    b@.len() == i,
                    forall|k: int|
                        0 <= k < i ==> mapped_text(
                            a@[k].code@,
                            b@[k].code@,
                            translator.tag_code,
                        ) && mapped_opt(a@[k].name, b@[k].name, translator.tag_name) && mapped_opt(
                            a@[k].other_name,
                            b@[k].other_name,
                            translator.tag_other_name,
                        ) && mapped_opt(a@[k].tag_type, b@[k].tag_type, translator.tag_type),
                decreases a@.len() - i,
            {
                let tag = &a[i];
                let code = if translator.tag_code {
                    underscore_to_space(tag.code.as_str())
                } else {
                    tag.code.clone()
                };
                b.push(
                    DownloadTag {
                        code,
                        name: map_opt(clone_opt(&tag.name), translator.tag_name),
                        other_name: map_opt(clone_opt(&tag.other_name), translator.tag_other_name),
                        tag_type: map_opt(clone_opt(&tag.tag_type), translator.tag_type),
                    },
                );
                i = i + 1;
            }
            Some(b)
        },
        None => None,
    };
    let books = match r.books {
        Some(a) => {
            let mut b: Vec<DownloadBook> = Vec::new();
            let mut i: usize = 0;
            while i < a.len()
                invariant
                    i <= a@.len(),
                    b@.len() == i,
                    forall|k: int|
                        0 <= k < i ==> mapped_text(
                            a@[k].code@,
                            b@[k].code@,
                            translator.book_code,
                        ) && mapped_opt(a@[k].title, b@[k].title, translator.book_title)
                            && mapped_opt(
                            a@[k].other_title,
                            b@[k].other_title,
                            translator.book_other_title,
                        ),
                decreases a@.len() - i,
            {
                let book = &a[i];
                let code = if translator.book_code {
                    underscore_to_space(book.code.as_str())
                } else {
                    book.code.clone()
                };
                b.push(
                    DownloadBook {
                        code,
                        title: map_opt(clone_opt(&book.title), translator.book_title),
                        other_title: map_opt(
                            clone_opt(&book.other_title),
                            translator.book_other_title,
                        ),
                    },
                );
                i = i + 1;
            }
            Some(b)
        },
        None => None,
    };
    let additional_info = match r.additional_info {
        Some(a) => {
            let mut b: Vec<crate::source_data::AdditionalInfoForm> = Vec::new();
            let mut i: usize = 0;
            while i < a.len()
                invariant
                    i <= a@.len(),
                    b@.len() == i,
                    forall|k: int|
                        0 <= k < i ==> #[trigger] b@[k].field@ == a@[k].field@ && mapped_text(
                            a@[k].value@,
                            b@[k].value@,
                            translator.ai_contains(a@[k].field@),
                        ),
                decreases a@.len() - i,
            {
                let entry = &a[i];
                let keep = contains_str(&translator.additional_info, entry.field.as_str());
                let value = if keep {
                    underscore_to_space(entry.value.as_str())
                } else {
                    entry.value.clone()
                };
                b.push(
                    crate::source_data::AdditionalInfoForm { field: entry.field.clone(), value },
                );
                i = i + 1;
            }
            Some(b)
        },
        None => None,
    };
    DownloadResult { title, description, tags, books, relations: r.relations, additional_info }
}

/// Copies an optional text.
fn clone_opt(o: &Option<String>) -> (r: Option<String>)
    ensures
        r == *o,
{
    match o {
        Some(s) => Some(s.clone()),
        None => None,
    }
}

// ---------------------------------------------------------------------------
// Statement text building.
// ---------------------------------------------------------------------------

/// The text with every occurrence of the non-empty pattern replaced,
/// scanning from the left without overlap.
pub open spec fn spec_replace(s: Seq<char>, pat: Seq<char>, to: Seq<char>) -> Seq<char>
    decreases s.len(),
{
    if s.len() == 0 {
        Seq::empty()
    } else if 0 < pat.len() <= s.len() && s.take(pat.len() as int) == pat {
        to + spec_replace(s.skip(pat.len() as int), pat, to)
    } else {
        seq![s[0]] + spec_replace(s.skip(1), pat, to)
    }
}

/// Replaces every occurrence of the non-empty pattern, scanning from the
/// left without overlap.
pub fn replace_all(s: &str, pat: &str, to: &str) -> (r: String)
    requires
        pat@.len() > 0,
    ensures
        r@ == spec_replace(s@, pat@, to@),
{
    let slen = s.unicode_len();
    let plen = pat.unicode_len();
    let mut out = String::new();
    let mut i: usize = 0;
    proof {
        assert(s@.skip(0) =~= s@);
        assert(out@ + spec_replace(s@.skip(0), pat@, to@) =~= spec_replace(s@, pat@, to@));
    }
    while i < slen
        invariant
            i <= slen,
            slen == s@.len(),
            plen == pat@.len(),
            plen > 0,
            spec_replace(s@, pat@, to@) == out@ + spec_replace(s@.skip(i as int), pat@, to@),
        decreases slen - i,
    {
        let ghost t = s@.skip(i as int);
        let matched = if plen <= slen - i {
            let head = s.substring_char(i, i + plen);
            proof {
                assert(head@ =~= t.take(plen as int));
            }
            chars_eq(head, pat)
        } else {
            false
        };
        if matched {
            out.append(to);
            proof {
                assert(t.skip(plen as int) =~= s@.skip(i as int + plen as int));
                assert(spec_replace(t, pat@, to@) == to@ + spec_replace(
                    s@.skip(i as int + plen as int),
                    pat@,
                    to@,
                ));
            }
            i = i + plen;
        } else {
            let one = s.substring_char(i, i + 1);
            out.append(one);
            proof {
                assert(one@ =~= seq![t[0]]);
                assert(t.skip(1) =~= s@.skip(i as int + 1));
                assert(spec_replace(t, pat@, to@) == seq![t[0]] + spec_replace(
                    s@.skip(i as int + 1),
                    pat@,
                    to@,
                ));
            }
            i = i + 1;
        }
    }
    proof {
        assert(s@.skip(i as int) =~= Seq::<char>::empty());
        assert(out@ =~= spec_replace(s@, pat@, to@));
    }
    out
}

/// One list item wrapped in single quotes.
pub open spec fn quoted(s: Seq<char>) -> Seq<char> {
    seq!['\''] + s + seq!['\'']
}

/// The items wrapped in single quotes and joined by commas.
pub open spec fn spec_joined_quoted(items: Seq<Seq<char>>) -> Seq<char>
    decreases items.len(),
{
    if items.len() == 0 {
        Seq::empty()
    } else if items.len() == 1 {
        quoted(items[0])
    } else {
        spec_joined_quoted(items.drop_last()) + ", "@ + quoted(items.last())
    }
}

/// The parenthesized, quoted, comma-joined list written into the
/// statement text.
pub open spec fn spec_quoted_list(items: Seq<Seq<char>>) -> Seq<char> {
    "("@ + spec_joined_quoted(items) + ")"@
}

/// Writes the items as a parenthesized, quoted, comma-joined list.
pub fn quoted_list(items: &Vec<String>) -> (r: String)
    ensures
        r@ == spec_quoted_list(items@.map_values(|x: String| x@)),
{
    let ghost views = items@.map_values(|x: String| x@);
    let mut out = String::from_str("(");
    let mut i: usize = 0;
    proof {
        reveal_strlit("(");
        assert(views.take(0) =~= Seq::<Seq<char>>::empty());
        assert(out@ =~= "("@ + spec_joined_quoted(views.take(0)));
    }
    while i < items.len()
        invariant
            i <= items@.len(),
            views == items@.map_values(|x: String| x@),
            views.len() == items@.len(),
            out@ == "("@ + spec_joined_quoted(views.take(i as int)),
        decreases items@.len() - i,
    {
        if i > 0 {
            out.append(", ");
        }
        out.append("'");
        out.append(items[i].as_str());
        out.append("'");
        proof {
            reveal_strlit("'");
            assert("'"@ =~= seq!['\'']);
            let t1 = views.take(i as int + 1);
            assert(t1.drop_last() =~= views.take(i as int));
            assert(t1.last() == views[i as int]);
            assert(views[i as int] == items@[i as int]@);
            if i == 0 {
                assert(out@ =~= "("@ + spec_joined_quoted(t1));
            } else {
                assert(out@ =~= "("@ + spec_joined_quoted(t1));
            }
        }
        i = i + 1;
    }
    out.append(")");
    proof {
        reveal_strlit(")");
        assert(views.take(views.len() as int) =~= views);
        assert(out@ =~= spec_quoted_list(views));
    }
    out
}

/// The limit written into the statement text when none is configured.
pub const DEFAULT_CONNECT_LIMIT: u32 = 65536;

/// Builds the statement text: the configured query with its split list,
/// site list and limit placeholders filled in, in that order.
pub fn build_connect_query(
    query: &str,
    split: &Vec<String>,
    limit: Option<u32>,
    site_keys: &Vec<String>,
) -> (r: String)
    ensures
        r@ == spec_replace(
            spec_replace(
                spec_replace(
                    query@,
                    "$split"@,
                    spec_quoted_list(split@.map_values(|x: String| x@)),
                ),
                "$site"@,
                spec_quoted_list(site_keys@.map_values(|x: String| x@)),
            ),
            "$limit"@,
            spec_digits(
                match limit {
                    Some(l) => l as int,
                    None => DEFAULT_CONNECT_LIMIT as int,
                },
            ),
        ),
{
    let split_text = quoted_list(split);
    let site_text = quoted_list(site_keys);
    let limit_value: u32 = match limit {
        Some(l) => l,
        None => DEFAULT_CONNECT_LIMIT,
    };
    let limit_text = crate::text::u64_to_string(limit_value as u64);
    proof {
        reveal_strlit("$split");
        reveal_strlit("$site");
        reveal_strlit("$limit");
    }
    let step1 = replace_all(query, "$split", split_text.as_str());
    let step2 = replace_all(step1.as_str(), "$site", site_text.as_str());
    replace_all(step2.as_str(), "$limit", limit_text.as_str())
}

} // verus!
