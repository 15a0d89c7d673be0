use vstd::prelude::*;
use vstd::string::StrSliceExecFns;
use crate::error::{ErrorView, FetchError};
use crate::status::{spec_keyword_status, status_from_keyword, ServerStatus};
use crate::text::{has_prefix, starts_with_prefix, str_eq};

verus! {

/// One server entry scraped from the status page: the entry's text
/// fragments in document order, and, if the entry has a descendant status
/// node, that node's class list.
#[derive(Debug)]
pub struct ServerEntry {
    pub texts: Vec<String>,
    pub status_classes: Option<Vec<String>>,
}

/// The server entries that the markup of a status page denotes, in
/// document order.  What a given page denotes is fixed by the HTML
/// grammar and the two entry selectors; only `scrape_entries` speaks
/// for it.
pub uninterp spec fn page_entries(html: Seq<char>) -> Seq<ServerEntry>;

/// A text with its leading and trailing whitespace removed.  Only the
/// specification of `str::trim` speaks for it.
pub uninterp spec fn trim_of(text: Seq<char>) -> Seq<char>;

/// Relies on `str::trim`: the result is the input without leading and
/// trailing whitespace, and depends on the input characters alone.
pub assume_specification[ str::trim ](s: &str) -> (r: &str)
    ensures
        r@ == trim_of(s@),
;

/// The class prefix that encodes a status keyword as its suffix.
pub open spec fn status_class_prefix() -> Seq<char> {
    "ags-ServerStatus-content-responses-response-server-status--"@
}

/// Whether some text fragment of the entry, once trimmed, equals the name.
pub open spec fn entry_matches(e: ServerEntry, name: Seq<char>) -> bool {
    exists|i: int| 0 <= i < e.texts@.len() && trim_of(e.texts@[i]@) == name
}

/// The first entry whose trimmed text matches the name, if any.
pub open spec fn spec_find_entry(entries: Seq<ServerEntry>, name: Seq<char>) -> Option<ServerEntry>
    decreases entries.len(),
{
    if entries.len() == 0 {
        None
    } else if entry_matches(entries[0], name) {
        Some(entries[0])
    } else {
        spec_find_entry(entries.drop_first(), name)
    }
}

/// The keyword encoded by the first class that carries the status prefix,
/// if any.
pub open spec fn spec_find_keyword(classes: Seq<String>) -> Option<Seq<char>>
    decreases classes.len(),
{
    if classes.len() == 0 {
        None
    } else if has_prefix(classes[0]@, status_class_prefix()) {
        Some(classes[0]@.subrange(status_class_prefix().len() as int, classes[0]@.len() as int))
    } else {
        spec_find_keyword(classes.drop_first())
    }
}

/// What extracting a status from scraped entries yields: the first
/// matching entry's first prefixed class names the keyword, and the
/// keyword names the status; each missing piece is its own error.
pub open spec fn spec_extract(entries: Seq<ServerEntry>, name: Seq<char>) -> Result<
    ServerStatus,
    ErrorView,
> {
    match spec_find_entry(entries, name) {
        None => Err(ErrorView::ServerNotFound),
        Some(e) => match e.status_classes {
            None => Err(ErrorView::StatusNodeMissing),
            Some(classes) => match spec_find_keyword(classes@) {
                None => Err(ErrorView::KeywordMissing),
                Some(kw) => match spec_keyword_status(kw) {
                    Some(s) => Ok(s),
                    None => Err(ErrorView::UnknownStatus(kw)),
                },
            },
        },
    }
}

proof fn lemma_find_entry_at(entries: Seq<ServerEntry>, name: Seq<char>, i: int)
    requires
        0 <= i < entries.len(),
        forall|k: int| 0 <= k < i ==> !entry_matches(entries[k], name),
        entry_matches(entries[i], name),
    ensures
        spec_find_entry(entries, name) == Some(entries[i]),
    decreases i,
{
    if i > 0 {
        assert forall|k: int| 0 <= k < i - 1 implies !entry_matches(
            entries.drop_first()[k],
            name,
        ) by {
            assert(entries.drop_first()[k] == entries[k + 1]);
        }
        assert(entries.drop_first()[i - 1] == entries[i]);
        lemma_find_entry_at(entries.drop_first(), name, i - 1);
    }
}

proof fn lemma_find_entry_none(entries: Seq<ServerEntry>, name: Seq<char>)
    requires
        forall|k: int| 0 <= k < entries.len() ==> !entry_matches(entries[k], name),
    ensures
        spec_find_entry(entries, name) is None,
    decreases entries.len(),
{
    if entries.len() > 0 {
        assert forall|k: int| 0 <= k < entries.drop_first().len() implies !entry_matches(
            entries.drop_first()[k],
            name,
        ) by {
            assert(entries.drop_first()[k] == entries[k + 1]);
        }
        lemma_find_entry_none(entries.drop_first(), name);
    }
}

proof fn lemma_find_keyword_at(classes: Seq<String>, i: int)
    requires
        0 <= i < classes.len(),
        forall|k: int| 0 <= k < i ==> !has_prefix(classes[k]@, status_class_prefix()),
        has_prefix(classes[i]@, status_class_prefix()),
    ensures
        spec_find_keyword(classes) == Some(
            classes[i]@.subrange(status_class_prefix().len() as int, classes[i]@.len() as int),
        ),
    decreases i,
{
    if i > 0 {
        assert forall|k: int| 0 <= k < i - 1 implies !has_prefix(
            classes.drop_first()[k]@,
            status_class_prefix(),
        ) by {
            assert(classes.drop_first()[k] == classes[k + 1]);
        }
        assert(classes.drop_first()[i - 1] == classes[i]);
        lemma_find_keyword_at(classes.drop_first(), i - 1);
    }
}

proof fn lemma_find_keyword_none(classes: Seq<String>)
    requires
        forall|k: int| 0 <= k < classes.len() ==> !has_prefix(classes[k]@, status_class_prefix()),
    ensures
        spec_find_keyword(classes) is None,
    decreases classes.len(),
{
    if classes.len() > 0 {
        assert forall|k: int| 0 <= k < classes.drop_first().len() implies !has_prefix(
            classes.drop_first()[k]@,
            status_class_prefix(),
        ) by {
            assert(classes.drop_first()[k] == classes[k + 1]);
        }
        lemma_find_keyword_none(classes.drop_first());
    }
}

/// Decides whether some text fragment of the entry, once trimmed, equals
/// the requested name.
fn entry_has_name(e: &ServerEntry, name: &str) -> (r: bool)
    ensures
        r == entry_matches(*e, name@),
{
    let n = e.texts.len();
    let mut j: usize = 0;
    while j < n
        invariant
            n == e.texts@.len(),
            0 <= j <= n,
            forall|k: int| 0 <= k < j ==> trim_of(e.texts@[k]@) != name@,
        decreases n - j,
    {
        let trimmed = e.texts[j].as_str().trim();
        if str_eq(trimmed, name) {
            assert(entry_matches(*e, name@));
            return true;
        }
        j = j + 1;
    }
    assert(!entry_matches(*e, name@));
    false
}

/// Finds, in the class list of a status node, the first class carrying the
/// status prefix, and returns the keyword that follows the prefix.
fn find_keyword(classes: &Vec<String>) -> (r: Option<String>)
    ensures
        match r {
            Some(kw) => spec_find_keyword(classes@) == Some(kw@),
            None => spec_find_keyword(classes@) is None,
        },
{
    let prefix: &str = "ags-ServerStatus-content-responses-response-server-status--";
    let n = classes.len();
    let mut j: usize = 0;
    while j < n
        invariant
            n == classes@.len(),
            0 <= j <= n,
            prefix@ == status_class_prefix(),
            forall|k: int| 0 <= k < j ==> !has_prefix(classes@[k]@, status_class_prefix()),
        decreases n - j,
    {
        let c = classes[j].as_str();
        if starts_with_prefix(c, prefix) {
            let cn = c.unicode_len();
            let pn = prefix.unicode_len();
            let kw = c.substring_char(pn, cn).to_owned();
            proof {
                lemma_find_keyword_at(classes@, j as int);
            }
            return Some(kw);
        }
        j = j + 1;
    }
    proof {
        lemma_find_keyword_none(classes@);
    }
    None
}

/// Resolves the status of the named server from scraped entries: the
/// first entry whose trimmed text equals the name is read, its first
/// prefixed status class yields the keyword, and the keyword yields the
/// status; each missing piece yields the corresponding error.
pub fn extract_status(entries: &Vec<ServerEntry>, server_name: &str) -> (r: Result<
    ServerStatus,
    FetchError,
>)
    ensures
        match r {
            Ok(s) => spec_extract(entries@, server_name@) == Ok::<ServerStatus, ErrorView>(s),
            Err(e) => spec_extract(entries@, server_name@) == Err::<ServerStatus, ErrorView>(e@),
        },
{
    let n = entries.len();
    let mut idx: usize = 0;
    while idx < n
        invariant
            n == entries@.len(),
            0 <= idx <= n,
            forall|k: int| 0 <= k < idx ==> !entry_matches(entries@[k], server_name@),
        decreases n - idx,
    {
        if entry_has_name(&entries[idx], server_name) {
            proof {
                lemma_find_entry_at(entries@, server_name@, idx as int);
            }
            let entry = &entries[idx];
            match &entry.status_classes {
                None => {
                    return Err(FetchError::StatusNodeMissing);
                },
                Some(classes) => {
                    match find_keyword(classes) {
                        None => {
                            return Err(FetchError::KeywordMissing);
                        },
                        Some(kw) => {
                            return status_from_keyword(kw.as_str());
                        },
                    }
                },
            }
        }
        idx = idx + 1;
    }
    proof {
        lemma_find_entry_none(entries@, server_name@);
    }
    Err(FetchError::ServerNotFound)
}

/// Relies on scraper (`Html::parse_document`, `Selector` matching,
/// `ElementRef::text`, `Element::classes`): yields one entry per element
/// of the server-entry class, in document order, holding the element's
/// text fragments and, when the element has a descendant of the status
/// class, the first such descendant's class list as scraper reports it.
#[verifier::external_body]
fn scrape_entries(html: &str) -> (r: Vec<ServerEntry>)
    ensures
        r@ == page_entries(html@),
{
    let doc = scraper::Html::parse_document(html);
    let entry_sel = scraper::Selector::parse(".ags-ServerStatus-content-responses-response-server")
        .unwrap();
    let status_sel = scraper::Selector::parse(
        ".ags-ServerStatus-content-responses-response-server-status",
    ).unwrap();
    doc.select(&entry_sel).map(|e| ServerEntry {
        texts: e.text().map(|t| t.to_owned()).collect(),
        status_classes: e.select(&status_sel).next().map(
            |s| s.value().classes().map(|c| c.to_owned()).collect(),
        ),
    }).collect()
}

/// Resolves the status of the named server from the markup of a status
/// page: the entries the page denotes are scraped and then read exactly as
/// `extract_status` reads them.
pub fn status_from_html(html: &str, server_name: &str) -> (r: Result<ServerStatus, FetchError>)
    ensures
        match r {
            Ok(s) => spec_extract(page_entries(html@), server_name@) == Ok::<
                ServerStatus,
                ErrorView,
            >(s),
            Err(e) => spec_extract(page_entries(html@), server_name@) == Err::<
                ServerStatus,
                ErrorView,
            >(e@),
        },
{
    let entries = scrape_entries(html);
    extract_status(&entries, server_name)
}

} // verus!
