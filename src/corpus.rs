use vstd::prelude::*;

use std::sync::Arc;

use askalono::{Store, TextData};

use crate::report::{report_for, report_of, Report};

verus! {

#[verifier::external_type_specification]
#[verifier::external_body]
pub struct ExStore(Store);

#[verifier::external_type_specification]
#[verifier::external_body]
pub struct ExTextData(TextData);

/// Relies on Arc::clone: the new handle points at the same value.
#[verifier::external_body]
fn arc_clone(h: &Arc<Store>) -> (r: Arc<Store>)
    ensures
        *r == **h,
{
    Arc::clone(h)
}

/// Relies on askalono::TextData::new: the normalized form of a text, the
/// form in which the corpus compares it.
#[verifier::external_body]
fn normalize(content: &str) -> (r: TextData) {
    TextData::new(content)
}

/// Puts the corpus behind a counted handle that every worker can hold. The
/// handle gives no way to change the corpus.
pub fn share(corpus: Store) -> (r: Arc<Store>)
    ensures
        *r == corpus,
{
    Arc::new(corpus)
}

/// A second handle on the same corpus, for one more worker: the corpus is
/// not copied.
pub fn clone_ref(h: &Arc<Store>) -> (r: Arc<Store>)
    ensures
        *r == **h,
{
    arc_clone(h)
}

/// Classifies the file at `path` whose text was read as `content` (`None`
/// where it could not be read as text). An unreadable file is reported
/// nowhere. Otherwise the text is normalized, `identify` matches it against
/// the corpus, and its outcome is formatted as one block.
pub fn classify<F>(path: &str, content: Option<String>, corpus: &Store, identify: &F) -> (r: Option<Report>)
    where
        F: Fn(&Store, &TextData) -> Result<String, String>,
    requires
        forall|s: &Store, d: &TextData| identify.requires((s, d)),
    ensures
        content is None ==> r is None,
        content is Some ==> exists|d: TextData, o: Result<String, String>|
            identify.ensures((corpus, &d), o) && (r matches Some(rep) && rep@ == report_of(path@, o)),
{
    match content {
        None => None,
        Some(text) => {
            let data = normalize(text.as_str());
            let outcome = identify(corpus, &data);
            Some(report_for(path, &outcome))
        },
    }
}

} // verus!
