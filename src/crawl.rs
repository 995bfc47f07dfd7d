use vstd::prelude::*;

use std::sync::Arc;

use askalono::Store;
use ignore::types::Types;

use crate::corpus::share;
use crate::filter::{build_filter, error_fits, filter_builds, filter_fits, FilterError};

verus! {

/// Why a crawl could not start.
pub enum CrawlError {
    /// The corpus could not be loaded; the message says why.
    Load(String),
    /// No filter could be built.
    Filter(FilterError),
}

/// What the walk needs before it starts: the shared corpus and the filter.
pub struct CrawlSetup {
    pub corpus: Arc<Store>,
    pub types: Types,
}

/// Readies a crawl from the outcome of loading the corpus and from the
/// user's glob. A corpus that failed to load ends the crawl first, before the
/// filter is built and before anything is walked or printed; then a filter
/// that cannot be built ends it. A loaded corpus and a filter that builds
/// always make a crawl.
pub fn prepare_crawl(loaded: Result<Store, String>, glob: Option<&str>) -> (r: Result<CrawlSetup, CrawlError>)
    ensures
        loaded matches Err(msg) ==> (r matches Err(CrawlError::Load(m)) && m@ == msg@),
        loaded is Ok ==> !(r matches Err(CrawlError::Load(_))),
        loaded matches Ok(s) ==> (r matches Ok(c) ==> *c.corpus == s && filter_fits(glob, c.types)),
        r matches Err(CrawlError::Filter(e)) ==> error_fits(glob, e),
        loaded is Ok ==> (r is Ok <==> filter_builds(glob)),
{
    let store = match loaded {
        Ok(s) => s,
        Err(msg) => {
            return Err(CrawlError::Load(msg));
        },
    };
    let corpus = share(store);
    match build_filter(glob) {
        Ok(types) => Ok(CrawlSetup { corpus, types }),
        Err(e) => Err(CrawlError::Filter(e)),
    }
}

} // verus!
