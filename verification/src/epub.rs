//! The GraphQL query root for EPUB reading.

use vstd::prelude::*;

verus! {

/// The query root that serves EPUB books, their bookmarks and their
/// annotations.
#[derive(Default)]
pub struct EpubQuery;

} // verus!
