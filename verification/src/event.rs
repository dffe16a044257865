//! Events that the core emits for its clients.

use vstd::prelude::*;
use uuid::Uuid;

verus! {

/// A job has started.
#[derive(Clone, Copy, Debug)]
pub struct JobStarted {
    pub id: Uuid,
}

/// A library's root directory could not be found.
#[derive(Clone, Copy, Debug)]
pub struct DiscoveredMissingLibrary {
    pub id: Uuid,
}

/// A media item was created in a series of a library.
#[derive(Clone, Copy, Debug)]
pub struct CreatedMedia {
    pub id: Uuid,
    pub series_id: Uuid,
    pub library_id: Uuid,
}

/// Several series were created in a library.
#[derive(Clone, Copy, Debug)]
pub struct CreatedManySeries {
    pub count: u64,
    pub library_id: Uuid,
}

/// Several media items were created or updated in a series of a library.
#[derive(Clone, Copy, Debug)]
pub struct CreatedOrUpdatedManyMedia {
    pub count: u64,
    pub series_id: Uuid,
    pub library_id: Uuid,
}

} // verus!
