//! The input that creates or updates a reading list, and the record it
//! becomes.

use vstd::prelude::*;
use uuid::Uuid;

verus! {

/// Who can see an entity.
#[derive(PartialEq, Eq, Structural, Clone, Copy, Debug)]
pub enum EntityVisibility {
    Public,
    Private,
}

impl Default for EntityVisibility {
    /// Entities are private unless made otherwise.
    fn default() -> (r: Self)
        ensures
            r == EntityVisibility::Private,
    {
        EntityVisibility::Private
    }
}

/// The stored form of a visibility: its name in upper case.
pub open spec fn visibility_label(v: EntityVisibility) -> Seq<char> {
    match v {
        EntityVisibility::Public => "PUBLIC"@,
        EntityVisibility::Private => "PRIVATE"@,
    }
}

impl EntityVisibility {
    /// The stored form of the visibility: its name in upper case.
    pub fn to_uppercase_label(&self) -> (r: String)
        ensures
            r@ == visibility_label(*self),
    {
        match self {
            EntityVisibility::Public => String::from_str("PUBLIC"),
            EntityVisibility::Private => String::from_str("PRIVATE"),
        }
    }
}

/// A reading list as a client submits it.
#[derive(Clone)]
pub struct ReadingListInput {
    pub id: Uuid,
    pub name: String,
    pub visibility: Option<EntityVisibility>,
    pub media_ids: Vec<Uuid>,
}

/// The fields of a reading list record that an input sets; every other
/// field of the record is left unset.
pub struct ReadingListRecord {
    pub id: Uuid,
    pub name: String,
    pub updated_at: Timestamp,
    pub visibility: String,
    pub creating_user_id: Uuid,
}

/// A point in time as seconds and nanoseconds since the Unix epoch (UTC).
#[derive(Clone, Copy, Debug)]
pub struct Timestamp {
    pub secs: i64,
    pub nanos: u32,
}

/// The visibility an input stands for: the given one, private when none.
pub open spec fn effective_visibility(v: Option<EntityVisibility>) -> EntityVisibility {
    match v {
        Some(v) => v,
        None => EntityVisibility::Private,
    }
}

impl ReadingListInput {
    /// The record this input sets for the user `user_id`, updated at `now`
    /// (the caller reads the clock): the input's id and name, its
    /// visibility (private when none is given) in upper case, the user as
    /// creator, and `now` as update time.
    pub fn into_active_model(self, user_id: Uuid, now: Timestamp) -> (r: ReadingListRecord)
        ensures
            r.id == self.id,
            r.name@ == self.name@,
            r.visibility@ == visibility_label(effective_visibility(self.visibility)),
            r.creating_user_id == user_id,
            r.updated_at == now,
    {
        let visibility = match self.visibility {
            Some(v) => v,
            None => EntityVisibility::default(),
        };
        ReadingListRecord {
            id: self.id,
            name: self.name,
            updated_at: now,
            visibility: visibility.to_uppercase_label(),
            creating_user_id: user_id,
        }
    }
}

} // verus!
