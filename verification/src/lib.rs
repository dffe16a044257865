//! Schema-migration statement building, dump/restore query building and
//! a few domain records of a media server, with their behaviour proved.

pub mod text;
pub mod sqlite_extra;
pub mod migration;
pub mod dumper;
pub mod types;
pub mod reading_list;
pub mod event;
pub mod epub;
pub mod book_club_invitation;
