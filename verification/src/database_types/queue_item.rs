//! An entry of the play queue.
use crate::database_types::{Convertable, CreateKey, GetQuery, Instanceable, SqlQueries};
use crate::text::{i32_to_string, signed_decimal, string_from};
use vstd::prelude::*;

verus! {

/// The insert statement of the `session` table.
pub const QUEUE_INSERT: &'static str = "
				INSERT INTO session (media_id)
				VALUES (?);
			";

/// The select statement of the queue.
pub const QUEUE_SELECT: &'static str = "SELECT * FROM queue;";

/// The delete statement of the `session` table.
pub const QUEUE_DELETE: &'static str = "
				DELETE FROM session WHERE id = (id)
				VALUES (?);
			";

/// A queued track, by its id in the index.
#[derive(Clone, Copy, PartialEq, Eq, Debug)]
pub struct QueueItem {
    pub media_id: i32,
}

impl Instanceable for QueueItem {
    open spec fn is_blank(&self) -> bool {
        self.media_id == 0
    }

    fn new() -> (r: Self) {
        Self { media_id: 0 }
    }
}

impl CreateKey for QueueItem {
    open spec fn key_view(&self) -> Seq<char> {
        signed_decimal(self.media_id as int)
    }

    fn create_key(&self) -> (r: String) {
        i32_to_string(self.media_id)
    }
}

impl GetQuery for QueueItem {
    open spec fn query_view(&self, query: SqlQueries) -> Seq<char> {
        match query {
            SqlQueries::Insert => QUEUE_INSERT@,
            SqlQueries::Select => QUEUE_SELECT@,
            SqlQueries::Delete => QUEUE_DELETE@,
            _ => Seq::empty(),
        }
    }

    fn get_query(&self, query: SqlQueries) -> (r: String) {
        match query {
            SqlQueries::Insert => string_from(QUEUE_INSERT),
            SqlQueries::Select => string_from(QUEUE_SELECT),
            SqlQueries::Delete => string_from(QUEUE_DELETE),
            _ => String::new(),
        }
    }
}

impl Convertable for QueueItem {
    /// This record has no text columns to fill: nothing changes.
    fn convert_to_string(&mut self)
        ensures
            *final(self) == *old(self),
    {
    }
}

} // verus!
