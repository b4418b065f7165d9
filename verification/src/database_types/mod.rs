//! The record traits shared by every stored type, and the older record types
//! of the `main` table layout.
pub mod playlist;
pub mod queue_item;
pub mod track;

use vstd::prelude::*;

verus! {

/// A record type with an empty value, used to ask a type for its statements.
pub trait Instanceable: Sized {
    /// Whether the record is the empty one: zero numbers, empty texts, nothing held.
    spec fn is_blank(&self) -> bool;

    /// Makes the empty record.
    fn new() -> (r: Self)
        ensures
            r.is_blank(),
    ;
}

/// A record type with a text key that tells records apart.
pub trait CreateKey {
    /// The key of the record.
    spec fn key_view(&self) -> Seq<char>;

    /// Makes the key of the record.
    fn create_key(&self) -> (r: String)
        ensures
            r@ == self.key_view(),
    ;
}

/// The kinds of SQL statement a record type provides.
#[derive(Clone, Copy, PartialEq, Eq, Debug)]
pub enum SqlQueries {
    Insert,
    Select,
    Update,
    Delete,
    SelectByRelation,
    UpdateRelations,
}

/// A record type that knows its SQL statements.
pub trait GetQuery {
    /// The statement of the given kind.
    spec fn query_view(&self, query: SqlQueries) -> Seq<char>;

    /// Makes the statement of the given kind.
    fn get_query(&self, query: SqlQueries) -> (r: String)
        ensures
            r@ == self.query_view(query),
    ;
}

/// A record type that fills its text columns before it is written.
pub trait Convertable {
    /// Fills the text columns from the structured fields.
    fn convert_to_string(&mut self);
}

} // verus!
