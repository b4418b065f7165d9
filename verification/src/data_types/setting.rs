//! A user setting.
use crate::database_types::{Convertable, CreateKey, GetQuery, Instanceable, SqlQueries};
use crate::text::{
    all_digits, join_comma, join_with, parse_i32, spec_parse_i32, string_from, views,
};
use vstd::prelude::*;

verus! {

/// The insert statement of the `settings` table.
pub const SETTING_INSERT: &'static str = "
				INSERT INTO settings (name, value, default_value)
				VALUES (?, ?, ?);
			";

/// The select statement of the `settings` table.
pub const SETTING_SELECT: &'static str = "SELECT * FROM settings;";

/// The update statement of the `settings` table.
pub const SETTING_UPDATE: &'static str = "
				UPDATE settings
				SET
					name = (name),
					value = (value),
					default_value = (default_value),
				WHERE name = (name)
				VALUES (?, ?, ?);
			";

/// The delete statement of the `settings` table.
pub const SETTING_DELETE: &'static str = "
				DELETE FROM settings WHERE name = (name)
				VALUES (?);
			";

/// A named setting with its current and default value.
pub struct Setting {
    pub name: String,
    pub value: String,
    pub default_value: String,
    pub created_at: String,
    pub updated_at: String,
}

impl Clone for Setting {
    fn clone(&self) -> (r: Self)
        ensures
            r == *self,
    {
        Setting {
            name: self.name.clone(),
            value: self.value.clone(),
            default_value: self.default_value.clone(),
            created_at: self.created_at.clone(),
            updated_at: self.updated_at.clone(),
        }
    }
}

/// The text looks like an integer: only digits, or a sign followed by only digits.
pub open spec fn numeric_form(s: Seq<char>) -> bool {
    ||| all_digits(s)
    ||| (s.len() > 0 && s[0] == '-' && all_digits(s.skip(1)))
    ||| (s.len() > 0 && s[0] == '+' && all_digits(s.skip(1)))
}

impl Setting {
    /// The integer a setting's text stands for: `Some` exactly when the text is an
    /// optional sign followed by one or more digits whose value fits in an `i32`.
    pub fn is_numeric(value: &String) -> (r: Option<i32>)
        ensures
            r == spec_parse_i32(value@),
            r is Some ==> numeric_form(value@),
    {
        let parsed = parse_i32(value.as_str());
        proof {
            if parsed is Some {
                let s = value@;
                if s.len() > 0 && (s[0] == '-' || s[0] == '+') {
                    assert(all_digits(s.skip(1)));
                } else {
                    assert(all_digits(s));
                }
            }
        }
        parsed
    }

    /// The fields as they display, in order.
    pub open spec fn display_parts(&self) -> Seq<Seq<char>> {
        seq![self.name@, self.value@, self.default_value@, self.created_at@, self.updated_at@]
    }

    /// The text the setting displays as: its fields separated by `", "`.
    pub fn to_display_string(&self) -> (r: String)
        ensures
            r@ == join_with(self.display_parts(), seq![',', ' ']),
    {
        let mut parts: Vec<String> = Vec::new();
        parts.push(self.name.clone());
        parts.push(self.value.clone());
        parts.push(self.default_value.clone());
        parts.push(self.created_at.clone());
        parts.push(self.updated_at.clone());
        assert(views(parts@) =~= self.display_parts());
        join_comma(&parts)
    }
}

impl Instanceable for Setting {
    open spec fn is_blank(&self) -> bool {
        &&& self.name@ == Seq::<char>::empty()
        &&& self.value@ == Seq::<char>::empty()
        &&& self.default_value@ == Seq::<char>::empty()
        &&& self.created_at@ == Seq::<char>::empty()
        &&& self.updated_at@ == Seq::<char>::empty()
    }

    fn new() -> (r: Self) {
        Self {
            name: String::new(),
            value: String::new(),
            default_value: String::new(),
            created_at: String::new(),
            updated_at: String::new(),
        }
    }
}

impl CreateKey for Setting {
    open spec fn key_view(&self) -> Seq<char> {
        self.name@
    }

    fn create_key(&self) -> (r: String) {
        self.name.clone()
    }
}

impl GetQuery for Setting {
    open spec fn query_view(&self, query: SqlQueries) -> Seq<char> {
        match query {
            SqlQueries::Insert => SETTING_INSERT@,
            SqlQueries::Select => SETTING_SELECT@,
            SqlQueries::Update => SETTING_UPDATE@,
            SqlQueries::Delete => SETTING_DELETE@,
            _ => Seq::empty(),
        }
    }

    fn get_query(&self, query: SqlQueries) -> (r: String) {
        match query {
            SqlQueries::Insert => string_from(SETTING_INSERT),
            SqlQueries::Select => string_from(SETTING_SELECT),
            SqlQueries::Update => string_from(SETTING_UPDATE),
            SqlQueries::Delete => string_from(SETTING_DELETE),
            _ => String::new(),
        }
    }
}

impl Convertable for Setting {
    /// This record has no text columns to fill: nothing changes.
    fn convert_to_string(&mut self)
        ensures
            *final(self) == *old(self),
    {
    }
}

} // verus!
