//! The store: which statements set it up, and which failures to open it are mended.
use crate::text::string_from;
use vstd::prelude::*;

verus! {

/// Where the store file lives.
pub const DB_PATH: &'static str = "./database/main.db";

/// The folder of the store file.
pub const DB_DIR: &'static str = "./database";

/// A statement that sets the store up.
pub const PRAGMA_FOREIGN_KEYS: &'static str = "PRAGMA foreign_keys = ON;";

/// A statement that sets the store up.
pub const CREATE_PLAYLISTS: &'static str = "CREATE TABLE IF NOT EXISTS playlists (
				id			INTEGER PRIMARY KEY AUTOINCREMENT,
				list_type	TEXT NOT NULL,
				name		TEXT NOT NULL,
				image_url	TEXT,
				tracks		TEXT,
				created_at 	DATETIME DEFAULT (datetime('now', 'localtime')),
				listened_at	DATETIME DEFAULT (datetime('now', 'localtime')),
				track_id	INTEGER,
				FOREIGN KEY(track_id) REFERENCES tracks(id) ON DELETE SET NULL
			);";

/// A statement that sets the store up.
pub const CREATE_SOURCES: &'static str = "CREATE TABLE IF NOT EXISTS sources (
				id			INTEGER PRIMARY KEY AUTOINCREMENT,
				origin 		TEXT NOT NULL,
				path 		TEXT NOT NULL UNIQUE,
				created 	DATETIME DEFAULT (datetime('now', 'localtime'))
			);";

/// A statement that sets the store up.
pub const CREATE_SESSION: &'static str = "CREATE TABLE IF NOT EXISTS session (
				id			INTEGER PRIMARY KEY AUTOINCREMENT,
				track_id	INTEGER NOT NULL,
				created 	DATETIME DEFAULT (datetime('now', 'localtime'))
			);";

/// A statement that sets the store up.
pub const CREATE_SETTINGS: &'static str = "CREATE TABLE IF NOT EXISTS settings (
				id			INTEGER PRIMARY KEY AUTOINCREMENT,
				name		TEXT NOT NULL,
				value		TEXT,
				default_value	TEXT,
				updated_at 	DATETIME DEFAULT (datetime('now', 'localtime')),
				created_at 	DATETIME DEFAULT (datetime('now', 'localtime'))
			);";

/// A statement that sets the store up.
pub const CREATE_TRACKS: &'static str = "CREATE TABLE IF NOT EXISTS tracks (
				id			INTEGER PRIMARY KEY AUTOINCREMENT,
				title 		TEXT NOT NULL,
				artist	 	TEXT NOT NULL,
				path 		TEXT NOT NULL UNIQUE,
				genre		TEXT,
				year		INTEGER,
				extension 	TEXT NOT NULL,
				file_size 	INTEGER,
				duration	INTEGER,
				playing		INTEGER NOT NULL,
				created 	DATETIME DEFAULT (datetime('now', 'localtime')),
				source_id	INTEGER,
				playlist_id	INTEGER,
				session_id	INTEGER,
				FOREIGN KEY(source_id) REFERENCES sources(id) ON DELETE SET NULL,
				FOREIGN KEY(playlist_id) REFERENCES playlists(id) ON DELETE SET NULL,
				FOREIGN KEY(session_id) REFERENCES session(id) ON DELETE SET NULL
			);";

/// A statement that sets the store up.
pub const CREATE_PLAYLIST_TRACKS: &'static str = "CREATE playlist_tracks (
				playlist_id INTEGER NOT NULL,
				track_id INTEGER NOT NULL,
				PRIMARY KEY (playlist_id, track_id),
				FOREIGN KEY (playlist_id) REFERENCES playlist(id) ON DELETE CASCADE,
				FOREIGN KEY (track_id) REFERENCES tracks(id) ON DELETE CASCADE,
			);";

/// A statement that sets the store up.
pub const CREATE_PLAYLIST_SOURCES: &'static str = "CREATE playlist_sources (
				playlist_id INTEGER NOT NULL,
				source_id INTEGER NOT NULL,
				PRIMARY KEY (playlist_id, source_id),
				FOREIGN KEY (playlist_id) REFERENCES playlist(id) ON DELETE CASCADE,
				FOREIGN KEY (source_id) REFERENCES sources(id) ON DELETE CASCADE,
			);";

/// Why opening the store failed, as far as the recovery cares.
#[derive(Clone, Copy, PartialEq, Eq, Debug)]
pub enum OpenErrorCode {
    NotFound,
    CannotOpen,
    Other,
}

/// Whether a failure to open the store is mended by creating its folder and file
/// and opening again: only when the file is missing or cannot be opened.
pub fn is_recoverable(code: Option<OpenErrorCode>) -> (r: bool)
    ensures
        r == (code == Some(OpenErrorCode::NotFound) || code == Some(OpenErrorCode::CannotOpen)),
{
    match code {
        Some(OpenErrorCode::NotFound) => true,
        Some(OpenErrorCode::CannotOpen) => true,
        _ => false,
    }
}

/// The statements that set the store up, in the order they run.
pub open spec fn setup_statements() -> Seq<Seq<char>> {
    seq![PRAGMA_FOREIGN_KEYS@, CREATE_PLAYLISTS@, CREATE_SOURCES@, CREATE_SESSION@, CREATE_SETTINGS@, CREATE_TRACKS@, CREATE_PLAYLIST_TRACKS@, CREATE_PLAYLIST_SOURCES@] 
}

/// Makes the statements that set the store up, in the order they run.
pub fn initialization_queries() -> (r: Vec<String>)
    ensures
        r@.len() == setup_statements().len(),
        forall|i: int| 0 <= i < r@.len() ==> #[trigger] r@[i]@ == setup_statements()[i],
        r@.len() == 8,
        r@[0]@ == PRAGMA_FOREIGN_KEYS@,
        r@[1]@ == CREATE_PLAYLISTS@,
        r@[2]@ == CREATE_SOURCES@,
        r@[3]@ == CREATE_SESSION@,
        r@[4]@ == CREATE_SETTINGS@,
        r@[5]@ == CREATE_TRACKS@,
        r@[6]@ == CREATE_PLAYLIST_TRACKS@,
        r@[7]@ == CREATE_PLAYLIST_SOURCES@,
{
    let mut q: Vec<String> = Vec::new();

    q.push(string_from(PRAGMA_FOREIGN_KEYS));
    q.push(string_from(CREATE_PLAYLISTS));
    q.push(string_from(CREATE_SOURCES));
    q.push(string_from(CREATE_SESSION));
    q.push(string_from(CREATE_SETTINGS));
    q.push(string_from(CREATE_TRACKS));
    q.push(string_from(CREATE_PLAYLIST_TRACKS));
    q.push(string_from(CREATE_PLAYLIST_SOURCES));
    q
}

/// Setting the store up switches foreign keys on first and then creates every table
/// the records live in: playlists, sources, session, settings, tracks, and the two
/// link tables, each by its own statement.
pub proof fn law_setup_creates_every_table()
    ensures
        setup_statements().len() == 8,
        setup_statements()[0] == PRAGMA_FOREIGN_KEYS@,
        exists|i: int| 0 <= i < 8 && #[trigger] setup_statements()[i] == CREATE_PLAYLISTS@,
        exists|i: int| 0 <= i < 8 && #[trigger] setup_statements()[i] == CREATE_SOURCES@,
        exists|i: int| 0 <= i < 8 && #[trigger] setup_statements()[i] == CREATE_SESSION@,
        exists|i: int| 0 <= i < 8 && #[trigger] setup_statements()[i] == CREATE_SETTINGS@,
        exists|i: int| 0 <= i < 8 && #[trigger] setup_statements()[i] == CREATE_TRACKS@,
        exists|i: int| 0 <= i < 8 && #[trigger] setup_statements()[i] == CREATE_PLAYLIST_TRACKS@,
        exists|i: int| 0 <= i < 8 && #[trigger] setup_statements()[i] == CREATE_PLAYLIST_SOURCES@,
{
    assert(setup_statements()[1] == CREATE_PLAYLISTS@);
    assert(setup_statements()[2] == CREATE_SOURCES@);
    assert(setup_statements()[3] == CREATE_SESSION@);
    assert(setup_statements()[4] == CREATE_SETTINGS@);
    assert(setup_statements()[5] == CREATE_TRACKS@);
    assert(setup_statements()[6] == CREATE_PLAYLIST_TRACKS@);
    assert(setup_statements()[7] == CREATE_PLAYLIST_SOURCES@);
}

} // verus!
