//! Decisions the app takes while it starts and stops: whether the database
//! can be opened, which optional services run, which event a menu item
//! sends, and how a request to quit is answered.
use vstd::prelude::*;
use crate::models::StoreIncompatibility;
use crate::text::{chars_of, eq_ignore_ascii_case, eq_ignoring_ascii_case, str_eq, trim_string, trimmed};

verus! {

/// What the store found when it compared the database with this build.
pub enum DbCompatibility {
    /// The database can be opened as it is.
    Compatible,
    /// An older app version wrote it: it must be reset before use.
    NeedsReset { db_app_version: String },
    /// A newer app version wrote it: this build should be updated.
    TooNew { db_app_version: String },
}

/// The kind shown for a database that an older version wrote.
pub open spec fn needs_reset_kind() -> Seq<char> {
    "needs_reset"@
}

/// The kind shown for a database that a newer version wrote.
pub open spec fn too_new_kind() -> Seq<char> {
    "too_new"@
}

/// What the startup prompt shows about the database, or nothing when it
/// can be opened; `app_version` is the version of this build.
pub fn store_incompatibility(compat: &DbCompatibility, app_version: &str) -> (res: Option<
    StoreIncompatibility,
>)
    ensures
        match compat {
            DbCompatibility::Compatible => res is None,
            DbCompatibility::NeedsReset { db_app_version } => res matches Some(i) && i.db_app_version@
                == db_app_version@ && i.app_version@ == app_version@ && i.kind@ == needs_reset_kind(),
            DbCompatibility::TooNew { db_app_version } => res matches Some(i) && i.db_app_version@
                == db_app_version@ && i.app_version@ == app_version@ && i.kind@ == too_new_kind(),
        },
{
    match compat {
        DbCompatibility::Compatible => None,
        DbCompatibility::NeedsReset { db_app_version } => Some(
            StoreIncompatibility {
                db_app_version: db_app_version.clone(),
                app_version: app_version.to_owned(),
                kind: "needs_reset".to_owned(),
            },
        ),
        DbCompatibility::TooNew { db_app_version } => Some(
            StoreIncompatibility {
                db_app_version: db_app_version.clone(),
                app_version: app_version.to_owned(),
                kind: "too_new".to_owned(),
            },
        ),
    }
}

/// Whether the value of the web server switch turns the server on: `1`, or
/// `true` in any ASCII case. An unset (or non-Unicode) switch is `None`.
pub open spec fn web_switch_on(value: Option<Seq<char>>) -> bool {
    match value {
        Some(v) => v == "1"@ || eq_ignoring_ascii_case(v, "true"@),
        None => false,
    }
}

/// Whether the browser-facing web server is started.
pub fn web_server_enabled(value: Option<&str>) -> (res: bool)
    ensures
        res == web_switch_on(match value {
            Some(v) => Some(v@),
            None => None,
        }),
{
    match value {
        Some(v) => {
            if str_eq(v, "1") {
                return true;
            }
            let vc = chars_of(v);
            let tc = chars_of("true");
            eq_ignore_ascii_case(vc.as_slice(), tc.as_slice())
        },
        None => false,
    }
}

/// Whether the updater is installed: only when the app's configuration
/// gives it a public key that is not blank.
pub fn updater_pubkey_present(pubkey: Option<&str>) -> (res: bool)
    ensures
        res == (pubkey matches Some(k) && trimmed(k@).len() > 0),
{
    match pubkey {
        Some(k) => {
            let t = trim_string(k);
            t.unicode_len() > 0
        },
        None => false,
    }
}

/// The frontend event that a menu item sends, by the item's id.
pub open spec fn menu_event(id: Seq<char>) -> Option<Seq<char>> {
    if id == "settings"@ {
        Some("menu:settings"@)
    } else if id == "find"@ {
        Some("menu:find"@)
    } else if id == "find_next"@ {
        Some("menu:find-next"@)
    } else if id == "find_previous"@ {
        Some("menu:find-previous"@)
    } else if id == "zoom_in"@ {
        Some("menu:zoom-in"@)
    } else if id == "zoom_out"@ {
        Some("menu:zoom-out"@)
    } else if id == "zoom_reset"@ {
        Some("menu:zoom-reset"@)
    } else {
        None
    }
}

/// The event emitted for the menu item `id`; other items send nothing.
pub fn menu_event_name(id: &str) -> (res: Option<&'static str>)
    ensures
        match res {
            Some(n) => menu_event(id@) == Some(n@),
            None => menu_event(id@) is None,
        },
{
    if str_eq(id, "settings") {
        Some("menu:settings")
    } else if str_eq(id, "find") {
        Some("menu:find")
    } else if str_eq(id, "find_next") {
        Some("menu:find-next")
    } else if str_eq(id, "find_previous") {
        Some("menu:find-previous")
    } else if str_eq(id, "zoom_in") {
        Some("menu:zoom-in")
    } else if str_eq(id, "zoom_out") {
        Some("menu:zoom-out")
    } else if str_eq(id, "zoom_reset") {
        Some("menu:zoom-reset")
    } else {
        None
    }
}

/// A request to quit. The first one (no quit under way yet) holds the exit,
/// stops the running actions and then exits; the answer is `true` then.
/// Any later one, while that shutdown runs, lets the exit go through and
/// gets `false`. Either way a quit is under way afterwards.
pub fn exit_requested(quit_in_progress: &mut bool) -> (res: bool)
    ensures
        *final(quit_in_progress),
        res == !*old(quit_in_progress),
{
    let was = *quit_in_progress;
    *quit_in_progress = true;
    !was
}

} // verus!
