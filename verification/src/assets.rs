//! The icons the toolkit ships: which built-in icon an asset path names,
//! and what an asset lookup falls back to.

use vstd::prelude::*;
use vstd::string::*;
use crate::keys::str_eq;

verus! {

/// An icon drawn from the toolkit's own SVG data.
#[derive(Clone, Copy, Debug, PartialEq, Eq)]
pub enum BuiltinIcon {
    Add, ArrowForward, Checkmark, ChevronDown, ChevronUp, Clear, Copy, Cut, Dismiss, Document, Download, Upload, Folder, Grid, Light, ListTree, Minimize, Maximize, PanelOpen, Paste, Plug, Search, Settings, Spinner, Generic,
}

/// `s` begins with `p`.
pub open spec fn has_prefix(s: Seq<char>, p: Seq<char>) -> bool {
    p.len() <= s.len() && s.take(p.len() as int) == p
}

/// `s` ends with `p`.
pub open spec fn has_suffix(s: Seq<char>, p: Seq<char>) -> bool {
    p.len() <= s.len() && s.skip(s.len() - p.len()) == p
}

/// Whether `s` begins with `p`.
pub fn starts_with(s: &str, p: &str) -> (b: bool)
    ensures
        b == has_prefix(s@, p@),
{
    let n = s.unicode_len();
    let m = p.unicode_len();
    if m > n {
        return false;
    }
    let mut i: usize = 0;
    while i < m
        invariant
            n == s@.len() && m == p@.len() && m <= n,
            i <= m,
            forall|j: int| 0 <= j < i ==> s@[j] == p@[j],
        decreases m - i,
    {
        if s.get_char(i) != p.get_char(i) {
            assert(s@.take(m as int)[i as int] != p@[i as int]);
            return false;
        }
        i = i + 1;
    }
    assert(s@.take(m as int) =~= p@);
    true
}

/// Whether `s` ends with `p`.
pub fn ends_with(s: &str, p: &str) -> (b: bool)
    ensures
        b == has_suffix(s@, p@),
{
    let n = s.unicode_len();
    let m = p.unicode_len();
    if m > n {
        return false;
    }
    let off = n - m;
    let mut i: usize = 0;
    while i < m
        invariant
            n == s@.len() && m == p@.len() && m <= n && off == n - m,
            i <= m,
            forall|j: int| 0 <= j < i ==> s@[off + j] == p@[j],
        decreases m - i,
    {
        if s.get_char(off + i) != p.get_char(i) {
            assert(s@.skip(off as int)[i as int] != p@[i as int]);
            return false;
        }
        i = i + 1;
    }
    assert(s@.skip(off as int) =~= p@);
    true
}

/// The built-in icon an asset path names: the toolkit's own icons by
/// name (some under several names), a generic square for any other
/// `icons/*.svg` path, and none for anything else.
pub open spec fn builtin_icon_spec(path: Seq<char>) -> Option<BuiltinIcon> {
    if path == "icons/add.svg"@ || path == "icons/folder_add.svg"@ {
        Some(BuiltinIcon::Add)
    } else if path == "icons/arrow_forward.svg"@ {
        Some(BuiltinIcon::ArrowForward)
    } else if path == "icons/checkmark.svg"@ {
        Some(BuiltinIcon::Checkmark)
    } else if path == "icons/chevron_down.svg"@ {
        Some(BuiltinIcon::ChevronDown)
    } else if path == "icons/chevron_up.svg"@ {
        Some(BuiltinIcon::ChevronUp)
    } else if path == "icons/clear.svg"@ || path == "icons/eraser.svg"@ {
        Some(BuiltinIcon::Clear)
    } else if path == "icons/copy.svg"@ {
        Some(BuiltinIcon::Copy)
    } else if path == "icons/cut.svg"@ {
        Some(BuiltinIcon::Cut)
    } else if path == "icons/dismiss.svg"@ || path == "icons/delete.svg"@ || path == "icons/plug_disconnected.svg"@ {
        Some(BuiltinIcon::Dismiss)
    } else if path == "icons/document.svg"@ || path == "icons/file.svg"@ {
        Some(BuiltinIcon::Document)
    } else if path == "icons/download.svg"@ || path == "icons/download_arrow.svg"@ {
        Some(BuiltinIcon::Download)
    } else if path == "icons/upload.svg"@ || path == "icons/upload_arrow.svg"@ {
        Some(BuiltinIcon::Upload)
    } else if path == "icons/folder_open.svg"@ || path == "icons/folder_sync.svg"@ {
        Some(BuiltinIcon::Folder)
    } else if path == "icons/grid.svg"@ {
        Some(BuiltinIcon::Grid)
    } else if path == "icons/light_theme.svg"@ {
        Some(BuiltinIcon::Light)
    } else if path == "icons/dark_theme.svg"@ {
        Some(BuiltinIcon::Generic)
    } else if path == "icons/list_tree.svg"@ {
        Some(BuiltinIcon::ListTree)
    } else if path == "icons/minimize.svg"@ {
        Some(BuiltinIcon::Minimize)
    } else if path == "icons/maximize.svg"@ || path == "icons/full_screen.svg"@ || path == "icons/fit_width.svg"@ {
        Some(BuiltinIcon::Maximize)
    } else if path == "icons/panel_open.svg"@ {
        Some(BuiltinIcon::PanelOpen)
    } else if path == "icons/paste.svg"@ || path == "icons/clipboard_paste.svg"@ || path == "icons/clipboard_sync.svg"@ {
        Some(BuiltinIcon::Paste)
    } else if path == "icons/plug.svg"@ || path == "icons/connect.svg"@ || path == "icons/network.svg"@ {
        Some(BuiltinIcon::Plug)
    } else if path == "icons/search.svg"@ || path == "icons/find_replace.svg"@ {
        Some(BuiltinIcon::Search)
    } else if path == "icons/settings.svg"@ {
        Some(BuiltinIcon::Settings)
    } else if path == "icons/spinner.svg"@ {
        Some(BuiltinIcon::Spinner)
    } else if has_prefix(path, "icons/"@) && has_suffix(path, ".svg"@) {
        Some(BuiltinIcon::Generic)
    } else {
        None
    }
}

/// The built-in icon an asset path names (see [`builtin_icon_spec`]).
pub fn builtin_icon(path: &str) -> (i: Option<BuiltinIcon>)
    ensures
        i == builtin_icon_spec(path@),
{
    if str_eq(path, "icons/add.svg") || str_eq(path, "icons/folder_add.svg") {
        Some(BuiltinIcon::Add)
    } else if str_eq(path, "icons/arrow_forward.svg") {
        Some(BuiltinIcon::ArrowForward)
    } else if str_eq(path, "icons/checkmark.svg") {
        Some(BuiltinIcon::Checkmark)
    } else if str_eq(path, "icons/chevron_down.svg") {
        Some(BuiltinIcon::ChevronDown)
    } else if str_eq(path, "icons/chevron_up.svg") {
        Some(BuiltinIcon::ChevronUp)
    } else if str_eq(path, "icons/clear.svg") || str_eq(path, "icons/eraser.svg") {
        Some(BuiltinIcon::Clear)
    } else if str_eq(path, "icons/copy.svg") {
        Some(BuiltinIcon::Copy)
    } else if str_eq(path, "icons/cut.svg") {
        Some(BuiltinIcon::Cut)
    } else if str_eq(path, "icons/dismiss.svg") || str_eq(path, "icons/delete.svg") || str_eq(path, "icons/plug_disconnected.svg") {
        Some(BuiltinIcon::Dismiss)
    } else if str_eq(path, "icons/document.svg") || str_eq(path, "icons/file.svg") {
        Some(BuiltinIcon::Document)
    } else if str_eq(path, "icons/download.svg") || str_eq(path, "icons/download_arrow.svg") {
        Some(BuiltinIcon::Download)
    } else if str_eq(path, "icons/upload.svg") || str_eq(path, "icons/upload_arrow.svg") {
        Some(BuiltinIcon::Upload)
    } else if str_eq(path, "icons/folder_open.svg") || str_eq(path, "icons/folder_sync.svg") {
        Some(BuiltinIcon::Folder)
    } else if str_eq(path, "icons/grid.svg") {
        Some(BuiltinIcon::Grid)
    } else if str_eq(path, "icons/light_theme.svg") {
        Some(BuiltinIcon::Light)
    } else if str_eq(path, "icons/dark_theme.svg") {
        Some(BuiltinIcon::Generic)
    } else if str_eq(path, "icons/list_tree.svg") {
        Some(BuiltinIcon::ListTree)
    } else if str_eq(path, "icons/minimize.svg") {
        Some(BuiltinIcon::Minimize)
    } else if str_eq(path, "icons/maximize.svg") || str_eq(path, "icons/full_screen.svg") || str_eq(path, "icons/fit_width.svg") {
        Some(BuiltinIcon::Maximize)
    } else if str_eq(path, "icons/panel_open.svg") {
        Some(BuiltinIcon::PanelOpen)
    } else if str_eq(path, "icons/paste.svg") || str_eq(path, "icons/clipboard_paste.svg") || str_eq(path, "icons/clipboard_sync.svg") {
        Some(BuiltinIcon::Paste)
    } else if str_eq(path, "icons/plug.svg") || str_eq(path, "icons/connect.svg") || str_eq(path, "icons/network.svg") {
        Some(BuiltinIcon::Plug)
    } else if str_eq(path, "icons/search.svg") || str_eq(path, "icons/find_replace.svg") {
        Some(BuiltinIcon::Search)
    } else if str_eq(path, "icons/settings.svg") {
        Some(BuiltinIcon::Settings)
    } else if str_eq(path, "icons/spinner.svg") {
        Some(BuiltinIcon::Spinner)
    } else if starts_with(path, "icons/") && ends_with(path, ".svg") {
        Some(BuiltinIcon::Generic)
    } else {
        None
    }
}

/// Where an asset comes from.
#[derive(Clone, Copy, Debug, PartialEq, Eq)]
pub enum AssetSourceChoice {
    /// The toolkit's own data for this icon.
    Builtin(BuiltinIcon),
    /// The application's asset source.
    Fallback,
    /// Nothing: the asset does not exist.
    Missing,
}

/// Where a path loads from: built-in icons first, then the application's
/// source when there is one.
pub fn asset_source(path: &str, has_fallback: bool) -> (c: AssetSourceChoice)
    ensures
        c == match builtin_icon_spec(path@) {
            Some(i) => AssetSourceChoice::Builtin(i),
            None => if has_fallback {
                AssetSourceChoice::Fallback
            } else {
                AssetSourceChoice::Missing
            },
        },
{
    match builtin_icon(path) {
        Some(i) => AssetSourceChoice::Builtin(i),
        None => if has_fallback {
            AssetSourceChoice::Fallback
        } else {
            AssetSourceChoice::Missing
        },
    }
}

/// The names the toolkit lists for a directory when the application has no
/// asset source: its main icons under "icons", nothing elsewhere.
pub fn builtin_names(path: &str) -> (v: Vec<String>)
    ensures
        path@ == "icons"@ ==> v@.map_values(|s: String| s@) == seq!["add.svg"@, "arrow_forward.svg"@, "checkmark.svg"@, "chevron_down.svg"@, "chevron_up.svg"@, "clear.svg"@, "copy.svg"@, "dismiss.svg"@, "grid.svg"@, "light_theme.svg"@, "panel_open.svg"@, "plug.svg"@, "search.svg"@, "settings.svg"@, "spinner.svg"@],
        path@ != "icons"@ ==> v@.len() == 0,
{
    let mut v: Vec<String> = Vec::new();
    if str_eq(path, "icons") {
        v.push(String::from_str("add.svg"));
        v.push(String::from_str("arrow_forward.svg"));
        v.push(String::from_str("checkmark.svg"));
        v.push(String::from_str("chevron_down.svg"));
        v.push(String::from_str("chevron_up.svg"));
        v.push(String::from_str("clear.svg"));
        v.push(String::from_str("copy.svg"));
        v.push(String::from_str("dismiss.svg"));
        v.push(String::from_str("grid.svg"));
        v.push(String::from_str("light_theme.svg"));
        v.push(String::from_str("panel_open.svg"));
        v.push(String::from_str("plug.svg"));
        v.push(String::from_str("search.svg"));
        v.push(String::from_str("settings.svg"));
        v.push(String::from_str("spinner.svg"));
        assert(v@.map_values(|s: String| s@) =~= seq!["add.svg"@, "arrow_forward.svg"@, "checkmark.svg"@, "chevron_down.svg"@, "chevron_up.svg"@, "clear.svg"@, "copy.svg"@, "dismiss.svg"@, "grid.svg"@, "light_theme.svg"@, "panel_open.svg"@, "plug.svg"@, "search.svg"@, "settings.svg"@, "spinner.svg"@]);
    }
    v
}

} // verus!
