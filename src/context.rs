//! What the user is looking at: the frontmost application and window, and an
//! icon guessed from them.
use vstd::prelude::*;
use crate::text::{chars_of, contains, contains_seq, string_from_chars};

verus! {

/// The frontmost application and window.
#[derive(Clone, Debug)]
pub struct ActiveContext {
    pub app_name: String,
    pub window_title: String,
    pub file_path: Option<String>,
    pub icon: String,
}

impl Default for ActiveContext {
    fn default() -> (r: ActiveContext)
        ensures
            r.app_name@.len() == 0,
            r.window_title@.len() == 0,
            r.file_path is None,
            r.icon@ == "🐾"@,
    {
        ActiveContext {
            app_name: String::new(),
            window_title: String::new(),
            file_path: None,
            icon: "🐾".to_string(),
        }
    }
}

/// Windows has no introspection yet: the empty context.
pub fn get_active_context_windows() -> (r: Result<ActiveContext, String>)
    ensures
        r matches Ok(c) && c.app_name@.len() == 0 && c.window_title@.len() == 0
            && c.file_path is None && c.icon@ == "🐾"@,
{
    Ok(ActiveContext::default())
}

/// What `str::to_lowercase` gives on the text.
pub uninterp spec fn lower_of(s: Seq<char>) -> Seq<char>;

/// Relies on `str::to_lowercase`: the result depends on the characters alone.
#[verifier::external_body]
fn lowercase(s: &str) -> (r: String)
    ensures
        r@ == lower_of(s@),
{
    s.to_lowercase()
}

/// The icon for an application name and window title, both already lower case.
pub open spec fn icon_spec(app: Seq<char>, title: Seq<char>) -> Seq<char> {
    if contains_seq(app, "code"@) || contains_seq(app, "vim"@) || contains_seq(app, "neovim"@) {
        "💻"@
    } else if contains_seq(app, "firefox"@) || contains_seq(app, "chrome"@) || contains_seq(
        app,
        "brave"@,
    ) || contains_seq(app, "safari"@) {
        "🌐"@
    } else if contains_seq(app, "word"@) || contains_seq(title, ".docx"@) || contains_seq(
        title,
        ".doc"@,
    ) {
        "📄"@
    } else if contains_seq(app, "excel"@) || contains_seq(title, ".xlsx"@) || contains_seq(
        title,
        ".csv"@,
    ) {
        "📊"@
    } else if contains_seq(app, "terminal"@) || contains_seq(app, "alacritty"@) || contains_seq(
        app,
        "kitty"@,
    ) || contains_seq(app, "wezterm"@) || contains_seq(app, "konsole"@) {
        "⌨️"@
    } else if contains_seq(app, "slack"@) || contains_seq(app, "discord"@) || contains_seq(
        app,
        "teams"@,
    ) {
        "💬"@
    } else if contains_seq(app, "figma"@) || contains_seq(app, "gimp"@) || contains_seq(
        app,
        "inkscape"@,
    ) {
        "🎨"@
    } else if contains_seq(app, "file"@) || contains_seq(app, "nautilus"@) || contains_seq(
        app,
        "dolphin"@,
    ) {
        "📂"@
    } else {
        "🐾"@
    }
}

/// The icon for a lower-case application name and window title.
pub fn icon_for_lowered(lower_app: &str, lower_title: &str) -> (r: String)
    ensures
        r@ == icon_spec(lower_app@, lower_title@),
{
    let a = chars_of(lower_app);
    let t = chars_of(lower_title);
    if contains(&a, "code") || contains(&a, "vim") || contains(&a, "neovim") {
        "💻".to_string()
    } else if contains(&a, "firefox") || contains(&a, "chrome") || contains(&a, "brave")
        || contains(&a, "safari") {
        "🌐".to_string()
    } else if contains(&a, "word") || contains(&t, ".docx") || contains(&t, ".doc") {
        "📄".to_string()
    } else if contains(&a, "excel") || contains(&t, ".xlsx") || contains(&t, ".csv") {
        "📊".to_string()
    } else if contains(&a, "terminal") || contains(&a, "alacritty") || contains(&a, "kitty")
        || contains(&a, "wezterm") || contains(&a, "konsole") {
        "⌨️".to_string()
    } else if contains(&a, "slack") || contains(&a, "discord") || contains(&a, "teams") {
        "💬".to_string()
    } else if contains(&a, "figma") || contains(&a, "gimp") || contains(&a, "inkscape") {
        "🎨".to_string()
    } else if contains(&a, "file") || contains(&a, "nautilus") || contains(&a, "dolphin") {
        "📂".to_string()
    } else {
        "🐾".to_string()
    }
}

/// The icon for an application name and window title, compared without case.
pub fn guess_icon(app_name: &str, window_title: &str) -> (r: String)
    ensures
        r@ == icon_spec(lower_of(app_name@), lower_of(window_title@)),
{
    let lower_app = lowercase(app_name);
    let lower_title = lowercase(window_title);
    icon_for_lowered(lower_app.as_str(), lower_title.as_str())
}

/// The index of the first `", "` at or after `i`, or the length when there is none.
pub open spec fn find_separator(s: Seq<char>, i: int) -> int
    decreases s.len() - i,
{
    if i < 0 || i + 1 >= s.len() {
        s.len() as int
    } else if s[i] == ',' && s[i + 1] == ' ' {
        i
    } else {
        find_separator(s, i + 1)
    }
}

/// The application name and window title in `"<name>, <title>"`: the text
/// before the first `", "` and the text after it; the title is empty when
/// there is no separator.
pub open spec fn frontmost_spec(raw: Seq<char>) -> (Seq<char>, Seq<char>) {
    let k = find_separator(raw, 0);
    if k < raw.len() {
        (raw.subrange(0, k), raw.subrange(k + 2, raw.len() as int))
    } else {
        (raw, Seq::empty())
    }
}

/// Splits the answer of the system's scripting host, `"<name>, <title>"`,
/// into the application name and the window title.
pub fn split_frontmost(raw: &str) -> (r: (String, String))
    ensures
        (r.0@, r.1@) == frontmost_spec(raw@),
{
    let s = chars_of(raw);
    let n = s.len();
    let mut k: usize = 0;
    while k < n && k + 1 < n && !(s[k] == ',' && s[k + 1] == ' ')
        invariant
            s@ == raw@,
            n == s@.len(),
            k <= n,
            find_separator(s@, k as int) == find_separator(s@, 0),
        decreases n - k,
    {
        k += 1;
    }
    if k < n && k + 1 < n {
        let mut name: Vec<char> = Vec::new();
        let mut title: Vec<char> = Vec::new();
        let mut i: usize = 0;
        while i < k
            invariant
                k + 1 < n,
                n == s@.len(),
                i <= k,
                name@ == s@.subrange(0, i as int),
            decreases k - i,
        {
            name.push(s[i]);
            i += 1;
        }
        let mut j: usize = k + 2;
        while j < n
            invariant
                k + 2 <= j <= n,
                n == s@.len(),
                title@ == s@.subrange(k + 2, j as int),
            decreases n - j,
        {
            title.push(s[j]);
            j += 1;
        }
        (string_from_chars(&name), string_from_chars(&title))
    } else {
        let empty: Vec<char> = Vec::new();
        (string_from_chars(&s), string_from_chars(&empty))
    }
}

} // verus!
