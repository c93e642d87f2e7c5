use pocketpaw_shell::context::{
    get_active_context_windows, guess_icon, icon_for_lowered, split_frontmost, ActiveContext,
};
use pocketpaw_shell::effect::NativeEffect;
use pocketpaw_shell::tokens::{config_dir_in, config_file_in, join_path, OAuthTokens};

#[test]
fn icon_by_application() {
    assert_eq!(guess_icon("Code", ""), "💻");
    assert_eq!(guess_icon("NeoVim", ""), "💻");
    assert_eq!(guess_icon("Firefox", "Mozilla"), "🌐");
    assert_eq!(guess_icon("Alacritty", ""), "⌨️");
    assert_eq!(guess_icon("Slack", ""), "💬");
    assert_eq!(guess_icon("GIMP", ""), "🎨");
    assert_eq!(guess_icon("Nautilus", ""), "📂");
    assert_eq!(guess_icon("", ""), "🐾");
}

#[test]
fn icon_by_title() {
    assert_eq!(guess_icon("libreoffice", "Report.DOCX"), "📄");
    assert_eq!(guess_icon("libreoffice", "data.csv"), "📊");
    assert_eq!(guess_icon("Excel", ""), "📊");
}

#[test]
fn icon_order_of_rules() {
    assert_eq!(icon_for_lowered("vscode-firefox", ""), "💻");
    assert_eq!(icon_for_lowered("chrome", "notes.docx"), "🌐");
    assert_eq!(icon_for_lowered("Code", ""), "🐾");
}

#[test]
fn default_context() {
    let c = ActiveContext::default();
    assert_eq!(c.app_name, "");
    assert_eq!(c.window_title, "");
    assert!(c.file_path.is_none());
    assert_eq!(c.icon, "🐾");
    let w = get_active_context_windows().unwrap();
    assert_eq!(w.icon, "🐾");
}

#[test]
fn frontmost_split() {
    assert_eq!(split_frontmost("Safari, Apple, Inc."), ("Safari".to_string(), "Apple, Inc.".to_string()));
    assert_eq!(split_frontmost("Finder"), ("Finder".to_string(), String::new()));
    assert_eq!(split_frontmost("Mail,x"), ("Mail,x".to_string(), String::new()));
    assert_eq!(split_frontmost(", t"), (String::new(), "t".to_string()));
}

#[test]
fn config_paths() {
    assert_eq!(join_path("/home/u", ".pocketpaw"), "/home/u/.pocketpaw");
    assert_eq!(join_path("/home/u/", ".pocketpaw"), "/home/u/.pocketpaw");
    assert_eq!(join_path("", "a"), "a");
    let home = Some("/home/u".to_string());
    assert_eq!(config_dir_in(&home).unwrap(), "/home/u/.pocketpaw");
    assert_eq!(config_file_in(&home, "client_oauth.json").unwrap(), "/home/u/.pocketpaw/client_oauth.json");
    assert_eq!(config_dir_in(&None).unwrap_err(), "Could not determine home directory");
    assert_eq!(config_file_in(&None, "access_token").unwrap_err(), "Could not determine home directory");
}

#[test]
fn token_record_holds_fields() {
    let t = OAuthTokens {
        access_token: "at".to_string(),
        refresh_token: None,
        expires_at: 1_700_000_000,
        scopes: vec!["read".to_string(), "write".to_string()],
    };
    let u = t.clone();
    assert_eq!(t, u);
    assert_eq!(u.scopes.len(), 2);
}

#[test]
fn effect_values_differ() {
    assert_ne!(NativeEffect::Mica, NativeEffect::NoEffect);
    assert_eq!(NativeEffect::Vibrancy, NativeEffect::Vibrancy);
}
