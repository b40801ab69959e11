use gami::models::GameInstallStatus;
use gami::steam::library::{config_schema, local_record};
use gami::steam::manifest::{fields, lookup, read_manifest, tokenize, Token};
use gami::ui::html::{draw_html, layout_html, HtmlToken};
use gami::ui::icons::{auto_installer_icon, get_icon, icon_path, IconKind, StatusIcon};
use gami::actions::GameAction;
use gami::models::ConfigSchemaKind;

const MANIFEST: &str = "\"AppState\"\n{\n\t\"appid\"\t\t\"1502970\"\n\t\"Universe\"\t\t\"1\"\n\t\"name\"\t\t\"Atelier \\\"Sophie\\\" DX\"\n\t\"StateFlags\"\t\t\"4\"\n\t\"installdir\"\t\t\"C:\\\\Games\\\\Sophie\"\n\t\"LastPlayed\"\t\t\"1700000000\"\n\t\"BytesToDownload\"\t\t\"100\"\n\t\"BytesDownloaded\"\t\t\"100\"\n\t\"InstalledDepots\"\n\t{\n\t\t\"1502971\"\n\t\t{\n\t\t\t\"manifest\"\t\t\"42\"\n\t\t\t\"name\"\t\t\"inner\"\n\t\t}\n\t}\n\t\"UserConfig\"\n\t{\n\t\t\"appid\"\t\t\"9\"\n\t}\n}\n";

fn kinds(tokens: &[Token]) -> String {
    tokens
        .iter()
        .map(|token| match token {
            Token::Text(text) => format!("<{}>", text),
            Token::Open => "{".to_string(),
            Token::Close => "}".to_string(),
        })
        .collect()
}

#[test]
fn tokenize_reads_quotes_and_braces() {
    let tokens = tokenize("\"a\" { \"b\"\t\"c d\"\r\n}").unwrap();
    assert_eq!(kinds(&tokens), "<a>{<b><c d>}");
    assert_eq!(kinds(&tokenize("").unwrap()), "");
    assert_eq!(kinds(&tokenize(" \n ").unwrap()), "");
    assert_eq!(kinds(&tokenize("\"\"").unwrap()), "<>");
    assert_eq!(kinds(&tokenize("\"a\\nb\\tc\\\\d\\\"e\\xf\"").unwrap()), "<a\nb\tc\\d\"exf>");
    assert_eq!(kinds(&tokenize("\"é{}\"{\"ü\"}").unwrap()), "<é{}>{<ü>}");
}

#[test]
fn tokenize_refuses_what_is_no_manifest() {
    assert!(tokenize("\"open").is_none());
    assert!(tokenize("\"a\" \"b\\").is_none());
    assert!(tokenize("\"a\" \"b\\\"").is_none());
    assert!(tokenize("bare").is_none());
    assert!(tokenize("\"a\" // note").is_none());
}

#[test]
fn fields_are_the_pairs_directly_under_the_root() {
    let tokens = tokenize(MANIFEST).unwrap();
    let pairs = fields(&tokens).unwrap();
    let keys: Vec<&str> = pairs.iter().map(|pair| pair.0.as_str()).collect();
    assert_eq!(
        keys,
        vec!["appid", "Universe", "name", "StateFlags", "installdir", "LastPlayed", "BytesToDownload", "BytesDownloaded"]
    );
    assert_eq!(lookup(&pairs, "appid").as_deref(), Some("1502970"));
    assert_eq!(lookup(&pairs, "installdir").as_deref(), Some("C:\\Games\\Sophie"));
    assert_eq!(lookup(&pairs, "manifest"), None);
    assert_eq!(lookup(&pairs, "APPID"), None);
    let twice = vec![("k".to_string(), "1".to_string()), ("k".to_string(), "2".to_string())];
    assert_eq!(lookup(&twice, "k").as_deref(), Some("1"));
}

#[test]
fn fields_refuse_braces_that_do_not_match() {
    let of = |text: &str| fields(&tokenize(text).unwrap());
    assert_eq!(of("\"r\" { }").map(|pairs| pairs.len()), Some(0));
    assert_eq!(of("\"r\" { \"k\" \"v\" } \"junk\"").map(|pairs| pairs.len()), Some(1));
    assert!(of("").is_none());
    assert!(of("\"r\"").is_none());
    assert!(of("{ }").is_none());
    assert!(of("\"r\" \"v\"").is_none());
    assert!(of("\"r\" {").is_none());
    assert!(of("\"r\" { \"k\" }").is_none());
    assert!(of("\"r\" { \"k\" \"v\"").is_none());
    assert!(of("\"r\" { { } }").is_none());
    assert!(of("\"r\" { \"k\" { \"a\" \"b\" }").is_none());
    assert_eq!(of("\"r\" { \"k\" { \"a\" \"b\" } \"x\" \"y\" }").map(|pairs| pairs.len()), Some(1));
}

#[test]
fn read_manifest_takes_the_five_values() {
    let manifest = read_manifest(MANIFEST).unwrap();
    assert_eq!(manifest.app_id, "1502970");
    assert_eq!(manifest.name, "Atelier \"Sophie\" DX");
    assert_eq!(manifest.last_played.as_deref(), Some("1700000000"));
    assert_eq!(manifest.bytes_downloaded.as_deref(), Some("100"));
    assert_eq!(manifest.bytes_to_download.as_deref(), Some("100"));
    let record = local_record(&manifest, None);
    assert_eq!(record.library_id, "1502970");
    assert_eq!(record.install_status, GameInstallStatus::Installed);
    assert_eq!(record.last_played_epoch, Some(1700000000));

    let bare = read_manifest("\"AppState\" { \"name\" \"x\" \"appid\" \"7\" }").unwrap();
    assert_eq!(bare.app_id, "7");
    assert_eq!(bare.last_played, None);
    assert_eq!(bare.bytes_downloaded, None);
    assert_eq!(bare.bytes_to_download, None);
    assert!(read_manifest("\"AppState\" { \"name\" \"x\" }").is_none());
    assert!(read_manifest("\"AppState\" { \"appid\" \"7\" }").is_none());
    assert!(read_manifest("\"AppState\" { \"sub\" { \"appid\" \"7\" \"name\" \"x\" } }").is_none());
    assert!(read_manifest("").is_none());
    assert!(read_manifest("not a manifest").is_none());
}

#[test]
fn the_addon_declares_two_configuration_fields() {
    let schema = config_schema();
    assert_eq!(schema.keys(), vec!["steamId", "apiKey"]);
    assert_eq!(schema.get("steamId").unwrap().name, "Steam ID");
    assert_eq!(schema.get("steamId").unwrap().kind, ConfigSchemaKind::Int);
    assert_eq!(schema.get("apiKey").unwrap().name, "API Key");
    assert_eq!(schema.get("apiKey").unwrap().kind, ConfigSchemaKind::Int);
}

fn text(words: &str) -> HtmlToken {
    HtmlToken::Text(words.to_string())
}

fn start(name: &str) -> HtmlToken {
    HtmlToken::StartTag(name.to_string())
}

#[test]
fn layout_breaks_rows_at_br() {
    let tokens = vec![
        text("a"),
        start("b"),
        text("c"),
        HtmlToken::EndTag("b".to_string()),
        start("br"),
        HtmlToken::Other,
        text("d"),
        start("br"),
        start("br"),
    ];
    assert_eq!(
        layout_html(&tokens),
        vec![vec!["a".to_string(), "c".to_string()], vec!["d".to_string()], vec![], vec![]]
    );
    assert_eq!(layout_html(&vec![]), vec![Vec::<String>::new()]);
    assert_eq!(layout_html(&vec![start("BR")]), vec![Vec::<String>::new()]);
}

#[test]
fn draw_html_reads_the_text() {
    assert_eq!(draw_html("Hello"), vec![vec!["Hello".to_string()]]);
    assert_eq!(
        draw_html("<p>One</p><br>Two <b>bold</b><br/><!-- note -->Three &amp; four"),
        vec![
            vec!["One".to_string()],
            vec!["Two ".to_string(), "bold".to_string()],
            vec!["Three & four".to_string()]
        ]
    );
    assert_eq!(draw_html(""), vec![Vec::<String>::new()]);
    assert_eq!(draw_html("<br>").len(), 2);
}

#[test]
fn icon_path_decodes_the_path_of_the_url() {
    assert_eq!(icon_path("", false), "");
    assert_eq!(icon_path("file:///home/user/My%20Games/icon.jpg", false), "/home/user/My Games/icon.jpg");
    assert_eq!(icon_path("file:///C:/Steam/a%2Bb.jpg", true), "C:/Steam/a+b.jpg");
    assert_eq!(icon_path("file:///C:/Steam/a.jpg", false), "/C:/Steam/a.jpg");
    assert_eq!(icon_path("https://example.com/a/b.png?x=1#frag", false), "/a/b.png");
    assert_eq!(icon_path("https://example.com", true), "");
    assert_eq!(icon_path("not a url", false), "");
    assert_eq!(icon_path("file:///bad%FFbytes", false), "");
    assert_eq!(icon_path("file:///caf%C3%A9", false), "/café");
}

#[test]
fn icons_by_kind_and_status() {
    assert_eq!(get_icon(IconKind::Action(GameAction::Play)), '\u{e037}');
    assert_eq!(get_icon(IconKind::Action(GameAction::Install)), '\u{e145}');
    assert_eq!(get_icon(IconKind::Action(GameAction::Uninstall)), '\u{e15b}');
    assert_eq!(get_icon(IconKind::Action(GameAction::Delete)), '\u{e037}');
    assert_eq!(get_icon(IconKind::Action(GameAction::Edit)), '\u{f88d}');
    assert_eq!(get_icon(IconKind::Library), '\u{e02f}');
    assert_eq!(get_icon(IconKind::Achievements), '\u{e71a}');
    assert_eq!(get_icon(IconKind::Settings), '\u{e8b8}');
    assert_eq!(get_icon(IconKind::Addons), '\u{e87b}');
    assert_eq!(get_icon(IconKind::Appearance), '\u{e8f4}');
    assert_eq!(auto_installer_icon(GameInstallStatus::Installed), StatusIcon::CircleCheck);
    assert_eq!(auto_installer_icon(GameInstallStatus::Installing), StatusIcon::Loader);
    assert_eq!(auto_installer_icon(GameInstallStatus::Queued), StatusIcon::PlayerPause);
    assert_eq!(auto_installer_icon(GameInstallStatus::InLibrary), StatusIcon::CircleX);
    assert_eq!(auto_installer_icon(GameInstallStatus::Uninstalling), StatusIcon::CircleX);
}
