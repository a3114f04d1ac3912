use diwata::assets::{asset_kind, extension, index_asset};
use diwata::codec::ContentKind;
use diwata::opt::Opt;

fn path(items: &[&str]) -> Vec<String> {
    items.iter().map(|s| s.to_string()).collect()
}

#[test]
fn asset_kind_follows_the_extension() {
    assert_eq!(asset_kind(&path(&["index.html"])), ContentKind::Html);
    assert_eq!(asset_kind(&path(&["css", "app.css"])), ContentKind::Css);
    assert_eq!(asset_kind(&path(&["data", "x.min.json"])), ContentKind::Json);
    assert_eq!(asset_kind(&path(&["js", "app.js"])), ContentKind::Binary);
    assert_eq!(asset_kind(&path(&["html", "README"])), ContentKind::Binary);
    assert_eq!(asset_kind(&path(&[".html"])), ContentKind::Binary);
    assert_eq!(asset_kind(&path(&[])), ContentKind::Binary);
}

#[test]
fn extension_is_after_the_last_dot() {
    assert_eq!(extension(&"a.tar.gz".to_string()), Some("gz".to_string()));
    assert_eq!(extension(&"a.".to_string()), Some("".to_string()));
    assert_eq!(extension(&".profile".to_string()), None);
    assert_eq!(extension(&"..x".to_string()), Some("x".to_string()));
    assert_eq!(extension(&"plain".to_string()), None);
}

#[test]
fn index_asset_is_index_html() {
    assert_eq!(index_asset(), path(&["index.html"]));
}

#[test]
fn mime_types() {
    assert_eq!(ContentKind::Html.mime(), "text/html; charset=utf-8");
    assert_eq!(ContentKind::Css.mime(), "text/css");
    assert_eq!(ContentKind::Json.mime(), "application/json");
    assert_eq!(ContentKind::Binary.mime(), "application/octet-stream");
}

#[test]
fn default_options_listen_everywhere_on_8000() {
    let o = Opt::defaults();
    assert_eq!(o.db_url, None);
    assert_eq!(o.address, "0.0.0.0");
    assert_eq!(o.port, 8000);
    assert!(!o.open);
    assert_eq!(o.listen_address(), "0.0.0.0:8000");
    assert_eq!(o.browser_host(), "localhost");
    assert_eq!(o.browser_uri(), "http://localhost:8000");
}

#[test]
fn browser_uri_keeps_a_specific_address() {
    let o = Opt { db_url: None, address: "127.0.0.1".to_string(), port: 65535, open: true };
    assert_eq!(o.browser_uri(), "http://127.0.0.1:65535");
    let o = Opt { db_url: None, address: "10.0.0.2".to_string(), port: 0, open: false };
    assert_eq!(o.listen_address(), "10.0.0.2:0");
    assert_eq!(o.browser_uri(), "http://10.0.0.2:0");
}
