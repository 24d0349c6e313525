use vstd::prelude::*;

use crate::data::same_text;

verus! {

/// The files on the asset allow-list.
#[derive(Debug, Clone, Copy, PartialEq, Eq, Structural)]
pub enum Asset {
    MainCss,
    ThemeCss,
    TerminalCss,
    InteractionsCss,
    HtmxJs,
    Favicon,
    LogoPng,
}

/// The asset served under `path` (relative to `/_assets/`), if any.
pub open spec fn asset_of_path(path: Seq<char>) -> Option<Asset> {
    if path == "main.css"@ {
        Some(Asset::MainCss)
    } else if path == "theme.css"@ {
        Some(Asset::ThemeCss)
    } else if path == "css/terminal.css"@ {
        Some(Asset::TerminalCss)
    } else if path == "css/interactions.css"@ {
        Some(Asset::InteractionsCss)
    } else if path == "htmx.min.js"@ {
        Some(Asset::HtmxJs)
    } else if path == "favicon.svg"@ {
        Some(Asset::Favicon)
    } else if path == "logo.png"@ {
        Some(Asset::LogoPng)
    } else {
        None
    }
}

/// The MIME type each asset is served with.
pub open spec fn content_type_of(a: Asset) -> Seq<char> {
    match a {
        Asset::MainCss | Asset::ThemeCss | Asset::TerminalCss | Asset::InteractionsCss => "text/css"@,
        Asset::HtmxJs => "application/javascript"@,
        Asset::Favicon => "image/svg+xml"@,
        Asset::LogoPng => "image/png"@,
    }
}

/// The bytes of every asset on the allow-list.
pub struct AssetBundle {
    pub main_css: Vec<u8>,
    pub theme_css: Vec<u8>,
    pub terminal_css: Vec<u8>,
    pub interactions_css: Vec<u8>,
    pub htmx_js: Vec<u8>,
    pub favicon: Vec<u8>,
    pub logo_png: Vec<u8>,
}

/// The bytes that `bundle` holds for `a`.
pub open spec fn bundle_bytes(bundle: AssetBundle, a: Asset) -> Seq<u8> {
    match a {
        Asset::MainCss => bundle.main_css@,
        Asset::ThemeCss => bundle.theme_css@,
        Asset::TerminalCss => bundle.terminal_css@,
        Asset::InteractionsCss => bundle.interactions_css@,
        Asset::HtmxJs => bundle.htmx_js@,
        Asset::Favicon => bundle.favicon@,
        Asset::LogoPng => bundle.logo_png@,
    }
}

/// The answer to an asset request: status, content type (none on 404) and
/// body.
pub struct AssetReply {
    pub status: u16,
    pub content_type: Option<String>,
    pub body: Vec<u8>,
}

impl Asset {
    /// The MIME type this asset is served with.
    pub fn content_type(&self) -> (r: String)
        ensures
            r@ == content_type_of(*self),
    {
        match self {
            Asset::MainCss | Asset::ThemeCss | Asset::TerminalCss | Asset::InteractionsCss => {
                String::from_str("text/css")
            },
            Asset::HtmxJs => String::from_str("application/javascript"),
            Asset::Favicon => String::from_str("image/svg+xml"),
            Asset::LogoPng => String::from_str("image/png"),
        }
    }
}

impl AssetBundle {
    /// The bytes held for `a`.
    pub fn bytes(&self, a: Asset) -> (r: &Vec<u8>)
        ensures
            r@ == bundle_bytes(*self, a),
    {
        match a {
            Asset::MainCss => &self.main_css,
            Asset::ThemeCss => &self.theme_css,
            Asset::TerminalCss => &self.terminal_css,
            Asset::InteractionsCss => &self.interactions_css,
            Asset::HtmxJs => &self.htmx_js,
            Asset::Favicon => &self.favicon,
            Asset::LogoPng => &self.logo_png,
        }
    }
}

/// The asset on the allow-list whose path is exactly `path`.
pub fn asset_for_path(path: &str) -> (r: Option<Asset>)
    ensures
        r == asset_of_path(path@),
{
    if same_text(path, "main.css") {
        Some(Asset::MainCss)
    } else if same_text(path, "theme.css") {
        Some(Asset::ThemeCss)
    } else if same_text(path, "css/terminal.css") {
        Some(Asset::TerminalCss)
    } else if same_text(path, "css/interactions.css") {
        Some(Asset::InteractionsCss)
    } else if same_text(path, "htmx.min.js") {
        Some(Asset::HtmxJs)
    } else if same_text(path, "favicon.svg") {
        Some(Asset::Favicon)
    } else if same_text(path, "logo.png") {
        Some(Asset::LogoPng)
    } else {
        None
    }
}

fn copy_bytes(v: &Vec<u8>) -> (r: Vec<u8>)
    ensures
        r@ == v@,
{
    let mut out: Vec<u8> = Vec::with_capacity(v.len());
    let mut i: usize = 0;
    while i < v.len()
        invariant
            i <= v@.len(),
            out@ == v@.subrange(0, i as int),
        decreases v@.len() - i,
    {
        out.push(v[i]);
        i = i + 1;
    }
    assert(out@ =~= v@);
    out
}

/// `GET /_assets/{path}`: the bundled bytes of an allow-listed asset with
/// its content type, or 404 with no content type and an empty body.
pub fn handle_assets(path: &str, bundle: &AssetBundle) -> (r: AssetReply)
    ensures
        match asset_of_path(path@) {
            Some(a) => r.status == 200 && r.body@ == bundle_bytes(*bundle, a) && (
            r.content_type matches Some(t) && t@ == content_type_of(a)),
            None => r.status == 404 && r.content_type is None && r.body@.len() == 0,
        },
{
    match asset_for_path(path) {
        Some(a) => AssetReply {
            status: 200,
            content_type: Some(a.content_type()),
            body: copy_bytes(bundle.bytes(a)),
        },
        None => AssetReply { status: 404, content_type: None, body: Vec::new() },
    }
}

} // verus!
