//! The settings object: its defaults, its accessors, and how a patch is
//! merged into it.

use crate::migrate::Platform;
use vstd::prelude::*;

verus! {

/// Address of a proxy.
#[derive(Debug, PartialEq, Eq)]
pub struct Proxy {
    pub ip: String,
    pub port: String,
}

/// The mathematical content of a [`Proxy`].
pub ghost struct ProxyView {
    pub ip: Seq<char>,
    pub port: Seq<char>,
}

impl DeepView for Proxy {
    type V = ProxyView;

    open spec fn deep_view(&self) -> ProxyView {
        ProxyView { ip: self.ip@, port: self.port@ }
    }
}

impl View for Proxy {
    type V = ProxyView;

    open spec fn view(&self) -> ProxyView {
        self.deep_view()
    }
}

impl Clone for Proxy {
    fn clone(&self) -> (copy: Proxy)
        ensures
            copy == *self,
    {
        Proxy { ip: self.ip.clone(), port: self.port.clone() }
    }
}

/// The settings. A field that is `None` has not been set.
#[derive(Debug, PartialEq, Eq)]
pub struct ISettings {
    /// What the close button does: `minimize` or `close`.
    pub closer: Option<String>,
    /// Command that opens a project in the code editor.
    pub coder: Option<String>,
    /// Directory into which versions are installed.
    pub directory: Option<String>,
    /// Whether the window stays hidden on launch.
    pub enable_silent_start: Option<bool>,
    /// Language of the interface: `en` or `zh-CN`.
    pub locale: Option<String>,
    /// Address from which versions are downloaded.
    pub mirror: Option<String>,
    /// Proxy to download through.
    pub proxy: Option<Proxy>,
    /// Whether the proxy is switched off.
    pub no_proxy: Option<bool>,
    /// Theme of the interface: `system`, `light` or `dark`.
    pub theme: Option<String>,
}

/// The mathematical content of an [`ISettings`].
pub ghost struct SettingsView {
    pub closer: Option<Seq<char>>,
    pub coder: Option<Seq<char>>,
    pub directory: Option<Seq<char>>,
    pub enable_silent_start: Option<bool>,
    pub locale: Option<Seq<char>>,
    pub mirror: Option<Seq<char>>,
    pub proxy: Option<ProxyView>,
    pub no_proxy: Option<bool>,
    pub theme: Option<Seq<char>>,
}

impl DeepView for ISettings {
    type V = SettingsView;

    open spec fn deep_view(&self) -> SettingsView {
        SettingsView {
            closer: self.closer.deep_view(),
            coder: self.coder.deep_view(),
            directory: self.directory.deep_view(),
            enable_silent_start: self.enable_silent_start,
            locale: self.locale.deep_view(),
            mirror: self.mirror.deep_view(),
            proxy: self.proxy.deep_view(),
            no_proxy: self.no_proxy,
            theme: self.theme.deep_view(),
        }
    }
}

impl View for ISettings {
    type V = SettingsView;

    open spec fn view(&self) -> SettingsView {
        self.deep_view()
    }
}

impl Clone for ISettings {
    fn clone(&self) -> (copy: ISettings)
        ensures
            copy == *self,
    {
        ISettings {
            closer: self.closer.clone(),
            coder: self.coder.clone(),
            directory: self.directory.clone(),
            enable_silent_start: self.enable_silent_start,
            locale: self.locale.clone(),
            mirror: self.mirror.clone(),
            proxy: self.proxy.clone(),
            no_proxy: self.no_proxy,
            theme: self.theme.clone(),
        }
    }
}

/// The editor command on `platform`.
pub open spec fn default_coder_name(platform: Platform) -> Seq<char> {
    match platform {
        Platform::Unix => "code"@,
        Platform::Windows => "code.cmd"@,
    }
}

/// The editor command that is used where the settings name none.
pub fn default_coder(platform: Platform) -> (coder: Option<String>)
    ensures
        coder.deep_view() == Some(default_coder_name(platform)),
{
    match platform {
        Platform::Unix => Some("code".to_owned()),
        Platform::Windows => Some("code.cmd".to_owned()),
    }
}

/// The settings of a fresh install on `platform` that installs into
/// `directory`.
pub open spec fn template_view(platform: Platform, directory: Seq<char>) -> SettingsView {
    SettingsView {
        closer: Some("minimize"@),
        coder: Some(default_coder_name(platform)),
        directory: Some(directory),
        enable_silent_start: Some(false),
        locale: Some("en"@),
        mirror: Some("https://nodejs.org/dist"@),
        proxy: None,
        no_proxy: Some(false),
        theme: Some("system"@),
    }
}

/// `base` with every field that `patch` sets taken from `patch`.
pub open spec fn patched(base: SettingsView, patch: SettingsView) -> SettingsView {
    SettingsView {
        closer: if patch.closer is Some { patch.closer } else { base.closer },
        coder: if patch.coder is Some { patch.coder } else { base.coder },
        directory: if patch.directory is Some { patch.directory } else { base.directory },
        enable_silent_start: if patch.enable_silent_start is Some {
            patch.enable_silent_start
        } else {
            base.enable_silent_start
        },
        locale: if patch.locale is Some { patch.locale } else { base.locale },
        mirror: if patch.mirror is Some { patch.mirror } else { base.mirror },
        proxy: if patch.proxy is Some { patch.proxy } else { base.proxy },
        no_proxy: if patch.no_proxy is Some { patch.no_proxy } else { base.no_proxy },
        theme: if patch.theme is Some { patch.theme } else { base.theme },
    }
}

impl ISettings {
    /// The settings of a fresh install on `platform` that installs into
    /// `directory`.
    pub fn template(platform: Platform, directory: String) -> (settings: ISettings)
        ensures
            settings@ == template_view(platform, directory@),
    {
        ISettings {
            closer: Some("minimize".to_owned()),
            coder: default_coder(platform),
            directory: Some(directory),
            enable_silent_start: Some(false),
            locale: Some("en".to_owned()),
            mirror: Some("https://nodejs.org/dist".to_owned()),
            proxy: None,
            no_proxy: Some(false),
            theme: Some("system".to_owned()),
        }
    }

    /// The language of the interface.
    pub fn get_locale(&self) -> (locale: Option<String>)
        ensures
            locale.deep_view() == self@.locale,
    {
        self.locale.clone()
    }

    /// What the close button does.
    pub fn get_closer(&self) -> (closer: Option<String>)
        ensures
            closer.deep_view() == self@.closer,
    {
        self.closer.clone()
    }

    /// The directory into which versions are installed.
    pub fn get_directory(&self) -> (directory: Option<String>)
        ensures
            directory.deep_view() == self@.directory,
    {
        self.directory.clone()
    }

    /// Takes over every field that `patch` sets and keeps the others.
    /// Writing the result to the settings file is left to the caller.
    pub fn patch_settings(&mut self, patch: ISettings)
        ensures
            final(self)@ == patched(old(self)@, patch@),
    {
        if patch.closer.is_some() {
            self.closer = patch.closer;
        }
        if patch.coder.is_some() {
            self.coder = patch.coder;
        }
        if patch.directory.is_some() {
            self.directory = patch.directory;
        }
        if patch.enable_silent_start.is_some() {
            self.enable_silent_start = patch.enable_silent_start;
        }
        if patch.locale.is_some() {
            self.locale = patch.locale;
        }
        if patch.mirror.is_some() {
            self.mirror = patch.mirror;
        }
        if patch.proxy.is_some() {
            self.proxy = patch.proxy;
        }
        if patch.no_proxy.is_some() {
            self.no_proxy = patch.no_proxy;
        }
        if patch.theme.is_some() {
            self.theme = patch.theme;
        }
    }

    /// Whether the window is created on launch: always, unless the settings
    /// ask for a silent start.
    pub fn shows_window_on_launch(&self) -> (shows: bool)
        ensures
            shows == (self.enable_silent_start != Some(true)),
    {
        match self.enable_silent_start {
            Some(silent) => !silent,
            None => true,
        }
    }

    /// Whether the close button ends the program rather than hiding the
    /// window: only where the settings say `close`.
    pub fn closes_on_request(&self) -> (closes: bool)
        ensures
            closes == (self@.closer == Some("close"@)),
    {
        match &self.closer {
            Some(closer) => {
                let close = "close".to_owned();
                *closer == close
            },
            None => false,
        }
    }
}

} // verus!
