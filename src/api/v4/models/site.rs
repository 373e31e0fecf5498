//! Site configuration models for Cloudreve API v4
use vstd::prelude::*;

use crate::text::str_eq;

use super::file::{File};

verus! {

/// Site configuration section type
#[derive(Debug, Clone, Copy, PartialEq, Eq, Structural)]
pub enum SiteConfigSection {
    Basic,
    Login,
    Explorer,
    Emojis,
    Vas,
    App,
    Thumb,
}

/// File viewer configuration
#[derive(Debug, Clone, Default)]
pub struct FileViewer {
    pub extensions: Vec<String>,
    pub handler: String,
    pub name: String,
    pub priority: i32,
}

/// Payment setting
#[derive(Debug, Clone)]
pub struct PaymentSetting {
    pub providers: Vec<PaymentProvider>,
}

/// Payment provider
#[derive(Debug, Clone)]
pub struct PaymentProvider {
    pub id: String,
    pub name: String,
    pub enabled: bool,
}

/// Custom property
#[derive(Debug, Clone, Default)]
pub struct CustomProps {
    pub key: String,
    pub name: String,
    pub kind: String,
    pub options: Option<Vec<String>>,
}

/// Custom navigation item
#[derive(Debug, Clone)]
pub struct CustomNavItem {
    pub icon: String,
    pub name: String,
    pub url: String,
}

/// Custom HTML
#[derive(Debug, Clone)]
pub struct CustomHTML {
    pub head: Option<String>,
    pub body: Option<String>,
}


/// The name of a configuration section as the server spells it.
pub open spec fn section_name(s: SiteConfigSection) -> Seq<char> {
    match s {
        SiteConfigSection::Basic => seq!['b', 'a', 's', 'i', 'c'],
        SiteConfigSection::Login => seq!['l', 'o', 'g', 'i', 'n'],
        SiteConfigSection::Explorer => seq!['e', 'x', 'p', 'l', 'o', 'r', 'e', 'r'],
        SiteConfigSection::Emojis => seq!['e', 'm', 'o', 'j', 'i', 's'],
        SiteConfigSection::Vas => seq!['v', 'a', 's'],
        SiteConfigSection::App => seq!['a', 'p', 'p'],
        SiteConfigSection::Thumb => seq!['t', 'h', 'u', 'm', 'b'],
    }
}

impl SiteConfigSection {
    /// The name of the section as the server spells it.
    pub fn as_str(self) -> (r: &'static str)
        ensures
            r@ == section_name(self),
    {
        proof {
            reveal_strlit("basic");
            reveal_strlit("login");
            reveal_strlit("explorer");
            reveal_strlit("emojis");
            reveal_strlit("vas");
            reveal_strlit("app");
            reveal_strlit("thumb");
        }
        let r = match self {
            SiteConfigSection::Basic => "basic",
            SiteConfigSection::Login => "login",
            SiteConfigSection::Explorer => "explorer",
            SiteConfigSection::Emojis => "emojis",
            SiteConfigSection::Vas => "vas",
            SiteConfigSection::App => "app",
            SiteConfigSection::Thumb => "thumb",
        };
        assert(r@ =~= section_name(self));
        r
    }
}

/// The section a name selects; an absent or unknown name selects `Basic`.
pub open spec fn section_of_name(name: Option<Seq<char>>) -> SiteConfigSection {
    match name {
        Some(n) => if n == section_name(SiteConfigSection::Login) {
            SiteConfigSection::Login
        } else if n == section_name(SiteConfigSection::Explorer) {
            SiteConfigSection::Explorer
        } else if n == section_name(SiteConfigSection::Emojis) {
            SiteConfigSection::Emojis
        } else if n == section_name(SiteConfigSection::Vas) {
            SiteConfigSection::Vas
        } else if n == section_name(SiteConfigSection::App) {
            SiteConfigSection::App
        } else if n == section_name(SiteConfigSection::Thumb) {
            SiteConfigSection::Thumb
        } else {
            SiteConfigSection::Basic
        },
        None => SiteConfigSection::Basic,
    }
}

impl SiteConfigSection {
    /// The section a name selects (see `section_of_name`).
    pub fn from_name(name: Option<&str>) -> (r: SiteConfigSection)
        ensures
            r == section_of_name(match name {
                Some(n) => Some(n@),
                None => None,
            }),
    {
        match name {
            None => SiteConfigSection::Basic,
            Some(n) => {
                if str_eq(n, SiteConfigSection::Login.as_str()) {
                    SiteConfigSection::Login
                } else if str_eq(n, SiteConfigSection::Explorer.as_str()) {
                    SiteConfigSection::Explorer
                } else if str_eq(n, SiteConfigSection::Emojis.as_str()) {
                    SiteConfigSection::Emojis
                } else if str_eq(n, SiteConfigSection::Vas.as_str()) {
                    SiteConfigSection::Vas
                } else if str_eq(n, SiteConfigSection::App.as_str()) {
                    SiteConfigSection::App
                } else if str_eq(n, SiteConfigSection::Thumb.as_str()) {
                    SiteConfigSection::Thumb
                } else {
                    SiteConfigSection::Basic
                }
            },
        }
    }
}

} // verus!
