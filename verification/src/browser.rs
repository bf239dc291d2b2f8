//! The browsers that the updater installs, and where each one lives.
use vstd::prelude::*;

use crate::text::contains_chars;

verus! {

/// A browser build the updater knows how to fetch.
#[derive(Clone, Copy, Debug, PartialEq, Eq, Structural)]
pub enum BrowserType {
    Firefox,
    Zen,
}

impl Default for BrowserType {
    fn default() -> (b: Self)
        ensures
            b == BrowserType::Firefox,
    {
        BrowserType::Firefox
    }
}

/// Download URL of the latest build of each browser.
pub open spec fn browser_url(b: BrowserType) -> Seq<char> {
    match b {
        BrowserType::Firefox => "https://download.mozilla.org/?product=firefox-nightly-latest-ssl&os=linux64&lang=en-US"@,
        BrowserType::Zen => "https://github.com/zen-browser/desktop/releases/download/twilight-1/zen.linux-x86_64.tar.xz"@,
    }
}

/// Name of the directory each browser is installed in.
pub open spec fn browser_install_dir(b: BrowserType) -> Seq<char> {
    match b {
        BrowserType::Firefox => "firefox"@,
        BrowserType::Zen => "zen"@,
    }
}

/// Name of the directory that keeps the previous installation.
pub open spec fn browser_back_dir(b: BrowserType) -> Seq<char> {
    match b {
        BrowserType::Firefox => "firefox_back"@,
        BrowserType::Zen => "zen_back"@,
    }
}

/// Each browser keeps its backup beside its installation, in a directory
/// named after the installation directory with `_back` appended.
pub proof fn lemma_back_dir_follows_install_dir(b: BrowserType)
    ensures
        browser_back_dir(b) == browser_install_dir(b) + "_back"@,
{
    reveal_strlit("_back");
    reveal_strlit("firefox");
    reveal_strlit("firefox_back");
    reveal_strlit("zen");
    reveal_strlit("zen_back");
    assert(browser_back_dir(b) =~= browser_install_dir(b) + "_back"@);
}

/// No two browsers share a directory: each browser's installation and
/// backup directories differ from every other browser's, and no
/// installation directory is any browser's backup directory.
pub proof fn lemma_browser_dirs_distinct(a: BrowserType, b: BrowserType)
    ensures
        a != b ==> browser_install_dir(a) != browser_install_dir(b),
        a != b ==> browser_back_dir(a) != browser_back_dir(b),
        browser_install_dir(a) != browser_back_dir(b),
{
    reveal_strlit("firefox");
    reveal_strlit("firefox_back");
    reveal_strlit("zen");
    reveal_strlit("zen_back");
    assert("firefox"@.len() != "zen"@.len());
    assert("firefox_back"@.len() != "zen_back"@.len());
}

/// The download of each browser is the build of that browser: its URL
/// names the browser's installation directory.
pub proof fn lemma_url_names_install_dir(b: BrowserType)
    ensures
        contains_chars(browser_url(b), browser_install_dir(b)),
{
    reveal_strlit("https://download.mozilla.org/?product=firefox-nightly-latest-ssl&os=linux64&lang=en-US");
    reveal_strlit("https://github.com/zen-browser/desktop/releases/download/twilight-1/zen.linux-x86_64.tar.xz");
    reveal_strlit("firefox");
    reveal_strlit("zen");
    match b {
        BrowserType::Firefox => {
            let needle = browser_install_dir(b);
            assert(needle.len() == 7);
            assert(browser_url(b).subrange(38, 38 + needle.len() as int) =~= needle);
        },
        BrowserType::Zen => {
            let needle = browser_install_dir(b);
            assert(needle.len() == 3);
            assert(browser_url(b).subrange(19, 19 + needle.len() as int) =~= needle);
        },
    }
}

impl BrowserType {
    /// Download URL of the latest build.
    pub fn url(&self) -> (u: &'static str)
        ensures
            u@ == browser_url(*self),
    {
        match self {
            BrowserType::Firefox => "https://download.mozilla.org/?product=firefox-nightly-latest-ssl&os=linux64&lang=en-US",
            BrowserType::Zen => "https://github.com/zen-browser/desktop/releases/download/twilight-1/zen.linux-x86_64.tar.xz",
        }
    }

    /// Name of the installation directory.
    pub fn install_dir(&self) -> (d: &'static str)
        ensures
            d@ == browser_install_dir(*self),
    {
        match self {
            BrowserType::Firefox => "firefox",
            BrowserType::Zen => "zen",
        }
    }

    /// Name of the backup directory.
    pub fn back_dir(&self) -> (d: &'static str)
        ensures
            d@ == browser_back_dir(*self),
    {
        match self {
            BrowserType::Firefox => "firefox_back",
            BrowserType::Zen => "zen_back",
        }
    }
}

/// What restoring the backup does to the two directories.
#[derive(Clone, Copy, Debug, PartialEq, Eq, Structural)]
pub enum RestoreAction {
    /// Remove the installation, then move the backup in its place.
    ReplaceInstall,
    /// Move the backup to where the installation belongs.
    MoveBackIn,
    /// Nothing to restore.
    Nothing,
}

/// Restoring needs a backup; an existing installation is replaced by it.
pub fn restore_action(install_exists: bool, back_exists: bool) -> (a: RestoreAction)
    ensures
        !back_exists ==> a == RestoreAction::Nothing,
        back_exists && install_exists ==> a == RestoreAction::ReplaceInstall,
        back_exists && !install_exists ==> a == RestoreAction::MoveBackIn,
        a == RestoreAction::Nothing <==> !back_exists,
        a == RestoreAction::ReplaceInstall <==> (back_exists && install_exists),
{
    if install_exists && back_exists {
        RestoreAction::ReplaceInstall
    } else if !install_exists && back_exists {
        RestoreAction::MoveBackIn
    } else {
        RestoreAction::Nothing
    }
}

} // verus!
