//! The questions a locator puts to the host, the answers it takes, and a
//! model of a host to state the locators' contracts over.
//!
//! A locator is a small machine. It names the probe it waits for; the caller
//! performs it on the real host and hands the answer back; the locator then
//! either waits for a further probe or has finished.

use crate::path::HostPath;
use crate::winapi::{KEY_ENUMERATE_SUB_KEYS, KEY_QUERY_VALUE, KEY_WOW64_32KEY};
use vstd::prelude::*;

verus! {

/// A registry location under `HKEY_LOCAL_MACHINE` that a locator reads.
#[derive(Clone, Copy, Debug, PartialEq, Eq)]
pub enum RegistryKey {
    /// Where Visual Studio 2015 and earlier record their installation roots.
    VisualStudio,
    /// Where the Windows kits record their installation roots.
    InstalledRoots,
}

impl RegistryKey {
    /// The path of the key below `HKEY_LOCAL_MACHINE`.
    pub open spec fn path_text(self) -> Seq<char> {
        match self {
            RegistryKey::VisualStudio => "SOFTWARE\\Microsoft\\VisualStudio\\SxS\\VS7"@,
            RegistryKey::InstalledRoots => "SOFTWARE\\Microsoft\\Windows Kits\\Installed Roots"@,
        }
    }

    /// The rights to open the key with. Both keys are read in the 32-bit
    /// view of the registry, whatever the bitness of the process.
    pub open spec fn access_mask(self) -> u32 {
        match self {
            RegistryKey::VisualStudio => KEY_QUERY_VALUE | KEY_WOW64_32KEY,
            RegistryKey::InstalledRoots => KEY_QUERY_VALUE | KEY_WOW64_32KEY
                | KEY_ENUMERATE_SUB_KEYS,
        }
    }

    /// The path of the key below `HKEY_LOCAL_MACHINE`.
    pub fn path(self) -> (path: &'static str)
        ensures
            path@ == self.path_text(),
    {
        match self {
            RegistryKey::VisualStudio => "SOFTWARE\\Microsoft\\VisualStudio\\SxS\\VS7",
            RegistryKey::InstalledRoots => "SOFTWARE\\Microsoft\\Windows Kits\\Installed Roots",
        }
    }

    /// The rights to open the key with.
    pub fn access(self) -> (mask: u32)
        ensures
            mask == self.access_mask(),
    {
        match self {
            RegistryKey::VisualStudio => KEY_QUERY_VALUE | KEY_WOW64_32KEY,
            RegistryKey::InstalledRoots => KEY_QUERY_VALUE | KEY_WOW64_32KEY
                | KEY_ENUMERATE_SUB_KEYS,
        }
    }
}

/// One entry of a directory listing.
#[derive(Clone, Debug, PartialEq, Eq)]
pub struct DirEntry {
    /// The path of the entry: that of the directory listed, with the
    /// entry's name as its final component.
    pub path: HostPath,
    /// Whether the entry is itself a directory.
    pub is_dir: bool,
}

/// A [`DirEntry`] as a mathematical value.
pub struct DirEntryView {
    pub path: Seq<u16>,
    pub is_dir: bool,
}

impl View for DirEntry {
    type V = DirEntryView;

    open spec fn view(&self) -> DirEntryView {
        DirEntryView { path: self.path@, is_dir: self.is_dir }
    }
}

impl DeepView for DirEntry {
    type V = DirEntryView;

    open spec fn deep_view(&self) -> DirEntryView {
        self@
    }
}

/// Something for the caller to do on the host.
#[derive(Clone, Debug, PartialEq, Eq)]
pub enum Probe {
    /// Open the registry key, and keep it open for the queries that follow.
    OpenKey(RegistryKey),
    /// Read the string value of the given name under the open key.
    QueryValue(RegistryKey, String),
    /// List the directory at the path.
    ListDir(HostPath),
    /// Read the file at the path as text.
    ReadText(HostPath),
    /// Check that a file system entry exists at the path.
    FileExists(HostPath),
    /// Initialise the interop subsystem for the calling thread.
    EnterInterop,
    /// Instantiate the service that registers Visual Studio installations.
    CreateSetup,
    /// Ask the service for an enumerator of the installations.
    EnumInstances,
    /// Ask the enumerator for one more installation.
    NextInstance,
    /// Ask the installation handed out last for its installation path.
    InstallationPath,
}

/// A [`Probe`] as a mathematical value.
pub enum ProbeView {
    OpenKey(RegistryKey),
    QueryValue(RegistryKey, Seq<char>),
    ListDir(Seq<u16>),
    ReadText(Seq<u16>),
    FileExists(Seq<u16>),
    EnterInterop,
    CreateSetup,
    EnumInstances,
    NextInstance,
    InstallationPath,
}

impl View for Probe {
    type V = ProbeView;

    open spec fn view(&self) -> ProbeView {
        match self {
            Probe::OpenKey(key) => ProbeView::OpenKey(*key),
            Probe::QueryValue(key, name) => ProbeView::QueryValue(*key, name@),
            Probe::ListDir(path) => ProbeView::ListDir(path@),
            Probe::ReadText(path) => ProbeView::ReadText(path@),
            Probe::FileExists(path) => ProbeView::FileExists(path@),
            Probe::EnterInterop => ProbeView::EnterInterop,
            Probe::CreateSetup => ProbeView::CreateSetup,
            Probe::EnumInstances => ProbeView::EnumInstances,
            Probe::NextInstance => ProbeView::NextInstance,
            Probe::InstallationPath => ProbeView::InstallationPath,
        }
    }
}

/// What the host said to a probe.
#[derive(Clone, Debug, PartialEq, Eq)]
pub enum Answer {
    /// The call failed, or what was asked for is not there.
    Failed,
    /// The call succeeded and has nothing to hand back: the key is open, the
    /// file exists, the enumerator has handed out an installation.
    Done,
    /// The path asked for, as the host holds it: a registry value, the
    /// installation path of an installation.
    Path(HostPath),
    /// The content of the file asked for.
    Text(String),
    /// The entries of the directory asked for.
    Entries(Vec<DirEntry>),
}

/// An [`Answer`] as a mathematical value.
pub enum AnswerView {
    Failed,
    Done,
    Path(Seq<u16>),
    Text(Seq<char>),
    Entries(Seq<DirEntryView>),
}

impl View for Answer {
    type V = AnswerView;

    open spec fn view(&self) -> AnswerView {
        match self {
            Answer::Failed => AnswerView::Failed,
            Answer::Done => AnswerView::Done,
            Answer::Path(path) => AnswerView::Path(path@),
            Answer::Text(text) => AnswerView::Text(text@),
            Answer::Entries(entries) => AnswerView::Entries(entries.deep_view()),
        }
    }
}

impl AnswerView {
    /// Whether the answer reports plain success. An answer that carries
    /// something where nothing was asked for counts as a failure.
    pub open spec fn succeeded(self) -> bool {
        self is Done
    }

    /// The path that the answer carries, if it carries one.
    pub open spec fn path(self) -> Option<Seq<u16>> {
        match self {
            AnswerView::Path(path) => Some(path),
            _ => None,
        }
    }

    /// The text that the answer carries, if it carries one.
    pub open spec fn text(self) -> Option<Seq<char>> {
        match self {
            AnswerView::Text(text) => Some(text),
            _ => None,
        }
    }

    /// The listing that the answer carries, if it carries one.
    pub open spec fn entries(self) -> Option<Seq<DirEntryView>> {
        match self {
            AnswerView::Entries(entries) => Some(entries),
            _ => None,
        }
    }
}

/// Where a locator stands after an answer.
#[derive(Debug)]
pub enum Step<M, R> {
    /// The locator waits for the answer to a further probe.
    Next(M),
    /// The locator has finished with this result.
    Finished(R),
}

impl<M: View, R: DeepView> View for Step<M, R> {
    type V = Step<M::V, R::V>;

    open spec fn view(&self) -> Step<M::V, R::V> {
        match self {
            Step::Next(machine) => Step::Next(machine@),
            Step::Finished(result) => Step::Finished(result.deep_view()),
        }
    }
}

/// A host as the locators see it: what it would answer to every probe.
pub struct Host {
    /// The registry keys that can be opened.
    pub keys: Set<RegistryKey>,
    /// The string values under each key, by the value's name.
    pub values: Map<(RegistryKey, Seq<char>), Seq<u16>>,
    /// The directories that can be listed, each with its entries in the
    /// order in which the file system hands them out.
    pub dirs: Map<Seq<u16>, Seq<DirEntryView>>,
    /// The files that can be read as text, each with its content.
    pub texts: Map<Seq<u16>, Seq<char>>,
    /// The paths at which something exists.
    pub files: Set<Seq<u16>>,
    /// Whether the interop subsystem can be initialised.
    pub interop: bool,
    /// Whether the installation-registration service can be instantiated.
    pub setup: bool,
    /// Whether the service hands out an enumerator.
    pub enumerable: bool,
    /// The registered installations in the order of their enumeration, each
    /// with its installation path if it gives one.
    pub installations: Seq<Option<Seq<u16>>>,
}

impl Host {
    /// The string value `name` under `key`, if there is one.
    pub open spec fn value(self, key: RegistryKey, name: Seq<char>) -> Option<Seq<u16>> {
        if self.values.contains_key((key, name)) {
            Some(self.values[(key, name)])
        } else {
            None
        }
    }

    /// The listing of the directory at `path`, if it can be listed.
    pub open spec fn listing(self, path: Seq<u16>) -> Option<Seq<DirEntryView>> {
        if self.dirs.contains_key(path) {
            Some(self.dirs[path])
        } else {
            None
        }
    }

    /// The content of the file at `path`, if it can be read as text.
    pub open spec fn text(self, path: Seq<u16>) -> Option<Seq<char>> {
        if self.texts.contains_key(path) {
            Some(self.texts[path])
        } else {
            None
        }
    }

    /// The installation path of the installation that the enumerator hands
    /// out after `seen` others, if there is such an installation and it
    /// gives its path.
    pub open spec fn installation(self, seen: nat) -> Option<Seq<u16>> {
        if seen < self.installations.len() {
            self.installations[seen as int]
        } else {
            None
        }
    }

    /// Whether `answer` is what this host says to `probe` once its
    /// enumerator has handed out `seen` installations.
    pub open spec fn agrees(self, probe: ProbeView, seen: nat, answer: AnswerView) -> bool {
        match probe {
            ProbeView::OpenKey(key) => answer.succeeded() == self.keys.contains(key),
            ProbeView::QueryValue(key, name) => answer.path() == self.value(key, name),
            ProbeView::ListDir(path) => answer.entries() == self.listing(path),
            ProbeView::ReadText(path) => answer.text() == self.text(path),
            ProbeView::FileExists(path) => answer.succeeded() == self.files.contains(path),
            ProbeView::EnterInterop => answer.succeeded() == self.interop,
            ProbeView::CreateSetup => answer.succeeded() == self.setup,
            ProbeView::EnumInstances => answer.succeeded() == self.enumerable,
            ProbeView::NextInstance => answer.succeeded() == (seen < self.installations.len()),
            ProbeView::InstallationPath => answer.path() == self.installation(seen),
        }
    }
}

/// A host that gives the same answer to every probe of a kind.
pub open spec fn uniform_host(answer: AnswerView, installations: nat) -> Host {
    Host {
        keys: Set::new(|key: RegistryKey| answer.succeeded()),
        values: Map::new(
            |at: (RegistryKey, Seq<char>)| answer.path() is Some,
            |at: (RegistryKey, Seq<char>)| answer.path()->0,
        ),
        dirs: Map::new(
            |path: Seq<u16>| answer.entries() is Some,
            |path: Seq<u16>| answer.entries()->0,
        ),
        texts: Map::new(|path: Seq<u16>| answer.text() is Some, |path: Seq<u16>| answer.text()->0),
        files: Set::new(|path: Seq<u16>| answer.succeeded()),
        interop: answer.succeeded(),
        setup: answer.succeeded(),
        enumerable: answer.succeeded(),
        installations: Seq::new(installations, |i: int| answer.path()),
    }
}

/// Whatever the answer to a probe is, some host gives it: a contract that
/// holds on every host that agrees with an answer leaves no answer out.
pub proof fn law_every_answer_has_a_host(probe: ProbeView, seen: nat, answer: AnswerView)
    ensures
        uniform_host(answer, if probe is NextInstance && !answer.succeeded() {
            0
        } else {
            seen + 1
        }).agrees(probe, seen, answer),
{
}

} // verus!
