//! The two searches for a Visual C++ toolchain: the registry of Visual
//! Studio 2015 and earlier, and the installation-registration service of
//! Visual Studio 2017 and later.
//!
//! A candidate is handed back only once the host has confirmed that the marker
//! library `vcruntime.lib` lies in its library directory.

use crate::probe::{Answer, AnswerView, Host, Probe, ProbeView, RegistryKey, Step};
use crate::path::{joined, HostPath};
use crate::text::{trim, trimmed};
use vstd::prelude::*;
use vstd::string::*;

verus! {

/// Information about VC toolchain.
///
/// Where several versions of Visual Studio are installed, this is the first
/// that the host enumerates, not the newest.
#[derive(Clone, Debug, PartialEq, Eq)]
pub struct ToolchainInfo {
    /// Path to the folder, which contains `cl.exe`, `link.exe` and friends.
    pub exe_path: HostPath,
    /// Path to the folder, which contains VC runtime libraries.
    pub lib_path: HostPath,
}

/// A [`ToolchainInfo`] as a mathematical value.
pub struct ToolchainInfoView {
    pub exe_path: Seq<u16>,
    pub lib_path: Seq<u16>,
}

impl View for ToolchainInfo {
    type V = ToolchainInfoView;

    open spec fn view(&self) -> ToolchainInfoView {
        ToolchainInfoView { exe_path: self.exe_path@, lib_path: self.lib_path@ }
    }
}

impl DeepView for ToolchainInfo {
    type V = ToolchainInfoView;

    open spec fn deep_view(&self) -> ToolchainInfoView {
        self@
    }
}

/// The file whose presence in a library directory validates a toolchain.
pub open spec fn marker_file(lib_path: Seq<u16>) -> Seq<u16> {
    joined(lib_path, "vcruntime.lib"@)
}

/// The directories of a toolchain of Visual Studio 2015 or earlier that is
/// installed under `root`.
pub open spec fn legacy_layout(root: Seq<u16>) -> ToolchainInfoView {
    ToolchainInfoView {
        exe_path: joined(root, "VC\\bin"@),
        lib_path: joined(root, "VC\\Lib\\amd64"@),
    }
}

/// The file in which an installation of Visual Studio 2017 or later under
/// `root` records the version of its default tools.
pub open spec fn tools_version_file(root: Seq<u16>) -> Seq<u16> {
    joined(root, "VC\\Auxiliary\\Build\\Microsoft.VCToolsVersion.default.txt"@)
}

/// The directories of the tools of the given version in an installation of
/// Visual Studio 2017 or later under `root`.
pub open spec fn modern_layout(root: Seq<u16>, version: Seq<char>) -> ToolchainInfoView {
    ToolchainInfoView {
        exe_path: joined(joined(joined(root, "VC\\Tools\\MSVC"@), version), "bin\\Hostx64\\x64"@),
        lib_path: joined(joined(joined(root, "VC\\Tools\\MSVC"@), version), "lib\\x64"@),
    }
}

/// `candidate` if the host holds its marker file, and `otherwise` if not.
pub open spec fn validated(
    host: Host,
    candidate: ToolchainInfoView,
    otherwise: Option<ToolchainInfoView>,
) -> Option<ToolchainInfoView> {
    if host.files.contains(marker_file(candidate.lib_path)) {
        Some(candidate)
    } else {
        otherwise
    }
}

impl ToolchainInfo {
    /// The toolchain of Visual Studio 2015 or earlier under `root`.
    pub fn legacy(root: &HostPath) -> (info: ToolchainInfo)
        ensures
            info@ == legacy_layout(root@),
    {
        ToolchainInfo { exe_path: root.join("VC\\bin"), lib_path: root.join("VC\\Lib\\amd64") }
    }

    /// The tools of the given version of Visual Studio 2017 or later under
    /// `root`.
    pub fn modern(root: &HostPath, version: &str) -> (info: ToolchainInfo)
        ensures
            info@ == modern_layout(root@, version@),
    {
        let tools = root.join("VC\\Tools\\MSVC").join(version);
        ToolchainInfo { exe_path: tools.join("bin\\Hostx64\\x64"), lib_path: tools.join("lib\\x64") }
    }

    /// The path of the file that validates this toolchain.
    pub fn marker(&self) -> (path: HostPath)
        ensures
            path@ == marker_file(self@.lib_path),
    {
        self.lib_path.join("vcruntime.lib")
    }
}

/// A generation of Visual Studio that records its installation root in the
/// registry, newest first.
#[derive(Clone, Copy, Debug, PartialEq, Eq)]
pub enum LegacyVersion {
    /// Visual Studio 2015.
    V14,
    /// Visual Studio 2013.
    V12,
    /// Visual Studio 2012.
    V11,
    /// Visual Studio 2010.
    V10,
}

impl LegacyVersion {
    /// The name of the registry value that holds the installation root.
    pub open spec fn tag_text(self) -> Seq<char> {
        match self {
            LegacyVersion::V14 => "14.0"@,
            LegacyVersion::V12 => "12.0"@,
            LegacyVersion::V11 => "11.0"@,
            LegacyVersion::V10 => "10.0"@,
        }
    }

    /// The generation that is tried after this one, if there is one.
    pub open spec fn following(self) -> Option<LegacyVersion> {
        match self {
            LegacyVersion::V14 => Some(LegacyVersion::V12),
            LegacyVersion::V12 => Some(LegacyVersion::V11),
            LegacyVersion::V11 => Some(LegacyVersion::V10),
            LegacyVersion::V10 => None,
        }
    }

    /// How many generations are tried after this one.
    pub open spec fn rank(self) -> nat {
        match self {
            LegacyVersion::V14 => 3,
            LegacyVersion::V12 => 2,
            LegacyVersion::V11 => 1,
            LegacyVersion::V10 => 0,
        }
    }

    /// The name of the registry value that holds the installation root.
    pub fn tag(self) -> (tag: &'static str)
        ensures
            tag@ == self.tag_text(),
    {
        match self {
            LegacyVersion::V14 => "14.0",
            LegacyVersion::V12 => "12.0",
            LegacyVersion::V11 => "11.0",
            LegacyVersion::V10 => "10.0",
        }
    }

    /// The generation that is tried after this one, if there is one.
    pub fn next(self) -> (next: Option<LegacyVersion>)
        ensures
            next == self.following(),
    {
        match self {
            LegacyVersion::V14 => Some(LegacyVersion::V12),
            LegacyVersion::V12 => Some(LegacyVersion::V11),
            LegacyVersion::V11 => Some(LegacyVersion::V10),
            LegacyVersion::V10 => None,
        }
    }
}

/// The toolchain of the one generation `version` in the registry of `host`:
/// the one under the recorded installation root, if a root is recorded and
/// its marker file exists.
pub open spec fn legacy_at(host: Host, version: LegacyVersion) -> Option<ToolchainInfoView> {
    match host.value(RegistryKey::VisualStudio, version.tag_text()) {
        Some(root) => validated(host, legacy_layout(root), None),
        None => None,
    }
}

/// The toolchain that the registry of `host` leads to when the generations
/// from `version` on are tried in turn: that of the first generation that
/// has one.
pub open spec fn legacy_from(host: Host, version: LegacyVersion) -> Option<ToolchainInfoView>
    decreases version.rank(),
{
    match legacy_at(host, version) {
        Some(found) => Some(found),
        None => match version.following() {
            Some(next) => legacy_from(host, next),
            None => None,
        },
    }
}

/// The toolchain of Visual Studio 2015 or earlier on `host`: none if the
/// registry key cannot be opened, else what the generations lead to, tried
/// from the newest to the oldest.
pub open spec fn legacy_toolchain(host: Host) -> Option<ToolchainInfoView> {
    if host.keys.contains(RegistryKey::VisualStudio) {
        legacy_from(host, LegacyVersion::V14)
    } else {
        None
    }
}

/// The search for a toolchain of Visual Studio 2015 or earlier, by the probe
/// it waits for.
#[derive(Clone, Debug, PartialEq, Eq)]
pub enum LegacyLocator {
    /// Waits for the registry key to be opened.
    OpeningKey,
    /// Waits for the installation root of the generation.
    Querying(LegacyVersion),
    /// Waits to hear whether the marker file exists under the root that the
    /// generation recorded.
    Checking(LegacyVersion, HostPath),
}

/// A [`LegacyLocator`] as a mathematical value.
pub enum LegacyLocatorView {
    OpeningKey,
    Querying(LegacyVersion),
    Checking(LegacyVersion, Seq<u16>),
}

impl View for LegacyLocator {
    type V = LegacyLocatorView;

    open spec fn view(&self) -> LegacyLocatorView {
        match self {
            LegacyLocator::OpeningKey => LegacyLocatorView::OpeningKey,
            LegacyLocator::Querying(version) => LegacyLocatorView::Querying(*version),
            LegacyLocator::Checking(version, root) => LegacyLocatorView::Checking(*version, root@),
        }
    }
}

impl LegacyLocatorView {
    /// The probe that the search waits for.
    pub open spec fn probe(self) -> ProbeView {
        match self {
            LegacyLocatorView::OpeningKey => ProbeView::OpenKey(RegistryKey::VisualStudio),
            LegacyLocatorView::Querying(version) => ProbeView::QueryValue(
                RegistryKey::VisualStudio,
                version.tag_text(),
            ),
            LegacyLocatorView::Checking(_, root) => ProbeView::FileExists(
                marker_file(legacy_layout(root).lib_path),
            ),
        }
    }

    /// Where the search stands once the generation `version` has led to
    /// nothing: at the next generation, or at its end.
    pub open spec fn after(version: LegacyVersion) -> Step<
        LegacyLocatorView,
        Option<ToolchainInfoView>,
    > {
        match version.following() {
            Some(next) => Step::Next(LegacyLocatorView::Querying(next)),
            None => Step::Finished(None),
        }
    }

    /// Where the search stands after `answer` to the pending probe.
    ///
    /// A key that does not open ends the search. A generation whose root is
    /// not recorded, or whose marker file is missing, is passed over. The
    /// first generation whose marker file exists ends the search with its
    /// toolchain, and the generations after it are not looked at.
    pub open spec fn step(self, answer: AnswerView) -> Step<
        LegacyLocatorView,
        Option<ToolchainInfoView>,
    > {
        match self {
            LegacyLocatorView::OpeningKey => if answer.succeeded() {
                Step::Next(LegacyLocatorView::Querying(LegacyVersion::V14))
            } else {
                Step::Finished(None)
            },
            LegacyLocatorView::Querying(version) => match answer.path() {
                Some(root) => Step::Next(LegacyLocatorView::Checking(version, root)),
                None => Self::after(version),
            },
            LegacyLocatorView::Checking(version, root) => if answer.succeeded() {
                Step::Finished(Some(legacy_layout(root)))
            } else {
                Self::after(version)
            },
        }
    }

    /// What the search ends with on `host` from here on.
    pub open spec fn outcome(self, host: Host) -> Option<ToolchainInfoView> {
        match self {
            LegacyLocatorView::OpeningKey => legacy_toolchain(host),
            LegacyLocatorView::Querying(version) => legacy_from(host, version),
            LegacyLocatorView::Checking(version, root) => validated(
                host,
                legacy_layout(root),
                match version.following() {
                    Some(next) => legacy_from(host, next),
                    None => None,
                },
            ),
        }
    }

    /// A bound on the number of answers that the search still takes.
    pub open spec fn budget(self) -> nat {
        match self {
            LegacyLocatorView::OpeningKey => 9,
            LegacyLocatorView::Querying(version) => 2 * version.rank() + 2,
            LegacyLocatorView::Checking(version, _) => 2 * version.rank() + 1,
        }
    }
}

/// On a host that gives `answer` to the pending probe, a step of the search
/// in the registry keeps the outcome and comes closer to it, or finishes
/// with it.
pub proof fn law_legacy_step(state: LegacyLocatorView, answer: AnswerView, host: Host, seen: nat)
    requires
        host.agrees(state.probe(), seen, answer),
    ensures
        match state.step(answer) {
            Step::Next(next) => next.outcome(host) == state.outcome(host) && next.budget()
                < state.budget(),
            Step::Finished(found) => found == state.outcome(host),
        },
{
}

impl LegacyLocator {
    /// The search at its beginning.
    pub fn start() -> (locator: LegacyLocator)
        ensures
            locator@ == LegacyLocatorView::OpeningKey,
    {
        LegacyLocator::OpeningKey
    }

    /// The probe that the search waits for.
    pub fn pending(&self) -> (probe: Probe)
        ensures
            probe@ == self@.probe(),
    {
        match self {
            LegacyLocator::OpeningKey => Probe::OpenKey(RegistryKey::VisualStudio),
            LegacyLocator::Querying(version) => Probe::QueryValue(
                RegistryKey::VisualStudio,
                String::from_str(version.tag()),
            ),
            LegacyLocator::Checking(_, root) => Probe::FileExists(
                ToolchainInfo::legacy(root).marker(),
            ),
        }
    }

    /// The search after the generation `version` has led to nothing.
    fn after(version: LegacyVersion) -> (step: Step<LegacyLocator, Option<ToolchainInfo>>)
        ensures
            step@ == LegacyLocatorView::after(version),
    {
        match version.next() {
            Some(next) => Step::Next(LegacyLocator::Querying(next)),
            None => Step::Finished(None),
        }
    }
}

/// Takes the search for a toolchain of Visual Studio 2015 or earlier one
/// answer further.
pub fn find_old_vc_toolchain(state: LegacyLocator, answer: Answer) -> (step: Step<
    LegacyLocator,
    Option<ToolchainInfo>,
>)
    ensures
        step@ == state@.step(answer@),
{
    match state {
        LegacyLocator::OpeningKey => match answer {
            Answer::Done => Step::Next(LegacyLocator::Querying(LegacyVersion::V14)),
            _ => Step::Finished(None),
        },
        LegacyLocator::Querying(version) => match answer {
            Answer::Path(root) => Step::Next(LegacyLocator::Checking(version, root)),
            _ => LegacyLocator::after(version),
        },
        LegacyLocator::Checking(version, root) => match answer {
            Answer::Done => Step::Finished(Some(ToolchainInfo::legacy(&root))),
            _ => LegacyLocator::after(version),
        },
    }
}

/// What an installation under `root` leads to: the tools of the version
/// that it records if they are validated, and `otherwise` if they are not
/// or the version cannot be read.
pub open spec fn installation_result(
    host: Host,
    root: Seq<u16>,
    otherwise: Option<ToolchainInfoView>,
) -> Option<ToolchainInfoView> {
    match host.text(tools_version_file(root)) {
        Some(text) => validated(host, modern_layout(root, trimmed(text)), otherwise),
        None => otherwise,
    }
}

/// What the enumeration of installations leads to once `seen` of them have
/// been handed out: the first installation from there on whose tools are
/// validated. An installation whose tools version cannot be read, or whose
/// marker file is missing, is passed over. Where the enumeration ends, or an
/// installation does not give its path, the search goes on in the registry.
pub open spec fn enumeration_result(host: Host, seen: nat) -> Option<ToolchainInfoView>
    decreases host.installations.len() - seen,
{
    if seen < host.installations.len() {
        match host.installations[seen as int] {
            Some(root) => installation_result(host, root, enumeration_result(host, seen + 1)),
            None => legacy_toolchain(host),
        }
    } else {
        legacy_toolchain(host)
    }
}

/// The toolchain that is found on `host`.
///
/// Nothing if the interop subsystem cannot be initialised: that failure is
/// taken to be one of the whole system. What the registry leads to if the
/// installation-registration service cannot be instantiated or hands out no
/// enumerator; else what the enumeration leads to.
pub open spec fn toolchain(host: Host) -> Option<ToolchainInfoView> {
    if !host.interop {
        None
    } else if !host.setup || !host.enumerable {
        legacy_toolchain(host)
    } else {
        enumeration_result(host, 0)
    }
}

/// What the search for a toolchain waits for.
#[derive(Clone, Debug, PartialEq, Eq)]
pub enum ModernPhase {
    /// Waits for the interop subsystem to be initialised.
    EnteringInterop,
    /// Waits for the installation-registration service.
    CreatingSetup,
    /// Waits for the enumerator of the installations.
    Enumerating,
    /// Waits for one more installation.
    AwaitingInstance,
    /// Waits for the installation path of the installation handed out last.
    AwaitingPath,
    /// Waits for the tools version of the installation under the root.
    ReadingToolsVersion(HostPath),
    /// Waits to hear whether the candidate's marker file exists.
    Checking(ToolchainInfo),
    /// Goes on as the search in the registry does.
    Legacy(LegacyLocator),
}

/// A [`ModernPhase`] as a mathematical value.
pub enum ModernPhaseView {
    EnteringInterop,
    CreatingSetup,
    Enumerating,
    AwaitingInstance,
    AwaitingPath,
    ReadingToolsVersion(Seq<u16>),
    Checking(ToolchainInfoView),
    Legacy(LegacyLocatorView),
}

impl View for ModernPhase {
    type V = ModernPhaseView;

    open spec fn view(&self) -> ModernPhaseView {
        match self {
            ModernPhase::EnteringInterop => ModernPhaseView::EnteringInterop,
            ModernPhase::CreatingSetup => ModernPhaseView::CreatingSetup,
            ModernPhase::Enumerating => ModernPhaseView::Enumerating,
            ModernPhase::AwaitingInstance => ModernPhaseView::AwaitingInstance,
            ModernPhase::AwaitingPath => ModernPhaseView::AwaitingPath,
            ModernPhase::ReadingToolsVersion(root) => ModernPhaseView::ReadingToolsVersion(root@),
            ModernPhase::Checking(candidate) => ModernPhaseView::Checking(candidate@),
            ModernPhase::Legacy(legacy) => ModernPhaseView::Legacy(legacy@),
        }
    }
}

/// The search for a toolchain: first through the installation-registration
/// service, then in the registry.
pub struct ModernLocator {
    /// What the search waits for.
    pub phase: ModernPhase,
    /// How many installations the enumerator had handed out before the one
    /// that the search is looking at.
    pub seen: Ghost<nat>,
}

/// A [`ModernLocator`] as a mathematical value.
pub struct ModernLocatorView {
    pub phase: ModernPhaseView,
    pub seen: nat,
}

impl View for ModernLocator {
    type V = ModernLocatorView;

    open spec fn view(&self) -> ModernLocatorView {
        ModernLocatorView { phase: self.phase@, seen: self.seen@ }
    }
}

/// How many installations of `host` are left once `seen` have been handed
/// out.
pub open spec fn left(host: Host, seen: nat) -> nat {
    if seen < host.installations.len() {
        (host.installations.len() - seen) as nat
    } else {
        0
    }
}

impl ModernLocatorView {
    /// The search at its beginning.
    pub open spec fn start() -> ModernLocatorView {
        ModernLocatorView { phase: ModernPhaseView::EnteringInterop, seen: 0 }
    }

    /// The search in the given phase, with as many installations seen as
    /// before.
    pub open spec fn at(self, phase: ModernPhaseView) -> ModernLocatorView {
        ModernLocatorView { phase, seen: self.seen }
    }

    /// The probe that the search waits for.
    pub open spec fn probe(self) -> ProbeView {
        match self.phase {
            ModernPhaseView::EnteringInterop => ProbeView::EnterInterop,
            ModernPhaseView::CreatingSetup => ProbeView::CreateSetup,
            ModernPhaseView::Enumerating => ProbeView::EnumInstances,
            ModernPhaseView::AwaitingInstance => ProbeView::NextInstance,
            ModernPhaseView::AwaitingPath => ProbeView::InstallationPath,
            ModernPhaseView::ReadingToolsVersion(root) => ProbeView::ReadText(
                tools_version_file(root),
            ),
            ModernPhaseView::Checking(candidate) => ProbeView::FileExists(
                marker_file(candidate.lib_path),
            ),
            ModernPhaseView::Legacy(legacy) => legacy.probe(),
        }
    }

    /// The search as it goes on in the registry.
    pub open spec fn fall_back(self) -> Step<ModernLocatorView, Option<ToolchainInfoView>> {
        Step::Next(self.at(ModernPhaseView::Legacy(LegacyLocatorView::OpeningKey)))
    }

    /// The search as it turns to the installation after the one it is
    /// looking at.
    pub open spec fn pass_over(self) -> Step<ModernLocatorView, Option<ToolchainInfoView>> {
        Step::Next(
            ModernLocatorView { phase: ModernPhaseView::AwaitingInstance, seen: self.seen + 1 },
        )
    }

    /// Where the search stands after `answer` to the pending probe.
    ///
    /// Where the interop subsystem cannot be initialised the search ends
    /// with nothing. Where the service cannot be instantiated or hands out
    /// no enumerator, the enumeration ends or an installation does not give
    /// its path, the search goes on in the registry. An installation whose
    /// tools version cannot be read, or whose marker file is missing, is
    /// followed by the next. The first installation whose marker file
    /// exists ends the search with its toolchain.
    pub open spec fn step(self, answer: AnswerView) -> Step<
        ModernLocatorView,
        Option<ToolchainInfoView>,
    > {
        match self.phase {
            ModernPhaseView::EnteringInterop => if answer.succeeded() {
                Step::Next(self.at(ModernPhaseView::CreatingSetup))
            } else {
                Step::Finished(None)
            },
            ModernPhaseView::CreatingSetup => if answer.succeeded() {
                Step::Next(self.at(ModernPhaseView::Enumerating))
            } else {
                self.fall_back()
            },
            ModernPhaseView::Enumerating => if answer.succeeded() {
                Step::Next(self.at(ModernPhaseView::AwaitingInstance))
            } else {
                self.fall_back()
            },
            ModernPhaseView::AwaitingInstance => if answer.succeeded() {
                Step::Next(self.at(ModernPhaseView::AwaitingPath))
            } else {
                self.fall_back()
            },
            ModernPhaseView::AwaitingPath => match answer.path() {
                Some(root) => Step::Next(self.at(ModernPhaseView::ReadingToolsVersion(root))),
                None => self.fall_back(),
            },
            ModernPhaseView::ReadingToolsVersion(root) => match answer.text() {
                Some(text) => Step::Next(
                    self.at(ModernPhaseView::Checking(modern_layout(root, trimmed(text)))),
                ),
                None => self.pass_over(),
            },
            ModernPhaseView::Checking(candidate) => if answer.succeeded() {
                Step::Finished(Some(candidate))
            } else {
                self.pass_over()
            },
            ModernPhaseView::Legacy(legacy) => match legacy.step(answer) {
                Step::Next(next) => Step::Next(self.at(ModernPhaseView::Legacy(next))),
                Step::Finished(found) => Step::Finished(found),
            },
        }
    }

    /// What the search ends with on `host` from here on.
    pub open spec fn outcome(self, host: Host) -> Option<ToolchainInfoView> {
        match self.phase {
            ModernPhaseView::EnteringInterop => if !host.interop {
                None
            } else if !host.setup || !host.enumerable {
                legacy_toolchain(host)
            } else {
                enumeration_result(host, self.seen)
            },
            ModernPhaseView::CreatingSetup => if !host.setup || !host.enumerable {
                legacy_toolchain(host)
            } else {
                enumeration_result(host, self.seen)
            },
            ModernPhaseView::Enumerating => if !host.enumerable {
                legacy_toolchain(host)
            } else {
                enumeration_result(host, self.seen)
            },
            ModernPhaseView::AwaitingInstance => enumeration_result(host, self.seen),
            ModernPhaseView::AwaitingPath => match host.installation(self.seen) {
                Some(root) => installation_result(
                    host,
                    root,
                    enumeration_result(host, self.seen + 1),
                ),
                None => legacy_toolchain(host),
            },
            ModernPhaseView::ReadingToolsVersion(root) => installation_result(
                host,
                root,
                enumeration_result(host, self.seen + 1),
            ),
            ModernPhaseView::Checking(candidate) => validated(
                host,
                candidate,
                enumeration_result(host, self.seen + 1),
            ),
            ModernPhaseView::Legacy(legacy) => legacy.outcome(host),
        }
    }

    /// A bound on the number of answers that the search still takes on
    /// `host`.
    pub open spec fn distance(self, host: Host) -> nat {
        match self.phase {
            ModernPhaseView::EnteringInterop => 4 * left(host, self.seen) + 14,
            ModernPhaseView::CreatingSetup => 4 * left(host, self.seen) + 13,
            ModernPhaseView::Enumerating => 4 * left(host, self.seen) + 12,
            ModernPhaseView::AwaitingInstance => 4 * left(host, self.seen) + 11,
            ModernPhaseView::AwaitingPath => 4 * left(host, self.seen + 1) + 14,
            ModernPhaseView::ReadingToolsVersion(_) => 4 * left(host, self.seen + 1) + 13,
            ModernPhaseView::Checking(_) => 4 * left(host, self.seen + 1) + 12,
            ModernPhaseView::Legacy(legacy) => legacy.budget(),
        }
    }
}

/// On a host that gives `answer` to the pending probe, a step of the search
/// keeps the outcome and comes closer to it, or finishes with it.
pub proof fn law_toolchain_step(state: ModernLocatorView, answer: AnswerView, host: Host)
    requires
        host.agrees(state.probe(), state.seen, answer),
    ensures
        match state.step(answer) {
            Step::Next(next) => next.outcome(host) == state.outcome(host) && next.distance(host)
                < state.distance(host),
            Step::Finished(found) => found == state.outcome(host),
        },
{
    if let ModernPhaseView::Legacy(legacy) = state.phase {
        law_legacy_step(legacy, answer, host, state.seen);
    }
}

impl ModernLocator {
    /// The search at its beginning.
    pub fn start() -> (locator: ModernLocator)
        ensures
            locator@ == ModernLocatorView::start(),
    {
        ModernLocator { phase: ModernPhase::EnteringInterop, seen: Ghost(0) }
    }

    /// The probe that the search waits for.
    pub fn pending(&self) -> (probe: Probe)
        ensures
            probe@ == self@.probe(),
    {
        match &self.phase {
            ModernPhase::EnteringInterop => Probe::EnterInterop,
            ModernPhase::CreatingSetup => Probe::CreateSetup,
            ModernPhase::Enumerating => Probe::EnumInstances,
            ModernPhase::AwaitingInstance => Probe::NextInstance,
            ModernPhase::AwaitingPath => Probe::InstallationPath,
            ModernPhase::ReadingToolsVersion(root) => Probe::ReadText(
                root.join("VC\\Auxiliary\\Build\\Microsoft.VCToolsVersion.default.txt"),
            ),
            ModernPhase::Checking(candidate) => Probe::FileExists(candidate.marker()),
            ModernPhase::Legacy(legacy) => legacy.pending(),
        }
    }

    /// The search in the given phase, with as many installations seen as
    /// before.
    fn at(phase: ModernPhase, seen: Ghost<nat>) -> (step: Step<
        ModernLocator,
        Option<ToolchainInfo>,
    >)
        ensures
            step@ == Step::<ModernLocatorView, Option<ToolchainInfoView>>::Next(
                ModernLocatorView { phase: phase@, seen: seen@ },
            ),
    {
        Step::Next(ModernLocator { phase, seen })
    }
}

/// Takes the search for a toolchain one answer further.
pub fn find_vc_toolchain(state: ModernLocator, answer: Answer) -> (step: Step<
    ModernLocator,
    Option<ToolchainInfo>,
>)
    ensures
        step@ == state@.step(answer@),
{
    let seen = state.seen;
    match state.phase {
        ModernPhase::EnteringInterop => match answer {
            Answer::Done => ModernLocator::at(ModernPhase::CreatingSetup, seen),
            _ => Step::Finished(None),
        },
        ModernPhase::CreatingSetup => match answer {
            Answer::Done => ModernLocator::at(ModernPhase::Enumerating, seen),
            _ => ModernLocator::at(ModernPhase::Legacy(LegacyLocator::start()), seen),
        },
        ModernPhase::Enumerating => match answer {
            Answer::Done => ModernLocator::at(ModernPhase::AwaitingInstance, seen),
            _ => ModernLocator::at(ModernPhase::Legacy(LegacyLocator::start()), seen),
        },
        ModernPhase::AwaitingInstance => match answer {
            Answer::Done => ModernLocator::at(ModernPhase::AwaitingPath, seen),
            _ => ModernLocator::at(ModernPhase::Legacy(LegacyLocator::start()), seen),
        },
        ModernPhase::AwaitingPath => match answer {
            Answer::Path(root) => ModernLocator::at(ModernPhase::ReadingToolsVersion(root), seen),
            _ => ModernLocator::at(ModernPhase::Legacy(LegacyLocator::start()), seen),
        },
        ModernPhase::ReadingToolsVersion(root) => match answer {
            Answer::Text(text) => {
                let candidate = ToolchainInfo::modern(&root, trim(text.as_str()));
                ModernLocator::at(ModernPhase::Checking(candidate), seen)
            },
            _ => ModernLocator::at(ModernPhase::AwaitingInstance, Ghost(seen@ + 1)),
        },
        ModernPhase::Checking(candidate) => match answer {
            Answer::Done => Step::Finished(Some(candidate)),
            _ => ModernLocator::at(ModernPhase::AwaitingInstance, Ghost(seen@ + 1)),
        },
        ModernPhase::Legacy(legacy) => match find_old_vc_toolchain(legacy, answer) {
            Step::Next(next) => ModernLocator::at(ModernPhase::Legacy(next), seen),
            Step::Finished(found) => Step::Finished(found),
        },
    }
}

/// No generation has a toolchain whose marker file the host does not hold.
pub proof fn lemma_legacy_validated(host: Host, version: LegacyVersion)
    ensures
        legacy_from(host, version) matches Some(found) ==> host.files.contains(
            marker_file(found.lib_path),
        ),
    decreases version.rank(),
{
    if legacy_at(host, version) is None {
        if let Some(next) = version.following() {
            lemma_legacy_validated(host, next);
        }
    }
}

/// The enumeration leads to no toolchain whose marker file the host does not
/// hold.
pub proof fn lemma_enumeration_validated(host: Host, seen: nat)
    ensures
        enumeration_result(host, seen) matches Some(found) ==> host.files.contains(
            marker_file(found.lib_path),
        ),
    decreases host.installations.len() - seen,
{
    lemma_legacy_validated(host, LegacyVersion::V14);
    if seen < host.installations.len() {
        lemma_enumeration_validated(host, seen + 1);
    }
}

/// The validation gate: wherever the search stands, it ends with no
/// toolchain whose marker file the host does not hold, however well formed
/// the rest of the installation is.
pub proof fn law_found_toolchain_is_validated(state: ModernLocatorView, host: Host)
    ensures
        state.outcome(host) matches Some(found) ==> host.files.contains(
            marker_file(found.lib_path),
        ),
        toolchain(host) matches Some(found) ==> host.files.contains(marker_file(found.lib_path)),
        legacy_toolchain(host) matches Some(found) ==> host.files.contains(
            marker_file(found.lib_path),
        ),
{
    lemma_legacy_validated(host, LegacyVersion::V14);
    lemma_legacy_validated(host, LegacyVersion::V12);
    lemma_legacy_validated(host, LegacyVersion::V11);
    lemma_legacy_validated(host, LegacyVersion::V10);
    lemma_enumeration_validated(host, 0);
    lemma_enumeration_validated(host, state.seen);
    lemma_enumeration_validated(host, state.seen + 1);
}

/// Whether the installation that the enumerator of `host` hands out after
/// `seen` others is validated: it gives its path, its tools version can be
/// read, and the marker file of those tools exists.
pub open spec fn validates(host: Host, seen: int) -> bool {
    match host.installations[seen] {
        Some(root) => match host.text(tools_version_file(root)) {
            Some(text) => host.files.contains(
                marker_file(modern_layout(root, trimmed(text)).lib_path),
            ),
            None => false,
        },
        None => false,
    }
}

/// Where no installation from `seen` on is validated, the enumeration
/// leads to what the registry leads to.
pub proof fn lemma_enumeration_falls_back(host: Host, seen: nat)
    requires
        forall|i: int| seen <= i < host.installations.len() ==> !#[trigger] validates(host, i),
    ensures
        enumeration_result(host, seen) == legacy_toolchain(host),
    decreases host.installations.len() - seen,
{
    if seen < host.installations.len() {
        assert(!validates(host, seen as int));
        lemma_enumeration_falls_back(host, seen + 1);
    }
}

/// The fallback: once the interop subsystem is initialised, a search that
/// finds no validated installation ends with the toolchain that the registry
/// leads to, whether the service cannot be instantiated, hands out no
/// enumerator, enumerates nothing, or enumerates only installations that
/// are not validated.
pub proof fn law_fallback_to_legacy(host: Host)
    requires
        host.interop,
        host.setup && host.enumerable ==> forall|i: int|
            0 <= i < host.installations.len() ==> !#[trigger] validates(host, i),
    ensures
        toolchain(host) == legacy_toolchain(host),
{
    if host.setup && host.enumerable {
        lemma_enumeration_falls_back(host, 0);
    }
}

/// The order of the fallback: the registry leads to the toolchain of the
/// first generation that has one, in the order 14.0, 12.0, 11.0, 10.0, and
/// to none where no generation has one or the key cannot be opened.
pub proof fn law_legacy_order(host: Host)
    ensures
        legacy_toolchain(host) == if !host.keys.contains(RegistryKey::VisualStudio) {
            None
        } else if legacy_at(host, LegacyVersion::V14) is Some {
            legacy_at(host, LegacyVersion::V14)
        } else if legacy_at(host, LegacyVersion::V12) is Some {
            legacy_at(host, LegacyVersion::V12)
        } else if legacy_at(host, LegacyVersion::V11) is Some {
            legacy_at(host, LegacyVersion::V11)
        } else {
            legacy_at(host, LegacyVersion::V10)
        },
{
    reveal_with_fuel(legacy_from, 4);
}

} // verus!
