//! The search for the Windows SDK: the registry names the root of the
//! installed kit, and the newest version directory under its `Lib` directory
//! is the SDK.

use crate::probe::{
    Answer,
    AnswerView,
    DirEntry,
    DirEntryView,
    Host,
    Probe,
    ProbeView,
    RegistryKey,
    Step,
};
use crate::path::{joined, HostPath};
use crate::version::{
    parse_w10_version,
    parse_w8_version,
    version_before,
    version_less,
    w10_version,
    w8_version,
    Version,
};
use vstd::prelude::*;
use vstd::string::*;

verus! {

/// A generation of the Windows SDK, newest first.
#[derive(Clone, Copy, Debug, PartialEq, Eq)]
pub enum SdkGeneration {
    /// The Windows 10 SDK, which also serves Windows 11.
    Windows10,
    /// The Windows 8.1 SDK.
    Windows8,
}

impl SdkGeneration {
    /// The major version that stands for the generation.
    pub open spec fn major(self) -> u8 {
        match self {
            SdkGeneration::Windows10 => 10,
            SdkGeneration::Windows8 => 8,
        }
    }

    /// The name of the registry value that holds the root of the kit.
    pub open spec fn value_name_text(self) -> Seq<char> {
        match self {
            SdkGeneration::Windows10 => "KitsRoot10"@,
            SdkGeneration::Windows8 => "KitsRoot81"@,
        }
    }

    /// The version of the directory of the generation at `path`.
    pub open spec fn version_of(self, path: Seq<u16>) -> Option<Version> {
        match self {
            SdkGeneration::Windows10 => w10_version(path),
            SdkGeneration::Windows8 => w8_version(path),
        }
    }

    /// The major version that stands for the generation.
    pub fn major_version(self) -> (major: u8)
        ensures
            major == self.major(),
    {
        match self {
            SdkGeneration::Windows10 => 10,
            SdkGeneration::Windows8 => 8,
        }
    }

    /// The name of the registry value that holds the root of the kit.
    pub fn value_name(self) -> (name: &'static str)
        ensures
            name@ == self.value_name_text(),
    {
        match self {
            SdkGeneration::Windows10 => "KitsRoot10",
            SdkGeneration::Windows8 => "KitsRoot81",
        }
    }

    /// Reads the version of the directory of the generation at `path`.
    pub fn parse(self, path: &HostPath) -> (version: Option<Version>)
        ensures
            version == self.version_of(path@),
    {
        match self {
            SdkGeneration::Windows10 => parse_w10_version(path),
            SdkGeneration::Windows8 => parse_w8_version(path),
        }
    }
}

/// The version that `entry` stands for: that of the directory at its path,
/// if it is a directory and the final component of its path reads as a
/// version of the generation.
pub open spec fn entry_version(entry: DirEntryView, generation: SdkGeneration) -> Option<Version> {
    if entry.is_dir {
        generation.version_of(entry.path)
    } else {
        None
    }
}

/// The place in `entries` of the entry with the greatest version, reading
/// the entries in order: an entry takes the place of the best one before it
/// unless its version comes before that one's.
pub open spec fn latest(entries: Seq<DirEntryView>, generation: SdkGeneration) -> Option<int>
    decreases entries.len(),
{
    if entries.len() == 0 {
        None
    } else {
        let before = latest(entries.drop_last(), generation);
        match entry_version(entries.last(), generation) {
            Some(version) => if before matches Some(best) && version_before(
                version,
                entry_version(entries[best], generation)->0,
            ) {
                before
            } else {
                Some(entries.len() - 1)
            },
            None => before,
        }
    }
}

/// The entry that [`latest`] picks stands for a version, no entry stands for
/// a greater one, and every entry after it stands for a smaller one or for
/// none. Where it picks none, no entry stands for a version.
pub proof fn law_latest_is_greatest(entries: Seq<DirEntryView>, generation: SdkGeneration)
    ensures
        match latest(entries, generation) {
            Some(best) => {
                &&& 0 <= best < entries.len()
                &&& entry_version(entries[best], generation) is Some
                &&& forall|i: int|
                    0 <= i < entries.len() && entry_version(#[trigger] entries[i], generation)
                        is Some ==> {
                        let found = entry_version(entries[best], generation)->0;
                        let other = entry_version(entries[i], generation)->0;
                        !version_before(found, other) && (i > best ==> version_before(
                            other,
                            found,
                        ))
                    }
            },
            None => forall|i: int|
                0 <= i < entries.len() ==> entry_version(#[trigger] entries[i], generation)
                    is None,
        },
    decreases entries.len(),
{
    if entries.len() > 0 {
        let front = entries.drop_last();
        law_latest_is_greatest(front, generation);
        assert forall|i: int| 0 <= i < front.len() implies front[i] == entries[i] by {}
    }
}

/// Picks the directory with the greatest version among `entries`.
///
/// Entries that are no directories, and directories whose names do not read
/// as a version, are passed over. Of two directories with the same version
/// the later one is picked.
pub fn find_latest_version(entries: &Vec<DirEntry>, generation: SdkGeneration) -> (best: Option<
    usize,
>)
    ensures
        match best {
            Some(i) => i < entries.len() && latest(entries.deep_view(), generation) == Some(
                i as int,
            ),
            None => latest(entries.deep_view(), generation) is None,
        },
{
    let ghost views = entries.deep_view();
    let mut best: Option<usize> = None;
    let mut greatest: Version = (0, 0, 0, 0);
    let mut i: usize = 0;
    while i < entries.len()
        invariant
            i <= entries.len(),
            views == entries.deep_view(),
            match best {
                Some(b) => b < i && latest(views.take(i as int), generation) == Some(b as int)
                    && entry_version(views[b as int], generation) == Some(greatest),
                None => latest(views.take(i as int), generation) is None,
            },
        decreases entries.len() - i,
    {
        proof {
            assert(views.take(i as int + 1).drop_last() == views.take(i as int));
            assert(views.take(i as int + 1).last() == entries[i as int]@);
        }
        if entries[i].is_dir {
            if let Some(version) = generation.parse(&entries[i].path) {
                if best.is_none() || !version_less(version, greatest) {
                    best = Some(i);
                    greatest = version;
                }
            }
        }
        i += 1;
    }
    assert(views.take(i as int) == views);
    best
}

/// The newest SDK directory of an installed kit.
#[derive(Clone, Debug, PartialEq, Eq)]
pub struct WindowsKit {
    /// The major version of the kit's generation.
    pub major_version: u8,
    /// The version directory under the kit's `Lib` directory.
    pub root: HostPath,
}

/// A [`WindowsKit`] as a mathematical value.
pub struct WindowsKitView {
    pub major_version: u8,
    pub root: Seq<u16>,
}

impl View for WindowsKit {
    type V = WindowsKitView;

    open spec fn view(&self) -> WindowsKitView {
        WindowsKitView { major_version: self.major_version, root: self.root@ }
    }
}

impl DeepView for WindowsKit {
    type V = WindowsKitView;

    open spec fn deep_view(&self) -> WindowsKitView {
        self@
    }
}

/// Information about Windows SDK.
#[derive(Clone, Debug, PartialEq, Eq)]
pub struct SdkInfo {
    /// Major version, such as `10`.
    pub major_version: u8,
    /// Root folder of the SDK: the version directory under the kit's `Lib`
    /// directory.
    pub root: HostPath,
    /// Path to the folder, which contains platform libraries.
    pub um_lib_path: HostPath,
    /// Path to the folder, which contains CRT (default) libraries.
    pub ucrt_lib_path: HostPath,
}

/// A [`SdkInfo`] as a mathematical value.
pub struct SdkInfoView {
    pub major_version: u8,
    pub root: Seq<u16>,
    pub um_lib_path: Seq<u16>,
    pub ucrt_lib_path: Seq<u16>,
}

impl View for SdkInfo {
    type V = SdkInfoView;

    open spec fn view(&self) -> SdkInfoView {
        SdkInfoView {
            major_version: self.major_version,
            root: self.root@,
            um_lib_path: self.um_lib_path@,
            ucrt_lib_path: self.ucrt_lib_path@,
        }
    }
}

impl DeepView for SdkInfo {
    type V = SdkInfoView;

    open spec fn deep_view(&self) -> SdkInfoView {
        self@
    }
}

/// The library directories of the SDK in `kit`.
pub open spec fn sdk_layout(kit: WindowsKitView) -> SdkInfoView {
    SdkInfoView {
        major_version: kit.major_version,
        root: kit.root,
        um_lib_path: joined(kit.root, "um\\x64"@),
        ucrt_lib_path: joined(kit.root, "ucrt\\x64"@),
    }
}

impl SdkInfo {
    /// The SDK in `kit`, with its library directories.
    pub fn of_kit(kit: WindowsKit) -> (info: SdkInfo)
        ensures
            info@ == sdk_layout(kit@),
    {
        let um_lib_path = kit.root.join("um\\x64");
        let ucrt_lib_path = kit.root.join("ucrt\\x64");
        SdkInfo { major_version: kit.major_version, root: kit.root, um_lib_path, ucrt_lib_path }
    }
}

/// The kit that the listing of a `Lib` directory leads to: the directory
/// with the greatest version, and none where the `Lib` directory cannot be
/// listed or holds no version directory.
pub open spec fn kit_in(
    listing: Option<Seq<DirEntryView>>,
    generation: SdkGeneration,
) -> Option<WindowsKitView> {
    match listing {
        Some(entries) => match latest(entries, generation) {
            Some(best) => Some(
                WindowsKitView { major_version: generation.major(), root: entries[best].path },
            ),
            None => None,
        },
        None => None,
    }
}

/// The kit of the generation on `host` if the registry records its root,
/// and `otherwise` if it does not.
pub open spec fn kit_of(
    host: Host,
    generation: SdkGeneration,
    otherwise: Option<WindowsKitView>,
) -> Option<WindowsKitView> {
    match host.value(RegistryKey::InstalledRoots, generation.value_name_text()) {
        Some(root) => kit_in(host.listing(joined(root, "Lib"@)), generation),
        None => otherwise,
    }
}

/// The SDK that is found on `host`.
///
/// None if the registry key cannot be opened. Else the first generation
/// whose root the registry records decides, Windows 10 before Windows 8: an
/// older generation is looked at only where the newer one is not recorded at
/// all.
pub open spec fn windows_kit(host: Host) -> Option<WindowsKitView> {
    if host.keys.contains(RegistryKey::InstalledRoots) {
        kit_of(host, SdkGeneration::Windows10, kit_of(host, SdkGeneration::Windows8, None))
    } else {
        None
    }
}

/// The search for the Windows SDK, by the probe it waits for.
#[derive(Clone, Debug, PartialEq, Eq)]
pub enum SdkLocator {
    /// Waits for the registry key to be opened.
    OpeningKey,
    /// Waits for the root of the generation's kit.
    Querying(SdkGeneration),
    /// Waits for the listing of the `Lib` directory of the generation's kit.
    Listing(SdkGeneration, HostPath),
}

/// A [`SdkLocator`] as a mathematical value.
pub enum SdkLocatorView {
    OpeningKey,
    Querying(SdkGeneration),
    Listing(SdkGeneration, Seq<u16>),
}

impl View for SdkLocator {
    type V = SdkLocatorView;

    open spec fn view(&self) -> SdkLocatorView {
        match self {
            SdkLocator::OpeningKey => SdkLocatorView::OpeningKey,
            SdkLocator::Querying(generation) => SdkLocatorView::Querying(*generation),
            SdkLocator::Listing(generation, lib) => SdkLocatorView::Listing(*generation, lib@),
        }
    }
}

impl SdkLocatorView {
    /// The probe that the search waits for.
    pub open spec fn probe(self) -> ProbeView {
        match self {
            SdkLocatorView::OpeningKey => ProbeView::OpenKey(RegistryKey::InstalledRoots),
            SdkLocatorView::Querying(generation) => ProbeView::QueryValue(
                RegistryKey::InstalledRoots,
                generation.value_name_text(),
            ),
            SdkLocatorView::Listing(_, lib) => ProbeView::ListDir(lib),
        }
    }

    /// Where the search stands after `answer` to the pending probe.
    ///
    /// A key that does not open ends the search. The search turns to the
    /// older generation only where the root of the newer one is not
    /// recorded. Once a root is recorded its `Lib` directory decides: the
    /// search ends with the newest version directory in it, and with nothing
    /// where it cannot be listed or holds no version directory.
    pub open spec fn step(self, answer: AnswerView) -> Step<
        SdkLocatorView,
        Option<WindowsKitView>,
    > {
        match self {
            SdkLocatorView::OpeningKey => if answer.succeeded() {
                Step::Next(SdkLocatorView::Querying(SdkGeneration::Windows10))
            } else {
                Step::Finished(None)
            },
            SdkLocatorView::Querying(generation) => match answer.path() {
                Some(root) => Step::Next(
                    SdkLocatorView::Listing(generation, joined(root, "Lib"@)),
                ),
                None => match generation {
                    SdkGeneration::Windows10 => Step::Next(
                        SdkLocatorView::Querying(SdkGeneration::Windows8),
                    ),
                    SdkGeneration::Windows8 => Step::Finished(None),
                },
            },
            SdkLocatorView::Listing(generation, lib) => Step::Finished(
                kit_in(answer.entries(), generation),
            ),
        }
    }

    /// What the search ends with on `host` from here on.
    pub open spec fn outcome(self, host: Host) -> Option<WindowsKitView> {
        match self {
            SdkLocatorView::OpeningKey => windows_kit(host),
            SdkLocatorView::Querying(SdkGeneration::Windows10) => kit_of(
                host,
                SdkGeneration::Windows10,
                kit_of(host, SdkGeneration::Windows8, None),
            ),
            SdkLocatorView::Querying(SdkGeneration::Windows8) => kit_of(
                host,
                SdkGeneration::Windows8,
                None,
            ),
            SdkLocatorView::Listing(generation, lib) => kit_in(host.listing(lib), generation),
        }
    }

    /// A bound on the number of answers that the search still takes.
    pub open spec fn budget(self) -> nat {
        match self {
            SdkLocatorView::OpeningKey => 5,
            SdkLocatorView::Querying(SdkGeneration::Windows10) => 4,
            SdkLocatorView::Querying(SdkGeneration::Windows8) => 2,
            SdkLocatorView::Listing(_, _) => 1,
        }
    }
}

/// On a host that gives `answer` to the pending probe, a step of the search
/// for the SDK keeps the outcome and comes closer to it, or finishes with
/// it.
pub proof fn law_windows_kit_step(state: SdkLocatorView, answer: AnswerView, host: Host, seen: nat)
    requires
        host.agrees(state.probe(), seen, answer),
    ensures
        match state.step(answer) {
            Step::Next(next) => next.outcome(host) == state.outcome(host) && next.budget()
                < state.budget(),
            Step::Finished(found) => found == state.outcome(host),
        },
{
}

impl SdkLocator {
    /// The search at its beginning.
    pub fn start() -> (locator: SdkLocator)
        ensures
            locator@ == SdkLocatorView::OpeningKey,
    {
        SdkLocator::OpeningKey
    }

    /// The probe that the search waits for.
    pub fn pending(&self) -> (probe: Probe)
        ensures
            probe@ == self@.probe(),
    {
        match self {
            SdkLocator::OpeningKey => Probe::OpenKey(RegistryKey::InstalledRoots),
            SdkLocator::Querying(generation) => Probe::QueryValue(
                RegistryKey::InstalledRoots,
                String::from_str(generation.value_name()),
            ),
            SdkLocator::Listing(_, lib) => Probe::ListDir(lib.duplicate()),
        }
    }
}

/// Takes the search for the Windows SDK one answer further.
pub fn find_windows_kit(state: SdkLocator, answer: Answer) -> (step: Step<
    SdkLocator,
    Option<WindowsKit>,
>)
    ensures
        step@ == state@.step(answer@),
{
    match state {
        SdkLocator::OpeningKey => match answer {
            Answer::Done => Step::Next(SdkLocator::Querying(SdkGeneration::Windows10)),
            _ => Step::Finished(None),
        },
        SdkLocator::Querying(generation) => match answer {
            Answer::Path(root) => Step::Next(SdkLocator::Listing(generation, root.join("Lib"))),
            _ => match generation {
                SdkGeneration::Windows10 => Step::Next(
                    SdkLocator::Querying(SdkGeneration::Windows8),
                ),
                SdkGeneration::Windows8 => Step::Finished(None),
            },
        },
        SdkLocator::Listing(generation, lib) => match answer {
            Answer::Entries(entries) => match find_latest_version(&entries, generation) {
                Some(best) => {
                    assert(entries.deep_view()[best as int] == entries[best as int]@);
                    Step::Finished(
                        Some(
                            WindowsKit {
                                major_version: generation.major_version(),
                                root: entries[best].path.duplicate(),
                            },
                        ),
                    )
                },
                None => Step::Finished(None),
            },
            _ => Step::Finished(None),
        },
    }
}

} // verus!
