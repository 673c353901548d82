//! Locates the Visual C++ toolchain and the Windows SDK of a Windows host.
//!
//! The library decides; it never touches the host. Every registry read,
//! directory listing and interop call is a [`probe::Probe`] that the caller
//! performs and answers, so the rules of the search are plain functions with
//! contracts over a model of the host, [`probe::Host`].

pub mod path;
pub mod probe;
pub mod sdk;
pub mod text;
pub mod toolchain;
pub mod version;
pub mod winapi;

pub use crate::path::HostPath;
pub use crate::sdk::SdkInfo;
pub use crate::toolchain::ToolchainInfo;

use crate::probe::{Answer, AnswerView, Host, Probe, ProbeView, Step};
use crate::sdk::{
    find_windows_kit,
    law_windows_kit_step,
    sdk_layout,
    windows_kit,
    SdkInfoView,
    SdkLocator,
    SdkLocatorView,
    WindowsKit,
    WindowsKitView,
};
use crate::toolchain::{
    find_vc_toolchain,
    law_toolchain_step,
    left,
    toolchain,
    ModernLocator,
    ModernLocatorView,
    ToolchainInfoView,
};
use vstd::prelude::*;

verus! {

/// Information about Windows SDK and VC toolchain.
#[derive(Clone, Debug, PartialEq, Eq)]
pub struct Info {
    /// Windows SDK information, if it is available.
    pub sdk: Option<SdkInfo>,
    /// VC toolchain, if it is available.
    pub toolchain: Option<ToolchainInfo>,
}

/// An [`Info`] as a mathematical value.
pub struct InfoView {
    pub sdk: Option<SdkInfoView>,
    pub toolchain: Option<ToolchainInfoView>,
}

impl View for Info {
    type V = InfoView;

    open spec fn view(&self) -> InfoView {
        InfoView { sdk: self.sdk.deep_view(), toolchain: self.toolchain.deep_view() }
    }
}

impl DeepView for Info {
    type V = InfoView;

    open spec fn deep_view(&self) -> InfoView {
        self@
    }
}

/// The record of a discovery that found `kit` and `toolchain`. There is
/// always a record: either part may be missing without the other.
pub open spec fn record(
    kit: Option<WindowsKitView>,
    toolchain: Option<ToolchainInfoView>,
) -> Option<InfoView> {
    Some(
        InfoView {
            sdk: match kit {
                Some(kit) => Some(sdk_layout(kit)),
                None => None,
            },
            toolchain,
        },
    )
}

/// What is discovered on `host`: its SDK and its toolchain, each searched
/// for whatever becomes of the other.
pub open spec fn discovered(host: Host) -> Option<InfoView> {
    record(windows_kit(host), toolchain(host))
}

impl Info {
    /// Puts the record of a discovery together.
    pub fn compose(kit: Option<WindowsKit>, toolchain: Option<ToolchainInfo>) -> (info: Option<
        Info,
    >)
        ensures
            info.deep_view() == record(kit.deep_view(), toolchain.deep_view()),
    {
        let sdk = match kit {
            Some(kit) => Some(SdkInfo::of_kit(kit)),
            None => None,
        };
        Some(Info { sdk, toolchain })
    }
}

/// The discovery of SDK and toolchain: first the search for the SDK, then,
/// with what that search found, the search for the toolchain.
pub enum Discovery {
    /// The search for the SDK is under way.
    Sdk(SdkLocator),
    /// The search for the SDK has ended with the kit, and the search for
    /// the toolchain is under way.
    Toolchain(Option<WindowsKit>, ModernLocator),
}

/// A [`Discovery`] as a mathematical value.
pub enum DiscoveryView {
    Sdk(SdkLocatorView),
    Toolchain(Option<WindowsKitView>, ModernLocatorView),
}

impl View for Discovery {
    type V = DiscoveryView;

    open spec fn view(&self) -> DiscoveryView {
        match self {
            Discovery::Sdk(sdk) => DiscoveryView::Sdk(sdk@),
            Discovery::Toolchain(kit, toolchain) => DiscoveryView::Toolchain(
                kit.deep_view(),
                toolchain@,
            ),
        }
    }
}

impl DiscoveryView {
    /// The discovery at its beginning.
    pub open spec fn start() -> DiscoveryView {
        DiscoveryView::Sdk(SdkLocatorView::OpeningKey)
    }

    /// The probe that the discovery waits for.
    pub open spec fn probe(self) -> ProbeView {
        match self {
            DiscoveryView::Sdk(sdk) => sdk.probe(),
            DiscoveryView::Toolchain(_, toolchain) => toolchain.probe(),
        }
    }

    /// How many installations the enumerator had handed out before the one
    /// that the discovery is looking at.
    pub open spec fn seen(self) -> nat {
        match self {
            DiscoveryView::Sdk(_) => 0,
            DiscoveryView::Toolchain(_, toolchain) => toolchain.seen,
        }
    }

    /// Where the discovery stands after `answer` to the pending probe: the
    /// search for the SDK runs to its end, the search for the toolchain
    /// follows whatever the first one found, and the record of both ends the
    /// discovery.
    pub open spec fn step(self, answer: AnswerView) -> Step<DiscoveryView, Option<InfoView>> {
        match self {
            DiscoveryView::Sdk(sdk) => match sdk.step(answer) {
                Step::Next(next) => Step::Next(DiscoveryView::Sdk(next)),
                Step::Finished(kit) => Step::Next(
                    DiscoveryView::Toolchain(kit, ModernLocatorView::start()),
                ),
            },
            DiscoveryView::Toolchain(kit, toolchain) => match toolchain.step(answer) {
                Step::Next(next) => Step::Next(DiscoveryView::Toolchain(kit, next)),
                Step::Finished(found) => Step::Finished(record(kit, found)),
            },
        }
    }

    /// What the discovery ends with on `host` from here on.
    pub open spec fn outcome(self, host: Host) -> Option<InfoView> {
        match self {
            DiscoveryView::Sdk(sdk) => record(sdk.outcome(host), toolchain(host)),
            DiscoveryView::Toolchain(kit, toolchain) => record(kit, toolchain.outcome(host)),
        }
    }

    /// A bound on the number of answers that the discovery still takes on
    /// `host`.
    pub open spec fn distance(self, host: Host) -> nat {
        match self {
            DiscoveryView::Sdk(sdk) => sdk.budget() + 4 * left(host, 0) + 14,
            DiscoveryView::Toolchain(_, toolchain) => toolchain.distance(host),
        }
    }

    /// Where the discovery stands after the answers, one after the other.
    /// Once it has finished it takes no further answer.
    pub open spec fn run(self, answers: Seq<AnswerView>) -> Step<DiscoveryView, Option<InfoView>>
        decreases answers.len(),
    {
        if answers.len() == 0 {
            Step::Next(self)
        } else {
            match self.run(answers.drop_last()) {
                Step::Next(state) => state.step(answers.last()),
                Step::Finished(info) => Step::Finished(info),
            }
        }
    }

    /// Whether `answers` is what `host` says to the discovery from here on:
    /// each answer is the host's to the probe that was pending when it came,
    /// and none came after the discovery had finished.
    pub open spec fn heard_from(self, host: Host, answers: Seq<AnswerView>) -> bool
        decreases answers.len(),
    {
        answers.len() == 0 || (self.heard_from(host, answers.drop_last()) && match self.run(
            answers.drop_last(),
        ) {
            Step::Next(state) => host.agrees(state.probe(), state.seen(), answers.last()),
            Step::Finished(_) => false,
        })
    }
}

impl Discovery {
    /// The discovery at its beginning.
    pub fn start() -> (discovery: Discovery)
        ensures
            discovery@ == DiscoveryView::start(),
    {
        Discovery::Sdk(SdkLocator::start())
    }

    /// The probe that the discovery waits for.
    pub fn pending(&self) -> (probe: Probe)
        ensures
            probe@ == self@.probe(),
    {
        match self {
            Discovery::Sdk(sdk) => sdk.pending(),
            Discovery::Toolchain(_, toolchain) => toolchain.pending(),
        }
    }
}

/// Tries to detect the available VC toolchain and latest Windows SDK, one
/// answer of the host at a time.
///
/// Begin with [`Discovery::start`]; perform the probe that
/// [`Discovery::pending`] names; hand the answer to this function; go on
/// until it has finished. It always finishes with a record, in which either
/// part may be missing.
pub fn find_vc_and_windows_sdk(state: Discovery, answer: Answer) -> (step: Step<
    Discovery,
    Option<Info>,
>)
    ensures
        step@ == state@.step(answer@),
        step matches Step::Finished(info) ==> info is Some,
{
    match state {
        Discovery::Sdk(sdk) => match find_windows_kit(sdk, answer) {
            Step::Next(next) => Step::Next(Discovery::Sdk(next)),
            Step::Finished(kit) => Step::Next(Discovery::Toolchain(kit, ModernLocator::start())),
        },
        Discovery::Toolchain(kit, toolchain) => match find_vc_toolchain(toolchain, answer) {
            Step::Next(next) => Step::Next(Discovery::Toolchain(kit, next)),
            Step::Finished(found) => Step::Finished(Info::compose(kit, found)),
        },
    }
}

/// At its beginning the outcome of the discovery is what is discovered on
/// the host.
pub proof fn law_discovery_start(host: Host)
    ensures
        DiscoveryView::start().outcome(host) == discovered(host),
{
}

/// On a host that gives `answer` to the pending probe, a step of the
/// discovery keeps the outcome and comes closer to it, or finishes with it.
pub proof fn law_discovery_step(state: DiscoveryView, answer: AnswerView, host: Host)
    requires
        host.agrees(state.probe(), state.seen(), answer),
    ensures
        match state.step(answer) {
            Step::Next(next) => next.outcome(host) == state.outcome(host) && next.distance(host)
                < state.distance(host),
            Step::Finished(info) => info == state.outcome(host),
        },
{
    match state {
        DiscoveryView::Sdk(sdk) => {
            law_windows_kit_step(sdk, answer, host, 0);
        },
        DiscoveryView::Toolchain(_, toolchain) => {
            law_toolchain_step(toolchain, answer, host);
        },
    }
}

/// The discovery on `host` from `state`: as long as the answers are the
/// host's, the outcome stays what it was, every answer brings the end
/// closer, and the discovery finishes with nothing but its outcome. So it
/// takes no more answers than its distance says.
pub proof fn law_discovery_run(state: DiscoveryView, host: Host, answers: Seq<AnswerView>)
    requires
        state.heard_from(host, answers),
    ensures
        match state.run(answers) {
            Step::Next(next) => next.outcome(host) == state.outcome(host) && next.distance(host)
                + answers.len() <= state.distance(host),
            Step::Finished(info) => info == state.outcome(host) && answers.len()
                <= state.distance(host),
        },
    decreases answers.len(),
{
    if answers.len() > 0 {
        law_discovery_run(state, host, answers.drop_last());
        if let Step::Next(before) = state.run(answers.drop_last()) {
            law_discovery_step(before, answers.last(), host);
        }
    }
}

/// Absence composes: a discovery always ends with a record, and where
/// neither an SDK nor a toolchain is found, with the record that holds
/// neither.
pub proof fn law_absence_composes(host: Host)
    ensures
        discovered(host) is Some,
        windows_kit(host) is None && toolchain(host) is None ==> discovered(host) == Some(
            InfoView { sdk: None, toolchain: None },
        ),
        discovered(host)->0.sdk is Some <==> windows_kit(host) is Some,
        discovered(host)->0.toolchain == toolchain(host),
{
}

/// Whether `second` is `first` unchanged: whether the two hosts give the
/// same answer to every probe.
pub open spec fn unchanged(first: Host, second: Host) -> bool {
    &&& first.keys =~= second.keys
    &&& first.values =~= second.values
    &&& first.dirs =~= second.dirs
    &&& first.texts =~= second.texts
    &&& first.files =~= second.files
    &&& first.interop == second.interop
    &&& first.setup == second.setup
    &&& first.enumerable == second.enumerable
    &&& first.installations =~= second.installations
}

/// Idempotence: two discoveries on an unchanged host end with the same
/// record, field for field, and that record is what is discovered on the
/// host.
pub proof fn law_discovery_repeats(
    first: Host,
    second: Host,
    answers_first: Seq<AnswerView>,
    answers_second: Seq<AnswerView>,
)
    requires
        unchanged(first, second),
        DiscoveryView::start().heard_from(first, answers_first),
        DiscoveryView::start().heard_from(second, answers_second),
        DiscoveryView::start().run(answers_first) is Finished,
        DiscoveryView::start().run(answers_second) is Finished,
    ensures
        DiscoveryView::start().run(answers_first) == DiscoveryView::start().run(answers_second),
        DiscoveryView::start().run(answers_first) == Step::<
            DiscoveryView,
            Option<InfoView>,
        >::Finished(discovered(first)),
{
    assert(first == second);
    law_discovery_run(DiscoveryView::start(), first, answers_first);
    law_discovery_run(DiscoveryView::start(), second, answers_second);
    law_discovery_start(first);
}

} // verus!
