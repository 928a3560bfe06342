//! The probe: which backend the platform at hand should get.
//!
//! Hardware acceleration performs poorly, or not at all, on remote displays
//! and under some virtual graphics drivers. The probe recommends the software
//! backend there and the hardware runtime everywhere else.

use vstd::prelude::*;
use vstd::string::StrSliceExecFns;
use crate::backend::Backend;

verus! {

/// The family of operating systems that the process runs on.
#[derive(Debug, Copy, Clone, PartialEq, Eq, Structural)]
pub enum Platform {
    /// Linux.
    Linux,
    /// Windows.
    Windows,
    /// Any other Unix-like system, such as macOS or a BSD.
    OtherUnix,
}

/// A yes-or-no question about the Windows machine at hand.
#[derive(Debug, Copy, Clone, PartialEq, Eq, Structural)]
pub enum ProbeQuery {
    /// Is the calling thread known not to be the main thread?
    OffMainThread,
    /// Is this a remote interactive session?
    RemoteSession,
    /// Does the processor report a hypervisor?
    Hypervisor,
    /// Is the 3D driver of VMware installed?
    VmwareDriver,
    /// Is the OpenGL driver of VirtualBox installed?
    VirtualBoxDriver,
    /// Can a hidden rendering context of the minimum version be created?
    /// Whoever answers destroys the context again before answering.
    RenderingContext,
}

/// The major version of OpenGL that the hardware runtime needs at least.
pub const MIN_CONTEXT_VERSION_MAJOR: u32 = 3;

/// The minor version of OpenGL that the hardware runtime needs at least.
pub const MIN_CONTEXT_VERSION_MINOR: u32 = 2;

impl ProbeQuery {
    /// The file whose presence answers this question with yes, for the two
    /// questions about installed drivers.
    pub fn marker_path(self) -> (path: Option<&'static str>)
        ensures
            path is Some <==> (self == ProbeQuery::VmwareDriver || self
                == ProbeQuery::VirtualBoxDriver),
            self == ProbeQuery::VmwareDriver ==> path == Some(
                "C:\\Windows\\System32\\vm3dgl64.dll",
            ),
            self == ProbeQuery::VirtualBoxDriver ==> path == Some(
                "C:\\Windows\\System32\\VBoxGL.dll",
            ),
    {
        match self {
            ProbeQuery::VmwareDriver => Some("C:\\Windows\\System32\\vm3dgl64.dll"),
            ProbeQuery::VirtualBoxDriver => Some("C:\\Windows\\System32\\VBoxGL.dll"),
            _ => None,
        }
    }
}

/// The answers to all questions about a Windows machine.
#[derive(Debug, Copy, Clone, PartialEq, Eq, Structural)]
pub struct WindowsFacts {
    /// The calling thread is known not to be the main thread.
    pub off_main_thread: bool,
    /// This is a remote interactive session.
    pub remote_session: bool,
    /// The processor reports a hypervisor.
    pub hypervisor: bool,
    /// The 3D driver of VMware is installed.
    pub vmware_driver: bool,
    /// The OpenGL driver of VirtualBox is installed.
    pub virtualbox_driver: bool,
    /// A rendering context of the minimum version can be created.
    pub rendering_context: bool,
}

impl WindowsFacts {
    /// The answer that these facts give to `query`.
    pub open spec fn answer(self, query: ProbeQuery) -> bool {
        match query {
            ProbeQuery::OffMainThread => self.off_main_thread,
            ProbeQuery::RemoteSession => self.remote_session,
            ProbeQuery::Hypervisor => self.hypervisor,
            ProbeQuery::VmwareDriver => self.vmware_driver,
            ProbeQuery::VirtualBoxDriver => self.virtualbox_driver,
            ProbeQuery::RenderingContext => self.rendering_context,
        }
    }

    /// Whether a known-broken virtual graphics driver is in use: the machine
    /// is virtual and one of the two drivers is installed.
    pub open spec fn broken_virtual_driver(self) -> bool {
        self.hypervisor && (self.vmware_driver || self.virtualbox_driver)
    }

    /// Whether the probe, on a machine of these facts, gets as far as asking
    /// `query`. The questions are asked in a fixed order, and the first
    /// answer that settles the matter ends the probe.
    pub open spec fn consulted(self, query: ProbeQuery) -> bool {
        match query {
            ProbeQuery::OffMainThread => true,
            ProbeQuery::RemoteSession => !self.off_main_thread,
            ProbeQuery::Hypervisor => !self.off_main_thread && !self.remote_session,
            ProbeQuery::VmwareDriver => !self.off_main_thread && !self.remote_session
                && self.hypervisor,
            ProbeQuery::VirtualBoxDriver => !self.off_main_thread && !self.remote_session
                && self.hypervisor && !self.vmware_driver,
            ProbeQuery::RenderingContext => !self.off_main_thread && !self.remote_session
                && !self.broken_virtual_driver(),
        }
    }
}

/// What the probe recommends on a Windows machine of the given facts. Off
/// the main thread it cannot decide. A remote session, a known-broken
/// virtual graphics driver or a missing rendering context each call for the
/// software backend.
pub open spec fn windows_verdict(facts: WindowsFacts) -> Option<Backend> {
    if facts.off_main_thread {
        None
    } else if facts.remote_session || facts.broken_virtual_driver()
        || !facts.rendering_context {
        Some(Backend::SoftwareBackend)
    } else {
        Some(Backend::Eframe)
    }
}

/// What the probe recommends on a Windows machine of the given facts.
pub fn windows_backend(facts: WindowsFacts) -> (r: Option<Backend>)
    ensures
        r == windows_verdict(facts),
{
    if facts.off_main_thread {
        return None;
    }
    if facts.remote_session {
        return Some(Backend::SoftwareBackend);
    }
    if facts.hypervisor && (facts.vmware_driver || facts.virtualbox_driver) {
        return Some(Backend::SoftwareBackend);
    }
    if !facts.rendering_context {
        return Some(Backend::SoftwareBackend);
    }
    Some(Backend::Eframe)
}

/// Whether `r` is a recommendation that the probe may give on Windows when
/// `ask` answers its questions: there are facts that give `r` and that agree
/// with an answer of `ask` on every question the probe gets to.
pub open spec fn windows_outcome<A: Fn(ProbeQuery) -> bool>(ask: A, r: Option<Backend>) -> bool {
    exists|facts: WindowsFacts|
        #[trigger] windows_verdict(facts) == r && forall|q: ProbeQuery|
            facts.consulted(q) ==> ask.ensures((q,), #[trigger] facts.answer(q))
}

/// Probes a Windows machine by asking `ask` one question after the other,
/// and no question whose answer can no longer matter. In particular no
/// rendering context is created off the main thread, in a remote session or
/// under a known-broken virtual driver.
pub fn probe_windows<A: Fn(ProbeQuery) -> bool>(ask: A) -> (r: Option<Backend>)
    requires
        forall|q: ProbeQuery| ask.requires((q,)),
    ensures
        windows_outcome(ask, r),
{
    let mut facts = WindowsFacts {
        off_main_thread: false,
        remote_session: false,
        hypervisor: false,
        vmware_driver: false,
        virtualbox_driver: false,
        rendering_context: false,
    };
    facts.off_main_thread = ask(ProbeQuery::OffMainThread);
    if !facts.off_main_thread {
        facts.remote_session = ask(ProbeQuery::RemoteSession);
        if !facts.remote_session {
            facts.hypervisor = ask(ProbeQuery::Hypervisor);
            if facts.hypervisor {
                facts.vmware_driver = ask(ProbeQuery::VmwareDriver);
                if !facts.vmware_driver {
                    facts.virtualbox_driver = ask(ProbeQuery::VirtualBoxDriver);
                }
            }
            if !(facts.hypervisor && (facts.vmware_driver || facts.virtualbox_driver)) {
                facts.rendering_context = ask(ProbeQuery::RenderingContext);
            }
        }
    }
    let r = windows_backend(facts);
    proof {
        assert forall|q: ProbeQuery| facts.consulted(q) implies ask.ensures(
            (q,),
            #[trigger] facts.answer(q),
        ) by {}
        assert(windows_verdict(facts) == r);
    }
    r
}

/// Where `ask` can only answer as `facts` say, the probe recommends what
/// those facts call for.
pub proof fn lemma_probe_follows_facts<A: Fn(ProbeQuery) -> bool>(
    ask: A,
    facts: WindowsFacts,
    r: Option<Backend>,
)
    requires
        windows_outcome(ask, r),
        forall|q: ProbeQuery, a: bool| ask.ensures((q,), a) ==> a == facts.answer(q),
    ensures
        r == windows_verdict(facts),
{
    let seen = choose|seen: WindowsFacts|
        #[trigger] windows_verdict(seen) == r && forall|q: ProbeQuery|
            seen.consulted(q) ==> ask.ensures((q,), #[trigger] seen.answer(q));
    assert(seen.consulted(ProbeQuery::OffMainThread) ==> ask.ensures(
        (ProbeQuery::OffMainThread,),
        seen.answer(ProbeQuery::OffMainThread),
    ));
    assert(seen.consulted(ProbeQuery::RemoteSession) ==> ask.ensures(
        (ProbeQuery::RemoteSession,),
        seen.answer(ProbeQuery::RemoteSession),
    ));
    assert(seen.consulted(ProbeQuery::Hypervisor) ==> ask.ensures(
        (ProbeQuery::Hypervisor,),
        seen.answer(ProbeQuery::Hypervisor),
    ));
    assert(seen.consulted(ProbeQuery::VmwareDriver) ==> ask.ensures(
        (ProbeQuery::VmwareDriver,),
        seen.answer(ProbeQuery::VmwareDriver),
    ));
    assert(seen.consulted(ProbeQuery::VirtualBoxDriver) ==> ask.ensures(
        (ProbeQuery::VirtualBoxDriver,),
        seen.answer(ProbeQuery::VirtualBoxDriver),
    ));
    assert(seen.consulted(ProbeQuery::RenderingContext) ==> ask.ensures(
        (ProbeQuery::RenderingContext,),
        seen.answer(ProbeQuery::RenderingContext),
    ));
}

/// Whether `pattern` stands in `text` at position `at`.
pub open spec fn occurs_at(text: Seq<char>, pattern: Seq<char>, at: int) -> bool {
    0 <= at && at + pattern.len() <= text.len() && forall|j: int|
        0 <= j < pattern.len() ==> text[at + j] == #[trigger] pattern[j]
}

/// Whether `pattern` stands somewhere in `text`.
pub open spec fn occurs_in(text: Seq<char>, pattern: Seq<char>) -> bool {
    exists|at: int| occurs_at(text, pattern, at)
}

/// What marks the address of a local socket in a display name.
pub open spec fn unix_marker() -> Seq<char> {
    seq!['/', 'u', 'n', 'i', 'x', ':']
}

/// Whether a display name means a display of this machine: a bare display
/// number, which starts with a colon, or the address of a local socket.
/// Every other name has a host in front of the colon and so means a display
/// that is reached over the network.
pub open spec fn display_is_local(display: Seq<char>) -> bool {
    (display.len() > 0 && display[0] == ':') || occurs_in(display, unix_marker())
}

/// What the probe recommends on Linux, given the display name from the
/// environment: without one the session is not an X11 session and gets the
/// hardware runtime, as a local display does; a remote display gets the
/// software backend.
pub open spec fn linux_verdict(display: Option<Seq<char>>) -> Backend {
    match display {
        None => Backend::Eframe,
        Some(d) => if display_is_local(d) {
            Backend::Eframe
        } else {
            Backend::SoftwareBackend
        },
    }
}

/// The characters of `text`, one by one.
fn chars_of(text: &str) -> (chars: Vec<char>)
    ensures
        chars@ == text@,
{
    let n: usize = text.unicode_len();
    let mut chars: Vec<char> = Vec::new();
    let mut i: usize = 0;
    while i < n
        invariant
            n == text@.len(),
            i <= n,
            chars@ == text@.subrange(0, i as int),
        decreases n - i,
    {
        chars.push(text.get_char(i));
        i = i + 1;
        assert(chars@ =~= text@.subrange(0, i as int));
    }
    assert(text@.subrange(0, n as int) =~= text@);
    chars
}

/// Whether `pattern` stands in `text` at position `at`.
fn matches_at(text: &Vec<char>, pattern: &Vec<char>, at: usize) -> (r: bool)
    requires
        at + pattern@.len() <= text@.len(),
    ensures
        r == occurs_at(text@, pattern@, at as int),
{
    let n: usize = text.len();
    let mut j: usize = 0;
    while j < pattern.len()
        invariant
            j <= pattern@.len(),
            n == text@.len(),
            at + pattern@.len() <= n,
            forall|k: int| 0 <= k < j ==> text@[at + k] == #[trigger] pattern@[k],
        decreases pattern@.len() - j,
    {
        if text[at + j] != pattern[j] {
            return false;
        }
        j = j + 1;
    }
    true
}

/// Whether `pattern` stands somewhere in `text`.
fn contains_chars(text: &Vec<char>, pattern: &Vec<char>) -> (r: bool)
    ensures
        r == occurs_in(text@, pattern@),
{
    if pattern.len() > text.len() {
        return false;
    }
    let last: usize = text.len() - pattern.len();
    let mut at: usize = 0;
    loop
        invariant
            last == text@.len() - pattern@.len(),
            at <= last,
            forall|k: int| 0 <= k < at ==> !occurs_at(text@, pattern@, k),
        decreases last - at,
    {
        if matches_at(text, pattern, at) {
            return true;
        }
        if at == last {
            return false;
        }
        at = at + 1;
    }
}

/// Whether a display name means a display of this machine.
pub fn is_local_display(display: &str) -> (r: bool)
    ensures
        r == display_is_local(display@),
{
    let chars = chars_of(display);
    if chars.len() > 0 && chars[0] == ':' {
        return true;
    }
    let marker: Vec<char> = vec!['/', 'u', 'n', 'i', 'x', ':'];
    assert(marker@ =~= unix_marker());
    contains_chars(&chars, &marker)
}

/// The characters of a display name, where there is one.
pub open spec fn display_name(display: Option<&str>) -> Option<Seq<char>> {
    match display {
        Some(d) => Some(d@),
        None => None,
    }
}

/// What the probe recommends on Linux, given the display name from the
/// environment.
pub fn linux_backend(display: Option<&str>) -> (r: Backend)
    ensures
        r == linux_verdict(display_name(display)),
{
    match display {
        None => Backend::Eframe,
        Some(d) => {
            if is_local_display(d) {
                Backend::Eframe
            } else {
                Backend::SoftwareBackend
            }
        },
    }
}

/// Whether `r` is a recommendation that the probe may give on `platform`,
/// where `display` is the display name from the environment and `ask`
/// answers the questions about a Windows machine.
pub open spec fn probe_outcome<A: Fn(ProbeQuery) -> bool>(
    platform: Platform,
    display: Option<Seq<char>>,
    ask: A,
    r: Option<Backend>,
) -> bool {
    match platform {
        Platform::OtherUnix => r == Some(Backend::Eframe),
        Platform::Linux => r == Some(linux_verdict(display)),
        Platform::Windows => windows_outcome(ask, r),
    }
}

/// Determines the backend that the platform at hand should get, or `None`
/// where that cannot be decided from the calling thread.
///
/// `display` is the display name from the environment and is read on Linux
/// only; `ask` answers the questions about the machine and is called on
/// Windows only.
pub fn determine_backend<A: Fn(ProbeQuery) -> bool>(
    platform: Platform,
    display: Option<&str>,
    ask: A,
) -> (r: Option<Backend>)
    requires
        platform == Platform::Windows ==> forall|q: ProbeQuery| ask.requires((q,)),
    ensures
        probe_outcome(platform, display_name(display), ask, r),
{
    match platform {
        Platform::OtherUnix => Some(Backend::Eframe),
        Platform::Linux => Some(linux_backend(display)),
        Platform::Windows => probe_windows(ask),
    }
}

/// Only Windows can leave the backend undecided, and only off the main
/// thread: everywhere else the probe recommends a backend.
pub proof fn lemma_probe_decides<A: Fn(ProbeQuery) -> bool>(
    platform: Platform,
    display: Option<Seq<char>>,
    ask: A,
    r: Option<Backend>,
)
    requires
        probe_outcome(platform, display, ask, r),
        platform == Platform::Windows ==> !ask.ensures((ProbeQuery::OffMainThread,), true),
    ensures
        r is Some,
{
    if platform == Platform::Windows {
        let facts = choose|facts: WindowsFacts|
            #[trigger] windows_verdict(facts) == r && forall|q: ProbeQuery|
                facts.consulted(q) ==> ask.ensures((q,), #[trigger] facts.answer(q));
        assert(facts.consulted(ProbeQuery::OffMainThread));
        assert(ask.ensures((ProbeQuery::OffMainThread,), facts.answer(ProbeQuery::OffMainThread)));
    }
}

} // verus!
