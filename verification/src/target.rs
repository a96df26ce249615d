//! Compilation targets. Every build names its target outright, so that
//! artifacts for different targets never meet in one directory.

use vstd::prelude::*;
use vstd::string::StringExecFns;
use crate::text::{
    chars_eq, chars_of, lossy, lossy_text, split, split_chars, text_eq, trim, trimmed, views,
};

verus! {

/// A target triple: architecture, vendor, operating system and environment.
#[derive(Debug, Clone, PartialOrd, PartialEq, Hash, Ord, Eq)]
pub struct CompilationTarget(pub String);

impl View for CompilationTarget {
    type V = Seq<char>;

    open spec fn view(&self) -> Seq<char> {
        self.0@
    }
}

impl CompilationTarget {
    /// The triple as text.
    pub fn as_str(&self) -> (s: &str)
        ensures
            s@ == self@,
    {
        self.0.as_str()
    }

    /// The target that a text names.
    pub fn new(s: &str) -> (t: CompilationTarget)
        ensures
            t@ == s@,
    {
        CompilationTarget(String::from_str(s))
    }
}

impl From<String> for CompilationTarget {
    fn from(s: String) -> (t: CompilationTarget) {
        CompilationTarget(s)
    }
}

impl vstd::std_specs::convert::FromSpecImpl<String> for CompilationTarget {
    open spec fn obeys_from_spec() -> bool {
        true
    }

    open spec fn from_spec(s: String) -> CompilationTarget {
        CompilationTarget(s)
    }
}

/// Why a target could not be resolved.
#[derive(Debug, Clone, PartialEq, Eq)]
pub enum TargetErr {
    /// The platform, or a configured target, is not one that can be built for.
    Unsupported,
    /// The override is not valid UTF-8. It is kept as the bytes it holds.
    InvalidSpec(Vec<u8>),
}

/// What a target error holds.
pub enum TargetErrData {
    Unsupported,
    InvalidSpec(Seq<u8>),
}

impl View for TargetErr {
    type V = TargetErrData;

    open spec fn view(&self) -> TargetErrData {
        match self {
            TargetErr::Unsupported => TargetErrData::Unsupported,
            TargetErr::InvalidSpec(b) => TargetErrData::InvalidSpec(b@),
        }
    }
}

impl TargetErr {
    /// What the error says.
    pub open spec fn message_text(self) -> Seq<char> {
        match self {
            TargetErr::Unsupported => "unsupported target tuple"@,
            TargetErr::InvalidSpec(b) => "non-UTF-8 target tuple specifiers are invalid: "@
                + lossy_text(b@),
        }
    }

    /// What the error says.
    pub fn message(&self) -> (s: String)
        ensures
            s@ == self.message_text(),
    {
        match self {
            TargetErr::Unsupported => String::from_str("unsupported target tuple"),
            TargetErr::InvalidSpec(b) => {
                let mut s = String::from_str("non-UTF-8 target tuple specifiers are invalid: ");
                s.append(lossy(b).as_str());
                s
            },
        }
    }
}

/// A part of a triple behind its dash, or nothing for an empty part.
pub open spec fn dashed(part: Seq<char>) -> Seq<char> {
    if part.len() == 0 {
        Seq::<char>::empty()
    } else {
        "-"@ + part
    }
}

/// The triple made of four parts: the architecture, then every other part
/// that is not empty, each behind a dash.
pub open spec fn tuple_of(arch: Seq<char>, vendor: Seq<char>, os: Seq<char>, env: Seq<char>) -> Seq<
    char,
> {
    arch + dashed(vendor) + dashed(os) + dashed(env)
}

fn push_dashed(s: &mut String, part: &str)
    ensures
        final(s)@ == old(s)@ + dashed(part@),
{
    if !part.is_empty() {
        let mut piece = String::from_str("-");
        piece.append(part);
        s.append(piece.as_str());
    } else {
        assert(old(s)@ + Seq::<char>::empty() =~= old(s)@);
    }
}

/// Puts a triple together from its four parts.
pub fn target_tuple(arch: &str, vendor: &str, os: &str, env: &str) -> (s: String)
    ensures
        s@ == tuple_of(arch@, vendor@, os@, env@),
{
    let mut s = String::from_str(arch);
    push_dashed(&mut s, vendor);
    push_dashed(&mut s, os);
    push_dashed(&mut s, env);
    s
}

/// What the environment holds under the name of the target override.
#[derive(Debug, Clone, PartialEq, Eq)]
pub enum EnvLookup {
    /// The variable is set to this text.
    Present(String),
    /// The variable is not set.
    NotPresent,
    /// The variable is set to bytes that are not valid UTF-8.
    NotUnicode(Vec<u8>),
}

/// The platform that the running process was built for.
#[derive(Debug, Clone, PartialEq, Eq)]
pub struct HostPlatform {
    pub arch: String,
    pub vendor: String,
    pub os: String,
    pub env: String,
    /// Whether user code is built against the restricted standard library,
    /// which exists for a few platforms only.
    pub restricted_std: bool,
}

impl HostPlatform {
    /// The triple of this platform.
    pub open spec fn tuple(self) -> Seq<char> {
        tuple_of(self.arch@, self.vendor@, self.os@, self.env@)
    }

    /// Whether the restricted standard library exists for this platform.
    pub open spec fn has_restricted_std(self) -> bool {
        (self.arch@ == "x86_64"@ || self.arch@ == "aarch64"@) && self.os@ == "linux"@ && self.env@
            == "gnu"@
    }

    /// Whether builds for this platform are possible.
    pub open spec fn supported(self) -> bool {
        !self.restricted_std || self.has_restricted_std()
    }

    fn is_supported(&self) -> (b: bool)
        ensures
            b == self.supported(),
    {
        if !self.restricted_std {
            return true;
        }
        let arch = self.arch.as_str();
        (text_eq(arch, "x86_64") || text_eq(arch, "aarch64")) && text_eq(self.os.as_str(), "linux")
            && text_eq(self.env.as_str(), "gnu")
    }
}

/// The host target: the override where the environment holds one, else the
/// triple of the platform. An override that is not UTF-8 is an error, and so
/// is a platform that cannot be built for.
pub open spec fn host_target(lookup: EnvLookup, host: HostPlatform) -> Result<
    Seq<char>,
    TargetErrData,
> {
    match lookup {
        EnvLookup::Present(v) => Ok(v@),
        EnvLookup::NotPresent => if host.supported() {
            Ok(host.tuple())
        } else {
            Err(TargetErrData::Unsupported)
        },
        EnvLookup::NotUnicode(b) => Err(TargetErrData::InvalidSpec(b@)),
    }
}

/// Resolves the host target.
pub fn tuple(lookup: EnvLookup, host: &HostPlatform) -> (r: Result<CompilationTarget, TargetErr>)
    ensures
        match r {
            Ok(t) => Ok::<Seq<char>, TargetErrData>(t@) == host_target(lookup, *host),
            Err(e) => Err::<Seq<char>, TargetErrData>(e@) == host_target(lookup, *host),
        },
{
    match lookup {
        EnvLookup::Present(v) => Ok(CompilationTarget(v)),
        EnvLookup::NotPresent => {
            if host.is_supported() {
                Ok(
                    CompilationTarget(
                        target_tuple(
                            host.arch.as_str(),
                            host.vendor.as_str(),
                            host.os.as_str(),
                            host.env.as_str(),
                        ),
                    ),
                )
            } else {
                Err(TargetErr::Unsupported)
            }
        },
        EnvLookup::NotUnicode(b) => Err(TargetErr::InvalidSpec(b)),
    }
}

/// Remembers the host target once it has been resolved. A failure is not
/// remembered: the next call resolves anew.
pub struct TargetResolver {
    pub resolved: Option<CompilationTarget>,
}

impl TargetResolver {
    /// A resolver that has resolved nothing yet.
    pub fn new() -> (r: TargetResolver)
        ensures
            r.resolved is None,
    {
        TargetResolver { resolved: None }
    }

    /// What this resolver answers: the target it remembers, or else what the
    /// environment and the platform give.
    pub open spec fn answer(self, lookup: EnvLookup, host: HostPlatform) -> Result<
        Seq<char>,
        TargetErrData,
    > {
        match self.resolved {
            Some(t) => Ok(t@),
            None => host_target(lookup, host),
        }
    }

    /// The host target. The first successful resolution is kept and answers
    /// every later call, whatever the environment holds by then.
    pub fn resolve(&mut self, lookup: EnvLookup, host: &HostPlatform) -> (r: Result<
        CompilationTarget,
        TargetErr,
    >)
        ensures
            match old(self).resolved {
                Some(t) => r == Ok::<CompilationTarget, TargetErr>(t) && *final(self) == *old(self),
                None => match r {
                    Ok(t) => Ok::<Seq<char>, TargetErrData>(t@) == host_target(lookup, *host)
                        && final(self).resolved == Some(t),
                    Err(e) => Err::<Seq<char>, TargetErrData>(e@) == host_target(lookup, *host)
                        && final(self).resolved is None,
                },
            },
    {
        match &self.resolved {
            Some(t) => {
                return Ok(t.clone_target());
            },
            None => {},
        }
        match tuple(lookup, host) {
            Ok(t) => {
                self.resolved = Some(t.clone_target());
                Ok(t)
            },
            Err(e) => Err(e),
        }
    }
}

impl CompilationTarget {
    /// A copy of this target.
    pub fn clone_target(&self) -> (t: CompilationTarget)
        ensures
            t == *self,
    {
        CompilationTarget(self.0.clone())
    }
}

/// A target that is only ever built for, never run on.
#[derive(Debug, Clone, Copy, PartialEq, Eq, Structural)]
pub enum CrossCompilationTarget {
    X86_64,
    Aarch64,
}

/// The cross-compilation target that an architecture name stands for.
pub open spec fn cross_target_of(name: Seq<char>) -> Option<CrossCompilationTarget> {
    if name == "x86_64"@ {
        Some(CrossCompilationTarget::X86_64)
    } else if name == "aarch64"@ {
        Some(CrossCompilationTarget::Aarch64)
    } else {
        None
    }
}

impl CrossCompilationTarget {
    /// The architecture name of this target.
    pub open spec fn name(self) -> Seq<char> {
        match self {
            CrossCompilationTarget::X86_64 => "x86_64"@,
            CrossCompilationTarget::Aarch64 => "aarch64"@,
        }
    }

    /// The architecture name of this target.
    pub fn as_str(&self) -> (s: &'static str)
        ensures
            s@ == self.name(),
    {
        match self {
            CrossCompilationTarget::X86_64 => "x86_64",
            CrossCompilationTarget::Aarch64 => "aarch64",
        }
    }

    /// The triple of this target: this architecture on the vendor, operating
    /// system and environment of the host.
    pub fn target(&self, host: &HostPlatform) -> (t: CompilationTarget)
        ensures
            t@ == tuple_of(self.name(), host.vendor@, host.os@, host.env@),
    {
        CompilationTarget(
            target_tuple(self.as_str(), host.vendor.as_str(), host.os.as_str(), host.env.as_str()),
        )
    }

    /// The target that an architecture name stands for. Any other name is
    /// unsupported.
    pub fn try_from_str(name: &str) -> (r: Result<CrossCompilationTarget, TargetErr>)
        ensures
            match r {
                Ok(t) => cross_target_of(name@) == Some(t),
                Err(e) => cross_target_of(name@) is None && e@ == TargetErrData::Unsupported,
            },
    {
        if text_eq(name, "x86_64") {
            Ok(CrossCompilationTarget::X86_64)
        } else if text_eq(name, "aarch64") {
            Ok(CrossCompilationTarget::Aarch64)
        } else {
            Err(TargetErr::Unsupported)
        }
    }
}

/// The cross-compilation targets that a list of architecture names stands
/// for: each name is trimmed, the host's own architecture is left out, and
/// every other name must be a known one. Each target stands once, where it is
/// first named. `None` where a name is not known.
pub open spec fn other_targets(pieces: Seq<Seq<char>>, arch: Seq<char>) -> Option<
    Seq<CrossCompilationTarget>,
>
    decreases pieces.len(),
{
    if pieces.len() == 0 {
        Some(Seq::<CrossCompilationTarget>::empty())
    } else {
        match other_targets(pieces.drop_last(), arch) {
            None => None,
            Some(before) => {
                let name = trim(pieces.last());
                if name == arch {
                    Some(before)
                } else {
                    match cross_target_of(name) {
                        Some(t) => if before.contains(t) {
                            Some(before)
                        } else {
                            Some(before.push(t))
                        },
                        None => None,
                    }
                }
            },
        }
    }
}

/// The cross-compilation targets that a setting asks for: none where it is
/// not set, else those of its comma-separated names.
pub open spec fn configured_targets(setting: Option<&str>, arch: Seq<char>) -> Option<
    Seq<CrossCompilationTarget>,
> {
    match setting {
        None => Some(Seq::<CrossCompilationTarget>::empty()),
        Some(s) => other_targets(split(s@, ','), arch),
    }
}

fn holds_target(targets: &Vec<CrossCompilationTarget>, t: CrossCompilationTarget) -> (r: bool)
    ensures
        r == targets@.contains(t),
{
    let mut i: usize = 0;
    while i < targets.len()
        invariant
            i <= targets.len(),
            forall|k: int| 0 <= k < i ==> targets@[k] != t,
        decreases targets.len() - i,
    {
        if targets[i] == t {
            return true;
        }
        i = i + 1;
    }
    false
}

/// No target stands twice among the configured ones, and the host's own
/// architecture stands nowhere among them.
pub proof fn lemma_other_targets_distinct(pieces: Seq<Seq<char>>, arch: Seq<char>)
    ensures
        other_targets(pieces, arch) matches Some(others) ==> others.no_duplicates() && forall|
            k: int,
        |
            0 <= k < others.len() ==> (#[trigger] others[k]).name() != arch,
    decreases pieces.len(),
{
    if pieces.len() > 0 {
        lemma_other_targets_distinct(pieces.drop_last(), arch);
    }
}

/// Once a name is unknown, the list stays refused however it goes on.
pub proof fn lemma_other_targets_refused(pieces: Seq<Seq<char>>, arch: Seq<char>, i: int)
    requires
        0 <= i <= pieces.len(),
        other_targets(pieces.take(i), arch) is None,
    ensures
        other_targets(pieces, arch) is None,
    decreases pieces.len() - i,
{
    if i < pieces.len() {
        assert(pieces.take(i + 1).drop_last() =~= pieces.take(i));
        lemma_other_targets_refused(pieces, arch, i + 1);
    } else {
        assert(pieces.take(i) =~= pieces);
    }
}

/// The targets that a function is built for: the host target, and the
/// configured cross-compilation targets.
///
/// The host target is resolved first, and its error is the result where it has
/// one. An unknown name in the setting makes the whole list unsupported.
pub fn compilation_targets(
    resolver: &mut TargetResolver,
    lookup: EnvLookup,
    host: &HostPlatform,
    setting: Option<&str>,
) -> (r: Result<(CompilationTarget, Vec<CrossCompilationTarget>), TargetErr>)
    ensures
        match old(resolver).answer(lookup, *host) {
            Err(e) => r is Err && r->Err_0@ == e && final(resolver).resolved is None,
            Ok(t) => final(resolver).resolved is Some && final(resolver).resolved->Some_0@ == t
                && match configured_targets(setting, host.arch@) {
                Some(others) => r is Ok && r->Ok_0.0@ == t && r->Ok_0.1@ == others,
                None => r is Err && r->Err_0@ == TargetErrData::Unsupported,
            },
        },
{
    let this_target = match resolver.resolve(lookup, host) {
        Ok(t) => t,
        Err(e) => {
            return Err(e);
        },
    };
    let mut others: Vec<CrossCompilationTarget> = Vec::new();
    match setting {
        None => {},
        Some(targets) => {
            let all = chars_of(targets);
            let pieces = split_chars(&all, ',');
            let arch = chars_of(host.arch.as_str());
            let ghost spec_pieces = split(targets@, ',');
            let mut i: usize = 0;
            assert(spec_pieces.take(0) =~= Seq::<Seq<char>>::empty());
            while i < pieces.len()
                invariant
                    i <= pieces.len(),
                    views(pieces@) == spec_pieces,
                    arch@ == host.arch@,
                    old(resolver).answer(lookup, *host) == Ok::<Seq<char>, TargetErrData>(
                        this_target@,
                    ),
                    resolver.resolved == Some(this_target),
                    setting == Some(targets),
                    spec_pieces == split(targets@, ','),
                    other_targets(spec_pieces.take(i as int), host.arch@) == Some(others@),
                decreases pieces.len() - i,
            {
                let name = trimmed(&pieces[i]);
                proof {
                    let next = spec_pieces.take(i + 1);
                    assert(next.drop_last() =~= spec_pieces.take(i as int));
                    assert(next.last() == pieces@[i as int]@);
                }
                if !chars_eq(&name, &arch) {
                    let text = crate::text::string_of(&name);
                    match CrossCompilationTarget::try_from_str(text.as_str()) {
                        Ok(t) => {
                            if !holds_target(&others, t) {
                                others.push(t);
                            }
                        },
                        Err(e) => {
                            proof {
                                assert(cross_target_of(name@) is None);
                                assert(other_targets(spec_pieces.take(i + 1), host.arch@) is None);
                                lemma_other_targets_refused(spec_pieces, host.arch@, i + 1);
                            }
                            return Err(e);
                        },
                    }
                }
                i = i + 1;
            }
            assert(spec_pieces.take(pieces@.len() as int) =~= spec_pieces);
        },
    }
    Ok((this_target, others))
}

} // verus!
