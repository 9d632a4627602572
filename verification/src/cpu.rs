//! CPU feature tags, the table of features probed on a host, and the fault
//! raised when a kernel needs a feature that the host lacks.

use vstd::prelude::*;
use vstd::string::StringExecFns;

verus! {

/// An identifier for a CPU feature.
#[derive(Debug, Clone, Copy, PartialEq, Eq, Hash, Structural)]
pub enum CpuFeature {
    /// x86 sse3 cpu feature.
    Sse3,
    /// x86_64 avx cpu feature.
    Avx,
    /// The fma cpu feature.
    Fma,
    /// aarch64 neon cpu feature.
    Neon,
}

/// The outcome of probing a host: one entry per feature tag.
///
/// The table is plain data that its maker vouches for: this crate cannot
/// probe a processor, and takes every entry as it is given. Whoever fills the
/// table is to set an entry to `true` only after the probe for that tag ran
/// in this process and found the feature, and to leave the entry of a tag of
/// another architecture `false`. What this crate then ensures is that no
/// feature is granted whose entry is `false`.
#[derive(Debug, Clone, Copy, PartialEq, Eq, Hash, Structural)]
pub struct HostCapabilities {
    pub sse3: bool,
    pub avx: bool,
    pub fma: bool,
    pub neon: bool,
}

/// Error raised when trying to use a CPU feature which is not supported.
#[derive(Debug, Clone, Copy, PartialEq, Eq, Hash, Structural)]
pub struct MissingCpuFeature(pub CpuFeature);

impl HostCapabilities {
    /// The entry of `feature` in the table.
    pub open spec fn spec_supports(&self, feature: CpuFeature) -> bool {
        match feature {
            CpuFeature::Sse3 => self.sse3,
            CpuFeature::Avx => self.avx,
            CpuFeature::Fma => self.fma,
            CpuFeature::Neon => self.neon,
        }
    }

    /// The table of a host on which nothing was probed: no feature is
    /// reported present.
    pub fn none() -> (host: HostCapabilities)
        ensures
            forall|feature: CpuFeature| !host.spec_supports(feature),
    {
        HostCapabilities { sse3: false, avx: false, fma: false, neon: false }
    }

    /// Records `detected` as the outcome of probing `feature`, leaving every
    /// other entry as it was. The caller vouches for the outcome.
    pub fn with(self, feature: CpuFeature, detected: bool) -> (host: HostCapabilities)
        ensures
            host.spec_supports(feature) == detected,
            forall|other: CpuFeature|
                other != feature ==> host.spec_supports(other) == self.spec_supports(other),
    {
        match feature {
            CpuFeature::Sse3 => HostCapabilities { sse3: detected, ..self },
            CpuFeature::Avx => HostCapabilities { avx: detected, ..self },
            CpuFeature::Fma => HostCapabilities { fma: detected, ..self },
            CpuFeature::Neon => HostCapabilities { neon: detected, ..self },
        }
    }

    /// Tells whether `feature` was probed and found on this host.
    #[verifier::when_used_as_spec(spec_supports)]
    pub fn supports(&self, feature: CpuFeature) -> (available: bool)
        ensures
            available == self.spec_supports(feature),
    {
        match feature {
            CpuFeature::Sse3 => self.sse3,
            CpuFeature::Avx => self.avx,
            CpuFeature::Fma => self.fma,
            CpuFeature::Neon => self.neon,
        }
    }
}

impl CpuFeature {
    /// The name of the feature, as a sequence of characters.
    pub open spec fn spec_name(self) -> Seq<char> {
        match self {
            CpuFeature::Sse3 => "sse3"@,
            CpuFeature::Avx => "avx"@,
            CpuFeature::Fma => "fma"@,
            CpuFeature::Neon => "neon"@,
        }
    }

    /// What `require` returns: nothing where the host has the feature, the
    /// fault that names the feature where it has not.
    pub open spec fn spec_require(self, host: HostCapabilities) -> Result<(), MissingCpuFeature> {
        if host.spec_supports(self) {
            Ok(())
        } else {
            Err(MissingCpuFeature(self))
        }
    }

    /// Every feature tag, each once.
    pub fn all() -> (tags: [CpuFeature; 4])
        ensures
            forall|feature: CpuFeature| tags@.contains(feature),
            tags@.no_duplicates(),
    {
        let tags = [CpuFeature::Sse3, CpuFeature::Avx, CpuFeature::Fma, CpuFeature::Neon];
        proof {
            assert(tags@[0] == CpuFeature::Sse3);
            assert(tags@[1] == CpuFeature::Avx);
            assert(tags@[2] == CpuFeature::Fma);
            assert(tags@[3] == CpuFeature::Neon);
        }
        tags
    }

    /// Whether the host has the feature.
    pub open spec fn spec_is_detected(&self, host: &HostCapabilities) -> bool {
        host.spec_supports(*self)
    }

    /// Test if the given CPU feature is detected.
    #[verifier::when_used_as_spec(spec_is_detected)]
    pub fn is_detected(&self, host: &HostCapabilities) -> (detected: bool)
        ensures
            detected == self.spec_is_detected(host),
    {
        host.supports(*self)
    }

    /// The stable, lower-case name of the feature.
    pub fn name(&self) -> (name: &'static str)
        ensures
            name@ == self.spec_name(),
    {
        match self {
            CpuFeature::Sse3 => "sse3",
            CpuFeature::Avx => "avx",
            CpuFeature::Fma => "fma",
            CpuFeature::Neon => "neon",
        }
    }

    /// The name of the feature as an owned string.
    pub fn to_string(&self) -> (text: String)
        ensures
            text@ == self.spec_name(),
    {
        String::from_str(self.name())
    }

    /// Guards a code path that needs this feature: succeeds exactly where
    /// the host has it, and otherwise returns the fault naming it.
    pub fn require(&self, host: &HostCapabilities) -> (outcome: Result<(), MissingCpuFeature>)
        ensures
            outcome == self.spec_require(*host),
    {
        if host.supports(*self) {
            Ok(())
        } else {
            Err(MissingCpuFeature(*self))
        }
    }
}

impl MissingCpuFeature {
    /// The feature that was required and not found.
    pub open spec fn spec_feature(&self) -> CpuFeature {
        self.0
    }

    /// The text of the fault.
    pub open spec fn spec_message(self) -> Seq<char> {
        "Missing CPU feature `"@ + self.0.spec_name() + "`"@
    }

    /// The feature that was required and not found.
    #[verifier::when_used_as_spec(spec_feature)]
    pub fn feature(&self) -> (feature: CpuFeature)
        ensures
            feature == self.spec_feature(),
    {
        self.0
    }

    /// Renders the fault for logs and error output.
    pub fn to_string(&self) -> (text: String)
        ensures
            text@ == self.spec_message(),
    {
        let mut text = String::from_str("Missing CPU feature `");
        text.append(self.0.name());
        text.append("`");
        text
    }
}

/// Tells whether `index` is the first position of `required` whose feature
/// the host lacks.
pub open spec fn first_missing_at(
    required: Seq<CpuFeature>,
    host: HostCapabilities,
    index: int,
) -> bool {
    &&& 0 <= index < required.len()
    &&& !host.spec_supports(required[index])
    &&& forall|earlier: int| 0 <= earlier < index ==> host.spec_supports(#[trigger] required[earlier])
}

/// Tells whether the host has every feature in `required`.
pub open spec fn supports_all(required: Seq<CpuFeature>, host: HostCapabilities) -> bool {
    forall|index: int| 0 <= index < required.len() ==> host.spec_supports(#[trigger] required[index])
}

/// Checks the features that a kernel needs against the host, in the order
/// given, and reports the first one that is missing.
///
/// Returns `None` exactly where the host has all of them, so a kernel that is
/// entered after `None` never runs an instruction the host lacks.
pub fn required_capability_missing(
    required: &Vec<CpuFeature>,
    host: &HostCapabilities,
) -> (fault: Option<MissingCpuFeature>)
    ensures
        fault is None <==> supports_all(required@, *host),
        fault matches Some(missing) ==> exists|index: int|
            first_missing_at(required@, *host, index) && #[trigger] required@[index] == missing.0,
{
    let mut index: usize = 0;
    while index < required.len()
        invariant
            index <= required.len(),
            forall|earlier: int| 0 <= earlier < index ==> host.spec_supports(#[trigger] required@[earlier]),
        decreases required.len() - index,
    {
        let feature = required[index];
        if !host.supports(feature) {
            assert(first_missing_at(required@, *host, index as int));
            return Some(MissingCpuFeature(feature));
        }
        index = index + 1;
    }
    None
}

/// A feature that the host lacks is reported as not detected, every
/// request to run a path that needs it is refused with the fault naming that
/// feature and no other, and no list of requirements that holds it passes.
pub proof fn law_missing_feature_is_refused(feature: CpuFeature, host: HostCapabilities)
    requires
        !host.spec_supports(feature),
    ensures
        !feature.spec_is_detected(&host),
        feature.spec_require(host) == Err::<(), MissingCpuFeature>(MissingCpuFeature(feature)),
        forall|required: Seq<CpuFeature>|
            required.contains(feature) ==> !supports_all(required, host),
        forall|required: Seq<CpuFeature>|
            required.len() > 0 && required[0] == feature ==> first_missing_at(required, host, 0),
{
}

/// A feature that the host has is never the subject of a fault.
pub proof fn law_present_feature_is_granted(feature: CpuFeature, host: HostCapabilities)
    requires
        host.spec_supports(feature),
    ensures
        feature.spec_require(host) == Ok::<(), MissingCpuFeature>(()),
        forall|required: Seq<CpuFeature>, index: int|
            first_missing_at(required, host, index) ==> required[index] != feature,
{
}

} // verus!
