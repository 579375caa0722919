//! Negotiating an adapter and a device.
//!
//! The two requests are asynchronous and are made by the caller. What is asked
//! for is decided here: the adapter by a power preference, the device by the
//! adapter's full feature set minus what the platform is known to mis-report.
//! `DeviceNegotiation` keeps track of which answer is awaited and turns a
//! missing adapter or a rejected request into the error of that stage.

use vstd::prelude::*;
use crate::error::SurfaceError;
use crate::platform::Platform;

verus! {

/// Which adapter is preferred where several are compatible.
#[derive(Clone, Copy, Debug, PartialEq, Eq, Hash, Structural)]
pub enum PowerPreference {
    /// Power usage is not considered.
    NoPreference,
    LowPower,
    HighPerformance,
}

/// What the device's allocator is tuned for.
#[derive(Clone, Copy, Debug, PartialEq, Eq, Hash, Structural)]
pub enum MemoryHints {
    Performance,
    MemoryUsage,
}

/// A set of optional device features, as the two words of bits in which
/// `wgpu::Features` holds it: the native extensions and the WebGPU features.
#[derive(Clone, Copy, Debug, PartialEq, Eq, Hash, Structural)]
pub struct FeatureSet {
    pub native: u64,
    pub web: u64,
}

impl FeatureSet {
    /// The set without the features of `other`.
    pub open spec fn without(self, other: FeatureSet) -> FeatureSet {
        FeatureSet { native: self.native & !other.native, web: self.web & !other.web }
    }

    /// The set without the feature called `name`, if there is such a feature.
    pub open spec fn without_named(self, name: Seq<char>) -> FeatureSet {
        match feature_by_name(name) {
            Some(feature) => self.without(feature),
            None => self,
        }
    }

    /// Whether every feature of `self` is one of `other`.
    pub open spec fn is_subset_of(self, other: FeatureSet) -> bool {
        self.native & other.native == self.native && self.web & other.web == self.web
    }

    /// Whether `self` and `other` share no feature.
    pub open spec fn is_disjoint_from(self, other: FeatureSet) -> bool {
        self.native & other.native == 0 && self.web & other.web == 0
    }

    /// Removes the features of `other`. What is left is a subset of `self`
    /// and shares nothing with `other`.
    pub fn remove(self, other: FeatureSet) -> (r: FeatureSet)
        ensures
            r == self.without(other),
            r.is_subset_of(self),
            r.is_disjoint_from(other),
    {
        let r = features_without(self, other);
        proof {
            let (a, b) = (self.native, other.native);
            let (c, d) = (self.web, other.web);
            assert((a & !b) & a == a & !b) by (bit_vector);
            assert((a & !b) & b == 0) by (bit_vector);
            assert((c & !d) & c == c & !d) by (bit_vector);
            assert((c & !d) & d == 0) by (bit_vector);
        }
        r
    }

    /// Removes the feature called `name`; a name that `wgpu` does not know
    /// removes nothing.
    pub fn remove_named(self, name: &str) -> (r: FeatureSet)
        ensures
            r == self.without_named(name@),
            r.is_subset_of(self),
    {
        match feature_named(name) {
            Some(feature) => self.remove(feature),
            None => {
                proof {
                    let (a, c) = (self.native, self.web);
                    assert(a & a == a) by (bit_vector);
                    assert(c & c == c) by (bit_vector);
                }
                self
            },
        }
    }
}

/// The features that `wgpu::Features::from_name` returns for `name`, as
/// their two words of bits; `None` where it knows no flag of that name.
pub uninterp spec fn feature_by_name(name: Seq<char>) -> Option<FeatureSet>;

/// `wgpu::Features::from_name`: the flag whose name is `name`, or `None`.
/// The result is named `feature_by_name`; the flag is handed back as the
/// two words that `wgpu::Features::bits` gives for it.
#[verifier::external_body]
fn feature_named(name: &str) -> (r: Option<FeatureSet>)
    ensures
        r == feature_by_name(name@),
{
    match wgpu::Features::from_name(name) {
        Some(flag) => {
            let bits = flag.bits();
            Some(FeatureSet { native: bits.0[0], web: bits.0[1] })
        },
        None => None,
    }
}

/// `wgpu::Features::difference`: in each of the two words, the bits of
/// `features` that are not bits of `excluded`. Both sets pass through
/// `from_bits_retain` and `bits`, which keep every bit.
#[verifier::external_body]
fn features_without(features: FeatureSet, excluded: FeatureSet) -> (r: FeatureSet)
    ensures
        r == features.without(excluded),
{
    let from = wgpu::Features::from_bits_retain(
        wgpu::wgt::FeatureBits([features.native, features.web]),
    );
    let other = wgpu::Features::from_bits_retain(
        wgpu::wgt::FeatureBits([excluded.native, excluded.web]),
    );
    let bits = from.difference(other).bits();
    FeatureSet { native: bits.0[0], web: bits.0[1] }
}

/// Whether `needle` occurs in `text` as a run of consecutive characters.
pub open spec fn occurs_in(needle: Seq<char>, text: Seq<char>) -> bool {
    exists|i: int|
        0 <= i && i + needle.len() <= text.len() && #[trigger] text.subrange(
            i,
            i + needle.len(),
        ) == needle
}

/// `str::contains` with a string as the pattern: whether the pattern
/// matches a sub-slice of the text.
#[verifier::external_body]
fn text_contains(text: &str, needle: &str) -> (r: bool)
    ensures
        r == occurs_in(needle@, text@),
{
    text.contains(needle)
}

/// What an adapter reports of itself.
#[derive(Clone, Debug, PartialEq, Eq)]
pub struct AdapterReport {
    /// The adapter's name, as its driver gives it.
    pub name: String,
    /// Every optional feature the adapter says it supports.
    pub features: FeatureSet,
}

/// What is asked of the instance when an adapter is requested. The adapter
/// must always be compatible with the surface in use.
#[derive(Clone, Copy, Debug, PartialEq, Eq, Structural)]
pub struct AdapterRequest {
    pub power_preference: PowerPreference,
    pub force_fallback_adapter: bool,
}

/// What is asked of the adapter when a device is requested. The limits
/// asked for are always the adapter's own.
#[derive(Clone, Copy, Debug, PartialEq, Eq, Structural)]
pub struct DeviceRequest {
    pub required_features: FeatureSet,
    pub memory_hints: MemoryHints,
}

/// The features requested of an adapter with this name and these features
/// on `platform`: all of them, but for the ray tracing features of an NVIDIA
/// adapter on a Unix-like host and the line and storage-write features on a
/// mobile host.
pub open spec fn required_features_spec(
    platform: Platform,
    adapter_name: Seq<char>,
    features: FeatureSet,
) -> FeatureSet {
    let profile = platform.profile_spec();
    let kept = if profile.unix_family && occurs_in("NVIDIA"@, adapter_name) {
        features.without_named("EXPERIMENTAL_RAY_TRACING_ACCELERATION_STRUCTURE"@).without_named(
            "EXPERIMENTAL_RAY_QUERY"@,
        )
    } else {
        features
    };
    if profile.mobile {
        kept.without_named("POLYGON_MODE_LINE"@).without_named("VERTEX_WRITABLE_STORAGE"@)
    } else {
        kept
    }
}

/// The request for an adapter: the given preference, or the adapter of
/// highest performance where none is given; never the fallback adapter.
pub open spec fn adapter_request_spec(preference: Option<PowerPreference>) -> AdapterRequest {
    AdapterRequest {
        power_preference: match preference {
            Some(p) => p,
            None => PowerPreference::HighPerformance,
        },
        force_fallback_adapter: false,
    }
}

/// The request for a device of an adapter on `platform`.
pub open spec fn device_request_spec(
    platform: Platform,
    adapter_name: Seq<char>,
    features: FeatureSet,
) -> DeviceRequest {
    DeviceRequest {
        required_features: required_features_spec(platform, adapter_name, features),
        memory_hints: MemoryHints::Performance,
    }
}

/// Computes the features to request. Nothing is ever requested that the
/// adapter does not report.
pub fn required_features(platform: Platform, adapter_name: &str, features: FeatureSet) -> (r:
    FeatureSet)
    ensures
        r == required_features_spec(platform, adapter_name@, features),
        r.is_subset_of(features),
{
    let profile = platform.profile();
    let mut kept = features;
    proof {
        let (a, c) = (features.native, features.web);
        assert(a & a == a) by (bit_vector);
        assert(c & c == c) by (bit_vector);
    }
    if profile.unix_family && text_contains(adapter_name, "NVIDIA") {
        let first = kept.remove_named("EXPERIMENTAL_RAY_TRACING_ACCELERATION_STRUCTURE");
        let second = first.remove_named("EXPERIMENTAL_RAY_QUERY");
        proof {
            lemma_subset_transitive(second, first, kept);
        }
        kept = second;
    }
    if profile.mobile {
        let first = kept.remove_named("POLYGON_MODE_LINE");
        let second = first.remove_named("VERTEX_WRITABLE_STORAGE");
        proof {
            lemma_subset_transitive(second, first, kept);
            lemma_subset_transitive(second, kept, features);
        }
        kept = second;
    }
    kept
}

/// A subset of a subset is a subset.
pub proof fn lemma_subset_transitive(a: FeatureSet, b: FeatureSet, c: FeatureSet)
    requires
        a.is_subset_of(b),
        b.is_subset_of(c),
    ensures
        a.is_subset_of(c),
{
    let (x, y, z) = (a.native, b.native, c.native);
    assert(x & y == x && y & z == y ==> x & z == x) by (bit_vector);
    let (u, v, w) = (a.web, b.web, c.web);
    assert(u & v == u && v & w == v ==> u & w == u) by (bit_vector);
}

/// Builds the request for an adapter from the preference the environment
/// gives, if it gives one.
pub fn adapter_request(preference: Option<PowerPreference>) -> (r: AdapterRequest)
    ensures
        r == adapter_request_spec(preference),
{
    let power_preference = match preference {
        Some(p) => p,
        None => PowerPreference::HighPerformance,
    };
    AdapterRequest { power_preference, force_fallback_adapter: false }
}

/// Builds the request for a device of `adapter` on `platform`.
pub fn device_request(platform: Platform, adapter: &AdapterReport) -> (r: DeviceRequest)
    ensures
        r == device_request_spec(platform, adapter.name@, adapter.features),
        r.required_features.is_subset_of(adapter.features),
{
    DeviceRequest {
        required_features: required_features(platform, adapter.name.as_str(), adapter.features),
        memory_hints: MemoryHints::Performance,
    }
}

/// Which answer a negotiation waits for, or how it ended.
#[derive(Clone, Copy, Debug, PartialEq, Eq, Hash, Structural)]
pub enum NegotiationPhase {
    /// An adapter has been requested.
    SelectingAdapter,
    /// A device has been requested of the adapter.
    CreatingDevice,
    /// Adapter, device and queue are there.
    Ready,
    /// The negotiation failed for good.
    Failed,
}

/// The negotiation of one adapter and one device.
#[derive(Clone, Copy, Debug, PartialEq, Eq, Structural)]
pub struct DeviceNegotiation {
    pub platform: Platform,
    pub phase: NegotiationPhase,
}

impl DeviceNegotiation {
    /// Starts a negotiation on `platform` and says which adapter to request.
    pub fn begin(platform: Platform, preference: Option<PowerPreference>) -> (r: (
        DeviceNegotiation,
        AdapterRequest,
    ))
        ensures
            r.0 == (DeviceNegotiation { platform, phase: NegotiationPhase::SelectingAdapter }),
            r.1 == adapter_request_spec(preference),
    {
        (
            DeviceNegotiation { platform, phase: NegotiationPhase::SelectingAdapter },
            adapter_request(preference),
        )
    }

    /// Takes the answer to the request for an adapter. With an adapter the
    /// negotiation goes on to the device and says what to request of it;
    /// without one it fails at adapter selection.
    pub fn adapter_answered(&mut self, adapter: Option<&AdapterReport>) -> (r: Result<
        DeviceRequest,
        SurfaceError,
    >)
        requires
            old(self).phase == NegotiationPhase::SelectingAdapter,
        ensures
            final(self).platform == old(self).platform,
            match adapter {
                Some(report) => {
                    &&& final(self).phase == NegotiationPhase::CreatingDevice
                    &&& r == Ok::<DeviceRequest, SurfaceError>(
                        device_request_spec(old(self).platform, report.name@, report.features),
                    )
                    &&& r->Ok_0.required_features.is_subset_of(report.features)
                },
                None => {
                    &&& final(self).phase == NegotiationPhase::Failed
                    &&& r == Err::<DeviceRequest, SurfaceError>(SurfaceError::NoCompatibleAdapter)
                },
            },
    {
        match adapter {
            Some(report) => {
                self.phase = NegotiationPhase::CreatingDevice;
                Ok(device_request(self.platform, report))
            },
            None => {
                self.phase = NegotiationPhase::Failed;
                Err(SurfaceError::NoCompatibleAdapter)
            },
        }
    }

    /// Takes the answer to the request for a device. A granted request ends
    /// the negotiation; a rejected one fails it at device creation.
    pub fn device_answered(&mut self, granted: bool) -> (r: Result<(), SurfaceError>)
        requires
            old(self).phase == NegotiationPhase::CreatingDevice,
        ensures
            final(self).platform == old(self).platform,
            granted ==> final(self).phase == NegotiationPhase::Ready && r == Ok::<(), SurfaceError>(
                (),
            ),
            !granted ==> final(self).phase == NegotiationPhase::Failed && r == Err::<
                (),
                SurfaceError,
            >(SurfaceError::DeviceRequestRejected),
    {
        if granted {
            self.phase = NegotiationPhase::Ready;
            Ok(())
        } else {
            self.phase = NegotiationPhase::Failed;
            Err(SurfaceError::DeviceRequestRejected)
        }
    }
}

} // verus!
