//! The resource descriptor: the identity that every span and metric of the
//! process carries, merged from what three detectors report.
//!
//! Conflict policy: a later source overrides an earlier one. The sources
//! are merged in the order SDK-provided, environment, telemetry library, so
//! the telemetry library's own attributes always stand as it reports them.

use opentelemetry_sdk::resource::EnvResourceDetector;
use opentelemetry_sdk::resource::ResourceDetector;
use opentelemetry_sdk::resource::SdkProvidedResourceDetector;
use opentelemetry_sdk::resource::TelemetryResourceDetector;
use opentelemetry_sdk::Resource;
use std::time::Duration;
use vstd::prelude::*;

verus! {

/// The SDK's resource: an immutable set of attributes.
#[verifier::external_type_specification]
#[verifier::external_body]
pub struct ExResource(opentelemetry_sdk::Resource);

/// The attributes a resource holds: each key's text mapped to the text its
/// value displays as.
pub uninterp spec fn resource_attributes(r: Resource) -> Map<Seq<char>, Seq<char>>;

/// An attribute set as a mathematical value.
pub type Attributes = Map<Seq<char>, Seq<char>>;

/// The merge of two attribute sets: every key of either, and for a key of
/// both the value of the later set.
pub open spec fn merged(earlier: Attributes, later: Attributes) -> Attributes {
    earlier.union_prefer_right(later)
}

/// The key under which a resource names its service.
pub open spec fn service_name_key() -> Seq<char> {
    "service.name"@
}

/// The key under which the telemetry library names itself.
pub open spec fn sdk_name_key() -> Seq<char> {
    "telemetry.sdk.name"@
}

/// The key under which the telemetry library names its language.
pub open spec fn sdk_language_key() -> Seq<char> {
    "telemetry.sdk.language"@
}

/// The key under which the telemetry library gives its version.
pub open spec fn sdk_version_key() -> Seq<char> {
    "telemetry.sdk.version"@
}

/// What the telemetry library always reports of itself.
pub open spec fn names_telemetry_library(attributes: Attributes) -> bool {
    &&& attributes.dom().contains(sdk_name_key())
    &&& attributes[sdk_name_key()] == "opentelemetry"@
    &&& attributes.dom().contains(sdk_language_key())
    &&& attributes[sdk_language_key()] == "rust"@
    &&& attributes.dom().contains(sdk_version_key())
}

/// Calls `SdkProvidedResourceDetector::detect`. The service name it reports
/// comes from the environment, with a fixed fallback; what is claimed is
/// only that it reports one.
#[verifier::external_body]
fn detect_sdk_provided() -> (detected: Resource)
    ensures
        resource_attributes(detected).dom().contains(service_name_key()),
{
    SdkProvidedResourceDetector.detect(Duration::from_secs(0))
}

/// Calls `EnvResourceDetector::detect`. It reports whatever the environment
/// lists, possibly nothing; nothing is claimed of it.
#[verifier::external_body]
fn detect_environment() -> Resource {
    EnvResourceDetector::new().detect(Duration::from_secs(0))
}

/// Calls `TelemetryResourceDetector::detect`. It reports the library's name
/// (`opentelemetry`), its language (`rust`) and its version.
#[verifier::external_body]
fn detect_telemetry_library() -> (detected: Resource)
    ensures
        names_telemetry_library(resource_attributes(detected)),
{
    TelemetryResourceDetector.detect(Duration::from_secs(0))
}

/// Calls `Resource::merge`: the result holds every attribute of either
/// resource, and for a key of both the value of `later`.
#[verifier::external_body]
fn resource_merge(earlier: &Resource, later: &Resource) -> (both: Resource)
    ensures
        resource_attributes(both) == merged(
            resource_attributes(*earlier),
            resource_attributes(*later),
        ),
{
    earlier.merge(later)
}

/// Merges what the three detectors reported, in the fixed order
/// SDK-provided, environment, telemetry library.
pub fn merge_detected(
    sdk_provided: &Resource,
    environment: &Resource,
    telemetry: &Resource,
) -> (resource: Resource)
    ensures
        resource_attributes(resource) == merged(
            merged(resource_attributes(*sdk_provided), resource_attributes(*environment)),
            resource_attributes(*telemetry),
        ),
{
    let first = resource_merge(sdk_provided, environment);
    resource_merge(&first, telemetry)
}

/// Builds the process's resource from the three detectors. Whatever the
/// environment holds, the result names a service and names the telemetry
/// library as the library itself reports it.
pub fn create_resource() -> (resource: Resource)
    ensures
        resource_attributes(resource).dom().contains(service_name_key()),
        names_telemetry_library(resource_attributes(resource)),
{
    let sdk_provided_resource = detect_sdk_provided();
    let env_resource = detect_environment();
    let telemetry_resource = detect_telemetry_library();
    merge_detected(&sdk_provided_resource, &env_resource, &telemetry_resource)
}

/// A merge holds exactly the keys of its two sources; a key of the later
/// source has the later source's value, any other key keeps the earlier
/// source's value.
pub proof fn lemma_merge_later_wins(earlier: Attributes, later: Attributes, key: Seq<char>)
    ensures
        merged(earlier, later).dom() == earlier.dom().union(later.dom()),
        later.dom().contains(key) ==> merged(earlier, later)[key] == later[key],
        !later.dom().contains(key) && earlier.dom().contains(key) ==> merged(earlier, later)[key]
            == earlier[key],
{
}

/// Sources that share no key can be merged in either order.
pub proof fn lemma_merge_disjoint_commutes(a: Attributes, b: Attributes)
    requires
        a.dom().disjoint(b.dom()),
    ensures
        merged(a, b) == merged(b, a),
{
    assert(merged(a, b) =~= merged(b, a));
}

/// Merging is associative: detectors applied one after another give what
/// merging their outputs in any grouping gives.
pub proof fn lemma_merge_associative(a: Attributes, b: Attributes, c: Attributes)
    ensures
        merged(merged(a, b), c) == merged(a, merged(b, c)),
{
    assert(merged(merged(a, b), c) =~= merged(a, merged(b, c)));
}

/// A source that reports nothing changes nothing, on either side.
pub proof fn lemma_merge_empty(a: Attributes)
    ensures
        merged(a, Map::empty()) == a,
        merged(Map::empty(), a) == a,
{
    assert(merged(a, Map::empty()) =~= a);
    assert(merged(Map::empty(), a) =~= a);
}

} // verus!
