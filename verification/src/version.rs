//! The runtime's version record.

use crate::runtime_apis::{api_versions_view, runtime_api_versions, runtime_api_versions_spec, ApiVersion};
use vstd::prelude::*;

verus! {

/// Identifies a runtime build to the node that executes it.
#[derive(Clone, Debug, PartialEq, Eq)]
pub struct RuntimeVersion {
    /// Name of the runtime specification.
    pub spec_name: &'static str,
    /// Name of this implementation of the specification.
    pub impl_name: &'static str,
    /// Version of the block authoring logic.
    pub authoring_version: u32,
    /// Version of the runtime specification.
    pub spec_version: u32,
    /// Version of this implementation.
    pub impl_version: u32,
    /// The runtime APIs implemented, each with its identifier and version.
    pub apis: Vec<ApiVersion>,
    /// Version of the transaction format.
    pub transaction_version: u32,
    /// Version of the system-level behaviour (state and extrinsic roots).
    pub system_version: u8,
}

/// Name shared by the specification and the implementation.
pub open spec fn runtime_name() -> Seq<char> {
    "acuity-runtime"@
}

/// Whether `v` is this runtime's version: named `acuity-runtime`, at version 1
/// in every numbered field, and listing the runtime's APIs.
pub open spec fn is_runtime_version(v: RuntimeVersion) -> bool {
    &&& v.spec_name@ == runtime_name()
    &&& v.impl_name@ == runtime_name()
    &&& v.authoring_version == 1
    &&& v.spec_version == 1
    &&& v.impl_version == 1
    &&& api_versions_view(v.apis@) == runtime_api_versions_spec()
    &&& v.transaction_version == 1
    &&& v.system_version == 1
}

/// The version of this runtime.
pub fn runtime_version() -> (v: RuntimeVersion)
    ensures
        is_runtime_version(v),
{
    RuntimeVersion {
        spec_name: "acuity-runtime",
        impl_name: "acuity-runtime",
        authoring_version: 1,
        spec_version: 1,
        impl_version: 1,
        apis: runtime_api_versions(),
        transaction_version: 1,
        system_version: 1,
    }
}

/// The version of the native build of the runtime.
#[derive(Clone, Debug, PartialEq, Eq)]
pub struct NativeVersion {
    /// The runtime version the native build implements.
    pub runtime_version: RuntimeVersion,
    /// Authoring versions, besides its own, that the native build can author with.
    pub can_author_with: Vec<u32>,
}

/// The native version: this runtime's version, authoring with no other version.
pub fn native_version() -> (n: NativeVersion)
    ensures
        is_runtime_version(n.runtime_version),
        n.can_author_with@.len() == 0,
{
    NativeVersion { runtime_version: runtime_version(), can_author_with: Vec::new() }
}

/// Any two values that both meet [`is_runtime_version`] are the same version:
/// the native build and the runtime agree on every field.
pub proof fn lemma_runtime_version_unique(a: RuntimeVersion, b: RuntimeVersion)
    requires
        is_runtime_version(a),
        is_runtime_version(b),
    ensures
        a.spec_name@ == b.spec_name@,
        a.impl_name@ == b.impl_name@,
        a.authoring_version == b.authoring_version,
        a.spec_version == b.spec_version,
        a.impl_version == b.impl_version,
        api_versions_view(a.apis@) == api_versions_view(b.apis@),
        a.transaction_version == b.transaction_version,
        a.system_version == b.system_version,
{
}

} // verus!
