//! Provider selection: which of the remote service's advertised
//! cryptographic backends initialization binds to.
//!
//! Each advertised provider carries a permanent UUID. A build-time policy
//! picks exactly one provider from the advertised list: the fixed
//! hardware-token backend, the fixed software-token backend, or — under
//! the default policy — any backend other than the core software
//! fallback.

use vstd::prelude::*;

verus! {

/// UUID of the TPM-backed provider, the fixed hardware-token identifier.
pub const TPM_PROVIDER_UUID: u128 = 0x1e4954a4_ff21_46d3_ab0c_661eeb667e1d;

/// UUID of the PKCS#11-backed provider, the fixed software-token identifier.
pub const PKCS11_PROVIDER_UUID: u128 = 0x30e39502_eba6_4d60_a4af_c518b7f5e38f;

/// UUID of the core provider, the software fallback that the default
/// policy refuses to bind.
pub const CORE_PROVIDER_UUID: u128 = 0x47049873_2a43_4845_9d72_831eab668784;

/// What selection reads of one advertised provider: its one-byte wire
/// identifier and its UUID as the 128-bit big-endian value.
#[derive(Clone, Copy, Debug, PartialEq, Eq, Structural)]
pub struct ProviderEntry {
    /// The identifier used on the wire to address this provider.
    pub id: u8,
    /// The provider's permanent UUID.
    pub uuid: u128,
}

/// The build-time provider selection policy, resolved once and injected
/// into initialization.
#[derive(Clone, Copy, Debug, PartialEq, Eq, Structural)]
pub enum SelectionPolicy {
    /// Bind only the provider whose UUID is the fixed hardware-token identifier.
    HardwareToken,
    /// Bind only the provider whose UUID is the fixed software-token identifier.
    SoftwareToken,
    /// Bind any provider whose UUID is not the core software fallback.
    AnyExceptCore,
}

/// Whether a provider with the given UUID satisfies the policy.
pub open spec fn spec_policy_matches(policy: SelectionPolicy, uuid: u128) -> bool {
    match policy {
        SelectionPolicy::HardwareToken => uuid == TPM_PROVIDER_UUID,
        SelectionPolicy::SoftwareToken => uuid == PKCS11_PROVIDER_UUID,
        SelectionPolicy::AnyExceptCore => uuid != CORE_PROVIDER_UUID,
    }
}

/// The provider the policy selects: the first entry of the advertised
/// list that it accepts, if any.
pub open spec fn spec_select(policy: SelectionPolicy, providers: Seq<ProviderEntry>) -> Option<
    ProviderEntry,
>
    decreases providers.len(),
{
    if providers.len() == 0 {
        None
    } else if spec_policy_matches(policy, providers[0].uuid) {
        Some(providers[0])
    } else {
        spec_select(policy, providers.drop_first())
    }
}

/// Whether a provider with the given UUID satisfies the policy.
pub fn policy_matches(policy: SelectionPolicy, uuid: u128) -> (r: bool)
    ensures
        r == spec_policy_matches(policy, uuid),
{
    match policy {
        SelectionPolicy::HardwareToken => uuid == TPM_PROVIDER_UUID,
        SelectionPolicy::SoftwareToken => uuid == PKCS11_PROVIDER_UUID,
        SelectionPolicy::AnyExceptCore => uuid != CORE_PROVIDER_UUID,
    }
}

/// Select the first advertised provider that the policy accepts.
pub fn select_provider(policy: SelectionPolicy, providers: &Vec<ProviderEntry>) -> (r: Option<
    ProviderEntry,
>)
    ensures
        r == spec_select(policy, providers@),
{
    let mut i: usize = 0;
    proof {
        assert(providers@.skip(0) =~= providers@);
    }
    while i < providers.len()
        invariant
            i <= providers@.len(),
            spec_select(policy, providers@) == spec_select(policy, providers@.skip(i as int)),
        decreases providers@.len() - i,
    {
        let entry = providers[i];
        proof {
            assert(providers@.skip(i as int)[0] == entry);
        }
        if policy_matches(policy, entry.uuid) {
            return Some(entry);
        }
        proof {
            assert(providers@.skip(i as int).drop_first() =~= providers@.skip(i as int + 1));
        }
        i = i + 1;
    }
    proof {
        assert(providers@.skip(providers@.len() as int) =~= Seq::<ProviderEntry>::empty());
    }
    None
}

/// Selection is sound and complete for the policy: a selected provider
/// is one of the advertised entries and satisfies the policy — under the
/// hardware-token policy its UUID is the fixed hardware identifier, under
/// the software-token policy the fixed software identifier, under the
/// default policy anything but the core fallback — and nothing is
/// selected exactly when no advertised entry qualifies.
pub proof fn lemma_selection_respects_policy(policy: SelectionPolicy, providers: Seq<ProviderEntry>)
    ensures
        match spec_select(policy, providers) {
            Some(entry) => providers.contains(entry) && spec_policy_matches(policy, entry.uuid)
                && (policy == SelectionPolicy::HardwareToken ==> entry.uuid == TPM_PROVIDER_UUID)
                && (policy == SelectionPolicy::SoftwareToken ==> entry.uuid
                == PKCS11_PROVIDER_UUID) && (policy == SelectionPolicy::AnyExceptCore
                ==> entry.uuid != CORE_PROVIDER_UUID),
            None => forall|i: int|
                0 <= i < providers.len() ==> !spec_policy_matches(policy, providers[i].uuid),
        },
    decreases providers.len(),
{
    if providers.len() == 0 {
    } else if spec_policy_matches(policy, providers[0].uuid) {
        assert(providers[0] == providers[0]);
    } else {
        lemma_selection_respects_policy(policy, providers.drop_first());
        let rest = providers.drop_first();
        match spec_select(policy, rest) {
            Some(entry) => {
                let j = choose|j: int| 0 <= j < rest.len() && rest[j] == entry;
                assert(providers[j + 1] == entry);
            },
            None => {
                assert forall|i: int|
                    0 <= i < providers.len() implies !spec_policy_matches(
                    policy,
                    providers[i].uuid,
                ) by {
                    if i > 0 {
                        assert(rest[i - 1] == providers[i]);
                    }
                }
            },
        }
    }
}

} // verus!
