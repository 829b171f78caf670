//! Algorithm-aware provider selection.
//!
//! Selection is a pure function of the algorithm and the enabled-backend
//! flags: a key-encapsulation algorithm prefers the cloud HSM, then the
//! hardware token, then the key vault; a signature algorithm prefers the
//! hardware token; the hash-based family prefers the key vault; anything
//! else falls back to the default ordering.  When no ranked backend is
//! enabled the last entry of the ranking is returned deterministically, and
//! the manager then fails with `ProviderUnavailable`.

use vstd::prelude::*;

use crate::hsm::HsmProviderType;
use crate::hsm::PqcAlgorithm;

verus! {

/// Whether `provider` is in the enabled set described by the three flags.
pub open spec fn provider_enabled(
    aws_enabled: bool,
    azure_enabled: bool,
    pkcs11_enabled: bool,
    provider: HsmProviderType,
) -> bool {
    match provider {
        HsmProviderType::AwsCloudHsm => aws_enabled,
        HsmProviderType::AzureKeyVault => azure_enabled,
        HsmProviderType::Pkcs11Generic => pkcs11_enabled,
        _ => false,
    }
}

/// The fixed per-algorithm ranking over the enabled set.
pub open spec fn select_provider_spec(
    aws_enabled: bool,
    azure_enabled: bool,
    pkcs11_enabled: bool,
    algorithm: PqcAlgorithm,
) -> HsmProviderType {
    match algorithm {
        PqcAlgorithm::Kyber1024 => if aws_enabled {
            HsmProviderType::AwsCloudHsm
        } else if pkcs11_enabled {
            HsmProviderType::Pkcs11Generic
        } else {
            HsmProviderType::AzureKeyVault
        },
        PqcAlgorithm::Dilithium3 => if pkcs11_enabled {
            HsmProviderType::Pkcs11Generic
        } else if aws_enabled {
            HsmProviderType::AwsCloudHsm
        } else {
            HsmProviderType::AzureKeyVault
        },
        PqcAlgorithm::SphincsPlusSha256128s => if azure_enabled {
            HsmProviderType::AzureKeyVault
        } else if pkcs11_enabled {
            HsmProviderType::Pkcs11Generic
        } else {
            HsmProviderType::AwsCloudHsm
        },
        _ => if aws_enabled {
            HsmProviderType::AwsCloudHsm
        } else if azure_enabled {
            HsmProviderType::AzureKeyVault
        } else {
            HsmProviderType::Pkcs11Generic
        },
    }
}

/// Executable selection; total over every algorithm and flag combination.
pub fn select_provider(
    aws_enabled: bool,
    azure_enabled: bool,
    pkcs11_enabled: bool,
    algorithm: &PqcAlgorithm,
) -> (r: HsmProviderType)
    ensures
        r == select_provider_spec(aws_enabled, azure_enabled, pkcs11_enabled, *algorithm),
{
    match algorithm {
        PqcAlgorithm::Kyber1024 => {
            if aws_enabled {
                HsmProviderType::AwsCloudHsm
            } else if pkcs11_enabled {
                HsmProviderType::Pkcs11Generic
            } else {
                HsmProviderType::AzureKeyVault
            }
        },
        PqcAlgorithm::Dilithium3 => {
            if pkcs11_enabled {
                HsmProviderType::Pkcs11Generic
            } else if aws_enabled {
                HsmProviderType::AwsCloudHsm
            } else {
                HsmProviderType::AzureKeyVault
            }
        },
        PqcAlgorithm::SphincsPlusSha256128s => {
            if azure_enabled {
                HsmProviderType::AzureKeyVault
            } else if pkcs11_enabled {
                HsmProviderType::Pkcs11Generic
            } else {
                HsmProviderType::AwsCloudHsm
            }
        },
        _ => {
            if aws_enabled {
                HsmProviderType::AwsCloudHsm
            } else if azure_enabled {
                HsmProviderType::AzureKeyVault
            } else {
                HsmProviderType::Pkcs11Generic
            }
        },
    }
}

/// Selection law: for every algorithm, as long as any backend at all is
/// enabled, the ranked selection lands on an enabled backend; each ranking
/// mentions all three backends, so an enabled one is always reached.  With
/// nothing enabled the result is still a deterministic, total fallback.
pub proof fn lemma_selection_respects_enabled(
    aws_enabled: bool,
    azure_enabled: bool,
    pkcs11_enabled: bool,
    algorithm: PqcAlgorithm,
)
    ensures
        aws_enabled || azure_enabled || pkcs11_enabled ==> provider_enabled(
            aws_enabled,
            azure_enabled,
            pkcs11_enabled,
            select_provider_spec(aws_enabled, azure_enabled, pkcs11_enabled, algorithm),
        ),
{
}

} // verus!
