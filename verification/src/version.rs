//! Known Effekseer format versions.

use vstd::prelude::*;

use crate::error::Error;

verus! {

/// The oldest effect version this library reads (Effekseer 1.5).
pub const VERSION_15: i32 = 1500;
/// Effekseer 1.6.
pub const VERSION_16: i32 = 1600;
/// Effekseer 1.6 alpha 8: curves and procedural models.
pub const VERSION_16_ALPHA8: i32 = 1607;
/// Effekseer 1.6 alpha 9: extended procedural models.
pub const VERSION_16_ALPHA9: i32 = 1608;
/// Effekseer 1.7 alpha 3: level-of-detail distances.
pub const VERSION_17_ALPHA3: i32 = 1702;
/// The newest effect version this library reads (Effekseer 1.8).
pub const VERSION_LATEST: i32 = 1810;

/// Material file version of Effekseer 1.5.
pub const MATERIAL_VERSION_15: i32 = 3;
/// Material file version of Effekseer 1.6.
pub const MATERIAL_VERSION_16: i32 = 1610;
/// Material file version of Effekseer 1.7 alpha 2.
pub const MATERIAL_VERSION_17_ALPHA2: i32 = 1700;
/// Material file version of Effekseer 1.7 alpha 4: custom data descriptions.
pub const MATERIAL_VERSION_17_ALPHA4: i32 = 1703;
/// Material file version of Effekseer 1.7.
pub const MATERIAL_VERSION_17: i32 = 1710;
/// Material file version of Effekseer 1.8.
pub const MATERIAL_VERSION_18: i32 = 1800;

/// Whether an effect version is one this library reads.
pub open spec fn is_supported_version(version: i32) -> bool {
    VERSION_15 <= version && version <= VERSION_LATEST
}

/// Accept a supported effect version; reject any other with `UnsupportedVersion`.
pub fn validate_version(version: i32) -> (res: Result<(), Error>)
    ensures
        res == (if is_supported_version(version) {
            Ok::<(), Error>(())
        } else {
            Err(Error::UnsupportedVersion { version })
        }),
{
    if VERSION_15 <= version && version <= VERSION_LATEST {
        Ok(())
    } else {
        Err(Error::UnsupportedVersion { version })
    }
}

/// Whether a material file version is one this library reads.
pub open spec fn is_supported_material_version(version: i32) -> bool {
    version == MATERIAL_VERSION_15 || version == MATERIAL_VERSION_16 || version
        == MATERIAL_VERSION_17_ALPHA2 || version == MATERIAL_VERSION_17_ALPHA4 || version
        == MATERIAL_VERSION_17 || version == MATERIAL_VERSION_18
}

} // verus!
