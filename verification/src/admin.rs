//! Administration: creating and replacing the configuration singleton.

use vstd::prelude::*;

use crate::errors::CustomError;
use crate::events::ConfigUpdated;
use crate::events::Initialized;
use crate::ids::all_zero;
use crate::ids::bytes32_eq;
use crate::state::FEE_DENOMINATOR;
use crate::state::GlobalConfig;

verus! {

/// Create the configuration singleton. The caller becomes the owner, the
/// pause flag starts cleared and the reserved space starts zeroed. The
/// hosting ledger guarantees this runs at most once, by refusing to create
/// the singleton's record a second time.
pub fn initialize(signer: [u8; 32], platform_fee: u16, treasury: [u8; 32]) -> (r: Result<
    (GlobalConfig, Initialized),
    CustomError,
>)
    ensures
        r is Ok <==> platform_fee < FEE_DENOMINATOR,
        r matches Err(e) ==> e == CustomError::InvalidPlatformFee,
        r matches Ok((config, event)) ==> {
            &&& config.owner == signer
            &&& config.platform_fee == platform_fee
            &&& config.treasury == treasury
            &&& !config.paused
            &&& all_zero(config.reserved@)
            &&& config.wf()
            &&& event == (Initialized {
                owner: signer,
                platform_fee: platform_fee,
                treasury: treasury,
                paused: false,
            })
        },
{
    if !(platform_fee < 10000) {
        return Err(CustomError::InvalidPlatformFee);
    }
    let config = GlobalConfig {
        owner: signer,
        platform_fee: platform_fee,
        treasury: treasury,
        paused: false,
        reserved: [0u8; 128],
    };
    let event = Initialized { owner: signer, platform_fee: platform_fee, treasury: treasury, paused: false };
    Ok((config, event))
}

/// Replace all four configuration fields atomically. Only the stored owner
/// may call; a non-owner caller is rejected before anything is read further,
/// and on any rejection the configuration is returned unchanged by the
/// caller simply keeping its record.
pub fn update_config(
    config: &GlobalConfig,
    caller: [u8; 32],
    new_owner: [u8; 32],
    new_platform_fee: u16,
    new_treasury: [u8; 32],
    new_paused: bool,
) -> (r: Result<(GlobalConfig, ConfigUpdated), CustomError>)
    ensures
        caller@ != config.owner@ ==> r == Err::<(GlobalConfig, ConfigUpdated), CustomError>(
            CustomError::Unauthorized,
        ),
        caller@ == config.owner@ && new_platform_fee >= FEE_DENOMINATOR ==> r == Err::<
            (GlobalConfig, ConfigUpdated),
            CustomError,
        >(CustomError::InvalidPlatformFee),
        r is Ok <==> caller@ == config.owner@ && new_platform_fee < FEE_DENOMINATOR,
        r matches Ok((new_config, event)) ==> {
            &&& new_config.owner == new_owner
            &&& new_config.platform_fee == new_platform_fee
            &&& new_config.treasury == new_treasury
            &&& new_config.paused == new_paused
            &&& new_config.reserved == config.reserved
            &&& new_config.wf()
            &&& event == (ConfigUpdated {
                owner: new_owner,
                platform_fee: new_platform_fee,
                treasury: new_treasury,
                paused: new_paused,
            })
        },
{
    if !bytes32_eq(&caller, &config.owner) {
        return Err(CustomError::Unauthorized);
    }
    if !(new_platform_fee < 10000) {
        return Err(CustomError::InvalidPlatformFee);
    }
    let new_config = GlobalConfig {
        owner: new_owner,
        platform_fee: new_platform_fee,
        treasury: new_treasury,
        paused: new_paused,
        reserved: config.reserved,
    };
    let event = ConfigUpdated {
        owner: new_owner,
        platform_fee: new_platform_fee,
        treasury: new_treasury,
        paused: new_paused,
    };
    Ok((new_config, event))
}

} // verus!
