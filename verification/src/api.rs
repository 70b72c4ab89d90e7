//! Per-facility platform state and the callback-facing operations the TPM
//! core invokes while processing a command.

pub mod cancel;
pub mod clock;
pub mod entropy;
pub mod locality_plat;
pub mod nvmem;
pub mod platform_act;
pub mod power_plat;
pub mod pp_plat;
pub mod unique;
