//! Value types of the interpreter that the events carry through unchanged.

use vstd::prelude::*;
use evm_gasometer::tracing::Event as MeteringEvent;
use evm_gasometer::Snapshot as LedgerSnapshot;
use evm_runtime::Context as RuntimeContext;
use evm_runtime::CreateScheme as RuntimeCreateScheme;
use evm_runtime::Transfer as RuntimeTransfer;

verus! {

// Opaque value types: carried through, never looked into.

#[verifier::external_type_specification]
#[verifier::external_body]
pub struct ExH160(ethereum_types::H160);

#[verifier::external_type_specification]
#[verifier::external_body]
pub struct ExH256(ethereum_types::H256);

#[verifier::external_type_specification]
#[verifier::external_body]
pub struct ExU256(ethereum_types::U256);

// Records whose fields the conversions read.
#[verifier::external_type_specification]
pub struct ExContext(RuntimeContext);

#[verifier::external_type_specification]
#[verifier::external_body]
pub struct ExExitReason(evm_runtime::ExitReason);

#[verifier::external_type_specification]
pub struct ExTransfer(RuntimeTransfer);

#[verifier::external_type_specification]
pub struct ExCreateScheme(RuntimeCreateScheme);

#[verifier::external_type_specification]
pub struct ExGasSnapshot(LedgerSnapshot);

#[verifier::external_type_specification]
pub struct ExGasEvent(MeteringEvent);

/// Relies on fixed-hash's `Clone` of `H160`, which copies every byte: the copy equals the value cloned.
pub assume_specification[ <ethereum_types::H160 as Clone>::clone ](h: &ethereum_types::H160) -> (c: ethereum_types::H160)
    ensures
        c == *h,
;

/// Relies on fixed-hash's `Clone` of `H256`, which copies every byte: the copy equals the value cloned.
pub assume_specification[ <ethereum_types::H256 as Clone>::clone ](h: &ethereum_types::H256) -> (c: ethereum_types::H256)
    ensures
        c == *h,
;

/// Relies on uint's derived `Clone` of `U256`, which copies every limb: the copy equals the value cloned.
pub assume_specification[ <ethereum_types::U256 as Clone>::clone ](u: &ethereum_types::U256) -> (c: ethereum_types::U256)
    ensures
        c == *u,
;

} // verus!
