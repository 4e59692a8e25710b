//! Interpreter lifecycle events, in the borrowed form that the interpreter
//! builds on its hot path and in the owned form that crosses a boundary.

use vstd::prelude::*;
use ethereum_types::{H160, H256, U256};
use evm_runtime::Context as RuntimeContext;
use evm_runtime::CreateScheme as RuntimeCreateScheme;
use evm_runtime::ExitReason;
use evm_runtime::Transfer as RuntimeTransfer;

verus! {

/// Relies on the derived `Clone` of `ExitReason`: the copy equals the value cloned.
pub assume_specification[ <evm_runtime::ExitReason as Clone>::clone ](r: &ExitReason) -> (c: ExitReason)
    ensures
        c == *r,
;

/// A movement of the native asset that accompanies a call.
#[derive(Clone, Debug, PartialEq, Eq)]
pub struct Transfer {
    /// Source address.
    pub source: H160,
    /// Target address.
    pub target: H160,
    /// Transfer value.
    pub value: U256,
}

/// The owned transfer with the fields of the interpreter's transfer.
pub open spec fn transfer_of(i: RuntimeTransfer) -> Transfer {
    Transfer { source: i.source, target: i.target, value: i.value }
}

impl From<RuntimeTransfer> for Transfer {
    fn from(i: RuntimeTransfer) -> (r: Transfer)
        ensures
            r == transfer_of(i),
    {
        Transfer { source: i.source, target: i.target, value: i.value }
    }
}

impl vstd::std_specs::convert::FromSpecImpl<RuntimeTransfer> for Transfer {
    open spec fn obeys_from_spec() -> bool {
        true
    }

    open spec fn from_spec(i: RuntimeTransfer) -> Transfer {
        transfer_of(i)
    }
}

/// How the address of a new contract was derived.
#[derive(Clone, Copy, Eq, PartialEq, Debug)]
pub enum CreateScheme {
    /// Legacy create scheme of `CREATE`.
    Legacy {
        /// Caller of the create.
        caller: H160,
    },
    /// Create scheme of `CREATE2`.
    Create2 {
        /// Caller of the create.
        caller: H160,
        /// Code hash.
        code_hash: H256,
        /// Salt.
        salt: H256,
    },
    /// Create at a fixed location.
    Fixed(H160),
}

/// The owned scheme with the variant and fields of the interpreter's scheme.
pub open spec fn create_scheme_of(i: RuntimeCreateScheme) -> CreateScheme {
    match i {
        RuntimeCreateScheme::Legacy { caller } => CreateScheme::Legacy { caller },
        RuntimeCreateScheme::Create2 { caller, code_hash, salt } => CreateScheme::Create2 {
            caller,
            code_hash,
            salt,
        },
        RuntimeCreateScheme::Fixed(address) => CreateScheme::Fixed(address),
    }
}

impl From<RuntimeCreateScheme> for CreateScheme {
    fn from(i: RuntimeCreateScheme) -> (r: CreateScheme)
        ensures
            r == create_scheme_of(i),
    {
        match i {
            RuntimeCreateScheme::Legacy { caller } => CreateScheme::Legacy { caller },
            RuntimeCreateScheme::Create2 { caller, code_hash, salt } => CreateScheme::Create2 {
                caller,
                code_hash,
                salt,
            },
            RuntimeCreateScheme::Fixed(address) => CreateScheme::Fixed(address),
        }
    }
}

impl vstd::std_specs::convert::FromSpecImpl<RuntimeCreateScheme> for CreateScheme {
    open spec fn obeys_from_spec() -> bool {
        true
    }

    open spec fn from_spec(i: RuntimeCreateScheme) -> CreateScheme {
        create_scheme_of(i)
    }
}

/// The execution context of a call: the executing address, its caller and
/// the value the call appears to carry.
#[derive(Clone, Debug, PartialEq, Eq)]
pub struct Context {
    /// Execution address.
    pub address: H160,
    /// Caller of the EVM.
    pub caller: H160,
    /// Apparent value of the EVM.
    pub apparent_value: U256,
}

/// The owned context with the fields of the interpreter's context.
pub open spec fn context_of(i: RuntimeContext) -> Context {
    Context { address: i.address, caller: i.caller, apparent_value: i.apparent_value }
}

impl Context {
    /// An owned copy of the interpreter's context.
    pub fn from_runtime(i: &RuntimeContext) -> (r: Context)
        ensures
            r == context_of(*i),
    {
        Context { address: i.address, caller: i.caller, apparent_value: i.apparent_value }
    }
}

/// An owned copy of a byte buffer.
pub fn copy_bytes(s: &[u8]) -> (r: Vec<u8>)
    ensures
        r@ == s@,
{
    let mut r: Vec<u8> = Vec::with_capacity(s.len());
    let mut i: usize = 0;
    while i < s.len()
        invariant
            i <= s@.len(),
            r@ == s@.subrange(0, i as int),
        decreases s@.len() - i,
    {
        r.push(s[i]);
        i = i + 1;
    }
    assert(r@ =~= s@);
    r
}

/// An interpreter lifecycle event in owned form: byte buffers and the call
/// context are copies, so the event outlives the frame that emitted it.
#[derive(Debug, Clone, PartialEq, Eq)]
pub enum EvmEvent {
    Call {
        code_address: H160,
        transfer: Option<Transfer>,
        input: Vec<u8>,
        target_gas: Option<u64>,
        is_static: bool,
        context: Context,
    },
    Create {
        caller: H160,
        address: H160,
        scheme: CreateScheme,
        value: U256,
        init_code: Vec<u8>,
        target_gas: Option<u64>,
    },
    Suicide { address: H160, target: H160, balance: U256 },
    Exit { reason: ExitReason, return_value: Vec<u8> },
    TransactCall { caller: H160, address: H160, value: U256, data: Vec<u8>, gas_limit: u64 },
    TransactCreate { caller: H160, value: U256, init_code: Vec<u8>, gas_limit: u64, address: H160 },
    TransactCreate2 {
        caller: H160,
        value: U256,
        init_code: Vec<u8>,
        salt: H256,
        gas_limit: u64,
        address: H160,
    },
    PrecompileSubcall {
        code_address: H160,
        transfer: Option<Transfer>,
        input: Vec<u8>,
        target_gas: Option<u64>,
        is_static: bool,
        context: Context,
    },
}

/// An interpreter lifecycle event in borrowed form: it refers to the
/// interpreter's own buffers, transfer and context, and lives no longer than
/// the frame that emits it.
#[derive(Debug, Clone, Copy)]
pub enum EvmEventRef<'a> {
    Call {
        code_address: H160,
        transfer: &'a Option<RuntimeTransfer>,
        input: &'a [u8],
        target_gas: Option<u64>,
        is_static: bool,
        context: &'a RuntimeContext,
    },
    Create {
        caller: H160,
        address: H160,
        scheme: RuntimeCreateScheme,
        value: U256,
        init_code: &'a [u8],
        target_gas: Option<u64>,
    },
    Suicide { address: H160, target: H160, balance: U256 },
    Exit { reason: &'a ExitReason, return_value: &'a [u8] },
    TransactCall { caller: H160, address: H160, value: U256, data: &'a [u8], gas_limit: u64 },
    TransactCreate {
        caller: H160,
        value: U256,
        init_code: &'a [u8],
        gas_limit: u64,
        address: H160,
    },
    TransactCreate2 {
        caller: H160,
        value: U256,
        init_code: &'a [u8],
        salt: H256,
        gas_limit: u64,
        address: H160,
    },
    PrecompileSubcall {
        code_address: H160,
        transfer: &'a Option<RuntimeTransfer>,
        input: &'a [u8],
        target_gas: Option<u64>,
        is_static: bool,
        context: &'a RuntimeContext,
    },
}

/// The owned transfer, if any, that a call's transfer becomes.
pub open spec fn transfer_option_of(t: Option<RuntimeTransfer>) -> Option<Transfer> {
    match t {
        Some(t) => Some(transfer_of(t)),
        None => None,
    }
}

/// Whether `o` is the owned form of `b`: the same variant, every scalar,
/// address and amount equal, every byte buffer equal byte for byte, and the
/// transfer, scheme and context copied field by field.
pub open spec fn is_owned_form(b: EvmEventRef, o: EvmEvent) -> bool {
    match b {
        EvmEventRef::Call { code_address, transfer, input, target_gas, is_static, context } =>
            match o {
                EvmEvent::Call {
                    code_address: c,
                    transfer: t,
                    input: i,
                    target_gas: g,
                    is_static: s,
                    context: x,
                } => c == code_address && t == transfer_option_of(*transfer) && i@ == input@
                    && g == target_gas && s == is_static && x == context_of(*context),
                _ => false,
            },
        EvmEventRef::Create { caller, address, scheme, value, init_code, target_gas } => match o {
            EvmEvent::Create {
                caller: c,
                address: a,
                scheme: s,
                value: v,
                init_code: i,
                target_gas: g,
            } => c == caller && a == address && s == create_scheme_of(scheme) && v == value
                && i@ == init_code@ && g == target_gas,
            _ => false,
        },
        EvmEventRef::Suicide { address, target, balance } => o == EvmEvent::Suicide {
            address,
            target,
            balance,
        },
        EvmEventRef::Exit { reason, return_value } => match o {
            EvmEvent::Exit { reason: r, return_value: v } => r == *reason && v@ == return_value@,
            _ => false,
        },
        EvmEventRef::TransactCall { caller, address, value, data, gas_limit } => match o {
            EvmEvent::TransactCall { caller: c, address: a, value: v, data: d, gas_limit: g } =>
                c == caller && a == address && v == value && d@ == data@ && g == gas_limit,
            _ => false,
        },
        EvmEventRef::TransactCreate { caller, value, init_code, gas_limit, address } => match o {
            EvmEvent::TransactCreate {
                caller: c,
                value: v,
                init_code: i,
                gas_limit: g,
                address: a,
            } => c == caller && v == value && i@ == init_code@ && g == gas_limit && a == address,
            _ => false,
        },
        EvmEventRef::TransactCreate2 { caller, value, init_code, salt, gas_limit, address } =>
            match o {
                EvmEvent::TransactCreate2 {
                    caller: c,
                    value: v,
                    init_code: i,
                    salt: s,
                    gas_limit: g,
                    address: a,
                } => c == caller && v == value && i@ == init_code@ && s == salt && g == gas_limit
                    && a == address,
                _ => false,
            },
        EvmEventRef::PrecompileSubcall {
            code_address,
            transfer,
            input,
            target_gas,
            is_static,
            context,
        } => match o {
            EvmEvent::PrecompileSubcall {
                code_address: c,
                transfer: t,
                input: i,
                target_gas: g,
                is_static: s,
                context: x,
            } => c == code_address && t == transfer_option_of(*transfer) && i@ == input@ && g
                == target_gas && s == is_static && x == context_of(*context),
            _ => false,
        },
    }
}

/// An owned copy of a call's transfer.
fn own_transfer(t: &Option<RuntimeTransfer>) -> (r: Option<Transfer>)
    ensures
        r == transfer_option_of(*t),
{
    match t {
        Some(t) => Some(Transfer { source: t.source, target: t.target, value: t.value }),
        None => None,
    }
}

impl<'a> From<EvmEventRef<'a>> for EvmEvent {
    fn from(i: EvmEventRef<'a>) -> (r: EvmEvent)
        ensures
            is_owned_form(i, r),
    {
        EvmEvent::from_borrowed(i)
    }
}

/// Two owned events whose buffers hold the same bytes may still be distinct
/// values to the prover, so `From` names no single result: its own `ensures`
/// says which results it may give.
impl<'a> vstd::std_specs::convert::FromSpecImpl<EvmEventRef<'a>> for EvmEvent {
    open spec fn obeys_from_spec() -> bool {
        false
    }

    open spec fn from_spec(i: EvmEventRef<'a>) -> EvmEvent {
        choose|o: EvmEvent| is_owned_form(i, o)
    }
}

impl EvmEvent {
    /// The owned form of a borrowed event: buffers and context are copied,
    /// nothing is dropped, renamed or reinterpreted.
    pub fn from_borrowed(i: EvmEventRef) -> (r: EvmEvent)
        ensures
            is_owned_form(i, r),
    {
        match i {
            EvmEventRef::Call { code_address, transfer, input, target_gas, is_static, context } =>
                EvmEvent::Call {
                code_address,
                transfer: own_transfer(transfer),
                input: copy_bytes(input),
                target_gas,
                is_static,
                context: Context::from_runtime(context),
            },
            EvmEventRef::Create { caller, address, scheme, value, init_code, target_gas } =>
                EvmEvent::Create {
                caller,
                address,
                scheme: CreateScheme::from(scheme),
                value,
                init_code: copy_bytes(init_code),
                target_gas,
            },
            EvmEventRef::Suicide { address, target, balance } => EvmEvent::Suicide {
                address,
                target,
                balance,
            },
            EvmEventRef::Exit { reason, return_value } => EvmEvent::Exit {
                reason: reason.clone(),
                return_value: copy_bytes(return_value),
            },
            EvmEventRef::TransactCall { caller, address, value, data, gas_limit } =>
                EvmEvent::TransactCall {
                caller,
                address,
                value,
                data: copy_bytes(data),
                gas_limit,
            },
            EvmEventRef::TransactCreate { caller, value, init_code, gas_limit, address } =>
                EvmEvent::TransactCreate {
                caller,
                value,
                init_code: copy_bytes(init_code),
                gas_limit,
                address,
            },
            EvmEventRef::TransactCreate2 { caller, value, init_code, salt, gas_limit, address } =>
                EvmEvent::TransactCreate2 {
                caller,
                value,
                init_code: copy_bytes(init_code),
                salt,
                gas_limit,
                address,
            },
            EvmEventRef::PrecompileSubcall {
                code_address,
                transfer,
                input,
                target_gas,
                is_static,
                context,
            } => EvmEvent::PrecompileSubcall {
                code_address,
                transfer: own_transfer(transfer),
                input: copy_bytes(input),
                target_gas,
                is_static,
                context: Context::from_runtime(context),
            },
        }
    }
}

} // verus!
