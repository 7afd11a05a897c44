//! Typed error codes paired with the logical location that raised them.

use solana_program::program_error::ProgramError;
use vstd::prelude::*;

verus! {

/// Logical source location of a check, reported together with an error code.
#[derive(Debug, Clone, Copy, PartialEq, Eq, Structural)]
pub enum SourceFileId {
    Processor,
    State,
    Critbit,
    Queue,
    Matching,
    Oracle,
}

pub open spec fn source_path_of(id: SourceFileId) -> Seq<char> {
    match id {
        SourceFileId::Processor => "src/processor.rs"@,
        SourceFileId::State => "src/state.rs"@,
        SourceFileId::Critbit => "src/critbit"@,
        SourceFileId::Queue => "src/queue.rs"@,
        SourceFileId::Matching => "src/matching.rs"@,
        SourceFileId::Oracle => "src/oracle.rs"@,
    }
}

impl SourceFileId {
    /// The path printed for this location.
    pub fn path(&self) -> (r: &'static str)
        ensures
            r@ == source_path_of(*self),
    {
        match self {
            SourceFileId::Processor => "src/processor.rs",
            SourceFileId::State => "src/state.rs",
            SourceFileId::Critbit => "src/critbit",
            SourceFileId::Queue => "src/queue.rs",
            SourceFileId::Matching => "src/matching.rs",
            SourceFileId::Oracle => "src/oracle.rs",
        }
    }
}

/// Stable error identities; `code` gives the number reported to the host.
#[derive(Debug, Clone, Copy, PartialEq, Eq, Structural)]
pub enum EntropyErrorCode {
    InvalidCache,
    InvalidOwner,
    InvalidGroupOwner,
    InvalidSignerKey,
    InvalidAdminKey,
    InvalidVault,
    MathError,
    InsufficientFunds,
    InvalidToken,
    InvalidMarket,
    InvalidProgramId,
    GroupNotRentExempt,
    OutOfSpace,
    TooManyOpenOrders,
    AccountNotRentExempt,
    ClientIdNotFound,
    InvalidNodeBank,
    InvalidRootBank,
    MarginBasketFull,
    NotLiquidatable,
    Unimplemented,
    PostOnly,
    Bankrupt,
    InsufficientHealth,
    InvalidParam,
    InvalidAccount,
    InvalidAccountState,
    SignerNecessary,
    InsufficientLiquidity,
    InvalidOrderId,
    InvalidOpenOrdersAccount,
    BeingLiquidated,
    InvalidRootBankCache,
    InvalidPriceCache,
    InvalidPerpMarketCache,
    TriggerConditionFalse,
    InvalidSeeds,
    InvalidOracleType,
    InvalidOraclePrice,
    InvalidSerumVault,
    OrderExpired,
    AlreadyInitialized,
    Default,
}

/// The numeric code of each error: its position in the list, `u32::MAX` for `Default`.
pub open spec fn code_of(c: EntropyErrorCode) -> u32 {
    match c {
        EntropyErrorCode::InvalidCache => 0,
        EntropyErrorCode::InvalidOwner => 1,
        EntropyErrorCode::InvalidGroupOwner => 2,
        EntropyErrorCode::InvalidSignerKey => 3,
        EntropyErrorCode::InvalidAdminKey => 4,
        EntropyErrorCode::InvalidVault => 5,
        EntropyErrorCode::MathError => 6,
        EntropyErrorCode::InsufficientFunds => 7,
        EntropyErrorCode::InvalidToken => 8,
        EntropyErrorCode::InvalidMarket => 9,
        EntropyErrorCode::InvalidProgramId => 10,
        EntropyErrorCode::GroupNotRentExempt => 11,
        EntropyErrorCode::OutOfSpace => 12,
        EntropyErrorCode::TooManyOpenOrders => 13,
        EntropyErrorCode::AccountNotRentExempt => 14,
        EntropyErrorCode::ClientIdNotFound => 15,
        EntropyErrorCode::InvalidNodeBank => 16,
        EntropyErrorCode::InvalidRootBank => 17,
        EntropyErrorCode::MarginBasketFull => 18,
        EntropyErrorCode::NotLiquidatable => 19,
        EntropyErrorCode::Unimplemented => 20,
        EntropyErrorCode::PostOnly => 21,
        EntropyErrorCode::Bankrupt => 22,
        EntropyErrorCode::InsufficientHealth => 23,
        EntropyErrorCode::InvalidParam => 24,
        EntropyErrorCode::InvalidAccount => 25,
        EntropyErrorCode::InvalidAccountState => 26,
        EntropyErrorCode::SignerNecessary => 27,
        EntropyErrorCode::InsufficientLiquidity => 28,
        EntropyErrorCode::InvalidOrderId => 29,
        EntropyErrorCode::InvalidOpenOrdersAccount => 30,
        EntropyErrorCode::BeingLiquidated => 31,
        EntropyErrorCode::InvalidRootBankCache => 32,
        EntropyErrorCode::InvalidPriceCache => 33,
        EntropyErrorCode::InvalidPerpMarketCache => 34,
        EntropyErrorCode::TriggerConditionFalse => 35,
        EntropyErrorCode::InvalidSeeds => 36,
        EntropyErrorCode::InvalidOracleType => 37,
        EntropyErrorCode::InvalidOraclePrice => 38,
        EntropyErrorCode::InvalidSerumVault => 39,
        EntropyErrorCode::OrderExpired => 40,
        EntropyErrorCode::AlreadyInitialized => 41,
        EntropyErrorCode::Default => u32::MAX,
    }
}

/// The text that describes each error.
pub open spec fn message_of(c: EntropyErrorCode) -> Seq<char> {
    match c {
        EntropyErrorCode::InvalidCache => "EntropyErrorCode::InvalidCache"@,
        EntropyErrorCode::InvalidOwner => "EntropyErrorCode::InvalidOwner"@,
        EntropyErrorCode::InvalidGroupOwner => "EntropyErrorCode::InvalidGroupOwner"@,
        EntropyErrorCode::InvalidSignerKey => "EntropyErrorCode::InvalidSignerKey"@,
        EntropyErrorCode::InvalidAdminKey => "EntropyErrorCode::InvalidAdminKey"@,
        EntropyErrorCode::InvalidVault => "EntropyErrorCode::InvalidVault"@,
        EntropyErrorCode::MathError => "EntropyErrorCode::MathError"@,
        EntropyErrorCode::InsufficientFunds => "EntropyErrorCode::InsufficientFunds"@,
        EntropyErrorCode::InvalidToken => "EntropyErrorCode::InvalidToken"@,
        EntropyErrorCode::InvalidMarket => "EntropyErrorCode::InvalidMarket"@,
        EntropyErrorCode::InvalidProgramId => "EntropyErrorCode::InvalidProgramId"@,
        EntropyErrorCode::GroupNotRentExempt => "EntropyErrorCode::GroupNotRentExempt"@,
        EntropyErrorCode::OutOfSpace => "EntropyErrorCode::OutOfSpace"@,
        EntropyErrorCode::TooManyOpenOrders => "EntropyErrorCode::TooManyOpenOrders Reached the maximum number of open orders for this market"@,
        EntropyErrorCode::AccountNotRentExempt => "EntropyErrorCode::AccountNotRentExempt"@,
        EntropyErrorCode::ClientIdNotFound => "EntropyErrorCode::ClientIdNotFound"@,
        EntropyErrorCode::InvalidNodeBank => "EntropyErrorCode::InvalidNodeBank"@,
        EntropyErrorCode::InvalidRootBank => "EntropyErrorCode::InvalidRootBank"@,
        EntropyErrorCode::MarginBasketFull => "EntropyErrorCode::MarginBasketFull"@,
        EntropyErrorCode::NotLiquidatable => "EntropyErrorCode::NotLiquidatable"@,
        EntropyErrorCode::Unimplemented => "EntropyErrorCode::Unimplemented"@,
        EntropyErrorCode::PostOnly => "EntropyErrorCode::PostOnly"@,
        EntropyErrorCode::Bankrupt => "EntropyErrorCode::Bankrupt Invalid instruction for bankrupt account"@,
        EntropyErrorCode::InsufficientHealth => "EntropyErrorCode::InsufficientHealth"@,
        EntropyErrorCode::InvalidParam => "EntropyErrorCode::InvalidParam"@,
        EntropyErrorCode::InvalidAccount => "EntropyErrorCode::InvalidAccount"@,
        EntropyErrorCode::InvalidAccountState => "EntropyErrorCode::InvalidAccountState"@,
        EntropyErrorCode::SignerNecessary => "EntropyErrorCode::SignerNecessary"@,
        EntropyErrorCode::InsufficientLiquidity => "EntropyErrorCode::InsufficientLiquidity Not enough deposits in this node bank"@,
        EntropyErrorCode::InvalidOrderId => "EntropyErrorCode::InvalidOrderId"@,
        EntropyErrorCode::InvalidOpenOrdersAccount => "EntropyErrorCode::InvalidOpenOrdersAccount"@,
        EntropyErrorCode::BeingLiquidated => "EntropyErrorCode::BeingLiquidated Invalid instruction while being liquidated"@,
        EntropyErrorCode::InvalidRootBankCache => "EntropyErrorCode::InvalidRootBankCache Cache the root bank to resolve"@,
        EntropyErrorCode::InvalidPriceCache => "EntropyErrorCode::InvalidPriceCache Cache the oracle price to resolve"@,
        EntropyErrorCode::InvalidPerpMarketCache => "EntropyErrorCode::InvalidPerpMarketCache Cache the perp market to resolve"@,
        EntropyErrorCode::TriggerConditionFalse => "EntropyErrorCode::TriggerConditionFalse The trigger condition for this TriggerOrder is not met"@,
        EntropyErrorCode::InvalidSeeds => "EntropyErrorCode::InvalidSeeds Invalid seeds. Unable to create PDA"@,
        EntropyErrorCode::InvalidOracleType => "EntropyErrorCode::InvalidOracleType The oracle account was not recognized"@,
        EntropyErrorCode::InvalidOraclePrice => "EntropyErrorCode::InvalidOraclePrice"@,
        EntropyErrorCode::InvalidSerumVault => "invalid serum fees vault"@,
        EntropyErrorCode::OrderExpired => "EntropyErrorCode::OrderExpired"@,
        EntropyErrorCode::AlreadyInitialized => "EntropyErrorCode::AlreadyInitialized"@,
        EntropyErrorCode::Default => "EntropyErrorCode::Default Check the source code for more info"@,
    }
}

impl EntropyErrorCode {
    /// The text that describes this error.
    pub fn message(&self) -> (r: &'static str)
        ensures
            r@ == message_of(*self),
    {
        match self {
            EntropyErrorCode::InvalidCache => "EntropyErrorCode::InvalidCache",
            EntropyErrorCode::InvalidOwner => "EntropyErrorCode::InvalidOwner",
            EntropyErrorCode::InvalidGroupOwner => "EntropyErrorCode::InvalidGroupOwner",
            EntropyErrorCode::InvalidSignerKey => "EntropyErrorCode::InvalidSignerKey",
            EntropyErrorCode::InvalidAdminKey => "EntropyErrorCode::InvalidAdminKey",
            EntropyErrorCode::InvalidVault => "EntropyErrorCode::InvalidVault",
            EntropyErrorCode::MathError => "EntropyErrorCode::MathError",
            EntropyErrorCode::InsufficientFunds => "EntropyErrorCode::InsufficientFunds",
            EntropyErrorCode::InvalidToken => "EntropyErrorCode::InvalidToken",
            EntropyErrorCode::InvalidMarket => "EntropyErrorCode::InvalidMarket",
            EntropyErrorCode::InvalidProgramId => "EntropyErrorCode::InvalidProgramId",
            EntropyErrorCode::GroupNotRentExempt => "EntropyErrorCode::GroupNotRentExempt",
            EntropyErrorCode::OutOfSpace => "EntropyErrorCode::OutOfSpace",
            EntropyErrorCode::TooManyOpenOrders => "EntropyErrorCode::TooManyOpenOrders Reached the maximum number of open orders for this market",
            EntropyErrorCode::AccountNotRentExempt => "EntropyErrorCode::AccountNotRentExempt",
            EntropyErrorCode::ClientIdNotFound => "EntropyErrorCode::ClientIdNotFound",
            EntropyErrorCode::InvalidNodeBank => "EntropyErrorCode::InvalidNodeBank",
            EntropyErrorCode::InvalidRootBank => "EntropyErrorCode::InvalidRootBank",
            EntropyErrorCode::MarginBasketFull => "EntropyErrorCode::MarginBasketFull",
            EntropyErrorCode::NotLiquidatable => "EntropyErrorCode::NotLiquidatable",
            EntropyErrorCode::Unimplemented => "EntropyErrorCode::Unimplemented",
            EntropyErrorCode::PostOnly => "EntropyErrorCode::PostOnly",
            EntropyErrorCode::Bankrupt => "EntropyErrorCode::Bankrupt Invalid instruction for bankrupt account",
            EntropyErrorCode::InsufficientHealth => "EntropyErrorCode::InsufficientHealth",
            EntropyErrorCode::InvalidParam => "EntropyErrorCode::InvalidParam",
            EntropyErrorCode::InvalidAccount => "EntropyErrorCode::InvalidAccount",
            EntropyErrorCode::InvalidAccountState => "EntropyErrorCode::InvalidAccountState",
            EntropyErrorCode::SignerNecessary => "EntropyErrorCode::SignerNecessary",
            EntropyErrorCode::InsufficientLiquidity => "EntropyErrorCode::InsufficientLiquidity Not enough deposits in this node bank",
            EntropyErrorCode::InvalidOrderId => "EntropyErrorCode::InvalidOrderId",
            EntropyErrorCode::InvalidOpenOrdersAccount => "EntropyErrorCode::InvalidOpenOrdersAccount",
            EntropyErrorCode::BeingLiquidated => "EntropyErrorCode::BeingLiquidated Invalid instruction while being liquidated",
            EntropyErrorCode::InvalidRootBankCache => "EntropyErrorCode::InvalidRootBankCache Cache the root bank to resolve",
            EntropyErrorCode::InvalidPriceCache => "EntropyErrorCode::InvalidPriceCache Cache the oracle price to resolve",
            EntropyErrorCode::InvalidPerpMarketCache => "EntropyErrorCode::InvalidPerpMarketCache Cache the perp market to resolve",
            EntropyErrorCode::TriggerConditionFalse => "EntropyErrorCode::TriggerConditionFalse The trigger condition for this TriggerOrder is not met",
            EntropyErrorCode::InvalidSeeds => "EntropyErrorCode::InvalidSeeds Invalid seeds. Unable to create PDA",
            EntropyErrorCode::InvalidOracleType => "EntropyErrorCode::InvalidOracleType The oracle account was not recognized",
            EntropyErrorCode::InvalidOraclePrice => "EntropyErrorCode::InvalidOraclePrice",
            EntropyErrorCode::InvalidSerumVault => "invalid serum fees vault",
            EntropyErrorCode::OrderExpired => "EntropyErrorCode::OrderExpired",
            EntropyErrorCode::AlreadyInitialized => "EntropyErrorCode::AlreadyInitialized",
            EntropyErrorCode::Default => "EntropyErrorCode::Default Check the source code for more info",
        }
    }

    /// The numeric code reported to the host for this error.
    pub fn code(&self) -> (r: u32)
        ensures
            r == code_of(*self),
    {
        match self {
            EntropyErrorCode::InvalidCache => 0,
            EntropyErrorCode::InvalidOwner => 1,
            EntropyErrorCode::InvalidGroupOwner => 2,
            EntropyErrorCode::InvalidSignerKey => 3,
            EntropyErrorCode::InvalidAdminKey => 4,
            EntropyErrorCode::InvalidVault => 5,
            EntropyErrorCode::MathError => 6,
            EntropyErrorCode::InsufficientFunds => 7,
            EntropyErrorCode::InvalidToken => 8,
            EntropyErrorCode::InvalidMarket => 9,
            EntropyErrorCode::InvalidProgramId => 10,
            EntropyErrorCode::GroupNotRentExempt => 11,
            EntropyErrorCode::OutOfSpace => 12,
            EntropyErrorCode::TooManyOpenOrders => 13,
            EntropyErrorCode::AccountNotRentExempt => 14,
            EntropyErrorCode::ClientIdNotFound => 15,
            EntropyErrorCode::InvalidNodeBank => 16,
            EntropyErrorCode::InvalidRootBank => 17,
            EntropyErrorCode::MarginBasketFull => 18,
            EntropyErrorCode::NotLiquidatable => 19,
            EntropyErrorCode::Unimplemented => 20,
            EntropyErrorCode::PostOnly => 21,
            EntropyErrorCode::Bankrupt => 22,
            EntropyErrorCode::InsufficientHealth => 23,
            EntropyErrorCode::InvalidParam => 24,
            EntropyErrorCode::InvalidAccount => 25,
            EntropyErrorCode::InvalidAccountState => 26,
            EntropyErrorCode::SignerNecessary => 27,
            EntropyErrorCode::InsufficientLiquidity => 28,
            EntropyErrorCode::InvalidOrderId => 29,
            EntropyErrorCode::InvalidOpenOrdersAccount => 30,
            EntropyErrorCode::BeingLiquidated => 31,
            EntropyErrorCode::InvalidRootBankCache => 32,
            EntropyErrorCode::InvalidPriceCache => 33,
            EntropyErrorCode::InvalidPerpMarketCache => 34,
            EntropyErrorCode::TriggerConditionFalse => 35,
            EntropyErrorCode::InvalidSeeds => 36,
            EntropyErrorCode::InvalidOracleType => 37,
            EntropyErrorCode::InvalidOraclePrice => 38,
            EntropyErrorCode::InvalidSerumVault => 39,
            EntropyErrorCode::OrderExpired => 40,
            EntropyErrorCode::AlreadyInitialized => 41,
            EntropyErrorCode::Default => u32::MAX,
        }
    }
}

/// An error of the host runtime, or a code of this library with the location
/// of the check that raised it.
#[derive(Debug, PartialEq, Eq)]
pub enum EntropyError {
    ProgramError(ProgramError),
    EntropyErrorCode { mango_error_code: EntropyErrorCode, line: u32, source_file_id: SourceFileId },
}

pub type MangoResult<T = ()> = Result<T, EntropyError>;

/// `e` is a code of this library equal to `c`.
pub open spec fn is_code(e: EntropyError, c: EntropyErrorCode) -> bool {
    match e {
        EntropyError::EntropyErrorCode { mango_error_code, .. } => mango_error_code == c,
        EntropyError::ProgramError(_) => false,
    }
}

/// `r` failed with the code `c`.
pub open spec fn fails_with<T>(r: Result<T, EntropyError>, c: EntropyErrorCode) -> bool {
    match r {
        Err(e) => is_code(e, c),
        Ok(_) => false,
    }
}

/// The error `c` raised at `line` of `source_file_id`.
pub fn error_at(c: EntropyErrorCode, line: u32, source_file_id: SourceFileId) -> (r: EntropyError)
    ensures
        r == (EntropyError::EntropyErrorCode { mango_error_code: c, line, source_file_id }),
{
    EntropyError::EntropyErrorCode { mango_error_code: c, line, source_file_id }
}

/// Succeeds when `cond` holds, and otherwise fails with `mango_error_code` at the given location.
pub fn check_assert(
    cond: bool,
    mango_error_code: EntropyErrorCode,
    line: u32,
    source_file_id: SourceFileId,
) -> (r: MangoResult<()>)
    ensures
        cond ==> r == Ok::<(), EntropyError>(()),
        !cond ==> r == Err::<(), EntropyError>(
            EntropyError::EntropyErrorCode { mango_error_code, line, source_file_id },
        ),
{
    if cond {
        Ok(())
    } else {
        Err(EntropyError::EntropyErrorCode { mango_error_code, line, source_file_id })
    }
}

/// What the host runtime reports for a custom error with the code `code`.
pub uninterp spec fn custom_program_error(code: u32) -> ProgramError;

/// The host's own error type, carried through unchanged.
#[verifier::external_type_specification]
#[verifier::external_body]
pub struct ExProgramError(ProgramError);

/// Relies on the `ProgramError::Custom` variant of solana_program: the host
/// error that carries a program's own numeric code. The variant is a plain
/// constructor, so different codes give different errors.
#[verifier::external_body]
fn custom_error(code: u32) -> (r: ProgramError)
    ensures
        r == custom_program_error(code),
        forall|other: u32| other != code ==> r != custom_program_error(other),
{
    ProgramError::Custom(code)
}

/// The host error for `e`: a host error is passed on, a code of this library
/// becomes a custom error with its number; the location is dropped, and
/// different codes give different host errors.
pub fn into_program_error(e: EntropyError) -> (r: ProgramError)
    ensures
        r == program_error_of(e),
        e is EntropyErrorCode ==> forall|other: EntropyErrorCode|
            other != e->mango_error_code ==> r != custom_program_error(#[trigger] code_of(other)),
{
    match e {
        EntropyError::ProgramError(pe) => pe,
        EntropyError::EntropyErrorCode { mango_error_code, .. } => custom_error(mango_error_code.code()),
    }
}

/// The host error for `e`, as `into_program_error` gives it.
pub open spec fn program_error_of(e: EntropyError) -> ProgramError {
    match e {
        EntropyError::ProgramError(pe) => pe,
        EntropyError::EntropyErrorCode { mango_error_code, .. } => custom_program_error(
            code_of(mango_error_code),
        ),
    }
}

impl From<EntropyError> for ProgramError {
    fn from(e: EntropyError) -> ProgramError {
        into_program_error(e)
    }
}

impl vstd::std_specs::convert::FromSpecImpl<EntropyError> for ProgramError {
    open spec fn obeys_from_spec() -> bool {
        true
    }

    open spec fn from_spec(e: EntropyError) -> ProgramError {
        program_error_of(e)
    }
}

} // verus!
