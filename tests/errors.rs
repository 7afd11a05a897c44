use entropy_otc::error::{check_assert, into_program_error, EntropyError, EntropyErrorCode, SourceFileId};
use solana_program::program_error::ProgramError;

#[test]
fn codes_follow_the_list() {
    assert_eq!(EntropyErrorCode::InvalidCache.code(), 0);
    assert_eq!(EntropyErrorCode::MathError.code(), 6);
    assert_eq!(EntropyErrorCode::InsufficientHealth.code(), 23);
    assert_eq!(EntropyErrorCode::InvalidAccount.code(), 25);
    assert_eq!(EntropyErrorCode::InvalidAccountState.code(), 26);
    assert_eq!(EntropyErrorCode::InvalidOrderId.code(), 29);
    assert_eq!(EntropyErrorCode::InvalidSerumVault.code(), 39);
    assert_eq!(EntropyErrorCode::OrderExpired.code(), 40);
    assert_eq!(EntropyErrorCode::AlreadyInitialized.code(), 41);
    assert_eq!(EntropyErrorCode::Default.code(), u32::MAX);
}

#[test]
fn check_assert_passes_and_fails() {
    assert_eq!(check_assert(true, EntropyErrorCode::InvalidParam, 10, SourceFileId::State), Ok(()));
    assert_eq!(
        check_assert(false, EntropyErrorCode::InvalidParam, 10, SourceFileId::State),
        Err(EntropyError::EntropyErrorCode {
            mango_error_code: EntropyErrorCode::InvalidParam,
            line: 10,
            source_file_id: SourceFileId::State,
        })
    );
}

#[test]
fn library_code_becomes_custom_host_error() {
    let e = EntropyError::EntropyErrorCode {
        mango_error_code: EntropyErrorCode::InvalidAccount,
        line: 3,
        source_file_id: SourceFileId::Processor,
    };
    assert_eq!(into_program_error(e), ProgramError::Custom(25));
}

#[test]
fn host_error_passes_through() {
    let e = EntropyError::ProgramError(ProgramError::InvalidArgument);
    assert_eq!(into_program_error(e), ProgramError::InvalidArgument);
}

#[test]
fn source_paths() {
    assert_eq!(SourceFileId::Processor.path(), "src/processor.rs");
    assert_eq!(SourceFileId::Critbit.path(), "src/critbit");
    assert_eq!(SourceFileId::Oracle.path(), "src/oracle.rs");
}

#[test]
fn from_gives_custom_host_error() {
    let e = EntropyError::EntropyErrorCode {
        mango_error_code: EntropyErrorCode::OrderExpired,
        line: 1,
        source_file_id: SourceFileId::State,
    };
    assert_eq!(ProgramError::from(e), ProgramError::Custom(40));
}

#[test]
fn messages() {
    assert_eq!(EntropyErrorCode::InvalidAccount.message(), "EntropyErrorCode::InvalidAccount");
    assert_eq!(
        EntropyErrorCode::TooManyOpenOrders.message(),
        "EntropyErrorCode::TooManyOpenOrders Reached the maximum number of open orders for this market"
    );
    assert_eq!(EntropyErrorCode::InvalidSerumVault.message(), "invalid serum fees vault");
    assert_eq!(
        EntropyErrorCode::Default.message(),
        "EntropyErrorCode::Default Check the source code for more info"
    );
}

#[test]
fn different_codes_give_different_host_errors() {
    let a = into_program_error(EntropyError::EntropyErrorCode {
        mango_error_code: EntropyErrorCode::InvalidOrderId,
        line: 1,
        source_file_id: SourceFileId::State,
    });
    let b = into_program_error(EntropyError::EntropyErrorCode {
        mango_error_code: EntropyErrorCode::InvalidAccountState,
        line: 1,
        source_file_id: SourceFileId::State,
    });
    assert_ne!(a, b);
}
