//! Values exchanged with the user interface: error codes, command results,
//! roles, languages, capture export names and station configurations.

use vstd::prelude::*;
use vstd::string::*;

use crate::errors::Iec104ErrorCode;
use crate::json_text::{json_decode_string, json_encode_str, json_plain, json_plain_quoted, json_quoted, json_string_parsed, json_unquoted, lemma_plain_text_unescaped};
use crate::strutil::{contains_seq, lower_eq, str_contains, str_equals, trim_seq, trimmed_equals, trimmed_lower_equals, upper_eq};
use crate::text::{join2, join3};

verus! {

/// Error codes the interface localizes.
#[derive(Clone, Copy, Debug, PartialEq, Eq, Structural)]
pub enum ApiErrorCode {
    AppError,
    CommonAddressMismatch,
    ConflictAsduAlias,
    ConflictCoaDuplicate,
    ConflictIoaDuplicate,
    ConflictIoaExisting,
    ConnectionNotFound,
    DbReadFailed,
    DbTransactionFailed,
    DbWriteFailed,
    DuplicateConnection,
    EmptyPointTable,
    ExportDirectoryFailed,
    ExportWriteFailed,
    FileTooLarge,
    FileTransferBusy,
    ForeignKeyViolation,
    InternalError,
    InvalidAsduType,
    InvalidExportData,
    InvalidExportPath,
    InvalidLocale,
    NotConnected,
    PointTableImportFailed,
    ProfileNotFound,
    ProtocolState,
    SlaveNotFound,
    StationNameConflict,
    StationNotFound,
    StationStatusFailed,
    StationStopFailed,
    TargetUnsupportedControlMapping,
    UploadFileMissing,
    UserSettingParseFailed,
    ValidationError,
}

impl ApiErrorCode {
    /// The code's name on the wire (screaming snake case).
    pub open spec fn spec_code(self) -> Seq<char> {
        match self {
            ApiErrorCode::AppError => "APP_ERROR"@,
            ApiErrorCode::CommonAddressMismatch => "COMMON_ADDRESS_MISMATCH"@,
            ApiErrorCode::ConflictAsduAlias => "CONFLICT_ASDU_ALIAS"@,
            ApiErrorCode::ConflictCoaDuplicate => "CONFLICT_COA_DUPLICATE"@,
            ApiErrorCode::ConflictIoaDuplicate => "CONFLICT_IOA_DUPLICATE"@,
            ApiErrorCode::ConflictIoaExisting => "CONFLICT_IOA_EXISTING"@,
            ApiErrorCode::ConnectionNotFound => "CONNECTION_NOT_FOUND"@,
            ApiErrorCode::DbReadFailed => "DB_READ_FAILED"@,
            ApiErrorCode::DbTransactionFailed => "DB_TRANSACTION_FAILED"@,
            ApiErrorCode::DbWriteFailed => "DB_WRITE_FAILED"@,
            ApiErrorCode::DuplicateConnection => "DUPLICATE_CONNECTION"@,
            ApiErrorCode::EmptyPointTable => "EMPTY_POINT_TABLE"@,
            ApiErrorCode::ExportDirectoryFailed => "EXPORT_DIRECTORY_FAILED"@,
            ApiErrorCode::ExportWriteFailed => "EXPORT_WRITE_FAILED"@,
            ApiErrorCode::FileTooLarge => "FILE_TOO_LARGE"@,
            ApiErrorCode::FileTransferBusy => "FILE_TRANSFER_BUSY"@,
            ApiErrorCode::ForeignKeyViolation => "FOREIGN_KEY_VIOLATION"@,
            ApiErrorCode::InternalError => "INTERNAL_ERROR"@,
            ApiErrorCode::InvalidAsduType => "INVALID_ASDU_TYPE"@,
            ApiErrorCode::InvalidExportData => "INVALID_EXPORT_DATA"@,
            ApiErrorCode::InvalidExportPath => "INVALID_EXPORT_PATH"@,
            ApiErrorCode::InvalidLocale => "INVALID_LOCALE"@,
            ApiErrorCode::NotConnected => "NOT_CONNECTED"@,
            ApiErrorCode::PointTableImportFailed => "POINT_TABLE_IMPORT_FAILED"@,
            ApiErrorCode::ProfileNotFound => "PROFILE_NOT_FOUND"@,
            ApiErrorCode::ProtocolState => "PROTOCOL_STATE"@,
            ApiErrorCode::SlaveNotFound => "SLAVE_NOT_FOUND"@,
            ApiErrorCode::StationNameConflict => "STATION_NAME_CONFLICT"@,
            ApiErrorCode::StationNotFound => "STATION_NOT_FOUND"@,
            ApiErrorCode::StationStatusFailed => "STATION_STATUS_FAILED"@,
            ApiErrorCode::StationStopFailed => "STATION_STOP_FAILED"@,
            ApiErrorCode::TargetUnsupportedControlMapping => "TARGET_UNSUPPORTED_CONTROL_MAPPING"@,
            ApiErrorCode::UploadFileMissing => "UPLOAD_FILE_MISSING"@,
            ApiErrorCode::UserSettingParseFailed => "USER_SETTING_PARSE_FAILED"@,
            ApiErrorCode::ValidationError => "VALIDATION_ERROR"@,
        }
    }

    /// The code named `code`; an unknown name is an internal error.
    pub open spec fn spec_from_code(code: Seq<char>) -> ApiErrorCode {
        if code == "APP_ERROR"@ { ApiErrorCode::AppError }
        else if code == "COMMON_ADDRESS_MISMATCH"@ { ApiErrorCode::CommonAddressMismatch }
        else if code == "CONFLICT_ASDU_ALIAS"@ { ApiErrorCode::ConflictAsduAlias }
        else if code == "CONFLICT_COA_DUPLICATE"@ { ApiErrorCode::ConflictCoaDuplicate }
        else if code == "CONFLICT_IOA_DUPLICATE"@ { ApiErrorCode::ConflictIoaDuplicate }
        else if code == "CONFLICT_IOA_EXISTING"@ { ApiErrorCode::ConflictIoaExisting }
        else if code == "CONNECTION_NOT_FOUND"@ { ApiErrorCode::ConnectionNotFound }
        else if code == "DB_READ_FAILED"@ { ApiErrorCode::DbReadFailed }
        else if code == "DB_TRANSACTION_FAILED"@ { ApiErrorCode::DbTransactionFailed }
        else if code == "DB_WRITE_FAILED"@ { ApiErrorCode::DbWriteFailed }
        else if code == "DUPLICATE_CONNECTION"@ { ApiErrorCode::DuplicateConnection }
        else if code == "EMPTY_POINT_TABLE"@ { ApiErrorCode::EmptyPointTable }
        else if code == "EXPORT_DIRECTORY_FAILED"@ { ApiErrorCode::ExportDirectoryFailed }
        else if code == "EXPORT_WRITE_FAILED"@ { ApiErrorCode::ExportWriteFailed }
        else if code == "FILE_TOO_LARGE"@ { ApiErrorCode::FileTooLarge }
        else if code == "FILE_TRANSFER_BUSY"@ { ApiErrorCode::FileTransferBusy }
        else if code == "FOREIGN_KEY_VIOLATION"@ { ApiErrorCode::ForeignKeyViolation }
        else if code == "INVALID_ASDU_TYPE"@ { ApiErrorCode::InvalidAsduType }
        else if code == "INVALID_EXPORT_DATA"@ { ApiErrorCode::InvalidExportData }
        else if code == "INVALID_EXPORT_PATH"@ { ApiErrorCode::InvalidExportPath }
        else if code == "INVALID_LOCALE"@ { ApiErrorCode::InvalidLocale }
        else if code == "NOT_CONNECTED"@ { ApiErrorCode::NotConnected }
        else if code == "POINT_TABLE_IMPORT_FAILED"@ { ApiErrorCode::PointTableImportFailed }
        else if code == "PROFILE_NOT_FOUND"@ { ApiErrorCode::ProfileNotFound }
        else if code == "PROTOCOL_STATE"@ { ApiErrorCode::ProtocolState }
        else if code == "SLAVE_NOT_FOUND"@ { ApiErrorCode::SlaveNotFound }
        else if code == "STATION_NAME_CONFLICT"@ { ApiErrorCode::StationNameConflict }
        else if code == "STATION_NOT_FOUND"@ { ApiErrorCode::StationNotFound }
        else if code == "STATION_STATUS_FAILED"@ { ApiErrorCode::StationStatusFailed }
        else if code == "STATION_STOP_FAILED"@ { ApiErrorCode::StationStopFailed }
        else if code == "TARGET_UNSUPPORTED_CONTROL_MAPPING"@ { ApiErrorCode::TargetUnsupportedControlMapping }
        else if code == "UPLOAD_FILE_MISSING"@ { ApiErrorCode::UploadFileMissing }
        else if code == "USER_SETTING_PARSE_FAILED"@ { ApiErrorCode::UserSettingParseFailed }
        else if code == "VALIDATION_ERROR"@ { ApiErrorCode::ValidationError }
        else { ApiErrorCode::InternalError }
    }

    /// The code's name on the wire.
    pub fn code(&self) -> (r: &'static str)
        ensures
            r@ == self.spec_code(),
    {
        match self {
            ApiErrorCode::AppError => "APP_ERROR",
            ApiErrorCode::CommonAddressMismatch => "COMMON_ADDRESS_MISMATCH",
            ApiErrorCode::ConflictAsduAlias => "CONFLICT_ASDU_ALIAS",
            ApiErrorCode::ConflictCoaDuplicate => "CONFLICT_COA_DUPLICATE",
            ApiErrorCode::ConflictIoaDuplicate => "CONFLICT_IOA_DUPLICATE",
            ApiErrorCode::ConflictIoaExisting => "CONFLICT_IOA_EXISTING",
            ApiErrorCode::ConnectionNotFound => "CONNECTION_NOT_FOUND",
            ApiErrorCode::DbReadFailed => "DB_READ_FAILED",
            ApiErrorCode::DbTransactionFailed => "DB_TRANSACTION_FAILED",
            ApiErrorCode::DbWriteFailed => "DB_WRITE_FAILED",
            ApiErrorCode::DuplicateConnection => "DUPLICATE_CONNECTION",
            ApiErrorCode::EmptyPointTable => "EMPTY_POINT_TABLE",
            ApiErrorCode::ExportDirectoryFailed => "EXPORT_DIRECTORY_FAILED",
            ApiErrorCode::ExportWriteFailed => "EXPORT_WRITE_FAILED",
            ApiErrorCode::FileTooLarge => "FILE_TOO_LARGE",
            ApiErrorCode::FileTransferBusy => "FILE_TRANSFER_BUSY",
            ApiErrorCode::ForeignKeyViolation => "FOREIGN_KEY_VIOLATION",
            ApiErrorCode::InternalError => "INTERNAL_ERROR",
            ApiErrorCode::InvalidAsduType => "INVALID_ASDU_TYPE",
            ApiErrorCode::InvalidExportData => "INVALID_EXPORT_DATA",
            ApiErrorCode::InvalidExportPath => "INVALID_EXPORT_PATH",
            ApiErrorCode::InvalidLocale => "INVALID_LOCALE",
            ApiErrorCode::NotConnected => "NOT_CONNECTED",
            ApiErrorCode::PointTableImportFailed => "POINT_TABLE_IMPORT_FAILED",
            ApiErrorCode::ProfileNotFound => "PROFILE_NOT_FOUND",
            ApiErrorCode::ProtocolState => "PROTOCOL_STATE",
            ApiErrorCode::SlaveNotFound => "SLAVE_NOT_FOUND",
            ApiErrorCode::StationNameConflict => "STATION_NAME_CONFLICT",
            ApiErrorCode::StationNotFound => "STATION_NOT_FOUND",
            ApiErrorCode::StationStatusFailed => "STATION_STATUS_FAILED",
            ApiErrorCode::StationStopFailed => "STATION_STOP_FAILED",
            ApiErrorCode::TargetUnsupportedControlMapping => "TARGET_UNSUPPORTED_CONTROL_MAPPING",
            ApiErrorCode::UploadFileMissing => "UPLOAD_FILE_MISSING",
            ApiErrorCode::UserSettingParseFailed => "USER_SETTING_PARSE_FAILED",
            ApiErrorCode::ValidationError => "VALIDATION_ERROR",
        }
    }

    /// The code named `code`; an unknown name is an internal error.
    pub fn from_code(code: &str) -> (r: ApiErrorCode)
        ensures
            r == Self::spec_from_code(code@),
    {
        let c = code;
        if str_equals(c, "APP_ERROR") { ApiErrorCode::AppError }
        else if str_equals(c, "COMMON_ADDRESS_MISMATCH") { ApiErrorCode::CommonAddressMismatch }
        else if str_equals(c, "CONFLICT_ASDU_ALIAS") { ApiErrorCode::ConflictAsduAlias }
        else if str_equals(c, "CONFLICT_COA_DUPLICATE") { ApiErrorCode::ConflictCoaDuplicate }
        else if str_equals(c, "CONFLICT_IOA_DUPLICATE") { ApiErrorCode::ConflictIoaDuplicate }
        else if str_equals(c, "CONFLICT_IOA_EXISTING") { ApiErrorCode::ConflictIoaExisting }
        else if str_equals(c, "CONNECTION_NOT_FOUND") { ApiErrorCode::ConnectionNotFound }
        else if str_equals(c, "DB_READ_FAILED") { ApiErrorCode::DbReadFailed }
        else if str_equals(c, "DB_TRANSACTION_FAILED") { ApiErrorCode::DbTransactionFailed }
        else if str_equals(c, "DB_WRITE_FAILED") { ApiErrorCode::DbWriteFailed }
        else if str_equals(c, "DUPLICATE_CONNECTION") { ApiErrorCode::DuplicateConnection }
        else if str_equals(c, "EMPTY_POINT_TABLE") { ApiErrorCode::EmptyPointTable }
        else if str_equals(c, "EXPORT_DIRECTORY_FAILED") { ApiErrorCode::ExportDirectoryFailed }
        else if str_equals(c, "EXPORT_WRITE_FAILED") { ApiErrorCode::ExportWriteFailed }
        else if str_equals(c, "FILE_TOO_LARGE") { ApiErrorCode::FileTooLarge }
        else if str_equals(c, "FILE_TRANSFER_BUSY") { ApiErrorCode::FileTransferBusy }
        else if str_equals(c, "FOREIGN_KEY_VIOLATION") { ApiErrorCode::ForeignKeyViolation }
        else if str_equals(c, "INVALID_ASDU_TYPE") { ApiErrorCode::InvalidAsduType }
        else if str_equals(c, "INVALID_EXPORT_DATA") { ApiErrorCode::InvalidExportData }
        else if str_equals(c, "INVALID_EXPORT_PATH") { ApiErrorCode::InvalidExportPath }
        else if str_equals(c, "INVALID_LOCALE") { ApiErrorCode::InvalidLocale }
        else if str_equals(c, "NOT_CONNECTED") { ApiErrorCode::NotConnected }
        else if str_equals(c, "POINT_TABLE_IMPORT_FAILED") { ApiErrorCode::PointTableImportFailed }
        else if str_equals(c, "PROFILE_NOT_FOUND") { ApiErrorCode::ProfileNotFound }
        else if str_equals(c, "PROTOCOL_STATE") { ApiErrorCode::ProtocolState }
        else if str_equals(c, "SLAVE_NOT_FOUND") { ApiErrorCode::SlaveNotFound }
        else if str_equals(c, "STATION_NAME_CONFLICT") { ApiErrorCode::StationNameConflict }
        else if str_equals(c, "STATION_NOT_FOUND") { ApiErrorCode::StationNotFound }
        else if str_equals(c, "STATION_STATUS_FAILED") { ApiErrorCode::StationStatusFailed }
        else if str_equals(c, "STATION_STOP_FAILED") { ApiErrorCode::StationStopFailed }
        else if str_equals(c, "TARGET_UNSUPPORTED_CONTROL_MAPPING") { ApiErrorCode::TargetUnsupportedControlMapping }
        else if str_equals(c, "UPLOAD_FILE_MISSING") { ApiErrorCode::UploadFileMissing }
        else if str_equals(c, "USER_SETTING_PARSE_FAILED") { ApiErrorCode::UserSettingParseFailed }
        else if str_equals(c, "VALIDATION_ERROR") { ApiErrorCode::ValidationError }
        else { ApiErrorCode::InternalError }
    }
}

/// An error the interface shows.
#[derive(Clone, Debug)]
pub struct ApiError {
    pub code: ApiErrorCode,
    pub message: String,
    pub detail: Option<String>,
    /// Named values the interface renders into a localized message.
    pub params: Option<Vec<(String, String)>>,
}

impl ApiError {
    /// An error with the code named `code`.
    pub fn new(code: &str, message: String) -> (r: Self)
        ensures
            r.code == ApiErrorCode::spec_from_code(code@),
            r.message == message,
            r.detail is None,
            r.params is None,
    {
        ApiError { code: ApiErrorCode::from_code(code), message, detail: None, params: None }
    }

    /// An error with the code named `code` and the named values `params`;
    /// an empty list leaves the error without any.
    pub fn with_params(code: &str, message: String, params: Vec<(String, String)>) -> (r: Self)
        ensures
            r.code == ApiErrorCode::spec_from_code(code@),
            r.message == message,
            r.detail is None,
            params@.len() == 0 ==> r.params is None,
            params@.len() > 0 ==> r.params == Some(params),
    {
        let p = if params.len() == 0 { None } else { Some(params) };
        ApiError { code: ApiErrorCode::from_code(code), message, detail: None, params: p }
    }

    /// A general application error.
    pub fn app(message: String) -> (r: Self)
        ensures
            r.code == ApiErrorCode::AppError,
            r.message == message,
            r.detail is None,
            r.params is None,
    {
        ApiError { code: ApiErrorCode::AppError, message, detail: None, params: None }
    }
}

/// The outcome of an IEC 104 command request.
#[derive(Clone, Debug)]
pub struct Iec104CommandResult {
    pub accepted: bool,
    pub trace_id: Option<String>,
    pub error_code: Option<Iec104ErrorCode>,
    pub error_message: Option<String>,
}

impl Iec104CommandResult {
    /// A command that was accepted under `trace_id`.
    pub fn accepted(trace_id: String) -> (r: Self)
        ensures
            r.accepted,
            r.trace_id == Some(trace_id),
            r.error_code is None,
            r.error_message is None,
    {
        Iec104CommandResult { accepted: true, trace_id: Some(trace_id), error_code: None, error_message: None }
    }

    /// A command that was refused.
    pub fn rejected(code: Iec104ErrorCode, error_message: String) -> (r: Self)
        ensures
            !r.accepted,
            r.trace_id is None,
            r.error_code == Some(code),
            r.error_message == Some(error_message),
    {
        Iec104CommandResult { accepted: false, trace_id: None, error_code: Some(code), error_message: Some(error_message) }
    }
}

/// Which application the backend serves.
#[derive(Clone, Copy, Debug, PartialEq, Eq, Structural)]
pub enum AppRole {
    Master,
    Slave,
}

impl AppRole {
    pub open spec fn spec_as_str(self) -> Seq<char> {
        match self {
            AppRole::Master => "master"@,
            AppRole::Slave => "slave"@,
        }
    }

    /// The role's name.
    pub fn as_str(self) -> (r: &'static str)
        ensures
            r@ == self.spec_as_str(),
    {
        match self {
            AppRole::Master => "master",
            AppRole::Slave => "slave",
        }
    }
}

/// The interface languages, first the default.
pub open spec fn spec_ui_language(locale: Seq<char>) -> Option<Seq<char>> {
    let t = trim_seq(locale);
    if t == "zh-CN"@ { Some("zh-CN"@) } else if t == "en-US"@ { Some("en-US"@) } else { None }
}

/// The supported interface language `locale` names once trimmed.
pub fn normalize_ui_language(locale: &str) -> (r: Option<&'static str>)
    ensures
        match spec_ui_language(locale@) {
            Some(l) => r matches Some(s) && s@ == l,
            None => r is None,
        },
{
    if trimmed_equals(locale, "zh-CN") {
        Some("zh-CN")
    } else if trimmed_equals(locale, "en-US") {
        Some("en-US")
    } else {
        None
    }
}

pub open spec fn spec_ioa_display_format(raw: Seq<char>) -> Option<Seq<char>> {
    let t = trim_seq(raw);
    if lower_eq(t, "dec"@) || lower_eq(t, "decimal"@) { Some("dec"@) }
    else if lower_eq(t, "hex"@) || lower_eq(t, "hexadecimal"@) { Some("hex"@) }
    else { None }
}

/// The display format of object addresses a setting names: decimal or hexadecimal.
pub fn normalize_slave_ioa_display_format(raw: &str) -> (r: Option<&'static str>)
    ensures
        match spec_ioa_display_format(raw@) {
            Some(f) => r matches Some(s) && s@ == f,
            None => r is None,
        },
{
    if trimmed_lower_equals(raw, "dec") || trimmed_lower_equals(raw, "decimal") {
        Some("dec")
    } else if trimmed_lower_equals(raw, "hex") || trimmed_lower_equals(raw, "hexadecimal") {
        Some("hex")
    } else {
        None
    }
}

/// The settings key of the slaves' object address display format.
pub const SLAVE_GLOBAL_IOA_DISPLAY_FORMAT_KEY: &'static str = "slave.global.ioa_display_format";

/// The settings category of slave-wide preferences.
pub const SLAVE_SETTING_CATEGORY: &'static str = "slave";

/// An application error whose message is `m`.
pub open spec fn is_app_error(e: ApiError, m: Seq<char>) -> bool {
    e.code == ApiErrorCode::AppError && e.message@ == m && e.detail is None && e.params is None
}

/// The object address display format from what the settings store answered:
/// decimal where none is stored; a stored value that does not parse as a
/// JSON string or names no format, and a failed read, are reported.
pub fn read_slave_ioa_display_format(stored: Result<Option<String>, String>) -> (r: Result<String, ApiError>)
    ensures
        match stored {
            Err(e) => r matches Err(err) && is_app_error(err, "读取 IOA 地址显示格式失败: "@ + e@),
            Ok(None) => r matches Ok(f) && f@ == "dec"@,
            Ok(Some(raw)) => {
                &&& match json_string_parsed(raw@) {
                    Err(e) => r matches Err(err) && is_app_error(err, "解析 IOA 地址显示格式失败: "@ + e),
                    Ok(value) => match spec_ioa_display_format(value) {
                        Some(f) => r matches Ok(t) && t@ == f,
                        None => r matches Err(err) && is_app_error(err, "IOA 地址显示格式无效: "@ + value),
                    },
                }
                &&& json_plain_quoted(raw@) ==> json_string_parsed(raw@) is Ok
                    && json_string_parsed(raw@)->Ok_0 == json_unquoted(raw@)
            },
        },
{
    match stored {
        Err(e) => Err(ApiError::app(String::from_str("读取 IOA 地址显示格式失败: ").concat(e.as_str()))),
        Ok(None) => Ok(String::from_str("dec")),
        Ok(Some(raw)) => match json_decode_string(raw.as_str()) {
            Err(e) => Err(ApiError::app(String::from_str("解析 IOA 地址显示格式失败: ").concat(e.as_str()))),
            Ok(value) => match normalize_slave_ioa_display_format(value.as_str()) {
                Some(f) => Ok(String::from_str(f)),
                None => Err(ApiError::app(String::from_str("IOA 地址显示格式无效: ").concat(value.as_str()))),
            },
        },
    }
}

/// The JSON value to store for a new object address display format, or the
/// refusal of a format that is not offered.
pub fn prepare_slave_ioa_display_format_value(format: &str) -> (r: Result<String, ApiError>)
    ensures
        match spec_ioa_display_format(format@) {
            None => r matches Err(err) && is_app_error(err, "不支持的 IOA 地址显示格式: "@ + format@),
            Some(f) => r matches Ok(v) && v@ == json_quoted(f),
        },
{
    match normalize_slave_ioa_display_format(format) {
        None => Err(ApiError::app(String::from_str("不支持的 IOA 地址显示格式: ").concat(format))),
        Some(f) => {
            proof {
                reveal_strlit("dec");
                reveal_strlit("hex");
                assert(json_plain("dec"@));
                assert(json_plain("hex"@));
                lemma_plain_text_unescaped(f@);
            }
            match json_encode_str(f) {
                Ok(raw) => Ok(raw),
                Err(err) => Err(ApiError::app(String::from_str("序列化 IOA 地址显示格式失败: ").concat(err.as_str()))),
            }
        },
    }
}

/// The answer to a write of the object address display format.
pub fn finish_slave_ioa_display_format_write(outcome: Result<(), String>) -> (r: Result<(), ApiError>)
    ensures
        match outcome {
            Ok(()) => r is Ok,
            Err(e) => r matches Err(err) && is_app_error(err, "保存 IOA 地址显示格式失败: "@ + e@),
        },
{
    match outcome {
        Ok(()) => Ok(()),
        Err(e) => Err(ApiError::app(String::from_str("保存 IOA 地址显示格式失败: ").concat(e.as_str()))),
    }
}

/// An offered display format, written as JSON, reads back as itself.
pub proof fn ioa_display_format_write_then_read(format: Seq<char>)
    requires
        spec_ioa_display_format(format) is Some,
    ensures
        json_plain_quoted(json_quoted(spec_ioa_display_format(format)->0)),
        spec_ioa_display_format(json_unquoted(json_quoted(spec_ioa_display_format(format)->0)))
            == spec_ioa_display_format(format),
{
    reveal_strlit("dec");
    reveal_strlit("hex");
    reveal_strlit("decimal");
    reveal_strlit("hexadecimal");
    let f = spec_ioa_display_format(format)->0;
    assert(json_unquoted(json_quoted(f)) =~= f);
    assert(json_plain(f));
    assert(trim_seq(f) == f);
}

/// The predicate "the message names the mapping's constraint".
pub open spec fn names_constraint(message: Seq<char>) -> spec_fn(DbConflictMapping) -> bool {
    |m: DbConflictMapping| contains_seq(message, m.constraint@)
}

/// A database constraint and the code and message its violation is shown with.
pub struct DbConflictMapping {
    pub constraint: &'static str,
    pub code: &'static str,
    pub display_message: &'static str,
}

/// Shows a database failure: the first mapping whose constraint the message
/// names decides; otherwise a transaction failure with the message behind `fallback_prefix`.
pub fn map_db_conflict_response(message: String, fallback_prefix: &str, conflicts: &Vec<DbConflictMapping>) -> (r: ApiError)
    ensures
        match crate::seqs::first_match(conflicts@, names_constraint(message@)) {
            Some(i) => r.code == ApiErrorCode::spec_from_code(conflicts@[i].code@) && r.message@ == conflicts@[i].display_message@,
            None => r.code == ApiErrorCode::DbTransactionFailed && r.message@ == fallback_prefix@ + ": "@ + message@,
        },
        r.detail is None,
        r.params is None,
{
    let ghost p = names_constraint(message@);
    let mut i: usize = 0;
    while i < conflicts.len()
        invariant
            i <= conflicts@.len(),
            p == names_constraint(message@),
            forall|j: int| 0 <= j < i ==> !p(#[trigger] conflicts@[j]),
        decreases conflicts@.len() - i,
    {
        let found = str_contains(message.as_str(), conflicts[i].constraint);
        assert(found == p(conflicts@[i as int]));
        if found {
            proof { crate::seqs::lemma_first_match(conflicts@, p, i as int); }
            return ApiError::new(conflicts[i].code, String::from_str(conflicts[i].display_message));
        }
        i = i + 1;
    }
    proof { crate::seqs::lemma_first_match(conflicts@, p, i as int); }
    ApiError { code: ApiErrorCode::DbTransactionFailed, message: join3(fallback_prefix, ": ", message.as_str()), detail: None, params: None }
}

/// How a file transfer request failed in the transfer layer.
#[derive(Clone, Debug)]
pub enum FileTransferFailure {
    NotConnected,
    /// The link or session refused the transfer.
    Protocol(String),
    /// The request itself was invalid.
    InvalidData(String),
    /// Anything else, by its message.
    Other(String),
}

/// The interface error of a failed file transfer request.
pub open spec fn spec_file_transfer_error(err: FileTransferFailure) -> (ApiErrorCode, Seq<char>) {
    match err {
        FileTransferFailure::NotConnected => (ApiErrorCode::NotConnected, "TCP 未建立，无法进行文件传输"@),
        FileTransferFailure::Protocol(m) => (
            if contains_seq(m@, "当前连接已有运行中的文件传输会话"@) { ApiErrorCode::FileTransferBusy } else { ApiErrorCode::ProtocolState },
            m@),
        FileTransferFailure::InvalidData(m) => (
            if contains_seq(m@, "读取上传文件失败"@) { ApiErrorCode::UploadFileMissing }
            else if contains_seq(m@, "超过上限"@) { ApiErrorCode::FileTooLarge }
            else { ApiErrorCode::ValidationError },
            m@),
        FileTransferFailure::Other(m) => (ApiErrorCode::InternalError, m@),
    }
}

/// Shows a failed file transfer request.
pub fn map_master_file_transfer_error(err: FileTransferFailure) -> (r: ApiError)
    ensures
        (r.code, r.message@) == spec_file_transfer_error(err),
        r.detail is None,
        r.params is None,
{
    match err {
        FileTransferFailure::NotConnected => ApiError {
            code: ApiErrorCode::NotConnected,
            message: String::from_str("TCP 未建立，无法进行文件传输"),
            detail: None,
            params: None,
        },
        FileTransferFailure::Protocol(message) => {
            let code = if str_contains(message.as_str(), "当前连接已有运行中的文件传输会话") {
                ApiErrorCode::FileTransferBusy
            } else {
                ApiErrorCode::ProtocolState
            };
            ApiError { code, message, detail: None, params: None }
        },
        FileTransferFailure::InvalidData(message) => {
            let code = if str_contains(message.as_str(), "读取上传文件失败") {
                ApiErrorCode::UploadFileMissing
            } else if str_contains(message.as_str(), "超过上限") {
                ApiErrorCode::FileTooLarge
            } else {
                ApiErrorCode::ValidationError
            };
            ApiError { code, message, detail: None, params: None }
        },
        FileTransferFailure::Other(message) => ApiError { code: ApiErrorCode::InternalError, message, detail: None, params: None },
    }
}

/// Capture file formats.
#[derive(Clone, Copy, Debug, PartialEq, Eq, Structural)]
pub enum CaptureFormat {
    Pcap,
    Pcapng,
}

/// Name and type of an exported capture file.
#[derive(Clone, Debug)]
pub struct CaptureExportMeta {
    pub format: CaptureFormat,
    pub file_name: String,
    pub mime_type: &'static str,
}

pub open spec fn spec_capture_file_name(role: Seq<char>, station_id: Seq<char>, connection_id: Option<Seq<char>>, stamp: Seq<char>, ext: Seq<char>) -> Seq<char> {
    match connection_id {
        Some(c) if c.len() > 0 => "iec104-"@ + role + "-"@ + station_id + "-"@ + c + "-"@ + stamp + "."@ + ext,
        _ => "iec104-"@ + role + "-"@ + station_id + "-"@ + stamp + "."@ + ext,
    }
}

/// Names an exported capture. `format_raw` is `pcap` or `pcapng` in any case
/// with surrounding whitespace; the role is `master` or `slave`; `stamp` is the
/// export time as `YYYYmmdd-HHMMSS`.
pub fn build_capture_export_meta(
    station_role: &str,
    station_id: &str,
    format_raw: &str,
    connection_id: Option<&str>,
    stamp: &str,
) -> (r: Result<CaptureExportMeta, String>)
    ensures
        ({
            let f = trim_seq(format_raw@);
            let fmt = if lower_eq(f, "pcap"@) { Some(CaptureFormat::Pcap) } else if lower_eq(f, "pcapng"@) { Some(CaptureFormat::Pcapng) } else { None };
            let role_ok = station_role@ == "master"@ || station_role@ == "slave"@;
            if fmt is None {
                r matches Err(m) && m@ == "不支持的格式（仅支持 pcap/pcapng）"@
            } else if !role_ok {
                r matches Err(m) && m@ == "不支持的站点角色"@
            } else {
                let ext = if fmt == Some(CaptureFormat::Pcap) { "pcap"@ } else { "pcapng"@ };
                &&& r matches Ok(meta)
                &&& meta.format == fmt->0
                &&& meta.mime_type@ == (if fmt == Some(CaptureFormat::Pcap) { "application/vnd.tcpdump.pcap"@ } else { "application/x-pcapng"@ })
                &&& meta.file_name@ == spec_capture_file_name(station_role@, station_id@,
                        match connection_id { Some(c) => Some(c@), None => None }, stamp@, ext)
            }
        }),
{
    let format = if trimmed_lower_equals(format_raw, "pcap") {
        CaptureFormat::Pcap
    } else if trimmed_lower_equals(format_raw, "pcapng") {
        CaptureFormat::Pcapng
    } else {
        return Err(String::from_str("不支持的格式（仅支持 pcap/pcapng）"));
    };
    if !(str_equals(station_role, "master") || str_equals(station_role, "slave")) {
        return Err(String::from_str("不支持的站点角色"));
    }
    let (ext, mime_type) = match format {
        CaptureFormat::Pcap => ("pcap", "application/vnd.tcpdump.pcap"),
        CaptureFormat::Pcapng => ("pcapng", "application/x-pcapng"),
    };
    let head = join3("iec104-", station_role, "-");
    let head = join2(head.as_str(), station_id);
    let with_conn = match connection_id {
        Some(conn) => {
            if conn.unicode_len() > 0 {
                let h = join3(head.as_str(), "-", conn);
                h
            } else {
                head
            }
        },
        None => head,
    };
    let tail = join3("-", stamp, ".");
    let name = join3(with_conn.as_str(), tail.as_str(), ext);
    Ok(CaptureExportMeta { format, file_name: name, mime_type })
}

/// Station kinds.
#[derive(Clone, Copy, Debug, PartialEq, Eq, Structural)]
pub enum StationType {
    Master,
    Slave,
}

/// Protocols a station speaks.
#[derive(Clone, Copy, Debug, PartialEq, Eq, Structural)]
pub enum StationProtocol {
    Iec104,
    Unsupported,
}

/// A station as the runtime knows it; the address is its IP text and port.
#[derive(Clone, Debug)]
pub struct StationConfig {
    pub id: String,
    pub name: String,
    pub station_type: StationType,
    pub host: String,
    pub port: u16,
    pub common_address: u16,
    pub enabled: bool,
}

/// A station as the interface shows it.
#[derive(Clone, Debug)]
pub struct StationConfigResponse {
    pub station_id: String,
    pub name: String,
    pub protocol: StationProtocol,
    pub station_type: String,
    pub host: String,
    pub port: u16,
    pub common_address: u16,
    pub enabled: bool,
}

/// The stations loaded at run time, by kind.
#[derive(Clone, Debug)]
pub struct AllStationsResponse {
    pub master_stations: Vec<String>,
    pub slave_stations: Vec<String>,
}

/// What the application says of itself.
#[derive(Clone, Debug)]
pub struct AppInfo {
    pub name: String,
    pub version: String,
    pub description: String,
    pub license: String,
    pub repository_url: String,
    pub issues_url: String,
    pub docs_url: Option<String>,
}

/// The application's information for a build of `version` under `license`
/// published at `repository_url`: issues and documentation live under the
/// repository.
pub fn app_info(version: &str, license: &str, repository_url: &str) -> (r: AppInfo)
    ensures
        r.name@ == "IEC104协议模拟器"@,
        r.version@ == version@,
        r.description@ == "专业的IEC104协议模拟器"@,
        r.license@ == license@,
        r.repository_url@ == repository_url@,
        r.issues_url@ == repository_url@ + "/issues"@,
        r.docs_url matches Some(d) && d@ == repository_url@ + "/tree/main/docs"@,
{
    AppInfo {
        name: String::from_str("IEC104协议模拟器"),
        version: String::from_str(version),
        description: String::from_str("专业的IEC104协议模拟器"),
        license: String::from_str(license),
        repository_url: String::from_str(repository_url),
        issues_url: join2(repository_url, "/issues"),
        docs_url: Some(join2(repository_url, "/tree/main/docs")),
    }
}

/// `r` shows the station configuration `config`.
pub open spec fn shows_station(r: StationConfigResponse, config: StationConfig) -> bool {
    &&& r.station_id == config.id
    &&& r.name == config.name
    &&& r.protocol == StationProtocol::Iec104
    &&& r.station_type@ == (match config.station_type { StationType::Master => "master"@, StationType::Slave => "slave"@ })
    &&& r.host == config.host
    &&& r.port == config.port
    &&& r.common_address == config.common_address
    &&& r.enabled == config.enabled
}

/// Shows a station configuration.
pub fn station_config_to_response(config: &StationConfig) -> (r: StationConfigResponse)
    ensures
        shows_station(r, *config),
{
    StationConfigResponse {
        station_id: config.id.clone(),
        name: config.name.clone(),
        protocol: StationProtocol::Iec104,
        station_type: match config.station_type {
            StationType::Master => String::from_str("master"),
            StationType::Slave => String::from_str("slave"),
        },
        host: config.host.clone(),
        port: config.port,
        common_address: config.common_address,
        enabled: config.enabled,
    }
}

/// A request to create a station.
#[derive(Clone, Debug)]
pub struct CreateStationRequest {
    pub name: String,
    pub protocol: StationProtocol,
    pub station_type: String,
    pub host: String,
    pub port: u16,
    pub common_address: u16,
    pub enabled: bool,
    pub point_template: Option<StationPointTemplate>,
}

/// A block of points a station template creates: the ASDU type's name, the
/// first address and how many consecutive addresses.
#[derive(Clone, Debug)]
pub struct StationPointTemplateObject {
    pub name: String,
    pub asdu_type: String,
    pub ioa_start: u32,
    pub ioa_count: u16,
}

/// The points a new station starts with.
#[derive(Clone, Debug)]
pub struct StationPointTemplate {
    pub use_default_template: bool,
    pub objects: Vec<StationPointTemplateObject>,
}

/// Builds the runtime configuration of a new station, under a fresh id. The
/// protocol must be IEC 104; the request must name
/// the expected station type (any case, surrounding whitespace allowed);
/// `address` is the request's host and port as parsed socket address
/// (its IP text and port) or why they do not form one.
pub fn build_station_config(request: CreateStationRequest, station_type: StationType, address: Result<(String, u16), String>) -> (r: Result<StationConfig, String>)
    ensures
        ({
            let expected = match station_type { StationType::Master => "master"@, StationType::Slave => "slave"@ };
            if request.protocol != StationProtocol::Iec104 {
                r matches Err(m) && m@ == "仅支持iec104"@
            } else if !lower_eq(trim_seq(request.station_type@), expected) {
                r matches Err(m) && m@ == "station_type 必须为 "@ + expected
            } else {
                match address {
                    Err(e) => r matches Err(m) && m@ == "无效的地址: "@ + e@,
                    Ok((host, port)) => r matches Ok(c) && c.name == request.name && c.station_type == station_type
                        && c.host == host && c.port == port && c.common_address == request.common_address
                        && c.enabled == request.enabled && crate::ids::uuid_v4_text(c.id@),
                }
            }
        }),
{
    if request.protocol != StationProtocol::Iec104 {
        return Err(String::from_str("仅支持iec104"));
    }
    let expected = match station_type {
        StationType::Master => "master",
        StationType::Slave => "slave",
    };
    if !trimmed_lower_equals(request.station_type.as_str(), expected) {
        return Err(join2("station_type 必须为 ", expected));
    }
    match address {
        Err(e) => Err(join2("无效的地址: ", e.as_str())),
        Ok((host, port)) => Ok(StationConfig {
            id: crate::ids::new_uuid(),
            name: request.name,
            station_type,
            host,
            port,
            common_address: request.common_address,
            enabled: request.enabled,
        }),
    }
}

/// A few characters and the length of a code name, enough to tell the
/// names of the error codes apart.
pub open spec fn code_key(name: Seq<char>) -> (nat, char, char, char) {
    (name.len(), name[0], name[name.len() - 4], name[9])
}

/// Parsing an error code's wire name gives the code back.
pub proof fn error_code_round_trip(code: ApiErrorCode)
    ensures
        ApiErrorCode::spec_from_code(code.spec_code()) == code,
{
    reveal_strlit("APP_ERROR");
    reveal_strlit("COMMON_ADDRESS_MISMATCH");
    reveal_strlit("CONFLICT_ASDU_ALIAS");
    reveal_strlit("CONFLICT_COA_DUPLICATE");
    reveal_strlit("CONFLICT_IOA_DUPLICATE");
    reveal_strlit("CONFLICT_IOA_EXISTING");
    reveal_strlit("CONNECTION_NOT_FOUND");
    reveal_strlit("DB_READ_FAILED");
    reveal_strlit("DB_TRANSACTION_FAILED");
    reveal_strlit("DB_WRITE_FAILED");
    reveal_strlit("DUPLICATE_CONNECTION");
    reveal_strlit("EMPTY_POINT_TABLE");
    reveal_strlit("EXPORT_DIRECTORY_FAILED");
    reveal_strlit("EXPORT_WRITE_FAILED");
    reveal_strlit("FILE_TOO_LARGE");
    reveal_strlit("FILE_TRANSFER_BUSY");
    reveal_strlit("FOREIGN_KEY_VIOLATION");
    reveal_strlit("INVALID_ASDU_TYPE");
    reveal_strlit("INVALID_EXPORT_DATA");
    reveal_strlit("INVALID_EXPORT_PATH");
    reveal_strlit("INVALID_LOCALE");
    reveal_strlit("NOT_CONNECTED");
    reveal_strlit("POINT_TABLE_IMPORT_FAILED");
    reveal_strlit("PROFILE_NOT_FOUND");
    reveal_strlit("PROTOCOL_STATE");
    reveal_strlit("SLAVE_NOT_FOUND");
    reveal_strlit("STATION_NAME_CONFLICT");
    reveal_strlit("STATION_NOT_FOUND");
    reveal_strlit("STATION_STATUS_FAILED");
    reveal_strlit("STATION_STOP_FAILED");
    reveal_strlit("TARGET_UNSUPPORTED_CONTROL_MAPPING");
    reveal_strlit("UPLOAD_FILE_MISSING");
    reveal_strlit("USER_SETTING_PARSE_FAILED");
    reveal_strlit("VALIDATION_ERROR");
    reveal_strlit("INTERNAL_ERROR");
    assert(code_key("APP_ERROR"@).0 == 9);
    assert(code_key("COMMON_ADDRESS_MISMATCH"@) == (23nat, 'C', 'A', 'D'));
    assert(code_key("CONFLICT_ASDU_ALIAS"@) == (19nat, 'C', 'L', 'A'));
    assert(code_key("CONFLICT_COA_DUPLICATE"@) == (22nat, 'C', 'C', 'C'));
    assert(code_key("CONFLICT_IOA_DUPLICATE"@) == (22nat, 'C', 'C', 'I'));
    assert(code_key("CONFLICT_IOA_EXISTING"@) == (21nat, 'C', 'T', 'I'));
    assert(code_key("CONNECTION_NOT_FOUND"@) == (20nat, 'C', 'O', 'N'));
    assert(code_key("DB_READ_FAILED"@) == (14nat, 'D', 'I', 'A'));
    assert(code_key("DB_TRANSACTION_FAILED"@) == (21nat, 'D', 'I', 'C'));
    assert(code_key("DB_WRITE_FAILED"@) == (15nat, 'D', 'I', 'F'));
    assert(code_key("DUPLICATE_CONNECTION"@) == (20nat, 'D', 'T', '_'));
    assert(code_key("EMPTY_POINT_TABLE"@) == (17nat, 'E', 'A', 'N'));
    assert(code_key("EXPORT_DIRECTORY_FAILED"@) == (23nat, 'E', 'I', 'R'));
    assert(code_key("EXPORT_WRITE_FAILED"@) == (19nat, 'E', 'I', 'I'));
    assert(code_key("FILE_TOO_LARGE"@) == (14nat, 'F', 'A', 'L'));
    assert(code_key("FILE_TRANSFER_BUSY"@) == (18nat, 'F', 'B', 'S'));
    assert(code_key("FOREIGN_KEY_VIOLATION"@) == (21nat, 'F', 'T', 'E'));
    assert(code_key("INVALID_ASDU_TYPE"@) == (17nat, 'I', 'T', 'S'));
    assert(code_key("INVALID_EXPORT_DATA"@) == (19nat, 'I', 'D', 'X'));
    assert(code_key("INVALID_EXPORT_PATH"@) == (19nat, 'I', 'P', 'X'));
    assert(code_key("INVALID_LOCALE"@) == (14nat, 'I', 'C', 'O'));
    assert(code_key("NOT_CONNECTED"@) == (13nat, 'N', 'C', 'C'));
    assert(code_key("POINT_TABLE_IMPORT_FAILED"@) == (25nat, 'P', 'I', 'L'));
    assert(code_key("PROFILE_NOT_FOUND"@) == (17nat, 'P', 'O', 'O'));
    assert(code_key("PROTOCOL_STATE"@) == (14nat, 'P', 'T', 'S'));
    assert(code_key("SLAVE_NOT_FOUND"@) == (15nat, 'S', 'O', '_'));
    assert(code_key("STATION_NAME_CONFLICT"@) == (21nat, 'S', 'L', 'A'));
    assert(code_key("STATION_NOT_FOUND"@) == (17nat, 'S', 'O', 'O'));
    assert(code_key("STATION_STATUS_FAILED"@) == (21nat, 'S', 'I', 'T'));
    assert(code_key("STATION_STOP_FAILED"@) == (19nat, 'S', 'I', 'T'));
    assert(code_key("TARGET_UNSUPPORTED_CONTROL_MAPPING"@) == (34nat, 'T', 'P', 'S'));
    assert(code_key("UPLOAD_FILE_MISSING"@) == (19nat, 'U', 'S', 'L'));
    assert(code_key("USER_SETTING_PARSE_FAILED"@) == (25nat, 'U', 'I', 'I'));
    assert(code_key("VALIDATION_ERROR"@) == (16nat, 'V', 'R', 'N'));
    assert(code_key("INTERNAL_ERROR"@) == (14nat, 'I', 'R', 'E'));
}

/// A row's id as rows are ordered by it: rows without an id come last.
pub open spec fn row_order_key(id: Option<i64>) -> i64 {
    match id { Some(v) => v, None => i64::MAX }
}

/// The index of the row with the lowest id (rows without an id count as the
/// largest id); of equal ids the first; none for no rows.
pub fn first_lowest_row_id(ids: &Vec<Option<i64>>) -> (r: Option<usize>)
    ensures
        ids@.len() == 0 ==> r is None,
        ids@.len() > 0 ==> (r matches Some(i) && i < ids@.len()
            && (forall|j: int| 0 <= j < ids@.len() ==> row_order_key(ids@[i as int]) <= row_order_key(#[trigger] ids@[j]))
            && (forall|j: int| 0 <= j < i ==> row_order_key(#[trigger] ids@[j]) > row_order_key(ids@[i as int]))),
{
    if ids.len() == 0 {
        return None;
    }
    let mut best: usize = 0;
    let mut best_key: i64 = match ids[0] { Some(v) => v, None => i64::MAX };
    let mut i: usize = 1;
    while i < ids.len()
        invariant
            1 <= i <= ids@.len(),
            best < i,
            best_key == row_order_key(ids@[best as int]),
            forall|j: int| 0 <= j < i ==> best_key <= row_order_key(#[trigger] ids@[j]),
            forall|j: int| 0 <= j < best ==> row_order_key(#[trigger] ids@[j]) > best_key,
        decreases ids@.len() - i,
    {
        let key = match ids[i] { Some(v) => v, None => i64::MAX };
        if key < best_key {
            best = i;
            best_key = key;
        }
        i = i + 1;
    }
    Some(best)
}

} // verus!
