//! Standard SCPI error/event codes and the error queue.
//!
//! Every code carries its SCPI error/event number and its standard message
//! (ASCII), see SCPI-99 21.8.

use vstd::prelude::*;
use std::collections::VecDeque;

pub mod arrayqueue;
pub use arrayqueue::ArrayErrorQueue;

verus! {

/// The standard error/event codes of SCPI-99 21.8 and IEEE 488.2.
///
/// Each variant carries its SCPI error/event number (see [`ErrorCode::get_code`])
/// and its standard message (see [`ErrorCode::get_message`]).
#[derive(Debug, PartialEq, Eq, Copy, Clone)]
pub enum ErrorCode {
    /// A device-defined error with its own number and message.
    Custom(i16, &'static [u8]),
    /// `0, "No error"`
    NoError,
    /// `-100, "Command error"`
    CommandError,
    /// `-101, "Invalid character"`
    InvalidCharacter,
    /// `-102, "Syntax error"`
    SyntaxError,
    /// `-103, "Invalid separator"`
    InvalidSeparator,
    /// `-104, "Data type error"`
    DataTypeError,
    /// `-105, "GET not allowed"`
    GetNotAllowed,
    /// `-108, "Parameter not allowed"`
    ParameterNotAllowed,
    /// `-109, "Missing parameter"`
    MissingParameter,
    /// `-110, "Command header error"`
    CommandHeaderError,
    /// `-111, "Header separator error"`
    HeaderSeparatorError,
    /// `-112, "Program mnemonic too long"`
    ProgramMnemonicTooLong,
    /// `-113, "Undefined header"`
    UndefinedHeader,
    /// `-114, "Header suffix out of range"`
    HeaderSuffixOutOfRange,
    /// `-115, "Unexpected number of parameters"`
    UnexpectedNumberOfParameters,
    /// `-120, "Numeric data error"`
    NumericDataError,
    /// `-121, "Invalid character in number"`
    InvalidCharacterInNumber,
    /// `-123, "Exponent too large"`
    ExponentTooLarge,
    /// `-124, "Too many digits"`
    TooManyDigits,
    /// `-128, "Numeric data not allowed"`
    NumericDataNotAllowed,
    /// `-130, "Suffix error"`
    SuffixError,
    /// `-131, "Invalid suffix"`
    InvalidSuffix,
    /// `-134, "Suffix too long"`
    SuffixTooLong,
    /// `-138, "Suffix not allowed"`
    SuffixNotAllowed,
    /// `-140, "Character data error"`
    CharacterDataError,
    /// `-141, "Invalid character data"`
    InvalidCharacterData,
    /// `-144, "Character data too long"`
    CharacterDataTooLong,
    /// `-148, "Character data not allowed"`
    CharacterDataNotAllowed,
    /// `-150, "String data error"`
    StringDataError,
    /// `-151, "Invalid string data"`
    InvalidStringData,
    /// `-158, "String data not allowed"`
    StringDataNotAllowed,
    /// `-160, "Block data error"`
    BlockDataError,
    /// `-161, "Invalid block data"`
    InvalidBlockData,
    /// `-168, "Block data not allowed"`
    BlockDataNotAllowed,
    /// `-170, "Expression error"`
    ExpressionError,
    /// `-171, "Invalid expression"`
    InvalidExpression,
    /// `-178, "Expression data not allowed"`
    ExpressionDataNotAllowed,
    /// `-180, "Macro error"`
    MacroError,
    /// `-181, "Invalid outside macro definition"`
    InvalidOutsideMacroDefinition,
    /// `-183, "Invalid inside macro definition"`
    InvalidInsideMacroDefinition,
    /// `-184, "Macro parameter error"`
    MacroParameterError,
    /// `-200, "Execution error"`
    ExecutionError,
    /// `-201, "Invalid while in local"`
    InvalidWhileInLocal,
    /// `-202, "Settings lost due to rtl"`
    SettingsLostDueToRTL,
    /// `-203, "Command protected"`
    CommandProtected,
    /// `-210, "Trigger error"`
    TriggerError,
    /// `-211, "Trigger ignored"`
    TriggerIgnored,
    /// `-212, "Arm ignored"`
    ArmIgnored,
    /// `-213, "Init ignored"`
    InitIgnored,
    /// `-214, "Trigger deadlock"`
    TriggerDeadlock,
    /// `-215, "Arm deadlock"`
    ArmDeadlock,
    /// `-220, "Parameter error"`
    ParameterError,
    /// `-221, "Settings conflict"`
    SettingsConflict,
    /// `-222, "Data out of range"`
    DataOutOfRange,
    /// `-223, "Too much data"`
    TooMuchData,
    /// `-224, "Illegal parameter value"`
    IllegalParameterValue,
    /// `-225, "Out of memory"`
    OutOfMemory,
    /// `-226, "Lists not same length"`
    ListsNotSameLength,
    /// `-230, "Data corrupt or stale"`
    DataCorruptOrStale,
    /// `-231, "Data questionable"`
    DataQuestionable,
    /// `-232, "Invalid format"`
    InvalidFormat,
    /// `-233, "Invalid version"`
    InvalidVersion,
    /// `-240, "Hardware error"`
    HardwareError,
    /// `-241, "Hardware missing"`
    HardwareMissing,
    /// `-250, "Mass storage error"`
    MassStorageError,
    /// `-251, "Missing mass storage"`
    MissingMassStorage,
    /// `-252, "Missing media"`
    MissingMedia,
    /// `-253, "Corrupt media"`
    CorruptMedia,
    /// `-254, "Media full"`
    MediaFull,
    /// `-255, "Directory full"`
    DirectoryFull,
    /// `-256, "Filename not found"`
    FileNameNotFound,
    /// `-257, "Filename error"`
    FileNameError,
    /// `-258, "Media protected"`
    MediaProtected,
    /// `-260, "Expression error"`
    ExecExpressionError,
    /// `-261, "Math error in expression"`
    MathErrorInExpression,
    /// `-270, "Macro error"`
    ExecMacroError,
    /// `-271, "Macro syntax error"`
    MacroSyntaxError,
    /// `-272, "Macro execution error"`
    MacroExecutionError,
    /// `-273, "Illegal macro label"`
    IllegalMacroLabel,
    /// `-274, "Macro parameter error"`
    ExecMacroParameterError,
    /// `-275, "Macro definition too long"`
    MacroDefinitionTooLong,
    /// `-276, "Macro recursion error"`
    MacroRecursionError,
    /// `-277, "Macro redefinition not allowed"`
    MacroRedefinitionNotAllowed,
    /// `-278, "Macro header not found"`
    MacroHeaderNotFound,
    /// `-280, "Program error"`
    ProgramError,
    /// `-281, "Cannot create program"`
    CannotCreateProgram,
    /// `-282, "Illegal program name"`
    IllegalProgramName,
    /// `-283, "Illegal variable name"`
    IllegalVariableName,
    /// `-284, "Program currently running"`
    ProgramCurrentlyRunning,
    /// `-285, "Program syntax error"`
    ProgramSyntaxError,
    /// `-286, "Program runtime error"`
    ProgramRuntimeError,
    /// `-290, "Memory use error"`
    MemoryUseError,
    /// `-291, "Out of memory"`
    UseOutOfMemory,
    /// `-292, "Referenced name does not exist"`
    ReferencedNameDoesNotExist,
    /// `-293, "Referenced name already exists"`
    ReferencedNameAlreadyExists,
    /// `-294, "Incompatible type"`
    IncompatibleType,
    /// `-300, "Device-specific error"`
    DeviceSpecificError,
    /// `-310, "System error"`
    SystemError,
    /// `-311, "Memory error"`
    MemoryError,
    /// `-312, "PUD memory lost"`
    PudMemoryLost,
    /// `-313, "Calibration memory lost"`
    CalibrationMemoryLost,
    /// `-314, "Save/recall memory lost"`
    SaveRecallMemoryLost,
    /// `-315, "Configuration memory lost"`
    ConfigurationMemoryLost,
    /// `-320, "Storage fault"`
    StorageFault,
    /// `-321, "Out of memory"`
    StOutOfMemory,
    /// `-330, "Self-test failed"`
    SelfTestFailed,
    /// `-340, "Calibration failed"`
    CalibrationFailed,
    /// `-350, "Queue overflow"`
    QueueOverflow,
    /// `-360, "Communication error"`
    CommunicationError,
    /// `-361, "Parity error in program message"`
    ParityErrorInProgramMessage,
    /// `-362, "Framing error in program message"`
    FramingErrorInProgramMessage,
    /// `-363, "Input buffer overrun"`
    InputBufferOverrun,
    /// `-365, "Time out error"`
    TimeOutError,
    /// `-400, "Query error"`
    QueryError,
    /// `-410, "Query INTERRUPTED"`
    QueryInterrupted,
    /// `-420, "Query UNTERMINATED"`
    QueryUnterminated,
    /// `-430, "Query DEADLOCKED"`
    QueryDeadlocked,
    /// `-440, "Query UNTERMINATED after indefinite response"`
    QueryUnterminatedAfterIndefiniteResponse,
    /// `-500, "Power on"`
    PowerOn,
    /// `-600, "User request"`
    UserRequest,
    /// `-700, "Request control"`
    RequestControl,
    /// `-800, "Operation complete"`
    OperationComplete,
}

impl ErrorCode {
    /// The error/event number of this code.
    pub open spec fn code(self) -> i16 {
        match self {
            ErrorCode::Custom(code, _) => code,
            ErrorCode::NoError => 0i16,
            ErrorCode::CommandError => -100i16,
            ErrorCode::InvalidCharacter => -101i16,
            ErrorCode::SyntaxError => -102i16,
            ErrorCode::InvalidSeparator => -103i16,
            ErrorCode::DataTypeError => -104i16,
            ErrorCode::GetNotAllowed => -105i16,
            ErrorCode::ParameterNotAllowed => -108i16,
            ErrorCode::MissingParameter => -109i16,
            ErrorCode::CommandHeaderError => -110i16,
            ErrorCode::HeaderSeparatorError => -111i16,
            ErrorCode::ProgramMnemonicTooLong => -112i16,
            ErrorCode::UndefinedHeader => -113i16,
            ErrorCode::HeaderSuffixOutOfRange => -114i16,
            ErrorCode::UnexpectedNumberOfParameters => -115i16,
            ErrorCode::NumericDataError => -120i16,
            ErrorCode::InvalidCharacterInNumber => -121i16,
            ErrorCode::ExponentTooLarge => -123i16,
            ErrorCode::TooManyDigits => -124i16,
            ErrorCode::NumericDataNotAllowed => -128i16,
            ErrorCode::SuffixError => -130i16,
            ErrorCode::InvalidSuffix => -131i16,
            ErrorCode::SuffixTooLong => -134i16,
            ErrorCode::SuffixNotAllowed => -138i16,
            ErrorCode::CharacterDataError => -140i16,
            ErrorCode::InvalidCharacterData => -141i16,
            ErrorCode::CharacterDataTooLong => -144i16,
            ErrorCode::CharacterDataNotAllowed => -148i16,
            ErrorCode::StringDataError => -150i16,
            ErrorCode::InvalidStringData => -151i16,
            ErrorCode::StringDataNotAllowed => -158i16,
            ErrorCode::BlockDataError => -160i16,
            ErrorCode::InvalidBlockData => -161i16,
            ErrorCode::BlockDataNotAllowed => -168i16,
            ErrorCode::ExpressionError => -170i16,
            ErrorCode::InvalidExpression => -171i16,
            ErrorCode::ExpressionDataNotAllowed => -178i16,
            ErrorCode::MacroError => -180i16,
            ErrorCode::InvalidOutsideMacroDefinition => -181i16,
            ErrorCode::InvalidInsideMacroDefinition => -183i16,
            ErrorCode::MacroParameterError => -184i16,
            ErrorCode::ExecutionError => -200i16,
            ErrorCode::InvalidWhileInLocal => -201i16,
            ErrorCode::SettingsLostDueToRTL => -202i16,
            ErrorCode::CommandProtected => -203i16,
            ErrorCode::TriggerError => -210i16,
            ErrorCode::TriggerIgnored => -211i16,
            ErrorCode::ArmIgnored => -212i16,
            ErrorCode::InitIgnored => -213i16,
            ErrorCode::TriggerDeadlock => -214i16,
            ErrorCode::ArmDeadlock => -215i16,
            ErrorCode::ParameterError => -220i16,
            ErrorCode::SettingsConflict => -221i16,
            ErrorCode::DataOutOfRange => -222i16,
            ErrorCode::TooMuchData => -223i16,
            ErrorCode::IllegalParameterValue => -224i16,
            ErrorCode::OutOfMemory => -225i16,
            ErrorCode::ListsNotSameLength => -226i16,
            ErrorCode::DataCorruptOrStale => -230i16,
            ErrorCode::DataQuestionable => -231i16,
            ErrorCode::InvalidFormat => -232i16,
            ErrorCode::InvalidVersion => -233i16,
            ErrorCode::HardwareError => -240i16,
            ErrorCode::HardwareMissing => -241i16,
            ErrorCode::MassStorageError => -250i16,
            ErrorCode::MissingMassStorage => -251i16,
            ErrorCode::MissingMedia => -252i16,
            ErrorCode::CorruptMedia => -253i16,
            ErrorCode::MediaFull => -254i16,
            ErrorCode::DirectoryFull => -255i16,
            ErrorCode::FileNameNotFound => -256i16,
            ErrorCode::FileNameError => -257i16,
            ErrorCode::MediaProtected => -258i16,
            ErrorCode::ExecExpressionError => -260i16,
            ErrorCode::MathErrorInExpression => -261i16,
            ErrorCode::ExecMacroError => -270i16,
            ErrorCode::MacroSyntaxError => -271i16,
            ErrorCode::MacroExecutionError => -272i16,
            ErrorCode::IllegalMacroLabel => -273i16,
            ErrorCode::ExecMacroParameterError => -274i16,
            ErrorCode::MacroDefinitionTooLong => -275i16,
            ErrorCode::MacroRecursionError => -276i16,
            ErrorCode::MacroRedefinitionNotAllowed => -277i16,
            ErrorCode::MacroHeaderNotFound => -278i16,
            ErrorCode::ProgramError => -280i16,
            ErrorCode::CannotCreateProgram => -281i16,
            ErrorCode::IllegalProgramName => -282i16,
            ErrorCode::IllegalVariableName => -283i16,
            ErrorCode::ProgramCurrentlyRunning => -284i16,
            ErrorCode::ProgramSyntaxError => -285i16,
            ErrorCode::ProgramRuntimeError => -286i16,
            ErrorCode::MemoryUseError => -290i16,
            ErrorCode::UseOutOfMemory => -291i16,
            ErrorCode::ReferencedNameDoesNotExist => -292i16,
            ErrorCode::ReferencedNameAlreadyExists => -293i16,
            ErrorCode::IncompatibleType => -294i16,
            ErrorCode::DeviceSpecificError => -300i16,
            ErrorCode::SystemError => -310i16,
            ErrorCode::MemoryError => -311i16,
            ErrorCode::PudMemoryLost => -312i16,
            ErrorCode::CalibrationMemoryLost => -313i16,
            ErrorCode::SaveRecallMemoryLost => -314i16,
            ErrorCode::ConfigurationMemoryLost => -315i16,
            ErrorCode::StorageFault => -320i16,
            ErrorCode::StOutOfMemory => -321i16,
            ErrorCode::SelfTestFailed => -330i16,
            ErrorCode::CalibrationFailed => -340i16,
            ErrorCode::QueueOverflow => -350i16,
            ErrorCode::CommunicationError => -360i16,
            ErrorCode::ParityErrorInProgramMessage => -361i16,
            ErrorCode::FramingErrorInProgramMessage => -362i16,
            ErrorCode::InputBufferOverrun => -363i16,
            ErrorCode::TimeOutError => -365i16,
            ErrorCode::QueryError => -400i16,
            ErrorCode::QueryInterrupted => -410i16,
            ErrorCode::QueryUnterminated => -420i16,
            ErrorCode::QueryDeadlocked => -430i16,
            ErrorCode::QueryUnterminatedAfterIndefiniteResponse => -440i16,
            ErrorCode::PowerOn => -500i16,
            ErrorCode::UserRequest => -600i16,
            ErrorCode::RequestControl => -700i16,
            ErrorCode::OperationComplete => -800i16,
        }
    }

    /// The standard message of this code, as ASCII bytes.
    pub open spec fn message(self) -> Seq<u8> {
        match self {
            ErrorCode::Custom(_, msg) => msg@,
            // No error
            ErrorCode::NoError => seq![78u8, 111u8, 32u8, 101u8, 114u8, 114u8, 111u8, 114u8],
            // Command error
            ErrorCode::CommandError => seq![67u8, 111u8, 109u8, 109u8, 97u8, 110u8, 100u8, 32u8, 101u8, 114u8, 114u8, 111u8, 114u8],
            // Invalid character
            ErrorCode::InvalidCharacter => seq![73u8, 110u8, 118u8, 97u8, 108u8, 105u8, 100u8, 32u8, 99u8, 104u8, 97u8, 114u8, 97u8, 99u8, 116u8, 101u8, 114u8],
            // Syntax error
            ErrorCode::SyntaxError => seq![83u8, 121u8, 110u8, 116u8, 97u8, 120u8, 32u8, 101u8, 114u8, 114u8, 111u8, 114u8],
            // Invalid separator
            ErrorCode::InvalidSeparator => seq![73u8, 110u8, 118u8, 97u8, 108u8, 105u8, 100u8, 32u8, 115u8, 101u8, 112u8, 97u8, 114u8, 97u8, 116u8, 111u8, 114u8],
            // Data type error
            ErrorCode::DataTypeError => seq![68u8, 97u8, 116u8, 97u8, 32u8, 116u8, 121u8, 112u8, 101u8, 32u8, 101u8, 114u8, 114u8, 111u8, 114u8],
            // GET not allowed
            ErrorCode::GetNotAllowed => seq![71u8, 69u8, 84u8, 32u8, 110u8, 111u8, 116u8, 32u8, 97u8, 108u8, 108u8, 111u8, 119u8, 101u8, 100u8],
            // Parameter not allowed
            ErrorCode::ParameterNotAllowed => seq![80u8, 97u8, 114u8, 97u8, 109u8, 101u8, 116u8, 101u8, 114u8, 32u8, 110u8, 111u8, 116u8, 32u8, 97u8, 108u8, 108u8, 111u8, 119u8, 101u8, 100u8],
            // Missing parameter
            ErrorCode::MissingParameter => seq![77u8, 105u8, 115u8, 115u8, 105u8, 110u8, 103u8, 32u8, 112u8, 97u8, 114u8, 97u8, 109u8, 101u8, 116u8, 101u8, 114u8],
            // Command header error
            ErrorCode::CommandHeaderError => seq![67u8, 111u8, 109u8, 109u8, 97u8, 110u8, 100u8, 32u8, 104u8, 101u8, 97u8, 100u8, 101u8, 114u8, 32u8, 101u8, 114u8, 114u8, 111u8, 114u8],
            // Header separator error
            ErrorCode::HeaderSeparatorError => seq![72u8, 101u8, 97u8, 100u8, 101u8, 114u8, 32u8, 115u8, 101u8, 112u8, 97u8, 114u8, 97u8, 116u8, 111u8, 114u8, 32u8, 101u8, 114u8, 114u8, 111u8, 114u8],
            // Program mnemonic too long
            ErrorCode::ProgramMnemonicTooLong => seq![80u8, 114u8, 111u8, 103u8, 114u8, 97u8, 109u8, 32u8, 109u8, 110u8, 101u8, 109u8, 111u8, 110u8, 105u8, 99u8, 32u8, 116u8, 111u8, 111u8, 32u8, 108u8, 111u8, 110u8, 103u8],
            // Undefined header
            ErrorCode::UndefinedHeader => seq![85u8, 110u8, 100u8, 101u8, 102u8, 105u8, 110u8, 101u8, 100u8, 32u8, 104u8, 101u8, 97u8, 100u8, 101u8, 114u8],
            // Header suffix out of range
            ErrorCode::HeaderSuffixOutOfRange => seq![72u8, 101u8, 97u8, 100u8, 101u8, 114u8, 32u8, 115u8, 117u8, 102u8, 102u8, 105u8, 120u8, 32u8, 111u8, 117u8, 116u8, 32u8, 111u8, 102u8, 32u8, 114u8, 97u8, 110u8, 103u8, 101u8],
            // Unexpected number of parameters
            ErrorCode::UnexpectedNumberOfParameters => seq![85u8, 110u8, 101u8, 120u8, 112u8, 101u8, 99u8, 116u8, 101u8, 100u8, 32u8, 110u8, 117u8, 109u8, 98u8, 101u8, 114u8, 32u8, 111u8, 102u8, 32u8, 112u8, 97u8, 114u8, 97u8, 109u8, 101u8, 116u8, 101u8, 114u8, 115u8],
            // Numeric data error
            ErrorCode::NumericDataError => seq![78u8, 117u8, 109u8, 101u8, 114u8, 105u8, 99u8, 32u8, 100u8, 97u8, 116u8, 97u8, 32u8, 101u8, 114u8, 114u8, 111u8, 114u8],
            // Invalid character in number
            ErrorCode::InvalidCharacterInNumber => seq![73u8, 110u8, 118u8, 97u8, 108u8, 105u8, 100u8, 32u8, 99u8, 104u8, 97u8, 114u8, 97u8, 99u8, 116u8, 101u8, 114u8, 32u8, 105u8, 110u8, 32u8, 110u8, 117u8, 109u8, 98u8, 101u8, 114u8],
            // Exponent too large
            ErrorCode::ExponentTooLarge => seq![69u8, 120u8, 112u8, 111u8, 110u8, 101u8, 110u8, 116u8, 32u8, 116u8, 111u8, 111u8, 32u8, 108u8, 97u8, 114u8, 103u8, 101u8],
            // Too many digits
            ErrorCode::TooManyDigits => seq![84u8, 111u8, 111u8, 32u8, 109u8, 97u8, 110u8, 121u8, 32u8, 100u8, 105u8, 103u8, 105u8, 116u8, 115u8],
            // Numeric data not allowed
            ErrorCode::NumericDataNotAllowed => seq![78u8, 117u8, 109u8, 101u8, 114u8, 105u8, 99u8, 32u8, 100u8, 97u8, 116u8, 97u8, 32u8, 110u8, 111u8, 116u8, 32u8, 97u8, 108u8, 108u8, 111u8, 119u8, 101u8, 100u8],
            // Suffix error
            ErrorCode::SuffixError => seq![83u8, 117u8, 102u8, 102u8, 105u8, 120u8, 32u8, 101u8, 114u8, 114u8, 111u8, 114u8],
            // Invalid suffix
            ErrorCode::InvalidSuffix => seq![73u8, 110u8, 118u8, 97u8, 108u8, 105u8, 100u8, 32u8, 115u8, 117u8, 102u8, 102u8, 105u8, 120u8],
            // Suffix too long
            ErrorCode::SuffixTooLong => seq![83u8, 117u8, 102u8, 102u8, 105u8, 120u8, 32u8, 116u8, 111u8, 111u8, 32u8, 108u8, 111u8, 110u8, 103u8],
            // Suffix not allowed
            ErrorCode::SuffixNotAllowed => seq![83u8, 117u8, 102u8, 102u8, 105u8, 120u8, 32u8, 110u8, 111u8, 116u8, 32u8, 97u8, 108u8, 108u8, 111u8, 119u8, 101u8, 100u8],
            // Character data error
            ErrorCode::CharacterDataError => seq![67u8, 104u8, 97u8, 114u8, 97u8, 99u8, 116u8, 101u8, 114u8, 32u8, 100u8, 97u8, 116u8, 97u8, 32u8, 101u8, 114u8, 114u8, 111u8, 114u8],
            // Invalid character data
            ErrorCode::InvalidCharacterData => seq![73u8, 110u8, 118u8, 97u8, 108u8, 105u8, 100u8, 32u8, 99u8, 104u8, 97u8, 114u8, 97u8, 99u8, 116u8, 101u8, 114u8, 32u8, 100u8, 97u8, 116u8, 97u8],
            // Character data too long
            ErrorCode::CharacterDataTooLong => seq![67u8, 104u8, 97u8, 114u8, 97u8, 99u8, 116u8, 101u8, 114u8, 32u8, 100u8, 97u8, 116u8, 97u8, 32u8, 116u8, 111u8, 111u8, 32u8, 108u8, 111u8, 110u8, 103u8],
            // Character data not allowed
            ErrorCode::CharacterDataNotAllowed => seq![67u8, 104u8, 97u8, 114u8, 97u8, 99u8, 116u8, 101u8, 114u8, 32u8, 100u8, 97u8, 116u8, 97u8, 32u8, 110u8, 111u8, 116u8, 32u8, 97u8, 108u8, 108u8, 111u8, 119u8, 101u8, 100u8],
            // String data error
            ErrorCode::StringDataError => seq![83u8, 116u8, 114u8, 105u8, 110u8, 103u8, 32u8, 100u8, 97u8, 116u8, 97u8, 32u8, 101u8, 114u8, 114u8, 111u8, 114u8],
            // Invalid string data
            ErrorCode::InvalidStringData => seq![73u8, 110u8, 118u8, 97u8, 108u8, 105u8, 100u8, 32u8, 115u8, 116u8, 114u8, 105u8, 110u8, 103u8, 32u8, 100u8, 97u8, 116u8, 97u8],
            // String data not allowed
            ErrorCode::StringDataNotAllowed => seq![83u8, 116u8, 114u8, 105u8, 110u8, 103u8, 32u8, 100u8, 97u8, 116u8, 97u8, 32u8, 110u8, 111u8, 116u8, 32u8, 97u8, 108u8, 108u8, 111u8, 119u8, 101u8, 100u8],
            // Block data error
            ErrorCode::BlockDataError => seq![66u8, 108u8, 111u8, 99u8, 107u8, 32u8, 100u8, 97u8, 116u8, 97u8, 32u8, 101u8, 114u8, 114u8, 111u8, 114u8],
            // Invalid block data
            ErrorCode::InvalidBlockData => seq![73u8, 110u8, 118u8, 97u8, 108u8, 105u8, 100u8, 32u8, 98u8, 108u8, 111u8, 99u8, 107u8, 32u8, 100u8, 97u8, 116u8, 97u8],
            // Block data not allowed
            ErrorCode::BlockDataNotAllowed => seq![66u8, 108u8, 111u8, 99u8, 107u8, 32u8, 100u8, 97u8, 116u8, 97u8, 32u8, 110u8, 111u8, 116u8, 32u8, 97u8, 108u8, 108u8, 111u8, 119u8, 101u8, 100u8],
            // Expression error
            ErrorCode::ExpressionError => seq![69u8, 120u8, 112u8, 114u8, 101u8, 115u8, 115u8, 105u8, 111u8, 110u8, 32u8, 101u8, 114u8, 114u8, 111u8, 114u8],
            // Invalid expression
            ErrorCode::InvalidExpression => seq![73u8, 110u8, 118u8, 97u8, 108u8, 105u8, 100u8, 32u8, 101u8, 120u8, 112u8, 114u8, 101u8, 115u8, 115u8, 105u8, 111u8, 110u8],
            // Expression data not allowed
            ErrorCode::ExpressionDataNotAllowed => seq![69u8, 120u8, 112u8, 114u8, 101u8, 115u8, 115u8, 105u8, 111u8, 110u8, 32u8, 100u8, 97u8, 116u8, 97u8, 32u8, 110u8, 111u8, 116u8, 32u8, 97u8, 108u8, 108u8, 111u8, 119u8, 101u8, 100u8],
            // Macro error
            ErrorCode::MacroError => seq![77u8, 97u8, 99u8, 114u8, 111u8, 32u8, 101u8, 114u8, 114u8, 111u8, 114u8],
            // Invalid outside macro definition
            ErrorCode::InvalidOutsideMacroDefinition => seq![73u8, 110u8, 118u8, 97u8, 108u8, 105u8, 100u8, 32u8, 111u8, 117u8, 116u8, 115u8, 105u8, 100u8, 101u8, 32u8, 109u8, 97u8, 99u8, 114u8, 111u8, 32u8, 100u8, 101u8, 102u8, 105u8, 110u8, 105u8, 116u8, 105u8, 111u8, 110u8],
            // Invalid inside macro definition
            ErrorCode::InvalidInsideMacroDefinition => seq![73u8, 110u8, 118u8, 97u8, 108u8, 105u8, 100u8, 32u8, 105u8, 110u8, 115u8, 105u8, 100u8, 101u8, 32u8, 109u8, 97u8, 99u8, 114u8, 111u8, 32u8, 100u8, 101u8, 102u8, 105u8, 110u8, 105u8, 116u8, 105u8, 111u8, 110u8],
            // Macro parameter error
            ErrorCode::MacroParameterError => seq![77u8, 97u8, 99u8, 114u8, 111u8, 32u8, 112u8, 97u8, 114u8, 97u8, 109u8, 101u8, 116u8, 101u8, 114u8, 32u8, 101u8, 114u8, 114u8, 111u8, 114u8],
            // Execution error
            ErrorCode::ExecutionError => seq![69u8, 120u8, 101u8, 99u8, 117u8, 116u8, 105u8, 111u8, 110u8, 32u8, 101u8, 114u8, 114u8, 111u8, 114u8],
            // Invalid while in local
            ErrorCode::InvalidWhileInLocal => seq![73u8, 110u8, 118u8, 97u8, 108u8, 105u8, 100u8, 32u8, 119u8, 104u8, 105u8, 108u8, 101u8, 32u8, 105u8, 110u8, 32u8, 108u8, 111u8, 99u8, 97u8, 108u8],
            // Settings lost due to rtl
            ErrorCode::SettingsLostDueToRTL => seq![83u8, 101u8, 116u8, 116u8, 105u8, 110u8, 103u8, 115u8, 32u8, 108u8, 111u8, 115u8, 116u8, 32u8, 100u8, 117u8, 101u8, 32u8, 116u8, 111u8, 32u8, 114u8, 116u8, 108u8],
            // Command protected
            ErrorCode::CommandProtected => seq![67u8, 111u8, 109u8, 109u8, 97u8, 110u8, 100u8, 32u8, 112u8, 114u8, 111u8, 116u8, 101u8, 99u8, 116u8, 101u8, 100u8],
            // Trigger error
            ErrorCode::TriggerError => seq![84u8, 114u8, 105u8, 103u8, 103u8, 101u8, 114u8, 32u8, 101u8, 114u8, 114u8, 111u8, 114u8],
            // Trigger ignored
            ErrorCode::TriggerIgnored => seq![84u8, 114u8, 105u8, 103u8, 103u8, 101u8, 114u8, 32u8, 105u8, 103u8, 110u8, 111u8, 114u8, 101u8, 100u8],
            // Arm ignored
            ErrorCode::ArmIgnored => seq![65u8, 114u8, 109u8, 32u8, 105u8, 103u8, 110u8, 111u8, 114u8, 101u8, 100u8],
            // Init ignored
            ErrorCode::InitIgnored => seq![73u8, 110u8, 105u8, 116u8, 32u8, 105u8, 103u8, 110u8, 111u8, 114u8, 101u8, 100u8],
            // Trigger deadlock
            ErrorCode::TriggerDeadlock => seq![84u8, 114u8, 105u8, 103u8, 103u8, 101u8, 114u8, 32u8, 100u8, 101u8, 97u8, 100u8, 108u8, 111u8, 99u8, 107u8],
            // Arm deadlock
            ErrorCode::ArmDeadlock => seq![65u8, 114u8, 109u8, 32u8, 100u8, 101u8, 97u8, 100u8, 108u8, 111u8, 99u8, 107u8],
            // Parameter error
            ErrorCode::ParameterError => seq![80u8, 97u8, 114u8, 97u8, 109u8, 101u8, 116u8, 101u8, 114u8, 32u8, 101u8, 114u8, 114u8, 111u8, 114u8],
            // Settings conflict
            ErrorCode::SettingsConflict => seq![83u8, 101u8, 116u8, 116u8, 105u8, 110u8, 103u8, 115u8, 32u8, 99u8, 111u8, 110u8, 102u8, 108u8, 105u8, 99u8, 116u8],
            // Data out of range
            ErrorCode::DataOutOfRange => seq![68u8, 97u8, 116u8, 97u8, 32u8, 111u8, 117u8, 116u8, 32u8, 111u8, 102u8, 32u8, 114u8, 97u8, 110u8, 103u8, 101u8],
            // Too much data
            ErrorCode::TooMuchData => seq![84u8, 111u8, 111u8, 32u8, 109u8, 117u8, 99u8, 104u8, 32u8, 100u8, 97u8, 116u8, 97u8],
            // Illegal parameter value
            ErrorCode::IllegalParameterValue => seq![73u8, 108u8, 108u8, 101u8, 103u8, 97u8, 108u8, 32u8, 112u8, 97u8, 114u8, 97u8, 109u8, 101u8, 116u8, 101u8, 114u8, 32u8, 118u8, 97u8, 108u8, 117u8, 101u8],
            // Out of memory
            ErrorCode::OutOfMemory => seq![79u8, 117u8, 116u8, 32u8, 111u8, 102u8, 32u8, 109u8, 101u8, 109u8, 111u8, 114u8, 121u8],
            // Lists not same length
            ErrorCode::ListsNotSameLength => seq![76u8, 105u8, 115u8, 116u8, 115u8, 32u8, 110u8, 111u8, 116u8, 32u8, 115u8, 97u8, 109u8, 101u8, 32u8, 108u8, 101u8, 110u8, 103u8, 116u8, 104u8],
            // Data corrupt or stale
            ErrorCode::DataCorruptOrStale => seq![68u8, 97u8, 116u8, 97u8, 32u8, 99u8, 111u8, 114u8, 114u8, 117u8, 112u8, 116u8, 32u8, 111u8, 114u8, 32u8, 115u8, 116u8, 97u8, 108u8, 101u8],
            // Data questionable
            ErrorCode::DataQuestionable => seq![68u8, 97u8, 116u8, 97u8, 32u8, 113u8, 117u8, 101u8, 115u8, 116u8, 105u8, 111u8, 110u8, 97u8, 98u8, 108u8, 101u8],
            // Invalid format
            ErrorCode::InvalidFormat => seq![73u8, 110u8, 118u8, 97u8, 108u8, 105u8, 100u8, 32u8, 102u8, 111u8, 114u8, 109u8, 97u8, 116u8],
            // Invalid version
            ErrorCode::InvalidVersion => seq![73u8, 110u8, 118u8, 97u8, 108u8, 105u8, 100u8, 32u8, 118u8, 101u8, 114u8, 115u8, 105u8, 111u8, 110u8],
            // Hardware error
            ErrorCode::HardwareError => seq![72u8, 97u8, 114u8, 100u8, 119u8, 97u8, 114u8, 101u8, 32u8, 101u8, 114u8, 114u8, 111u8, 114u8],
            // Hardware missing
            ErrorCode::HardwareMissing => seq![72u8, 97u8, 114u8, 100u8, 119u8, 97u8, 114u8, 101u8, 32u8, 109u8, 105u8, 115u8, 115u8, 105u8, 110u8, 103u8],
            // Mass storage error
            ErrorCode::MassStorageError => seq![77u8, 97u8, 115u8, 115u8, 32u8, 115u8, 116u8, 111u8, 114u8, 97u8, 103u8, 101u8, 32u8, 101u8, 114u8, 114u8, 111u8, 114u8],
            // Missing mass storage
            ErrorCode::MissingMassStorage => seq![77u8, 105u8, 115u8, 115u8, 105u8, 110u8, 103u8, 32u8, 109u8, 97u8, 115u8, 115u8, 32u8, 115u8, 116u8, 111u8, 114u8, 97u8, 103u8, 101u8],
            // Missing media
            ErrorCode::MissingMedia => seq![77u8, 105u8, 115u8, 115u8, 105u8, 110u8, 103u8, 32u8, 109u8, 101u8, 100u8, 105u8, 97u8],
            // Corrupt media
            ErrorCode::CorruptMedia => seq![67u8, 111u8, 114u8, 114u8, 117u8, 112u8, 116u8, 32u8, 109u8, 101u8, 100u8, 105u8, 97u8],
            // Media full
            ErrorCode::MediaFull => seq![77u8, 101u8, 100u8, 105u8, 97u8, 32u8, 102u8, 117u8, 108u8, 108u8],
            // Directory full
            ErrorCode::DirectoryFull => seq![68u8, 105u8, 114u8, 101u8, 99u8, 116u8, 111u8, 114u8, 121u8, 32u8, 102u8, 117u8, 108u8, 108u8],
            // Filename not found
            ErrorCode::FileNameNotFound => seq![70u8, 105u8, 108u8, 101u8, 110u8, 97u8, 109u8, 101u8, 32u8, 110u8, 111u8, 116u8, 32u8, 102u8, 111u8, 117u8, 110u8, 100u8],
            // Filename error
            ErrorCode::FileNameError => seq![70u8, 105u8, 108u8, 101u8, 110u8, 97u8, 109u8, 101u8, 32u8, 101u8, 114u8, 114u8, 111u8, 114u8],
            // Media protected
            ErrorCode::MediaProtected => seq![77u8, 101u8, 100u8, 105u8, 97u8, 32u8, 112u8, 114u8, 111u8, 116u8, 101u8, 99u8, 116u8, 101u8, 100u8],
            // Expression error
            ErrorCode::ExecExpressionError => seq![69u8, 120u8, 112u8, 114u8, 101u8, 115u8, 115u8, 105u8, 111u8, 110u8, 32u8, 101u8, 114u8, 114u8, 111u8, 114u8],
            // Math error in expression
            ErrorCode::MathErrorInExpression => seq![77u8, 97u8, 116u8, 104u8, 32u8, 101u8, 114u8, 114u8, 111u8, 114u8, 32u8, 105u8, 110u8, 32u8, 101u8, 120u8, 112u8, 114u8, 101u8, 115u8, 115u8, 105u8, 111u8, 110u8],
            // Macro error
            ErrorCode::ExecMacroError => seq![77u8, 97u8, 99u8, 114u8, 111u8, 32u8, 101u8, 114u8, 114u8, 111u8, 114u8],
            // Macro syntax error
            ErrorCode::MacroSyntaxError => seq![77u8, 97u8, 99u8, 114u8, 111u8, 32u8, 115u8, 121u8, 110u8, 116u8, 97u8, 120u8, 32u8, 101u8, 114u8, 114u8, 111u8, 114u8],
            // Macro execution error
            ErrorCode::MacroExecutionError => seq![77u8, 97u8, 99u8, 114u8, 111u8, 32u8, 101u8, 120u8, 101u8, 99u8, 117u8, 116u8, 105u8, 111u8, 110u8, 32u8, 101u8, 114u8, 114u8, 111u8, 114u8],
            // Illegal macro label
            ErrorCode::IllegalMacroLabel => seq![73u8, 108u8, 108u8, 101u8, 103u8, 97u8, 108u8, 32u8, 109u8, 97u8, 99u8, 114u8, 111u8, 32u8, 108u8, 97u8, 98u8, 101u8, 108u8],
            // Macro parameter error
            ErrorCode::ExecMacroParameterError => seq![77u8, 97u8, 99u8, 114u8, 111u8, 32u8, 112u8, 97u8, 114u8, 97u8, 109u8, 101u8, 116u8, 101u8, 114u8, 32u8, 101u8, 114u8, 114u8, 111u8, 114u8],
            // Macro definition too long
            ErrorCode::MacroDefinitionTooLong => seq![77u8, 97u8, 99u8, 114u8, 111u8, 32u8, 100u8, 101u8, 102u8, 105u8, 110u8, 105u8, 116u8, 105u8, 111u8, 110u8, 32u8, 116u8, 111u8, 111u8, 32u8, 108u8, 111u8, 110u8, 103u8],
            // Macro recursion error
            ErrorCode::MacroRecursionError => seq![77u8, 97u8, 99u8, 114u8, 111u8, 32u8, 114u8, 101u8, 99u8, 117u8, 114u8, 115u8, 105u8, 111u8, 110u8, 32u8, 101u8, 114u8, 114u8, 111u8, 114u8],
            // Macro redefinition not allowed
            ErrorCode::MacroRedefinitionNotAllowed => seq![77u8, 97u8, 99u8, 114u8, 111u8, 32u8, 114u8, 101u8, 100u8, 101u8, 102u8, 105u8, 110u8, 105u8, 116u8, 105u8, 111u8, 110u8, 32u8, 110u8, 111u8, 116u8, 32u8, 97u8, 108u8, 108u8, 111u8, 119u8, 101u8, 100u8],
            // Macro header not found
            ErrorCode::MacroHeaderNotFound => seq![77u8, 97u8, 99u8, 114u8, 111u8, 32u8, 104u8, 101u8, 97u8, 100u8, 101u8, 114u8, 32u8, 110u8, 111u8, 116u8, 32u8, 102u8, 111u8, 117u8, 110u8, 100u8],
            // Program error
            ErrorCode::ProgramError => seq![80u8, 114u8, 111u8, 103u8, 114u8, 97u8, 109u8, 32u8, 101u8, 114u8, 114u8, 111u8, 114u8],
            // Cannot create program
            ErrorCode::CannotCreateProgram => seq![67u8, 97u8, 110u8, 110u8, 111u8, 116u8, 32u8, 99u8, 114u8, 101u8, 97u8, 116u8, 101u8, 32u8, 112u8, 114u8, 111u8, 103u8, 114u8, 97u8, 109u8],
            // Illegal program name
            ErrorCode::IllegalProgramName => seq![73u8, 108u8, 108u8, 101u8, 103u8, 97u8, 108u8, 32u8, 112u8, 114u8, 111u8, 103u8, 114u8, 97u8, 109u8, 32u8, 110u8, 97u8, 109u8, 101u8],
            // Illegal variable name
            ErrorCode::IllegalVariableName => seq![73u8, 108u8, 108u8, 101u8, 103u8, 97u8, 108u8, 32u8, 118u8, 97u8, 114u8, 105u8, 97u8, 98u8, 108u8, 101u8, 32u8, 110u8, 97u8, 109u8, 101u8],
            // Program currently running
            ErrorCode::ProgramCurrentlyRunning => seq![80u8, 114u8, 111u8, 103u8, 114u8, 97u8, 109u8, 32u8, 99u8, 117u8, 114u8, 114u8, 101u8, 110u8, 116u8, 108u8, 121u8, 32u8, 114u8, 117u8, 110u8, 110u8, 105u8, 110u8, 103u8],
            // Program syntax error
            ErrorCode::ProgramSyntaxError => seq![80u8, 114u8, 111u8, 103u8, 114u8, 97u8, 109u8, 32u8, 115u8, 121u8, 110u8, 116u8, 97u8, 120u8, 32u8, 101u8, 114u8, 114u8, 111u8, 114u8],
            // Program runtime error
            ErrorCode::ProgramRuntimeError => seq![80u8, 114u8, 111u8, 103u8, 114u8, 97u8, 109u8, 32u8, 114u8, 117u8, 110u8, 116u8, 105u8, 109u8, 101u8, 32u8, 101u8, 114u8, 114u8, 111u8, 114u8],
            // Memory use error
            ErrorCode::MemoryUseError => seq![77u8, 101u8, 109u8, 111u8, 114u8, 121u8, 32u8, 117u8, 115u8, 101u8, 32u8, 101u8, 114u8, 114u8, 111u8, 114u8],
            // Out of memory
            ErrorCode::UseOutOfMemory => seq![79u8, 117u8, 116u8, 32u8, 111u8, 102u8, 32u8, 109u8, 101u8, 109u8, 111u8, 114u8, 121u8],
            // Referenced name does not exist
            ErrorCode::ReferencedNameDoesNotExist => seq![82u8, 101u8, 102u8, 101u8, 114u8, 101u8, 110u8, 99u8, 101u8, 100u8, 32u8, 110u8, 97u8, 109u8, 101u8, 32u8, 100u8, 111u8, 101u8, 115u8, 32u8, 110u8, 111u8, 116u8, 32u8, 101u8, 120u8, 105u8, 115u8, 116u8],
            // Referenced name already exists
            ErrorCode::ReferencedNameAlreadyExists => seq![82u8, 101u8, 102u8, 101u8, 114u8, 101u8, 110u8, 99u8, 101u8, 100u8, 32u8, 110u8, 97u8, 109u8, 101u8, 32u8, 97u8, 108u8, 114u8, 101u8, 97u8, 100u8, 121u8, 32u8, 101u8, 120u8, 105u8, 115u8, 116u8, 115u8],
            // Incompatible type
            ErrorCode::IncompatibleType => seq![73u8, 110u8, 99u8, 111u8, 109u8, 112u8, 97u8, 116u8, 105u8, 98u8, 108u8, 101u8, 32u8, 116u8, 121u8, 112u8, 101u8],
            // Device-specific error
            ErrorCode::DeviceSpecificError => seq![68u8, 101u8, 118u8, 105u8, 99u8, 101u8, 45u8, 115u8, 112u8, 101u8, 99u8, 105u8, 102u8, 105u8, 99u8, 32u8, 101u8, 114u8, 114u8, 111u8, 114u8],
            // System error
            ErrorCode::SystemError => seq![83u8, 121u8, 115u8, 116u8, 101u8, 109u8, 32u8, 101u8, 114u8, 114u8, 111u8, 114u8],
            // Memory error
            ErrorCode::MemoryError => seq![77u8, 101u8, 109u8, 111u8, 114u8, 121u8, 32u8, 101u8, 114u8, 114u8, 111u8, 114u8],
            // PUD memory lost
            ErrorCode::PudMemoryLost => seq![80u8, 85u8, 68u8, 32u8, 109u8, 101u8, 109u8, 111u8, 114u8, 121u8, 32u8, 108u8, 111u8, 115u8, 116u8],
            // Calibration memory lost
            ErrorCode::CalibrationMemoryLost => seq![67u8, 97u8, 108u8, 105u8, 98u8, 114u8, 97u8, 116u8, 105u8, 111u8, 110u8, 32u8, 109u8, 101u8, 109u8, 111u8, 114u8, 121u8, 32u8, 108u8, 111u8, 115u8, 116u8],
            // Save/recall memory lost
            ErrorCode::SaveRecallMemoryLost => seq![83u8, 97u8, 118u8, 101u8, 47u8, 114u8, 101u8, 99u8, 97u8, 108u8, 108u8, 32u8, 109u8, 101u8, 109u8, 111u8, 114u8, 121u8, 32u8, 108u8, 111u8, 115u8, 116u8],
            // Configuration memory lost
            ErrorCode::ConfigurationMemoryLost => seq![67u8, 111u8, 110u8, 102u8, 105u8, 103u8, 117u8, 114u8, 97u8, 116u8, 105u8, 111u8, 110u8, 32u8, 109u8, 101u8, 109u8, 111u8, 114u8, 121u8, 32u8, 108u8, 111u8, 115u8, 116u8],
            // Storage fault
            ErrorCode::StorageFault => seq![83u8, 116u8, 111u8, 114u8, 97u8, 103u8, 101u8, 32u8, 102u8, 97u8, 117u8, 108u8, 116u8],
            // Out of memory
            ErrorCode::StOutOfMemory => seq![79u8, 117u8, 116u8, 32u8, 111u8, 102u8, 32u8, 109u8, 101u8, 109u8, 111u8, 114u8, 121u8],
            // Self-test failed
            ErrorCode::SelfTestFailed => seq![83u8, 101u8, 108u8, 102u8, 45u8, 116u8, 101u8, 115u8, 116u8, 32u8, 102u8, 97u8, 105u8, 108u8, 101u8, 100u8],
            // Calibration failed
            ErrorCode::CalibrationFailed => seq![67u8, 97u8, 108u8, 105u8, 98u8, 114u8, 97u8, 116u8, 105u8, 111u8, 110u8, 32u8, 102u8, 97u8, 105u8, 108u8, 101u8, 100u8],
            // Queue overflow
            ErrorCode::QueueOverflow => seq![81u8, 117u8, 101u8, 117u8, 101u8, 32u8, 111u8, 118u8, 101u8, 114u8, 102u8, 108u8, 111u8, 119u8],
            // Communication error
            ErrorCode::CommunicationError => seq![67u8, 111u8, 109u8, 109u8, 117u8, 110u8, 105u8, 99u8, 97u8, 116u8, 105u8, 111u8, 110u8, 32u8, 101u8, 114u8, 114u8, 111u8, 114u8],
            // Parity error in program message
            ErrorCode::ParityErrorInProgramMessage => seq![80u8, 97u8, 114u8, 105u8, 116u8, 121u8, 32u8, 101u8, 114u8, 114u8, 111u8, 114u8, 32u8, 105u8, 110u8, 32u8, 112u8, 114u8, 111u8, 103u8, 114u8, 97u8, 109u8, 32u8, 109u8, 101u8, 115u8, 115u8, 97u8, 103u8, 101u8],
            // Framing error in program message
            ErrorCode::FramingErrorInProgramMessage => seq![70u8, 114u8, 97u8, 109u8, 105u8, 110u8, 103u8, 32u8, 101u8, 114u8, 114u8, 111u8, 114u8, 32u8, 105u8, 110u8, 32u8, 112u8, 114u8, 111u8, 103u8, 114u8, 97u8, 109u8, 32u8, 109u8, 101u8, 115u8, 115u8, 97u8, 103u8, 101u8],
            // Input buffer overrun
            ErrorCode::InputBufferOverrun => seq![73u8, 110u8, 112u8, 117u8, 116u8, 32u8, 98u8, 117u8, 102u8, 102u8, 101u8, 114u8, 32u8, 111u8, 118u8, 101u8, 114u8, 114u8, 117u8, 110u8],
            // Time out error
            ErrorCode::TimeOutError => seq![84u8, 105u8, 109u8, 101u8, 32u8, 111u8, 117u8, 116u8, 32u8, 101u8, 114u8, 114u8, 111u8, 114u8],
            // Query error
            ErrorCode::QueryError => seq![81u8, 117u8, 101u8, 114u8, 121u8, 32u8, 101u8, 114u8, 114u8, 111u8, 114u8],
            // Query INTERRUPTED
            ErrorCode::QueryInterrupted => seq![81u8, 117u8, 101u8, 114u8, 121u8, 32u8, 73u8, 78u8, 84u8, 69u8, 82u8, 82u8, 85u8, 80u8, 84u8, 69u8, 68u8],
            // Query UNTERMINATED
            ErrorCode::QueryUnterminated => seq![81u8, 117u8, 101u8, 114u8, 121u8, 32u8, 85u8, 78u8, 84u8, 69u8, 82u8, 77u8, 73u8, 78u8, 65u8, 84u8, 69u8, 68u8],
            // Query DEADLOCKED
            ErrorCode::QueryDeadlocked => seq![81u8, 117u8, 101u8, 114u8, 121u8, 32u8, 68u8, 69u8, 65u8, 68u8, 76u8, 79u8, 67u8, 75u8, 69u8, 68u8],
            // Query UNTERMINATED after indefinite response
            ErrorCode::QueryUnterminatedAfterIndefiniteResponse => seq![81u8, 117u8, 101u8, 114u8, 121u8, 32u8, 85u8, 78u8, 84u8, 69u8, 82u8, 77u8, 73u8, 78u8, 65u8, 84u8, 69u8, 68u8, 32u8, 97u8, 102u8, 116u8, 101u8, 114u8, 32u8, 105u8, 110u8, 100u8, 101u8, 102u8, 105u8, 110u8, 105u8, 116u8, 101u8, 32u8, 114u8, 101u8, 115u8, 112u8, 111u8, 110u8, 115u8, 101u8],
            // Power on
            ErrorCode::PowerOn => seq![80u8, 111u8, 119u8, 101u8, 114u8, 32u8, 111u8, 110u8],
            // User request
            ErrorCode::UserRequest => seq![85u8, 115u8, 101u8, 114u8, 32u8, 114u8, 101u8, 113u8, 117u8, 101u8, 115u8, 116u8],
            // Request control
            ErrorCode::RequestControl => seq![82u8, 101u8, 113u8, 117u8, 101u8, 115u8, 116u8, 32u8, 99u8, 111u8, 110u8, 116u8, 114u8, 111u8, 108u8],
            // Operation complete
            ErrorCode::OperationComplete => seq![79u8, 112u8, 101u8, 114u8, 97u8, 116u8, 105u8, 111u8, 110u8, 32u8, 99u8, 111u8, 109u8, 112u8, 108u8, 101u8, 116u8, 101u8],
        }
    }

    /// Returns the error/event number of this code.
    pub fn get_code(self) -> (code: i16)
        ensures
            code == self.code(),
    {
        match self {
            ErrorCode::Custom(code, _) => code,
            ErrorCode::NoError => 0i16,
            ErrorCode::CommandError => -100i16,
            ErrorCode::InvalidCharacter => -101i16,
            ErrorCode::SyntaxError => -102i16,
            ErrorCode::InvalidSeparator => -103i16,
            ErrorCode::DataTypeError => -104i16,
            ErrorCode::GetNotAllowed => -105i16,
            ErrorCode::ParameterNotAllowed => -108i16,
            ErrorCode::MissingParameter => -109i16,
            ErrorCode::CommandHeaderError => -110i16,
            ErrorCode::HeaderSeparatorError => -111i16,
            ErrorCode::ProgramMnemonicTooLong => -112i16,
            ErrorCode::UndefinedHeader => -113i16,
            ErrorCode::HeaderSuffixOutOfRange => -114i16,
            ErrorCode::UnexpectedNumberOfParameters => -115i16,
            ErrorCode::NumericDataError => -120i16,
            ErrorCode::InvalidCharacterInNumber => -121i16,
            ErrorCode::ExponentTooLarge => -123i16,
            ErrorCode::TooManyDigits => -124i16,
            ErrorCode::NumericDataNotAllowed => -128i16,
            ErrorCode::SuffixError => -130i16,
            ErrorCode::InvalidSuffix => -131i16,
            ErrorCode::SuffixTooLong => -134i16,
            ErrorCode::SuffixNotAllowed => -138i16,
            ErrorCode::CharacterDataError => -140i16,
            ErrorCode::InvalidCharacterData => -141i16,
            ErrorCode::CharacterDataTooLong => -144i16,
            ErrorCode::CharacterDataNotAllowed => -148i16,
            ErrorCode::StringDataError => -150i16,
            ErrorCode::InvalidStringData => -151i16,
            ErrorCode::StringDataNotAllowed => -158i16,
            ErrorCode::BlockDataError => -160i16,
            ErrorCode::InvalidBlockData => -161i16,
            ErrorCode::BlockDataNotAllowed => -168i16,
            ErrorCode::ExpressionError => -170i16,
            ErrorCode::InvalidExpression => -171i16,
            ErrorCode::ExpressionDataNotAllowed => -178i16,
            ErrorCode::MacroError => -180i16,
            ErrorCode::InvalidOutsideMacroDefinition => -181i16,
            ErrorCode::InvalidInsideMacroDefinition => -183i16,
            ErrorCode::MacroParameterError => -184i16,
            ErrorCode::ExecutionError => -200i16,
            ErrorCode::InvalidWhileInLocal => -201i16,
            ErrorCode::SettingsLostDueToRTL => -202i16,
            ErrorCode::CommandProtected => -203i16,
            ErrorCode::TriggerError => -210i16,
            ErrorCode::TriggerIgnored => -211i16,
            ErrorCode::ArmIgnored => -212i16,
            ErrorCode::InitIgnored => -213i16,
            ErrorCode::TriggerDeadlock => -214i16,
            ErrorCode::ArmDeadlock => -215i16,
            ErrorCode::ParameterError => -220i16,
            ErrorCode::SettingsConflict => -221i16,
            ErrorCode::DataOutOfRange => -222i16,
            ErrorCode::TooMuchData => -223i16,
            ErrorCode::IllegalParameterValue => -224i16,
            ErrorCode::OutOfMemory => -225i16,
            ErrorCode::ListsNotSameLength => -226i16,
            ErrorCode::DataCorruptOrStale => -230i16,
            ErrorCode::DataQuestionable => -231i16,
            ErrorCode::InvalidFormat => -232i16,
            ErrorCode::InvalidVersion => -233i16,
            ErrorCode::HardwareError => -240i16,
            ErrorCode::HardwareMissing => -241i16,
            ErrorCode::MassStorageError => -250i16,
            ErrorCode::MissingMassStorage => -251i16,
            ErrorCode::MissingMedia => -252i16,
            ErrorCode::CorruptMedia => -253i16,
            ErrorCode::MediaFull => -254i16,
            ErrorCode::DirectoryFull => -255i16,
            ErrorCode::FileNameNotFound => -256i16,
            ErrorCode::FileNameError => -257i16,
            ErrorCode::MediaProtected => -258i16,
            ErrorCode::ExecExpressionError => -260i16,
            ErrorCode::MathErrorInExpression => -261i16,
            ErrorCode::ExecMacroError => -270i16,
            ErrorCode::MacroSyntaxError => -271i16,
            ErrorCode::MacroExecutionError => -272i16,
            ErrorCode::IllegalMacroLabel => -273i16,
            ErrorCode::ExecMacroParameterError => -274i16,
            ErrorCode::MacroDefinitionTooLong => -275i16,
            ErrorCode::MacroRecursionError => -276i16,
            ErrorCode::MacroRedefinitionNotAllowed => -277i16,
            ErrorCode::MacroHeaderNotFound => -278i16,
            ErrorCode::ProgramError => -280i16,
            ErrorCode::CannotCreateProgram => -281i16,
            ErrorCode::IllegalProgramName => -282i16,
            ErrorCode::IllegalVariableName => -283i16,
            ErrorCode::ProgramCurrentlyRunning => -284i16,
            ErrorCode::ProgramSyntaxError => -285i16,
            ErrorCode::ProgramRuntimeError => -286i16,
            ErrorCode::MemoryUseError => -290i16,
            ErrorCode::UseOutOfMemory => -291i16,
            ErrorCode::ReferencedNameDoesNotExist => -292i16,
            ErrorCode::ReferencedNameAlreadyExists => -293i16,
            ErrorCode::IncompatibleType => -294i16,
            ErrorCode::DeviceSpecificError => -300i16,
            ErrorCode::SystemError => -310i16,
            ErrorCode::MemoryError => -311i16,
            ErrorCode::PudMemoryLost => -312i16,
            ErrorCode::CalibrationMemoryLost => -313i16,
            ErrorCode::SaveRecallMemoryLost => -314i16,
            ErrorCode::ConfigurationMemoryLost => -315i16,
            ErrorCode::StorageFault => -320i16,
            ErrorCode::StOutOfMemory => -321i16,
            ErrorCode::SelfTestFailed => -330i16,
            ErrorCode::CalibrationFailed => -340i16,
            ErrorCode::QueueOverflow => -350i16,
            ErrorCode::CommunicationError => -360i16,
            ErrorCode::ParityErrorInProgramMessage => -361i16,
            ErrorCode::FramingErrorInProgramMessage => -362i16,
            ErrorCode::InputBufferOverrun => -363i16,
            ErrorCode::TimeOutError => -365i16,
            ErrorCode::QueryError => -400i16,
            ErrorCode::QueryInterrupted => -410i16,
            ErrorCode::QueryUnterminated => -420i16,
            ErrorCode::QueryDeadlocked => -430i16,
            ErrorCode::QueryUnterminatedAfterIndefiniteResponse => -440i16,
            ErrorCode::PowerOn => -500i16,
            ErrorCode::UserRequest => -600i16,
            ErrorCode::RequestControl => -700i16,
            ErrorCode::OperationComplete => -800i16,
        }
    }

    /// Returns the standard message of this code.
    pub fn get_message(self) -> (msg: &'static [u8])
        ensures
            msg@ == self.message(),
    {
        match self {
            ErrorCode::Custom(_, msg) => msg,
            // No error
            ErrorCode::NoError => &[78u8, 111u8, 32u8, 101u8, 114u8, 114u8, 111u8, 114u8],
            // Command error
            ErrorCode::CommandError => &[67u8, 111u8, 109u8, 109u8, 97u8, 110u8, 100u8, 32u8, 101u8, 114u8, 114u8, 111u8, 114u8],
            // Invalid character
            ErrorCode::InvalidCharacter => &[73u8, 110u8, 118u8, 97u8, 108u8, 105u8, 100u8, 32u8, 99u8, 104u8, 97u8, 114u8, 97u8, 99u8, 116u8, 101u8, 114u8],
            // Syntax error
            ErrorCode::SyntaxError => &[83u8, 121u8, 110u8, 116u8, 97u8, 120u8, 32u8, 101u8, 114u8, 114u8, 111u8, 114u8],
            // Invalid separator
            ErrorCode::InvalidSeparator => &[73u8, 110u8, 118u8, 97u8, 108u8, 105u8, 100u8, 32u8, 115u8, 101u8, 112u8, 97u8, 114u8, 97u8, 116u8, 111u8, 114u8],
            // Data type error
            ErrorCode::DataTypeError => &[68u8, 97u8, 116u8, 97u8, 32u8, 116u8, 121u8, 112u8, 101u8, 32u8, 101u8, 114u8, 114u8, 111u8, 114u8],
            // GET not allowed
            ErrorCode::GetNotAllowed => &[71u8, 69u8, 84u8, 32u8, 110u8, 111u8, 116u8, 32u8, 97u8, 108u8, 108u8, 111u8, 119u8, 101u8, 100u8],
            // Parameter not allowed
            ErrorCode::ParameterNotAllowed => &[80u8, 97u8, 114u8, 97u8, 109u8, 101u8, 116u8, 101u8, 114u8, 32u8, 110u8, 111u8, 116u8, 32u8, 97u8, 108u8, 108u8, 111u8, 119u8, 101u8, 100u8],
            // Missing parameter
            ErrorCode::MissingParameter => &[77u8, 105u8, 115u8, 115u8, 105u8, 110u8, 103u8, 32u8, 112u8, 97u8, 114u8, 97u8, 109u8, 101u8, 116u8, 101u8, 114u8],
            // Command header error
            ErrorCode::CommandHeaderError => &[67u8, 111u8, 109u8, 109u8, 97u8, 110u8, 100u8, 32u8, 104u8, 101u8, 97u8, 100u8, 101u8, 114u8, 32u8, 101u8, 114u8, 114u8, 111u8, 114u8],
            // Header separator error
            ErrorCode::HeaderSeparatorError => &[72u8, 101u8, 97u8, 100u8, 101u8, 114u8, 32u8, 115u8, 101u8, 112u8, 97u8, 114u8, 97u8, 116u8, 111u8, 114u8, 32u8, 101u8, 114u8, 114u8, 111u8, 114u8],
            // Program mnemonic too long
            ErrorCode::ProgramMnemonicTooLong => &[80u8, 114u8, 111u8, 103u8, 114u8, 97u8, 109u8, 32u8, 109u8, 110u8, 101u8, 109u8, 111u8, 110u8, 105u8, 99u8, 32u8, 116u8, 111u8, 111u8, 32u8, 108u8, 111u8, 110u8, 103u8],
            // Undefined header
            ErrorCode::UndefinedHeader => &[85u8, 110u8, 100u8, 101u8, 102u8, 105u8, 110u8, 101u8, 100u8, 32u8, 104u8, 101u8, 97u8, 100u8, 101u8, 114u8],
            // Header suffix out of range
            ErrorCode::HeaderSuffixOutOfRange => &[72u8, 101u8, 97u8, 100u8, 101u8, 114u8, 32u8, 115u8, 117u8, 102u8, 102u8, 105u8, 120u8, 32u8, 111u8, 117u8, 116u8, 32u8, 111u8, 102u8, 32u8, 114u8, 97u8, 110u8, 103u8, 101u8],
            // Unexpected number of parameters
            ErrorCode::UnexpectedNumberOfParameters => &[85u8, 110u8, 101u8, 120u8, 112u8, 101u8, 99u8, 116u8, 101u8, 100u8, 32u8, 110u8, 117u8, 109u8, 98u8, 101u8, 114u8, 32u8, 111u8, 102u8, 32u8, 112u8, 97u8, 114u8, 97u8, 109u8, 101u8, 116u8, 101u8, 114u8, 115u8],
            // Numeric data error
            ErrorCode::NumericDataError => &[78u8, 117u8, 109u8, 101u8, 114u8, 105u8, 99u8, 32u8, 100u8, 97u8, 116u8, 97u8, 32u8, 101u8, 114u8, 114u8, 111u8, 114u8],
            // Invalid character in number
            ErrorCode::InvalidCharacterInNumber => &[73u8, 110u8, 118u8, 97u8, 108u8, 105u8, 100u8, 32u8, 99u8, 104u8, 97u8, 114u8, 97u8, 99u8, 116u8, 101u8, 114u8, 32u8, 105u8, 110u8, 32u8, 110u8, 117u8, 109u8, 98u8, 101u8, 114u8],
            // Exponent too large
            ErrorCode::ExponentTooLarge => &[69u8, 120u8, 112u8, 111u8, 110u8, 101u8, 110u8, 116u8, 32u8, 116u8, 111u8, 111u8, 32u8, 108u8, 97u8, 114u8, 103u8, 101u8],
            // Too many digits
            ErrorCode::TooManyDigits => &[84u8, 111u8, 111u8, 32u8, 109u8, 97u8, 110u8, 121u8, 32u8, 100u8, 105u8, 103u8, 105u8, 116u8, 115u8],
            // Numeric data not allowed
            ErrorCode::NumericDataNotAllowed => &[78u8, 117u8, 109u8, 101u8, 114u8, 105u8, 99u8, 32u8, 100u8, 97u8, 116u8, 97u8, 32u8, 110u8, 111u8, 116u8, 32u8, 97u8, 108u8, 108u8, 111u8, 119u8, 101u8, 100u8],
            // Suffix error
            ErrorCode::SuffixError => &[83u8, 117u8, 102u8, 102u8, 105u8, 120u8, 32u8, 101u8, 114u8, 114u8, 111u8, 114u8],
            // Invalid suffix
            ErrorCode::InvalidSuffix => &[73u8, 110u8, 118u8, 97u8, 108u8, 105u8, 100u8, 32u8, 115u8, 117u8, 102u8, 102u8, 105u8, 120u8],
            // Suffix too long
            ErrorCode::SuffixTooLong => &[83u8, 117u8, 102u8, 102u8, 105u8, 120u8, 32u8, 116u8, 111u8, 111u8, 32u8, 108u8, 111u8, 110u8, 103u8],
            // Suffix not allowed
            ErrorCode::SuffixNotAllowed => &[83u8, 117u8, 102u8, 102u8, 105u8, 120u8, 32u8, 110u8, 111u8, 116u8, 32u8, 97u8, 108u8, 108u8, 111u8, 119u8, 101u8, 100u8],
            // Character data error
            ErrorCode::CharacterDataError => &[67u8, 104u8, 97u8, 114u8, 97u8, 99u8, 116u8, 101u8, 114u8, 32u8, 100u8, 97u8, 116u8, 97u8, 32u8, 101u8, 114u8, 114u8, 111u8, 114u8],
            // Invalid character data
            ErrorCode::InvalidCharacterData => &[73u8, 110u8, 118u8, 97u8, 108u8, 105u8, 100u8, 32u8, 99u8, 104u8, 97u8, 114u8, 97u8, 99u8, 116u8, 101u8, 114u8, 32u8, 100u8, 97u8, 116u8, 97u8],
            // Character data too long
            ErrorCode::CharacterDataTooLong => &[67u8, 104u8, 97u8, 114u8, 97u8, 99u8, 116u8, 101u8, 114u8, 32u8, 100u8, 97u8, 116u8, 97u8, 32u8, 116u8, 111u8, 111u8, 32u8, 108u8, 111u8, 110u8, 103u8],
            // Character data not allowed
            ErrorCode::CharacterDataNotAllowed => &[67u8, 104u8, 97u8, 114u8, 97u8, 99u8, 116u8, 101u8, 114u8, 32u8, 100u8, 97u8, 116u8, 97u8, 32u8, 110u8, 111u8, 116u8, 32u8, 97u8, 108u8, 108u8, 111u8, 119u8, 101u8, 100u8],
            // String data error
            ErrorCode::StringDataError => &[83u8, 116u8, 114u8, 105u8, 110u8, 103u8, 32u8, 100u8, 97u8, 116u8, 97u8, 32u8, 101u8, 114u8, 114u8, 111u8, 114u8],
            // Invalid string data
            ErrorCode::InvalidStringData => &[73u8, 110u8, 118u8, 97u8, 108u8, 105u8, 100u8, 32u8, 115u8, 116u8, 114u8, 105u8, 110u8, 103u8, 32u8, 100u8, 97u8, 116u8, 97u8],
            // String data not allowed
            ErrorCode::StringDataNotAllowed => &[83u8, 116u8, 114u8, 105u8, 110u8, 103u8, 32u8, 100u8, 97u8, 116u8, 97u8, 32u8, 110u8, 111u8, 116u8, 32u8, 97u8, 108u8, 108u8, 111u8, 119u8, 101u8, 100u8],
            // Block data error
            ErrorCode::BlockDataError => &[66u8, 108u8, 111u8, 99u8, 107u8, 32u8, 100u8, 97u8, 116u8, 97u8, 32u8, 101u8, 114u8, 114u8, 111u8, 114u8],
            // Invalid block data
            ErrorCode::InvalidBlockData => &[73u8, 110u8, 118u8, 97u8, 108u8, 105u8, 100u8, 32u8, 98u8, 108u8, 111u8, 99u8, 107u8, 32u8, 100u8, 97u8, 116u8, 97u8],
            // Block data not allowed
            ErrorCode::BlockDataNotAllowed => &[66u8, 108u8, 111u8, 99u8, 107u8, 32u8, 100u8, 97u8, 116u8, 97u8, 32u8, 110u8, 111u8, 116u8, 32u8, 97u8, 108u8, 108u8, 111u8, 119u8, 101u8, 100u8],
            // Expression error
            ErrorCode::ExpressionError => &[69u8, 120u8, 112u8, 114u8, 101u8, 115u8, 115u8, 105u8, 111u8, 110u8, 32u8, 101u8, 114u8, 114u8, 111u8, 114u8],
            // Invalid expression
            ErrorCode::InvalidExpression => &[73u8, 110u8, 118u8, 97u8, 108u8, 105u8, 100u8, 32u8, 101u8, 120u8, 112u8, 114u8, 101u8, 115u8, 115u8, 105u8, 111u8, 110u8],
            // Expression data not allowed
            ErrorCode::ExpressionDataNotAllowed => &[69u8, 120u8, 112u8, 114u8, 101u8, 115u8, 115u8, 105u8, 111u8, 110u8, 32u8, 100u8, 97u8, 116u8, 97u8, 32u8, 110u8, 111u8, 116u8, 32u8, 97u8, 108u8, 108u8, 111u8, 119u8, 101u8, 100u8],
            // Macro error
            ErrorCode::MacroError => &[77u8, 97u8, 99u8, 114u8, 111u8, 32u8, 101u8, 114u8, 114u8, 111u8, 114u8],
            // Invalid outside macro definition
            ErrorCode::InvalidOutsideMacroDefinition => &[73u8, 110u8, 118u8, 97u8, 108u8, 105u8, 100u8, 32u8, 111u8, 117u8, 116u8, 115u8, 105u8, 100u8, 101u8, 32u8, 109u8, 97u8, 99u8, 114u8, 111u8, 32u8, 100u8, 101u8, 102u8, 105u8, 110u8, 105u8, 116u8, 105u8, 111u8, 110u8],
            // Invalid inside macro definition
            ErrorCode::InvalidInsideMacroDefinition => &[73u8, 110u8, 118u8, 97u8, 108u8, 105u8, 100u8, 32u8, 105u8, 110u8, 115u8, 105u8, 100u8, 101u8, 32u8, 109u8, 97u8, 99u8, 114u8, 111u8, 32u8, 100u8, 101u8, 102u8, 105u8, 110u8, 105u8, 116u8, 105u8, 111u8, 110u8],
            // Macro parameter error
            ErrorCode::MacroParameterError => &[77u8, 97u8, 99u8, 114u8, 111u8, 32u8, 112u8, 97u8, 114u8, 97u8, 109u8, 101u8, 116u8, 101u8, 114u8, 32u8, 101u8, 114u8, 114u8, 111u8, 114u8],
            // Execution error
            ErrorCode::ExecutionError => &[69u8, 120u8, 101u8, 99u8, 117u8, 116u8, 105u8, 111u8, 110u8, 32u8, 101u8, 114u8, 114u8, 111u8, 114u8],
            // Invalid while in local
            ErrorCode::InvalidWhileInLocal => &[73u8, 110u8, 118u8, 97u8, 108u8, 105u8, 100u8, 32u8, 119u8, 104u8, 105u8, 108u8, 101u8, 32u8, 105u8, 110u8, 32u8, 108u8, 111u8, 99u8, 97u8, 108u8],
            // Settings lost due to rtl
            ErrorCode::SettingsLostDueToRTL => &[83u8, 101u8, 116u8, 116u8, 105u8, 110u8, 103u8, 115u8, 32u8, 108u8, 111u8, 115u8, 116u8, 32u8, 100u8, 117u8, 101u8, 32u8, 116u8, 111u8, 32u8, 114u8, 116u8, 108u8],
            // Command protected
            ErrorCode::CommandProtected => &[67u8, 111u8, 109u8, 109u8, 97u8, 110u8, 100u8, 32u8, 112u8, 114u8, 111u8, 116u8, 101u8, 99u8, 116u8, 101u8, 100u8],
            // Trigger error
            ErrorCode::TriggerError => &[84u8, 114u8, 105u8, 103u8, 103u8, 101u8, 114u8, 32u8, 101u8, 114u8, 114u8, 111u8, 114u8],
            // Trigger ignored
            ErrorCode::TriggerIgnored => &[84u8, 114u8, 105u8, 103u8, 103u8, 101u8, 114u8, 32u8, 105u8, 103u8, 110u8, 111u8, 114u8, 101u8, 100u8],
            // Arm ignored
            ErrorCode::ArmIgnored => &[65u8, 114u8, 109u8, 32u8, 105u8, 103u8, 110u8, 111u8, 114u8, 101u8, 100u8],
            // Init ignored
            ErrorCode::InitIgnored => &[73u8, 110u8, 105u8, 116u8, 32u8, 105u8, 103u8, 110u8, 111u8, 114u8, 101u8, 100u8],
            // Trigger deadlock
            ErrorCode::TriggerDeadlock => &[84u8, 114u8, 105u8, 103u8, 103u8, 101u8, 114u8, 32u8, 100u8, 101u8, 97u8, 100u8, 108u8, 111u8, 99u8, 107u8],
            // Arm deadlock
            ErrorCode::ArmDeadlock => &[65u8, 114u8, 109u8, 32u8, 100u8, 101u8, 97u8, 100u8, 108u8, 111u8, 99u8, 107u8],
            // Parameter error
            ErrorCode::ParameterError => &[80u8, 97u8, 114u8, 97u8, 109u8, 101u8, 116u8, 101u8, 114u8, 32u8, 101u8, 114u8, 114u8, 111u8, 114u8],
            // Settings conflict
            ErrorCode::SettingsConflict => &[83u8, 101u8, 116u8, 116u8, 105u8, 110u8, 103u8, 115u8, 32u8, 99u8, 111u8, 110u8, 102u8, 108u8, 105u8, 99u8, 116u8],
            // Data out of range
            ErrorCode::DataOutOfRange => &[68u8, 97u8, 116u8, 97u8, 32u8, 111u8, 117u8, 116u8, 32u8, 111u8, 102u8, 32u8, 114u8, 97u8, 110u8, 103u8, 101u8],
            // Too much data
            ErrorCode::TooMuchData => &[84u8, 111u8, 111u8, 32u8, 109u8, 117u8, 99u8, 104u8, 32u8, 100u8, 97u8, 116u8, 97u8],
            // Illegal parameter value
            ErrorCode::IllegalParameterValue => &[73u8, 108u8, 108u8, 101u8, 103u8, 97u8, 108u8, 32u8, 112u8, 97u8, 114u8, 97u8, 109u8, 101u8, 116u8, 101u8, 114u8, 32u8, 118u8, 97u8, 108u8, 117u8, 101u8],
            // Out of memory
            ErrorCode::OutOfMemory => &[79u8, 117u8, 116u8, 32u8, 111u8, 102u8, 32u8, 109u8, 101u8, 109u8, 111u8, 114u8, 121u8],
            // Lists not same length
            ErrorCode::ListsNotSameLength => &[76u8, 105u8, 115u8, 116u8, 115u8, 32u8, 110u8, 111u8, 116u8, 32u8, 115u8, 97u8, 109u8, 101u8, 32u8, 108u8, 101u8, 110u8, 103u8, 116u8, 104u8],
            // Data corrupt or stale
            ErrorCode::DataCorruptOrStale => &[68u8, 97u8, 116u8, 97u8, 32u8, 99u8, 111u8, 114u8, 114u8, 117u8, 112u8, 116u8, 32u8, 111u8, 114u8, 32u8, 115u8, 116u8, 97u8, 108u8, 101u8],
            // Data questionable
            ErrorCode::DataQuestionable => &[68u8, 97u8, 116u8, 97u8, 32u8, 113u8, 117u8, 101u8, 115u8, 116u8, 105u8, 111u8, 110u8, 97u8, 98u8, 108u8, 101u8],
            // Invalid format
            ErrorCode::InvalidFormat => &[73u8, 110u8, 118u8, 97u8, 108u8, 105u8, 100u8, 32u8, 102u8, 111u8, 114u8, 109u8, 97u8, 116u8],
            // Invalid version
            ErrorCode::InvalidVersion => &[73u8, 110u8, 118u8, 97u8, 108u8, 105u8, 100u8, 32u8, 118u8, 101u8, 114u8, 115u8, 105u8, 111u8, 110u8],
            // Hardware error
            ErrorCode::HardwareError => &[72u8, 97u8, 114u8, 100u8, 119u8, 97u8, 114u8, 101u8, 32u8, 101u8, 114u8, 114u8, 111u8, 114u8],
            // Hardware missing
            ErrorCode::HardwareMissing => &[72u8, 97u8, 114u8, 100u8, 119u8, 97u8, 114u8, 101u8, 32u8, 109u8, 105u8, 115u8, 115u8, 105u8, 110u8, 103u8],
            // Mass storage error
            ErrorCode::MassStorageError => &[77u8, 97u8, 115u8, 115u8, 32u8, 115u8, 116u8, 111u8, 114u8, 97u8, 103u8, 101u8, 32u8, 101u8, 114u8, 114u8, 111u8, 114u8],
            // Missing mass storage
            ErrorCode::MissingMassStorage => &[77u8, 105u8, 115u8, 115u8, 105u8, 110u8, 103u8, 32u8, 109u8, 97u8, 115u8, 115u8, 32u8, 115u8, 116u8, 111u8, 114u8, 97u8, 103u8, 101u8],
            // Missing media
            ErrorCode::MissingMedia => &[77u8, 105u8, 115u8, 115u8, 105u8, 110u8, 103u8, 32u8, 109u8, 101u8, 100u8, 105u8, 97u8],
            // Corrupt media
            ErrorCode::CorruptMedia => &[67u8, 111u8, 114u8, 114u8, 117u8, 112u8, 116u8, 32u8, 109u8, 101u8, 100u8, 105u8, 97u8],
            // Media full
            ErrorCode::MediaFull => &[77u8, 101u8, 100u8, 105u8, 97u8, 32u8, 102u8, 117u8, 108u8, 108u8],
            // Directory full
            ErrorCode::DirectoryFull => &[68u8, 105u8, 114u8, 101u8, 99u8, 116u8, 111u8, 114u8, 121u8, 32u8, 102u8, 117u8, 108u8, 108u8],
            // Filename not found
            ErrorCode::FileNameNotFound => &[70u8, 105u8, 108u8, 101u8, 110u8, 97u8, 109u8, 101u8, 32u8, 110u8, 111u8, 116u8, 32u8, 102u8, 111u8, 117u8, 110u8, 100u8],
            // Filename error
            ErrorCode::FileNameError => &[70u8, 105u8, 108u8, 101u8, 110u8, 97u8, 109u8, 101u8, 32u8, 101u8, 114u8, 114u8, 111u8, 114u8],
            // Media protected
            ErrorCode::MediaProtected => &[77u8, 101u8, 100u8, 105u8, 97u8, 32u8, 112u8, 114u8, 111u8, 116u8, 101u8, 99u8, 116u8, 101u8, 100u8],
            // Expression error
            ErrorCode::ExecExpressionError => &[69u8, 120u8, 112u8, 114u8, 101u8, 115u8, 115u8, 105u8, 111u8, 110u8, 32u8, 101u8, 114u8, 114u8, 111u8, 114u8],
            // Math error in expression
            ErrorCode::MathErrorInExpression => &[77u8, 97u8, 116u8, 104u8, 32u8, 101u8, 114u8, 114u8, 111u8, 114u8, 32u8, 105u8, 110u8, 32u8, 101u8, 120u8, 112u8, 114u8, 101u8, 115u8, 115u8, 105u8, 111u8, 110u8],
            // Macro error
            ErrorCode::ExecMacroError => &[77u8, 97u8, 99u8, 114u8, 111u8, 32u8, 101u8, 114u8, 114u8, 111u8, 114u8],
            // Macro syntax error
            ErrorCode::MacroSyntaxError => &[77u8, 97u8, 99u8, 114u8, 111u8, 32u8, 115u8, 121u8, 110u8, 116u8, 97u8, 120u8, 32u8, 101u8, 114u8, 114u8, 111u8, 114u8],
            // Macro execution error
            ErrorCode::MacroExecutionError => &[77u8, 97u8, 99u8, 114u8, 111u8, 32u8, 101u8, 120u8, 101u8, 99u8, 117u8, 116u8, 105u8, 111u8, 110u8, 32u8, 101u8, 114u8, 114u8, 111u8, 114u8],
            // Illegal macro label
            ErrorCode::IllegalMacroLabel => &[73u8, 108u8, 108u8, 101u8, 103u8, 97u8, 108u8, 32u8, 109u8, 97u8, 99u8, 114u8, 111u8, 32u8, 108u8, 97u8, 98u8, 101u8, 108u8],
            // Macro parameter error
            ErrorCode::ExecMacroParameterError => &[77u8, 97u8, 99u8, 114u8, 111u8, 32u8, 112u8, 97u8, 114u8, 97u8, 109u8, 101u8, 116u8, 101u8, 114u8, 32u8, 101u8, 114u8, 114u8, 111u8, 114u8],
            // Macro definition too long
            ErrorCode::MacroDefinitionTooLong => &[77u8, 97u8, 99u8, 114u8, 111u8, 32u8, 100u8, 101u8, 102u8, 105u8, 110u8, 105u8, 116u8, 105u8, 111u8, 110u8, 32u8, 116u8, 111u8, 111u8, 32u8, 108u8, 111u8, 110u8, 103u8],
            // Macro recursion error
            ErrorCode::MacroRecursionError => &[77u8, 97u8, 99u8, 114u8, 111u8, 32u8, 114u8, 101u8, 99u8, 117u8, 114u8, 115u8, 105u8, 111u8, 110u8, 32u8, 101u8, 114u8, 114u8, 111u8, 114u8],
            // Macro redefinition not allowed
            ErrorCode::MacroRedefinitionNotAllowed => &[77u8, 97u8, 99u8, 114u8, 111u8, 32u8, 114u8, 101u8, 100u8, 101u8, 102u8, 105u8, 110u8, 105u8, 116u8, 105u8, 111u8, 110u8, 32u8, 110u8, 111u8, 116u8, 32u8, 97u8, 108u8, 108u8, 111u8, 119u8, 101u8, 100u8],
            // Macro header not found
            ErrorCode::MacroHeaderNotFound => &[77u8, 97u8, 99u8, 114u8, 111u8, 32u8, 104u8, 101u8, 97u8, 100u8, 101u8, 114u8, 32u8, 110u8, 111u8, 116u8, 32u8, 102u8, 111u8, 117u8, 110u8, 100u8],
            // Program error
            ErrorCode::ProgramError => &[80u8, 114u8, 111u8, 103u8, 114u8, 97u8, 109u8, 32u8, 101u8, 114u8, 114u8, 111u8, 114u8],
            // Cannot create program
            ErrorCode::CannotCreateProgram => &[67u8, 97u8, 110u8, 110u8, 111u8, 116u8, 32u8, 99u8, 114u8, 101u8, 97u8, 116u8, 101u8, 32u8, 112u8, 114u8, 111u8, 103u8, 114u8, 97u8, 109u8],
            // Illegal program name
            ErrorCode::IllegalProgramName => &[73u8, 108u8, 108u8, 101u8, 103u8, 97u8, 108u8, 32u8, 112u8, 114u8, 111u8, 103u8, 114u8, 97u8, 109u8, 32u8, 110u8, 97u8, 109u8, 101u8],
            // Illegal variable name
            ErrorCode::IllegalVariableName => &[73u8, 108u8, 108u8, 101u8, 103u8, 97u8, 108u8, 32u8, 118u8, 97u8, 114u8, 105u8, 97u8, 98u8, 108u8, 101u8, 32u8, 110u8, 97u8, 109u8, 101u8],
            // Program currently running
            ErrorCode::ProgramCurrentlyRunning => &[80u8, 114u8, 111u8, 103u8, 114u8, 97u8, 109u8, 32u8, 99u8, 117u8, 114u8, 114u8, 101u8, 110u8, 116u8, 108u8, 121u8, 32u8, 114u8, 117u8, 110u8, 110u8, 105u8, 110u8, 103u8],
            // Program syntax error
            ErrorCode::ProgramSyntaxError => &[80u8, 114u8, 111u8, 103u8, 114u8, 97u8, 109u8, 32u8, 115u8, 121u8, 110u8, 116u8, 97u8, 120u8, 32u8, 101u8, 114u8, 114u8, 111u8, 114u8],
            // Program runtime error
            ErrorCode::ProgramRuntimeError => &[80u8, 114u8, 111u8, 103u8, 114u8, 97u8, 109u8, 32u8, 114u8, 117u8, 110u8, 116u8, 105u8, 109u8, 101u8, 32u8, 101u8, 114u8, 114u8, 111u8, 114u8],
            // Memory use error
            ErrorCode::MemoryUseError => &[77u8, 101u8, 109u8, 111u8, 114u8, 121u8, 32u8, 117u8, 115u8, 101u8, 32u8, 101u8, 114u8, 114u8, 111u8, 114u8],
            // Out of memory
            ErrorCode::UseOutOfMemory => &[79u8, 117u8, 116u8, 32u8, 111u8, 102u8, 32u8, 109u8, 101u8, 109u8, 111u8, 114u8, 121u8],
            // Referenced name does not exist
            ErrorCode::ReferencedNameDoesNotExist => &[82u8, 101u8, 102u8, 101u8, 114u8, 101u8, 110u8, 99u8, 101u8, 100u8, 32u8, 110u8, 97u8, 109u8, 101u8, 32u8, 100u8, 111u8, 101u8, 115u8, 32u8, 110u8, 111u8, 116u8, 32u8, 101u8, 120u8, 105u8, 115u8, 116u8],
            // Referenced name already exists
            ErrorCode::ReferencedNameAlreadyExists => &[82u8, 101u8, 102u8, 101u8, 114u8, 101u8, 110u8, 99u8, 101u8, 100u8, 32u8, 110u8, 97u8, 109u8, 101u8, 32u8, 97u8, 108u8, 114u8, 101u8, 97u8, 100u8, 121u8, 32u8, 101u8, 120u8, 105u8, 115u8, 116u8, 115u8],
            // Incompatible type
            ErrorCode::IncompatibleType => &[73u8, 110u8, 99u8, 111u8, 109u8, 112u8, 97u8, 116u8, 105u8, 98u8, 108u8, 101u8, 32u8, 116u8, 121u8, 112u8, 101u8],
            // Device-specific error
            ErrorCode::DeviceSpecificError => &[68u8, 101u8, 118u8, 105u8, 99u8, 101u8, 45u8, 115u8, 112u8, 101u8, 99u8, 105u8, 102u8, 105u8, 99u8, 32u8, 101u8, 114u8, 114u8, 111u8, 114u8],
            // System error
            ErrorCode::SystemError => &[83u8, 121u8, 115u8, 116u8, 101u8, 109u8, 32u8, 101u8, 114u8, 114u8, 111u8, 114u8],
            // Memory error
            ErrorCode::MemoryError => &[77u8, 101u8, 109u8, 111u8, 114u8, 121u8, 32u8, 101u8, 114u8, 114u8, 111u8, 114u8],
            // PUD memory lost
            ErrorCode::PudMemoryLost => &[80u8, 85u8, 68u8, 32u8, 109u8, 101u8, 109u8, 111u8, 114u8, 121u8, 32u8, 108u8, 111u8, 115u8, 116u8],
            // Calibration memory lost
            ErrorCode::CalibrationMemoryLost => &[67u8, 97u8, 108u8, 105u8, 98u8, 114u8, 97u8, 116u8, 105u8, 111u8, 110u8, 32u8, 109u8, 101u8, 109u8, 111u8, 114u8, 121u8, 32u8, 108u8, 111u8, 115u8, 116u8],
            // Save/recall memory lost
            ErrorCode::SaveRecallMemoryLost => &[83u8, 97u8, 118u8, 101u8, 47u8, 114u8, 101u8, 99u8, 97u8, 108u8, 108u8, 32u8, 109u8, 101u8, 109u8, 111u8, 114u8, 121u8, 32u8, 108u8, 111u8, 115u8, 116u8],
            // Configuration memory lost
            ErrorCode::ConfigurationMemoryLost => &[67u8, 111u8, 110u8, 102u8, 105u8, 103u8, 117u8, 114u8, 97u8, 116u8, 105u8, 111u8, 110u8, 32u8, 109u8, 101u8, 109u8, 111u8, 114u8, 121u8, 32u8, 108u8, 111u8, 115u8, 116u8],
            // Storage fault
            ErrorCode::StorageFault => &[83u8, 116u8, 111u8, 114u8, 97u8, 103u8, 101u8, 32u8, 102u8, 97u8, 117u8, 108u8, 116u8],
            // Out of memory
            ErrorCode::StOutOfMemory => &[79u8, 117u8, 116u8, 32u8, 111u8, 102u8, 32u8, 109u8, 101u8, 109u8, 111u8, 114u8, 121u8],
            // Self-test failed
            ErrorCode::SelfTestFailed => &[83u8, 101u8, 108u8, 102u8, 45u8, 116u8, 101u8, 115u8, 116u8, 32u8, 102u8, 97u8, 105u8, 108u8, 101u8, 100u8],
            // Calibration failed
            ErrorCode::CalibrationFailed => &[67u8, 97u8, 108u8, 105u8, 98u8, 114u8, 97u8, 116u8, 105u8, 111u8, 110u8, 32u8, 102u8, 97u8, 105u8, 108u8, 101u8, 100u8],
            // Queue overflow
            ErrorCode::QueueOverflow => &[81u8, 117u8, 101u8, 117u8, 101u8, 32u8, 111u8, 118u8, 101u8, 114u8, 102u8, 108u8, 111u8, 119u8],
            // Communication error
            ErrorCode::CommunicationError => &[67u8, 111u8, 109u8, 109u8, 117u8, 110u8, 105u8, 99u8, 97u8, 116u8, 105u8, 111u8, 110u8, 32u8, 101u8, 114u8, 114u8, 111u8, 114u8],
            // Parity error in program message
            ErrorCode::ParityErrorInProgramMessage => &[80u8, 97u8, 114u8, 105u8, 116u8, 121u8, 32u8, 101u8, 114u8, 114u8, 111u8, 114u8, 32u8, 105u8, 110u8, 32u8, 112u8, 114u8, 111u8, 103u8, 114u8, 97u8, 109u8, 32u8, 109u8, 101u8, 115u8, 115u8, 97u8, 103u8, 101u8],
            // Framing error in program message
            ErrorCode::FramingErrorInProgramMessage => &[70u8, 114u8, 97u8, 109u8, 105u8, 110u8, 103u8, 32u8, 101u8, 114u8, 114u8, 111u8, 114u8, 32u8, 105u8, 110u8, 32u8, 112u8, 114u8, 111u8, 103u8, 114u8, 97u8, 109u8, 32u8, 109u8, 101u8, 115u8, 115u8, 97u8, 103u8, 101u8],
            // Input buffer overrun
            ErrorCode::InputBufferOverrun => &[73u8, 110u8, 112u8, 117u8, 116u8, 32u8, 98u8, 117u8, 102u8, 102u8, 101u8, 114u8, 32u8, 111u8, 118u8, 101u8, 114u8, 114u8, 117u8, 110u8],
            // Time out error
            ErrorCode::TimeOutError => &[84u8, 105u8, 109u8, 101u8, 32u8, 111u8, 117u8, 116u8, 32u8, 101u8, 114u8, 114u8, 111u8, 114u8],
            // Query error
            ErrorCode::QueryError => &[81u8, 117u8, 101u8, 114u8, 121u8, 32u8, 101u8, 114u8, 114u8, 111u8, 114u8],
            // Query INTERRUPTED
            ErrorCode::QueryInterrupted => &[81u8, 117u8, 101u8, 114u8, 121u8, 32u8, 73u8, 78u8, 84u8, 69u8, 82u8, 82u8, 85u8, 80u8, 84u8, 69u8, 68u8],
            // Query UNTERMINATED
            ErrorCode::QueryUnterminated => &[81u8, 117u8, 101u8, 114u8, 121u8, 32u8, 85u8, 78u8, 84u8, 69u8, 82u8, 77u8, 73u8, 78u8, 65u8, 84u8, 69u8, 68u8],
            // Query DEADLOCKED
            ErrorCode::QueryDeadlocked => &[81u8, 117u8, 101u8, 114u8, 121u8, 32u8, 68u8, 69u8, 65u8, 68u8, 76u8, 79u8, 67u8, 75u8, 69u8, 68u8],
            // Query UNTERMINATED after indefinite response
            ErrorCode::QueryUnterminatedAfterIndefiniteResponse => &[81u8, 117u8, 101u8, 114u8, 121u8, 32u8, 85u8, 78u8, 84u8, 69u8, 82u8, 77u8, 73u8, 78u8, 65u8, 84u8, 69u8, 68u8, 32u8, 97u8, 102u8, 116u8, 101u8, 114u8, 32u8, 105u8, 110u8, 100u8, 101u8, 102u8, 105u8, 110u8, 105u8, 116u8, 101u8, 32u8, 114u8, 101u8, 115u8, 112u8, 111u8, 110u8, 115u8, 101u8],
            // Power on
            ErrorCode::PowerOn => &[80u8, 111u8, 119u8, 101u8, 114u8, 32u8, 111u8, 110u8],
            // User request
            ErrorCode::UserRequest => &[85u8, 115u8, 101u8, 114u8, 32u8, 114u8, 101u8, 113u8, 117u8, 101u8, 115u8, 116u8],
            // Request control
            ErrorCode::RequestControl => &[82u8, 101u8, 113u8, 117u8, 101u8, 115u8, 116u8, 32u8, 99u8, 111u8, 110u8, 116u8, 114u8, 111u8, 108u8],
            // Operation complete
            ErrorCode::OperationComplete => &[79u8, 112u8, 101u8, 114u8, 97u8, 116u8, 105u8, 111u8, 110u8, 32u8, 99u8, 111u8, 109u8, 112u8, 108u8, 101u8, 116u8, 101u8],
        }
    }
    /// The bit of the Standard Event Status Register that an error/event of
    /// this code sets.
    pub fn esr_mask(self) -> (mask: u8)
        ensures
            mask == esr_bit(self.code()),
    {
        let code = self.get_code();
        if -99 <= code && code <= 0 {
            0u8
        } else if -199 <= code && code <= -100 {
            0x20u8
        } else if -299 <= code && code <= -200 {
            0x10u8
        } else if -399 <= code && code <= -300 {
            0x08u8
        } else if -499 <= code && code <= -400 {
            0x04u8
        } else if -599 <= code && code <= -500 {
            0x80u8
        } else if -699 <= code && code <= -600 {
            0x40u8
        } else if -799 <= code && code <= -700 {
            0x02u8
        } else if -899 <= code && code <= -800 {
            0x01u8
        } else {
            0x08u8
        }
    }
}

/// The Standard Event Status Register bit (IEEE 488.2 11.5.1) that an
/// error/event with number `code` sets:
///
/// | number | bit |
/// |---|---|
/// | `[-99, 0]` | none |
/// | `[-199, -100]` command error, bit 5 |
/// | `[-299, -200]` execution error, bit 4 |
/// | `[-399, -300]` device-specific error, bit 3 |
/// | `[-499, -400]` query error, bit 2 |
/// | `[-599, -500]` power on, bit 7 |
/// | `[-699, -600]` user request, bit 6 |
/// | `[-799, -700]` request control, bit 1 |
/// | `[-899, -800]` operation complete, bit 0 |
/// | any other | device-specific error, bit 3 |
pub open spec fn esr_bit(code: i16) -> u8 {
    if -99 <= code && code <= 0 {
        0
    } else if -199 <= code && code <= -100 {
        0x20
    } else if -299 <= code && code <= -200 {
        0x10
    } else if -399 <= code && code <= -300 {
        0x08
    } else if -499 <= code && code <= -400 {
        0x04
    } else if -599 <= code && code <= -500 {
        0x80
    } else if -699 <= code && code <= -600 {
        0x40
    } else if -799 <= code && code <= -700 {
        0x02
    } else if -899 <= code && code <= -800 {
        0x01
    } else {
        0x08
    }
}

/// An error: an [`ErrorCode`] and, optionally, an extended message that
/// points out what went wrong.
#[derive(Debug, PartialEq, Eq, Copy, Clone)]
pub struct Error(pub ErrorCode, pub Option<&'static [u8]>);

/// An error code together with its optional extended message.
pub type ExtendedError = Error;

/// Result of a parser or command operation.
pub type Result<T> = core::result::Result<T, Error>;

impl Error {
    /// An error with the given code and no extended message.
    pub fn new(code: ErrorCode) -> (err: Self)
        ensures
            err == Error(code, None),
    {
        Error(code, None)
    }

    /// An error with the given code and extended message.
    pub fn extended(code: ErrorCode, msg: &'static [u8]) -> (err: Self)
        ensures
            err == Error(code, Some(msg)),
    {
        Error(code, Some(msg))
    }

    /// Returns the error/event number.
    pub fn get_code(&self) -> (code: i16)
        ensures
            code == self.0.code(),
    {
        self.0.get_code()
    }

    /// Returns the standard message of the code.
    pub fn get_message(&self) -> (msg: &'static [u8])
        ensures
            msg@ == self.0.message(),
    {
        self.0.get_message()
    }

    /// Returns the extended message, if any.
    pub fn get_extended(&self) -> (msg: Option<&'static [u8]>)
        ensures
            msg == self.1,
    {
        self.1
    }

    /// The Standard Event Status Register bit this error sets.
    pub fn esr_mask(&self) -> (mask: u8)
        ensures
            mask == esr_bit(self.0.code()),
    {
        self.0.esr_mask()
    }
}

impl From<ErrorCode> for Error {
    fn from(code: ErrorCode) -> (err: Self) {
        Error(code, None)
    }
}

impl vstd::std_specs::convert::FromSpecImpl<ErrorCode> for Error {
    open spec fn obeys_from_spec() -> bool {
        true
    }

    open spec fn from_spec(code: ErrorCode) -> Self {
        Error(code, None)
    }
}

impl Default for Error {
    fn default() -> (err: Self)
        ensures
            err == Error(ErrorCode::NoError, None),
    {
        Error(ErrorCode::NoError, None)
    }
}

/// The error is [`ErrorCode::NoError`].
pub open spec fn error_is_none(e: Error) -> bool {
    e.0 is NoError
}

/// The queue `after` is `before` with `err` queued: appended at the back,
/// or, where the queue is full, with its newest error replaced by
/// [`ErrorCode::QueueOverflow`] (SCPI-99 21.8.1); a queue without room for
/// any error stays empty.
pub open spec fn queued(before: Seq<Error>, err: Error, after: Seq<Error>) -> bool {
    ||| after == before.push(err)
    ||| before.len() > 0 && after == before.drop_last().push(Error(ErrorCode::QueueOverflow, None))
    ||| before.len() == 0 && after.len() == 0
}

/// An error/event queue (SCPI-99 21.8).
///
/// `errors` is the content of the queue, oldest first.
pub trait ErrorQueue {
    /// The errors in the queue, oldest first.
    open spec fn errors(&self) -> Seq<Error> {
        vstd::pervasive::arbitrary()
    }
    /// Queue an error, see [`queued`].
    fn push_back_error(&mut self, err: Error)
        ensures
            queued(old(self).errors(), err, final(self).errors()),
    ;

    /// Remove and return the oldest error, or [`ErrorCode::NoError`] when the
    /// queue is empty.
    fn pop_front_error(&mut self) -> (err: Error)
        ensures
            old(self).errors().len() == 0 ==> err == Error(ErrorCode::NoError, None)
                && final(self).errors() == old(self).errors(),
            old(self).errors().len() > 0 ==> err == old(self).errors()[0]
                && final(self).errors() == old(self).errors().drop_first(),
    ;

    /// Number of errors in the queue.
    fn len(&self) -> (n: usize)
        ensures
            n == self.errors().len(),
    ;

    /// Remove all errors.
    fn clear(&mut self)
        ensures
            final(self).errors().len() == 0,
    ;

    /// Returns `self.len() == 0`.
    fn not_empty(&self) -> (b: bool)
        ensures
            b == (self.errors().len() == 0),
    {
        self.len() == 0
    }
}

impl ErrorQueue for VecDeque<Error> {
    open spec fn errors(&self) -> Seq<Error> {
        self@
    }

    /// Appends the error at the back; the queue has no bound.
    fn push_back_error(&mut self, err: Error)
        ensures
            final(self).errors() == old(self).errors().push(err),
    {
        self.push_back(err);
    }

    fn pop_front_error(&mut self) -> (err: Error) {
        match self.pop_front() {
            Some(err) => err,
            None => Error(ErrorCode::NoError, None),
        }
    }

    fn len(&self) -> (n: usize) {
        VecDeque::len(self)
    }

    fn clear(&mut self) {
        VecDeque::clear(self);
    }
}

/// The Standard Event Status Register bit of each class of error/event
/// codes (IEEE 488.2 11.5.1, SCPI-99 21.8): command errors (-100 to -199)
/// set bit 5, execution errors (-200 to -299) bit 4, device-specific errors
/// (-300 to -399) bit 3, query errors (-400 to -499) bit 2, power on
/// (-500 to -599) bit 7, user request (-600 to -699) bit 6, request control
/// (-700 to -799) bit 1, operation complete (-800 to -899) bit 0; no error
/// and the device's own events (-99 to 0) set none.
pub proof fn lemma_esr_bit_classes()
    ensures
        forall|c: i16| -199 <= c <= -100 ==> #[trigger] esr_bit(c) == 0x20u8,
        forall|c: i16| -299 <= c <= -200 ==> #[trigger] esr_bit(c) == 0x10u8,
        forall|c: i16| -399 <= c <= -300 ==> #[trigger] esr_bit(c) == 0x08u8,
        forall|c: i16| -499 <= c <= -400 ==> #[trigger] esr_bit(c) == 0x04u8,
        forall|c: i16| -599 <= c <= -500 ==> #[trigger] esr_bit(c) == 0x80u8,
        forall|c: i16| -699 <= c <= -600 ==> #[trigger] esr_bit(c) == 0x40u8,
        forall|c: i16| -799 <= c <= -700 ==> #[trigger] esr_bit(c) == 0x02u8,
        forall|c: i16| -899 <= c <= -800 ==> #[trigger] esr_bit(c) == 0x01u8,
        forall|c: i16| -99 <= c <= 0 ==> #[trigger] esr_bit(c) == 0u8,
{
}

} // verus!
