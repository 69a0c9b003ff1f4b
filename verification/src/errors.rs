//! The deterministic error framework: numbered error codes and the
//! `SystemError` value that every failing operation reports.
use vstd::prelude::*;
use vstd::string::StringExecFns;

verus! {

/// Every failure the bridge can report, grouped by numeric range:
/// 000-099 infrastructure, 100-199 protocol and FFI layer,
/// 200-299 market data and circuit breakers.
#[allow(non_camel_case_types)]
#[derive(Debug, Clone, Copy, PartialEq, Eq, Structural)]
pub enum ErrorCode {
    ERR_001_ICEORYX_ROUDI_NOT_FOUND,
    ERR_002_SHARED_MEMORY_ALLOCATION_LOCKED,
    ERR_003_SPACETIMEDB_CONNECTION_FAILED,
    ERR_004_CONFIG_FILE_ERROR,
    ERR_100_NULL_POINTER_DEREFERENCE,
    ERR_101_CRC_VALIDATION_FAILED,
    ERR_102_SEQUENCE_DUPLICATION_DETECTED,
    ERR_103_INVALID_PROTOBUF_PAYLOAD,
    ERR_201_DATA_CIRCUIT_TRIPPED,
    ERR_202_MAX_SLIPPAGE_EXCEEDED,
}

impl ErrorCode {
    /// The variant's name, which is how a code is displayed.
    pub open spec fn spec_name(self) -> Seq<char> {
        match self {
            ErrorCode::ERR_001_ICEORYX_ROUDI_NOT_FOUND => "ERR_001_ICEORYX_ROUDI_NOT_FOUND"@,
            ErrorCode::ERR_002_SHARED_MEMORY_ALLOCATION_LOCKED => "ERR_002_SHARED_MEMORY_ALLOCATION_LOCKED"@,
            ErrorCode::ERR_003_SPACETIMEDB_CONNECTION_FAILED => "ERR_003_SPACETIMEDB_CONNECTION_FAILED"@,
            ErrorCode::ERR_004_CONFIG_FILE_ERROR => "ERR_004_CONFIG_FILE_ERROR"@,
            ErrorCode::ERR_100_NULL_POINTER_DEREFERENCE => "ERR_100_NULL_POINTER_DEREFERENCE"@,
            ErrorCode::ERR_101_CRC_VALIDATION_FAILED => "ERR_101_CRC_VALIDATION_FAILED"@,
            ErrorCode::ERR_102_SEQUENCE_DUPLICATION_DETECTED => "ERR_102_SEQUENCE_DUPLICATION_DETECTED"@,
            ErrorCode::ERR_103_INVALID_PROTOBUF_PAYLOAD => "ERR_103_INVALID_PROTOBUF_PAYLOAD"@,
            ErrorCode::ERR_201_DATA_CIRCUIT_TRIPPED => "ERR_201_DATA_CIRCUIT_TRIPPED"@,
            ErrorCode::ERR_202_MAX_SLIPPAGE_EXCEEDED => "ERR_202_MAX_SLIPPAGE_EXCEEDED"@,
        }
    }

    /// The numeric value of the code in the error reference table.
    pub open spec fn spec_number(self) -> u16 {
        match self {
            ErrorCode::ERR_001_ICEORYX_ROUDI_NOT_FOUND => 1,
            ErrorCode::ERR_002_SHARED_MEMORY_ALLOCATION_LOCKED => 2,
            ErrorCode::ERR_003_SPACETIMEDB_CONNECTION_FAILED => 3,
            ErrorCode::ERR_004_CONFIG_FILE_ERROR => 4,
            ErrorCode::ERR_100_NULL_POINTER_DEREFERENCE => 100,
            ErrorCode::ERR_101_CRC_VALIDATION_FAILED => 101,
            ErrorCode::ERR_102_SEQUENCE_DUPLICATION_DETECTED => 102,
            ErrorCode::ERR_103_INVALID_PROTOBUF_PAYLOAD => 103,
            ErrorCode::ERR_201_DATA_CIRCUIT_TRIPPED => 201,
            ErrorCode::ERR_202_MAX_SLIPPAGE_EXCEEDED => 202,
        }
    }

    /// Returns the code's display text: the variant name.
    pub fn name(&self) -> (s: &'static str)
        ensures
            s@ == self.spec_name(),
    {
        match self {
            ErrorCode::ERR_001_ICEORYX_ROUDI_NOT_FOUND => "ERR_001_ICEORYX_ROUDI_NOT_FOUND",
            ErrorCode::ERR_002_SHARED_MEMORY_ALLOCATION_LOCKED => "ERR_002_SHARED_MEMORY_ALLOCATION_LOCKED",
            ErrorCode::ERR_003_SPACETIMEDB_CONNECTION_FAILED => "ERR_003_SPACETIMEDB_CONNECTION_FAILED",
            ErrorCode::ERR_004_CONFIG_FILE_ERROR => "ERR_004_CONFIG_FILE_ERROR",
            ErrorCode::ERR_100_NULL_POINTER_DEREFERENCE => "ERR_100_NULL_POINTER_DEREFERENCE",
            ErrorCode::ERR_101_CRC_VALIDATION_FAILED => "ERR_101_CRC_VALIDATION_FAILED",
            ErrorCode::ERR_102_SEQUENCE_DUPLICATION_DETECTED => "ERR_102_SEQUENCE_DUPLICATION_DETECTED",
            ErrorCode::ERR_103_INVALID_PROTOBUF_PAYLOAD => "ERR_103_INVALID_PROTOBUF_PAYLOAD",
            ErrorCode::ERR_201_DATA_CIRCUIT_TRIPPED => "ERR_201_DATA_CIRCUIT_TRIPPED",
            ErrorCode::ERR_202_MAX_SLIPPAGE_EXCEEDED => "ERR_202_MAX_SLIPPAGE_EXCEEDED",
        }
    }

    /// Returns the numeric value of the code.
    pub fn number(&self) -> (n: u16)
        ensures
            n == self.spec_number(),
    {
        match self {
            ErrorCode::ERR_001_ICEORYX_ROUDI_NOT_FOUND => 1,
            ErrorCode::ERR_002_SHARED_MEMORY_ALLOCATION_LOCKED => 2,
            ErrorCode::ERR_003_SPACETIMEDB_CONNECTION_FAILED => 3,
            ErrorCode::ERR_004_CONFIG_FILE_ERROR => 4,
            ErrorCode::ERR_100_NULL_POINTER_DEREFERENCE => 100,
            ErrorCode::ERR_101_CRC_VALIDATION_FAILED => 101,
            ErrorCode::ERR_102_SEQUENCE_DUPLICATION_DETECTED => 102,
            ErrorCode::ERR_103_INVALID_PROTOBUF_PAYLOAD => 103,
            ErrorCode::ERR_201_DATA_CIRCUIT_TRIPPED => 201,
            ErrorCode::ERR_202_MAX_SLIPPAGE_EXCEEDED => 202,
        }
    }
}

/// A reported failure: its code, where it arose and a human-readable message,
/// with an optional dump of the surrounding context.
#[derive(Debug)]
pub struct SystemError {
    pub code: ErrorCode,
    pub module: &'static str,
    pub function: &'static str,
    pub message: String,
    pub context_dump: Option<String>,
}

/// How a `SystemError` is displayed: `[CODE] module:function -> message`.
pub open spec fn display_text(err: SystemError) -> Seq<char> {
    "["@ + err.code.spec_name() + "] "@ + err.module@ + ":"@ + err.function@ + " -> "@
        + err.message@
}

impl SystemError {
    /// Creates an error with no context dump.
    pub fn new(code: ErrorCode, module: &'static str, function: &'static str, message: &str) -> (err: Self)
        ensures
            err.code == code,
            err.module == module,
            err.function == function,
            err.message@ == message@,
            err.context_dump is None,
    {
        SystemError { code, module, function, message: message.to_owned(), context_dump: None }
    }

    /// Attaches a context dump, replacing any previous one; the rest is kept.
    pub fn with_context(self, context: String) -> (err: Self)
        ensures
            err.code == self.code,
            err.module == self.module,
            err.function == self.function,
            err.message == self.message,
            err.context_dump == Some(context),
    {
        let mut err = self;
        err.context_dump = Some(context);
        err
    }

    /// Renders the error as `[CODE] module:function -> message`.
    pub fn to_string(&self) -> (s: String)
        ensures
            s@ == display_text(*self),
    {
        let mut s = String::from_str("[");
        s.append(self.code.name());
        s.append("] ");
        s.append(self.module);
        s.append(":");
        s.append(self.function);
        s.append(" -> ");
        s.append(self.message.as_str());
        s
    }
}


/// Different codes have different numbers.
pub proof fn lemma_numbers_distinct(a: ErrorCode, b: ErrorCode)
    requires
        a != b,
    ensures
        a.spec_number() != b.spec_number(),
{
}

/// The value of a decimal digit character.
pub open spec fn digit_value(c: char) -> int {
    (c as u32) as int - ('0' as u32) as int
}

/// Every code's number is the one written in its name: the name starts with
/// `ERR_`, followed by the three decimal digits of the number.
pub proof fn lemma_number_in_name(code: ErrorCode)
    ensures
        code.spec_name().len() > 7,
        code.spec_name().subrange(0, 4) == "ERR_"@,
        code.spec_number() as int == digit_value(code.spec_name()[4]) * 100
            + digit_value(code.spec_name()[5]) * 10 + digit_value(code.spec_name()[6]),
{
    reveal_strlit("ERR_");
    match code {
        ErrorCode::ERR_001_ICEORYX_ROUDI_NOT_FOUND => {
            reveal_strlit("ERR_001_ICEORYX_ROUDI_NOT_FOUND");
        },
        ErrorCode::ERR_002_SHARED_MEMORY_ALLOCATION_LOCKED => {
            reveal_strlit("ERR_002_SHARED_MEMORY_ALLOCATION_LOCKED");
        },
        ErrorCode::ERR_003_SPACETIMEDB_CONNECTION_FAILED => {
            reveal_strlit("ERR_003_SPACETIMEDB_CONNECTION_FAILED");
        },
        ErrorCode::ERR_004_CONFIG_FILE_ERROR => {
            reveal_strlit("ERR_004_CONFIG_FILE_ERROR");
        },
        ErrorCode::ERR_100_NULL_POINTER_DEREFERENCE => {
            reveal_strlit("ERR_100_NULL_POINTER_DEREFERENCE");
        },
        ErrorCode::ERR_101_CRC_VALIDATION_FAILED => {
            reveal_strlit("ERR_101_CRC_VALIDATION_FAILED");
        },
        ErrorCode::ERR_102_SEQUENCE_DUPLICATION_DETECTED => {
            reveal_strlit("ERR_102_SEQUENCE_DUPLICATION_DETECTED");
        },
        ErrorCode::ERR_103_INVALID_PROTOBUF_PAYLOAD => {
            reveal_strlit("ERR_103_INVALID_PROTOBUF_PAYLOAD");
        },
        ErrorCode::ERR_201_DATA_CIRCUIT_TRIPPED => {
            reveal_strlit("ERR_201_DATA_CIRCUIT_TRIPPED");
        },
        ErrorCode::ERR_202_MAX_SLIPPAGE_EXCEEDED => {
            reveal_strlit("ERR_202_MAX_SLIPPAGE_EXCEEDED");
        },
    }
}

} // verus!
