use vstd::prelude::*;
use crate::header::Filetype;

verus! {

/// A header field set through the codec engine; per-channel fields carry the
/// channel index.
#[derive(Debug, Clone, Copy, PartialEq, Eq, Structural)]
pub enum Field {
    PatientName,
    PatientCode,
    AdminCode,
    Technician,
    Equipment,
    RecordingAdditional,
    Sex,
    Birthdate,
    StartDateTime,
    RecordingDuration,
    AnnotationSignals,
    AnnotationPosition,
    Label(i32),
    Transducer(i32),
    DigitalMaximum(i32),
    DigitalMinimum(i32),
    PhysicalMaximum(i32),
    PhysicalMinimum(i32),
    PhysicalDimension(i32),
    SampleFrequency(i32),
}

/// Why an operation of the writer failed.
#[derive(Debug, Clone, Copy, PartialEq, Eq, Structural)]
pub enum EdfError {
    /// The engine could not allocate a handle for the file.
    OpenError,
    /// The engine rejected a header field, or a local range check on it failed.
    ConfigError(Field),
    /// A frame does not hold one sample sequence per header channel.
    ChannelCountError { frame: usize, found: usize },
    /// A channel's sample count is not a whole number of record periods.
    ShapeError { frame: usize, channel: usize },
    /// The engine rejected a record write.
    WriteError { frame: usize, channel: usize },
    /// The engine rejected an annotation.
    AnnotationError,
    /// The engine rejected closing the file.
    CloseError,
    /// A write, annotation or header field was given before a successful open.
    NotOpenError,
    /// The field cannot be set by this library.
    UnsupportedOperation(Field),
}

/// One request to the codec engine. The handle it applies to travels beside it
/// (see `Action`).
#[derive(Debug, Clone)]
pub enum EngineCall {
    /// Allocate a write-only handle for `path` with `signals` data signals.
    Open { path: String, filetype: Filetype, signals: i32 },
    /// Set a text field.
    SetText { field: Field, value: String },
    /// Set an integer field.
    SetNumber { field: Field, value: i32 },
    /// Set a physical bound, given as an IEEE-754 binary64 bit pattern.
    SetPhysical { field: Field, bits: u64 },
    /// Write one record period of one channel; `frame` and `channel` say where
    /// the samples came from.
    WriteSamples { frame: usize, channel: usize, samples: Vec<u64> },
    /// Write a Latin-1 annotation.
    WriteAnnotation { onset: i64, duration: i64, description: String },
    /// Finalize the file and release the handle.
    Close,
}

/// The mathematical value of an `EngineCall`.
pub ghost enum CallView {
    Open { path: Seq<char>, filetype: Filetype, signals: i32 },
    SetText { field: Field, value: Seq<char> },
    SetNumber { field: Field, value: i32 },
    SetPhysical { field: Field, bits: u64 },
    WriteSamples { frame: usize, channel: usize, samples: Seq<u64> },
    WriteAnnotation { onset: i64, duration: i64, description: Seq<char> },
    Close,
}

impl View for EngineCall {
    type V = CallView;

    open spec fn view(&self) -> CallView {
        match self {
            EngineCall::Open { path, filetype, signals } => CallView::Open {
                path: path@,
                filetype: *filetype,
                signals: *signals,
            },
            EngineCall::SetText { field, value } => CallView::SetText { field: *field, value: value@ },
            EngineCall::SetNumber { field, value } => CallView::SetNumber { field: *field, value: *value },
            EngineCall::SetPhysical { field, bits } => CallView::SetPhysical { field: *field, bits: *bits },
            EngineCall::WriteSamples { frame, channel, samples } => CallView::WriteSamples {
                frame: *frame,
                channel: *channel,
                samples: samples@,
            },
            EngineCall::WriteAnnotation { onset, duration, description } => CallView::WriteAnnotation {
                onset: *onset,
                duration: *duration,
                description: description@,
            },
            EngineCall::Close => CallView::Close,
        }
    }
}

/// The error reported when the engine answers `c` with a negative status.
pub open spec fn failure_of(c: CallView) -> EdfError {
    match c {
        CallView::Open { .. } => EdfError::OpenError,
        CallView::SetText { field, .. } => EdfError::ConfigError(field),
        CallView::SetNumber { field, .. } => EdfError::ConfigError(field),
        CallView::SetPhysical { field, .. } => EdfError::ConfigError(field),
        CallView::WriteSamples { frame, channel, .. } => EdfError::WriteError { frame, channel },
        CallView::WriteAnnotation { .. } => EdfError::AnnotationError,
        CallView::Close => EdfError::CloseError,
    }
}

impl EngineCall {
    /// The error to report when the engine rejects this call.
    pub fn failure(&self) -> (e: EdfError)
        ensures
            e == failure_of(self@),
    {
        match self {
            EngineCall::Open { .. } => EdfError::OpenError,
            EngineCall::SetText { field, .. } => EdfError::ConfigError(*field),
            EngineCall::SetNumber { field, .. } => EdfError::ConfigError(*field),
            EngineCall::SetPhysical { field, .. } => EdfError::ConfigError(*field),
            EngineCall::WriteSamples { frame, channel, .. } => EdfError::WriteError {
                frame: *frame,
                channel: *channel,
            },
            EngineCall::WriteAnnotation { .. } => EdfError::AnnotationError,
            EngineCall::Close => EdfError::CloseError,
        }
    }
}

/// The single byte a character becomes for the engine: its code point when that
/// is Latin-1 and not NUL, else `?`.
pub open spec fn latin1_byte(c: char) -> u8 {
    if 0 < (c as u32) && (c as u32) < 256 {
        (c as u32) as u8
    } else {
        63u8
    }
}

/// A text as the engine receives it: one Latin-1 byte per character, with no NUL.
pub open spec fn latin1_of(s: Seq<char>) -> Seq<u8> {
    s.map_values(|c: char| latin1_byte(c))
}

/// Encodes a text for the engine, one byte per character (see `latin1_byte`).
pub fn to_latin1(s: &str) -> (r: Vec<u8>)
    ensures
        r@ == latin1_of(s@),
{
    let n = s.unicode_len();
    let mut r: Vec<u8> = Vec::new();
    let mut i: usize = 0;
    while i < n
        invariant
            n == s@.len(),
            i <= n,
            r@ =~= latin1_of(s@).subrange(0, i as int),
        decreases n - i,
    {
        let c = s.get_char(i);
        let code = c as u32;
        let b: u8 = if 0 < code && code < 256 {
            code as u8
        } else {
            63
        };
        r.push(b);
        i += 1;
    }
    assert(r@ =~= latin1_of(s@));
    r
}

} // verus!
