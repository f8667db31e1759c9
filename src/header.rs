use vstd::prelude::*;
use crate::engine::{EdfError, Field};
use crate::pipeline::{is_nan, is_nan_bits};

verus! {

/// Patient and recording administration data, written once per file.
#[derive(Debug, Clone)]
pub struct EDFPatientInfo {
    pub patient_name: String,
    pub patient_code: String,
    /// 0 means female, 1 means male.
    pub sex: i32,
    pub admin_code: String,
    pub technician: String,
    pub equipment: String,
}

/// Metadata of one signal channel.
///
/// The physical range is carried as the IEEE-754 binary64 bit patterns of its
/// two bounds; the codec engine receives them unchanged.
#[derive(Debug, Clone)]
pub struct EDFChannel {
    pub label: String,
    pub transducer: String,
    pub digital_max: i32,
    pub digital_min: i32,
    pub physical_max_bits: u64,
    pub physical_min_bits: u64,
    pub physical_dimension: String,
    /// Samples per data record.
    pub sample_frequency: i32,
}

/// A timestamped text event; onset and duration are in microseconds.
#[derive(Debug, Clone)]
pub struct EDFAnnotation {
    pub onset: i32,
    pub duration: i32,
    pub description: String,
}

/// Everything written into the file header: patient data and the ordered channels.
#[derive(Debug, Clone)]
pub struct EDFHeader {
    pub patient_info: EDFPatientInfo,
    pub channels: Vec<EDFChannel>,
}

/// Container flavour of the output file.
#[derive(Debug, Clone, Copy, PartialEq, Eq, Structural)]
pub enum Filetype {
    EDF,
    BDF,
}

/// The length of the first `n` characters of `path` once trailing `/`
/// separators are dropped.
pub open spec fn trimmed_len(path: Seq<char>, n: nat) -> nat
    decreases n,
{
    if n > 0 && path[n - 1] == '/' {
        trimmed_len(path, (n - 1) as nat)
    } else {
        n
    }
}

/// Whether the path's file name has the extension `bdf` (case-sensitive).
/// Trailing `/` separators are ignored; the file name is what follows the last
/// remaining `/`. The extension is what follows the file name's last `.`, and
/// only when that `.` is not the name's first character: a file named `.bdf`
/// has no extension. A trailing `.` component is not treated specially.
pub open spec fn has_bdf_extension(path: Seq<char>) -> bool {
    let n = trimmed_len(path, path.len()) as int;
    &&& n >= 5
    &&& path.subrange(n - 4, n) == seq!['.', 'b', 'd', 'f']
    &&& path[n - 5] != '/'
}

/// The container chosen for a path: BDF+ for the extension `bdf`, EDF+ for any
/// other extension or none.
pub open spec fn filetype_of(path: Seq<char>) -> Filetype {
    if has_bdf_extension(path) {
        Filetype::BDF
    } else {
        Filetype::EDF
    }
}

impl Filetype {
    /// Picks the container from the file path's extension.
    pub fn from_path(path: &str) -> (r: Filetype)
        ensures
            r == filetype_of(path@),
    {
        let len = path.unicode_len();
        let mut n: usize = len;
        loop
            invariant
                n <= len,
                len == path@.len(),
                trimmed_len(path@, len as nat) == trimmed_len(path@, n as nat),
            ensures
                n <= len,
                trimmed_len(path@, len as nat) == n,
            decreases n,
        {
            if n == 0 {
                break;
            }
            if path.get_char(n - 1) != '/' {
                break;
            }
            n -= 1;
        }
        if n < 5 {
            return Filetype::EDF;
        }
        let s = path.get_char(n - 5);
        let a = path.get_char(n - 4);
        let b = path.get_char(n - 3);
        let c = path.get_char(n - 2);
        let d = path.get_char(n - 1);
        let is_bdf = s != '/' && a == '.' && b == 'b' && c == 'd' && d == 'f';
        proof {
            let tail = path@.subrange(n - 4, n as int);
            if a == '.' && b == 'b' && c == 'd' && d == 'f' {
                assert(tail =~= seq!['.', 'b', 'd', 'f']);
            } else {
                assert(tail[0] == a && tail[1] == b && tail[2] == c && tail[3] == d);
            }
        }
        if is_bdf {
            Filetype::BDF
        } else {
            Filetype::EDF
        }
    }

    /// The extension that names this container.
    pub fn as_str(&self) -> (r: &'static str)
        ensures
            r@ == (match self {
                Filetype::EDF => "edf"@,
                Filetype::BDF => "bdf"@,
            }),
    {
        match self {
            Filetype::EDF => "edf",
            Filetype::BDF => "bdf",
        }
    }

    /// The engine's file-type code: 1 for EDF+, 3 for BDF+.
    pub fn to_raw(&self) -> (r: i32)
        ensures
            r == (match self {
                Filetype::EDF => 1i32,
                Filetype::BDF => 3i32,
            }),
    {
        match self {
            Filetype::EDF => 1,
            Filetype::BDF => 3,
        }
    }
}

/// Where the engine places the annotation signal among the data signals.
#[derive(Debug, Clone, Copy, PartialEq, Eq, Structural)]
pub enum AnnotationPosition {
    Start,
    Middle,
    End,
}

/// The engine's position code: 2 for start, 1 for middle, 0 for end.
pub open spec fn position_code(p: AnnotationPosition) -> i32 {
    match p {
        AnnotationPosition::Start => 2i32,
        AnnotationPosition::Middle => 1i32,
        AnnotationPosition::End => 0i32,
    }
}

impl AnnotationPosition {
    /// The engine's code for this position.
    pub fn to_raw(&self) -> (r: i32)
        ensures
            r == position_code(*self),
    {
        match self {
            AnnotationPosition::Start => 2,
            AnnotationPosition::Middle => 1,
            AnnotationPosition::End => 0,
        }
    }
}

/// Shortest data-record duration, in microseconds (0.001 s).
pub const MIN_RECORD_MICROS: u64 = 1000;

/// Longest data-record duration, in microseconds (60 s).
pub const MAX_RECORD_MICROS: u64 = 60000000;

/// A duration of `secs` seconds and `micros` microseconds, in microseconds.
pub open spec fn duration_micros(secs: u64, micros: u32) -> int {
    secs * 1000000 + micros
}

/// The same duration in the engine's 10-microsecond ticks.
pub open spec fn duration_ticks(secs: u64, micros: u32) -> int {
    duration_micros(secs, micros) / 10
}

/// Whether a duration lies in the range the engine accepts for a data record,
/// 0.001 s ..= 60 s.
pub open spec fn valid_record_duration(secs: u64, micros: u32) -> bool {
    MIN_RECORD_MICROS <= duration_micros(secs, micros) <= MAX_RECORD_MICROS
}

/// The data-record duration in 10-microsecond ticks, or `None` when it lies
/// outside 0.001 s ..= 60 s. Ticks of an accepted duration lie in
/// `100 ..= 6_000_000`.
pub fn record_duration_ticks(secs: u64, micros: u32) -> (r: Option<i32>)
    ensures
        r matches Some(t) ==> valid_record_duration(secs, micros) && t == duration_ticks(secs, micros)
            && 100 <= t <= 6000000,
        r is None ==> !valid_record_duration(secs, micros),
{
    if secs > 60 {
        return None;
    }
    let total: u64 = secs * 1000000 + micros as u64;
    if total < MIN_RECORD_MICROS || total > MAX_RECORD_MICROS {
        None
    } else {
        Some((total / 10) as i32)
    }
}

/// Where a binary64 value that is not NaN stands in numeric order, read from its
/// bit pattern: negative values by their magnitude below zero, both zeros equal.
pub open spec fn float_order_key(bits: u64) -> int {
    if bits >> 63u64 == 1 {
        -((bits & 0x7fffffffffffffffu64) as int)
    } else {
        bits as int
    }
}

/// Whether a channel's metadata is usable: a positive sample frequency,
/// `digital_min < digital_max`, and physical bounds that are numbers with
/// `physical_min < physical_max`.
pub open spec fn valid_channel(ch: EDFChannel) -> bool {
    &&& ch.sample_frequency > 0
    &&& ch.digital_min < ch.digital_max
    &&& !is_nan_bits(ch.physical_min_bits)
    &&& !is_nan_bits(ch.physical_max_bits)
    &&& float_order_key(ch.physical_min_bits) < float_order_key(ch.physical_max_bits)
}

/// The error for channel `ch` at index `i`, or `None` when it is valid: a bad
/// frequency first, then a bad digital range, then a bad physical range.
pub open spec fn channel_fault(ch: EDFChannel, i: i32) -> Option<EdfError> {
    if ch.sample_frequency <= 0 {
        Some(EdfError::ConfigError(Field::SampleFrequency(i)))
    } else if ch.digital_min >= ch.digital_max {
        Some(EdfError::ConfigError(Field::DigitalMinimum(i)))
    } else if !valid_channel(ch) {
        Some(EdfError::ConfigError(Field::PhysicalMinimum(i)))
    } else {
        None
    }
}

/// The error of the first invalid channel among the first `n`, if any.
pub open spec fn channels_fault(chs: Seq<EDFChannel>, n: nat) -> Option<EdfError>
    decreases n,
{
    if n == 0 {
        None
    } else {
        match channels_fault(chs, (n - 1) as nat) {
            Some(e) => Some(e),
            None => channel_fault(chs[n - 1], (n - 1) as i32),
        }
    }
}

/// Whether every channel of the header is valid.
pub open spec fn valid_header(h: EDFHeader) -> bool {
    forall|c: int| 0 <= c < h.channels@.len() ==> valid_channel(#[trigger] h.channels@[c])
}

/// The error of the header's first invalid channel, if any.
pub open spec fn header_fault(h: EDFHeader) -> Option<EdfError> {
    channels_fault(h.channels@, h.channels@.len())
}

proof fn lemma_fault_persists(chs: Seq<EDFChannel>, n: nat, m: nat)
    requires
        n <= m,
        channels_fault(chs, n) is Some,
    ensures
        channels_fault(chs, m) == channels_fault(chs, n),
    decreases m - n,
{
    if n < m {
        lemma_fault_persists(chs, n, (m - 1) as nat);
    }
}

fn float_key(bits: u64) -> (r: i128)
    ensures
        r == float_order_key(bits),
{
    if bits >> 63u64 == 1 {
        -((bits & 0x7fffffffffffffffu64) as i128)
    } else {
        bits as i128
    }
}

/// Checks every channel of the header and returns the first channel's error.
pub fn check_header(header: &EDFHeader) -> (r: Option<EdfError>)
    requires
        header.channels@.len() <= i32::MAX,
    ensures
        r == header_fault(*header),
        r is None <==> valid_header(*header),
{
    let ghost chs = header.channels@;
    let mut i: usize = 0;
    while i < header.channels.len()
        invariant
            i <= chs.len() <= i32::MAX,
            chs == header.channels@,
            channels_fault(chs, i as nat) is None,
            forall|k: int| 0 <= k < i ==> valid_channel(#[trigger] chs[k]),
        decreases header.channels.len() - i,
    {
        let ch = &header.channels[i];
        let k = i as i32;
        let fault = if ch.sample_frequency <= 0 {
            Some(EdfError::ConfigError(Field::SampleFrequency(k)))
        } else if ch.digital_min >= ch.digital_max {
            Some(EdfError::ConfigError(Field::DigitalMinimum(k)))
        } else if is_nan(ch.physical_min_bits) || is_nan(ch.physical_max_bits) || float_key(
            ch.physical_min_bits,
        ) >= float_key(ch.physical_max_bits) {
            Some(EdfError::ConfigError(Field::PhysicalMinimum(k)))
        } else {
            None
        };
        assert(fault == channel_fault(chs[i as int], k));
        if let Some(e) = fault {
            proof {
                lemma_fault_persists(chs, (i + 1) as nat, chs.len());
            }
            return Some(e);
        }
        i += 1;
    }
    None
}

} // verus!
