//! Disk-related types: the validated logical block size and the
//! interpretation of platform sector-size probes.

use vstd::prelude::*;
use vstd::std_specs::cmp::PartialEqSpec;
use vstd::string::StringExecFns;

use crate::decimal::dec_seq;
use crate::decimal::dec_seq_signed;
use crate::decimal::i32_to_decimal;
use crate::decimal::u64_to_decimal;

verus! {

/// Default size of a logical sector (bytes).
pub const DEFAULT_SECTOR_SIZE: LogicalBlockSize = LogicalBlockSize::Lb512;

/// Smallest logical sector size the GPT specification allows (bytes).
pub const MIN_SECTOR_SIZE: u64 = 512;

/// Largest logical sector size the GPT specification allows (bytes): 4 GiB.
pub const MAX_SECTOR_SIZE: u64 = 0x1_0000_0000;

/// Errors surfaced by sector-size discovery.
#[derive(Clone, Copy, Debug, PartialEq, Eq, Structural)]
pub enum GptError {
    /// A candidate sector-size magnitude outside the accepted range;
    /// carries the rejected value.
    InvalidInput(u64),
    /// Failure to open the device or a failing control query; carries the
    /// operating system's last error code.
    Io(i32),
    /// No probing strategy exists for the running platform.
    Unsupported,
}

impl GptError {
    /// The human-readable description of an error: a rejected magnitude or
    /// an operating-system error code appears in decimal.
    pub open spec fn message_spec(self) -> Seq<char> {
        match self {
            GptError::InvalidInput(v) => "Logical block size "@ + dec_seq(v as nat)
                + " is NOT in the range 512B-4GB"@,
            GptError::Io(code) => "I/O error, OS error code "@ + dec_seq_signed(code as int),
            GptError::Unsupported => "no sector size probing strategy exists for this platform"@,
        }
    }

    /// Renders the error as text, exactly as `message_spec` describes.
    pub fn message(&self) -> (s: String)
        ensures
            s@ == self.message_spec(),
    {
        match self {
            GptError::InvalidInput(v) => {
                let mut s = "Logical block size ".to_owned();
                let digits = u64_to_decimal(*v);
                s.append(digits.as_str());
                s.append(" is NOT in the range 512B-4GB");
                proof {
                    assert(s@ =~= self.message_spec());
                }
                s
            },
            GptError::Io(code) => {
                let mut s = "I/O error, OS error code ".to_owned();
                let digits = i32_to_decimal(*code);
                s.append(digits.as_str());
                proof {
                    assert(s@ =~= self.message_spec());
                }
                s
            },
            GptError::Unsupported => {
                "no sector size probing strategy exists for this platform".to_owned()
            },
        }
    }
}

/// Logical block/sector size of a GPT disk.
#[derive(Clone, Copy, Debug)]
pub enum LogicalBlockSize {
    /// 512 bytes.
    Lb512,
    /// 4096 bytes.
    Lb4096,
    /// Other unusual block sizes.
    Other(u64),
}

impl LogicalBlockSize {
    /// The number of bytes this value stands for.
    pub open spec fn magnitude(self) -> u64 {
        match self {
            LogicalBlockSize::Lb512 => 512,
            LogicalBlockSize::Lb4096 => 4096,
            LogicalBlockSize::Other(block_size) => block_size,
        }
    }

    /// A well-formed value lies in the accepted range; the validated
    /// constructor establishes this.
    pub open spec fn wf(self) -> bool {
        MIN_SECTOR_SIZE <= self.magnitude() <= MAX_SECTOR_SIZE
    }

    /// What the validated constructor returns for each candidate magnitude:
    /// the two common values take their canonical shape, any other in-range
    /// value is kept exactly, and everything else is rejected.
    pub open spec fn parse_spec(block_size: u64) -> Result<LogicalBlockSize, GptError> {
        if block_size == 512 {
            Ok(LogicalBlockSize::Lb512)
        } else if block_size == 4096 {
            Ok(LogicalBlockSize::Lb4096)
        } else if MIN_SECTOR_SIZE <= block_size <= MAX_SECTOR_SIZE {
            Ok(LogicalBlockSize::Other(block_size))
        } else {
            Err(GptError::InvalidInput(block_size))
        }
    }

    /// Validated constructor: accepts exactly the magnitudes in
    /// `[MIN_SECTOR_SIZE, MAX_SECTOR_SIZE]`, canonicalizing 512 and 4096.
    pub fn try_from(block_size: u64) -> (r: Result<LogicalBlockSize, GptError>)
        ensures
            r == LogicalBlockSize::parse_spec(block_size),
            r matches Ok(lb) ==> lb.wf() && lb.magnitude() == block_size,
            r matches Err(e) ==> e == GptError::InvalidInput(block_size)
                && !(MIN_SECTOR_SIZE <= block_size <= MAX_SECTOR_SIZE),
    {
        if block_size == 512 {
            Ok(LogicalBlockSize::Lb512)
        } else if block_size == 4096 {
            Ok(LogicalBlockSize::Lb4096)
        } else if MIN_SECTOR_SIZE <= block_size && block_size <= MAX_SECTOR_SIZE {
            Ok(LogicalBlockSize::Other(block_size))
        } else {
            Err(GptError::InvalidInput(block_size))
        }
    }

    /// Returns the logical block size as a `u64`.
    pub fn as_u64(&self) -> (r: u64)
        ensures
            r == self.magnitude(),
    {
        match self {
            LogicalBlockSize::Lb512 => 512,
            LogicalBlockSize::Lb4096 => 4096,
            LogicalBlockSize::Other(block_size) => *block_size,
        }
    }

    /// Renders the magnitude in decimal, whichever shape carries it.
    pub fn to_display_string(&self) -> (s: String)
        ensures
            s@ == dec_seq(self.magnitude() as nat),
    {
        let magnitude: u64 = self.as_u64();
        u64_to_decimal(magnitude)
    }

    /// Returns the logical block size as a `usize`; exact wherever the
    /// magnitude fits the platform's pointer width.
    pub fn as_usize(&self) -> (r: usize)
        ensures
            r == self.magnitude() as usize,
            self.magnitude() <= usize::MAX ==> r == self.magnitude(),
    {
        match self {
            LogicalBlockSize::Lb512 => 512,
            LogicalBlockSize::Lb4096 => 4096,
            LogicalBlockSize::Other(block_size) => #[verifier::truncate] (*block_size as usize),
        }
    }
}

/// Two sector sizes are equal exactly when their magnitudes are equal,
/// whichever shape carries them.
impl PartialEq for LogicalBlockSize {
    fn eq(&self, other: &LogicalBlockSize) -> bool {
        self.as_u64() == other.as_u64()
    }
}

impl vstd::std_specs::cmp::PartialEqSpecImpl for LogicalBlockSize {
    open spec fn obeys_eq_spec() -> bool {
        true
    }

    open spec fn eq_spec(&self, other: &LogicalBlockSize) -> bool {
        self.magnitude() == other.magnitude()
    }
}

impl From<LogicalBlockSize> for u64 {
    fn from(lb: LogicalBlockSize) -> u64 {
        lb.as_u64()
    }
}

impl vstd::std_specs::convert::FromSpecImpl<LogicalBlockSize> for u64 {
    open spec fn obeys_from_spec() -> bool {
        true
    }

    open spec fn from_spec(lb: LogicalBlockSize) -> u64 {
        lb.magnitude()
    }
}

impl From<LogicalBlockSize> for usize {
    fn from(lb: LogicalBlockSize) -> usize {
        lb.as_usize()
    }
}

impl vstd::std_specs::convert::FromSpecImpl<LogicalBlockSize> for usize {
    open spec fn obeys_from_spec() -> bool {
        true
    }

    open spec fn from_spec(lb: LogicalBlockSize) -> usize {
        lb.magnitude() as usize
    }
}

/// Round-trip law: every magnitude in the accepted range constructs
/// successfully, the result is well-formed, and its 64-bit magnitude is
/// exactly the candidate that was handed in.
pub proof fn lemma_construct_round_trip(u: u64)
    requires
        MIN_SECTOR_SIZE <= u <= MAX_SECTOR_SIZE,
    ensures
        LogicalBlockSize::parse_spec(u) matches Ok(lb) && lb.wf() && lb.magnitude() == u,
{
}

/// Rejection law: every magnitude outside the accepted range fails with
/// an invalid-input error that carries the rejected value, and that value
/// appears in decimal in the error's message.
pub proof fn lemma_construct_rejects(u: u64)
    requires
        u < MIN_SECTOR_SIZE || u > MAX_SECTOR_SIZE,
    ensures
        LogicalBlockSize::parse_spec(u) == Err::<LogicalBlockSize, GptError>(
            GptError::InvalidInput(u),
        ),
        GptError::InvalidInput(u).message_spec().subrange(
            19,
            19 + dec_seq(u as nat).len() as int,
        ) == dec_seq(u as nat),
{
    reveal_strlit("Logical block size ");
    assert(GptError::InvalidInput(u).message_spec().subrange(
        19,
        19 + dec_seq(u as nat).len() as int,
    ) =~= dec_seq(u as nat));
}

/// Equality and rendering go by the magnitude alone: two sector sizes are
/// equal exactly when their magnitudes are equal, whichever shapes carry
/// them, and equal magnitudes render as the same text.
pub proof fn lemma_eq_and_render_by_magnitude(a: LogicalBlockSize, b: LogicalBlockSize)
    ensures
        a.eq_spec(&b) <==> a.magnitude() == b.magnitude(),
        a.magnitude() == b.magnitude() ==> dec_seq(a.magnitude() as nat) == dec_seq(
            b.magnitude() as nat,
        ),
{
}

/// The media-info record the Solaris/illumos "get media info" control call
/// fills: field order and widths are pinned to the kernel ABI (32-bit tag,
/// 32-bit block size, 64-bit capacity, in this order).
#[allow(non_camel_case_types)]
#[derive(Clone, Copy, Debug)]
pub struct dk_minfo {
    /// Media type or profile info.
    pub dki_media_type: u32,
    /// Logical blocksize of media.
    pub dki_lbsize: u32,
    /// Capacity as # of dki_lbsize blks.
    pub dki_capacity: u64,
}

/// The payload a successful platform control query wrote, one variant per
/// strategy family.
#[derive(Clone, Copy, Debug)]
pub enum ProbeReply {
    /// A 64-bit byte count written in place (Linux, the BSD family).
    Wide64(u64),
    /// A 32-bit byte count written in place (macOS); widened to 64 bits
    /// before further processing.
    Narrow32(u32),
    /// A filled media-info record (Solaris/illumos); only the block-size
    /// field is consulted.
    MediaInfo(dk_minfo),
}

impl ProbeReply {
    /// The raw byte count a reply carries, widened to 64 bits.
    pub open spec fn raw_bytes(self) -> u64 {
        match self {
            ProbeReply::Wide64(bytes) => bytes,
            ProbeReply::Narrow32(bytes) => bytes as u64,
            ProbeReply::MediaInfo(info) => info.dki_lbsize as u64,
        }
    }
}

/// What the dispatcher yields for every outcome of a platform control
/// query: a failing query's OS error code becomes an I/O error, and a
/// successful query's byte count runs through the validated constructor.
pub open spec fn dispatch_spec(outcome: Result<ProbeReply, i32>) -> Result<
    LogicalBlockSize,
    GptError,
> {
    match outcome {
        Ok(reply) => LogicalBlockSize::parse_spec(reply.raw_bytes()),
        Err(code) => Err(GptError::Io(code)),
    }
}

/// Uniform probing operation over the platform strategies: turns the
/// outcome of one control query into a validated sector size or an error.
/// A failure propagates the OS error code; a success is widened or
/// extracted per strategy and re-validated — a degenerate byte count from
/// the kernel is rejected, never passed through.
pub fn dispatch_probe(outcome: Result<ProbeReply, i32>) -> (r: Result<LogicalBlockSize, GptError>)
    ensures
        r == dispatch_spec(outcome),
        outcome matches Err(code) ==> r == Err::<LogicalBlockSize, GptError>(GptError::Io(code)),
        outcome matches Ok(reply) ==> r == LogicalBlockSize::parse_spec(reply.raw_bytes()),
{
    match outcome {
        Err(code) => Err(GptError::Io(code)),
        Ok(reply) => {
            let raw: u64 = match reply {
                ProbeReply::Wide64(bytes) => bytes,
                ProbeReply::Narrow32(bytes) => bytes as u64,
                ProbeReply::MediaInfo(info) => info.dki_lbsize as u64,
            };
            LogicalBlockSize::try_from(raw)
        },
    }
}

} // verus!
