//! Typed view of the driver's control interface: feature flags, device
//! descriptions, parameter blocks, and the per-session command bookkeeping.

pub mod sys;

use crate::error::Error;
use vstd::prelude::*;
use vstd::slice::slice_to_vec;

verus! {

/// Mask of the feature-flag bits this crate understands.
pub const KNOWN_FLAGS_MASK: u64 = 0x7;

/// Feature flags negotiated with the driver on device creation.
///
/// The set is carried on the wire as a `u64`; only the bits in
/// [`KNOWN_FLAGS_MASK`] are meaningful here, and decoding silently drops any
/// newer bits a future kernel might set.
#[derive(Debug, Clone, Copy, PartialEq, Eq, Structural)]
pub struct DeviceFlags {
    /// The raw bit set; well-formed values use only known bits.
    pub bits: u64,
}

impl DeviceFlags {
    /// Only recognized bits are present.
    pub open spec fn wf(self) -> bool {
        self.bits < 8
    }

    /// No flags set.
    pub fn empty() -> (r: Self)
        ensures
            r.bits == 0,
            r.wf(),
    {
        DeviceFlags { bits: 0 }
    }

    /// Map I/O buffers straight into the serving process's address space.
    pub fn zero_copy() -> (r: Self)
        ensures
            r.bits == 1,
            r.wf(),
    {
        DeviceFlags { bits: 1 }
    }

    /// Complete I/O commands in task context rather than from the interrupt path.
    pub fn force_iou_cmd_complete_in_task() -> (r: Self)
        ensures
            r.bits == 2,
            r.wf(),
    {
        DeviceFlags { bits: 2 }
    }

    /// Ask the server to fetch data with a second command on writes.
    pub fn need_get_data() -> (r: Self)
        ensures
            r.bits == 4,
            r.wf(),
    {
        DeviceFlags { bits: 4 }
    }

    /// The raw bit pattern, as sent on the wire.
    pub fn bits(&self) -> (r: u64)
        ensures
            r == self.bits,
    {
        self.bits
    }

    /// Decode a raw bit pattern, dropping unrecognized bits.
    ///
    /// Never fails: a response from a newer kernel decodes to the subset of
    /// flags this crate knows about.
    pub fn from_bits_truncate(raw: u64) -> (r: Self)
        ensures
            r.bits == raw & KNOWN_FLAGS_MASK,
            r.wf(),
    {
        proof {
            assert(raw & 0x7u64 < 8) by (bit_vector);
        }
        DeviceFlags { bits: raw & KNOWN_FLAGS_MASK }
    }

    /// The set holding the flags of both operands.
    pub fn union(self, other: Self) -> (r: Self)
        ensures
            r.bits == self.bits | other.bits,
            self.wf() && other.wf() ==> r.wf(),
    {
        proof {
            let a = self.bits;
            let b = other.bits;
            assert(a < 8 && b < 8 ==> (a | b) < 8) by (bit_vector);
        }
        DeviceFlags { bits: self.bits | other.bits }
    }

    /// True when every flag of `other` is also set in `self`.
    pub fn contains(self, other: Self) -> (r: bool)
        ensures
            r == (self.bits & other.bits == other.bits),
    {
        self.bits & other.bits == other.bits
    }
}

/// Truncating a well-formed flag set is the identity, so for every subset of
/// the known flags, decoding what was encoded yields that subset back.
pub proof fn lemma_flags_round_trip(f: DeviceFlags)
    requires
        f.wf(),
    ensures
        f.bits & KNOWN_FLAGS_MASK == f.bits,
{
    let b = f.bits;
    assert(b < 8 ==> b & 0x7u64 == b) by (bit_vector);
}

/// Mask of the device-attribute bits this crate understands.
pub const KNOWN_ATTRS_MASK: u32 = 0xF;

/// Attributes of a configured block device.
///
/// Carried on the wire as a `u32`; only the bits in [`KNOWN_ATTRS_MASK`] are
/// meaningful here, and decoding silently drops any others.
#[derive(Debug, Clone, Copy, PartialEq, Eq, Structural)]
pub struct DeviceAttr {
    /// The raw bit set; well-formed values use only known bits.
    pub bits: u32,
}

impl DeviceAttr {
    /// Only recognized bits are present.
    pub open spec fn wf(self) -> bool {
        self.bits < 16
    }

    /// No attributes set.
    pub fn empty() -> (r: Self)
        ensures
            r.bits == 0,
            r.wf(),
    {
        DeviceAttr { bits: 0 }
    }

    /// The device is read-only.
    pub fn read_only() -> (r: Self)
        ensures
            r.bits == 1,
            r.wf(),
    {
        DeviceAttr { bits: 1 }
    }

    /// The device is rotational.
    pub fn rotational() -> (r: Self)
        ensures
            r.bits == 2,
            r.wf(),
    {
        DeviceAttr { bits: 2 }
    }

    /// The device has a volatile write cache.
    pub fn volatile_cache() -> (r: Self)
        ensures
            r.bits == 4,
            r.wf(),
    {
        DeviceAttr { bits: 4 }
    }

    /// The device honours forced unit access.
    pub fn fua() -> (r: Self)
        ensures
            r.bits == 8,
            r.wf(),
    {
        DeviceAttr { bits: 8 }
    }

    /// The raw bit pattern, as sent on the wire.
    pub fn bits(&self) -> (r: u32)
        ensures
            r == self.bits,
    {
        self.bits
    }

    /// Decode a raw bit pattern, dropping unrecognized bits.
    pub fn from_bits_truncate(raw: u32) -> (r: Self)
        ensures
            r.bits == raw & KNOWN_ATTRS_MASK,
            r.wf(),
    {
        proof {
            assert(raw & 0xFu32 < 16) by (bit_vector);
        }
        DeviceAttr { bits: raw & KNOWN_ATTRS_MASK }
    }

    /// The set holding the attributes of both operands.
    pub fn union(self, other: Self) -> (r: Self)
        ensures
            r.bits == self.bits | other.bits,
            self.wf() && other.wf() ==> r.wf(),
    {
        proof {
            let a = self.bits;
            let b = other.bits;
            assert(a < 16 && b < 16 ==> (a | b) < 16) by (bit_vector);
        }
        DeviceAttr { bits: self.bits | other.bits }
    }

    /// True when every attribute of `other` is also set in `self`.
    pub fn contains(self, other: Self) -> (r: bool)
        ensures
            r == (self.bits & other.bits == other.bits),
    {
        self.bits & other.bits == other.bits
    }
}

/// Truncating a well-formed attribute set is the identity.
pub proof fn lemma_attrs_round_trip(a: DeviceAttr)
    requires
        a.wf(),
    ensures
        a.bits & KNOWN_ATTRS_MASK == a.bits,
{
    let b = a.bits;
    assert(b < 16 ==> b & 0xFu32 == b) by (bit_vector);
}

/// Whether a device is currently serving I/O.
#[derive(Debug, Clone, Copy, PartialEq, Eq, Structural)]
pub enum DeviceStatus {
    /// The device is not active.
    Dead,
    /// The device is active.
    Live,
}

/// The wire value `1` means live; every other value is read as dead.
///
/// The driver defines exactly two state values, `0` and `1`.  For any other
/// value the driver's meaning is unspecified, so decoding collapses the state
/// to "currently live or not" rather than failing; [`DeviceStatus::try_from_wire`]
/// offers the strict reading when a caller wants to reject unknown states.
pub open spec fn spec_status_of(state: u16) -> DeviceStatus {
    if state == 1 {
        DeviceStatus::Live
    } else {
        DeviceStatus::Dead
    }
}

impl DeviceStatus {
    /// The state word written by the driver for this status.
    pub open spec fn spec_wire_value(self) -> u16 {
        match self {
            DeviceStatus::Dead => 0,
            DeviceStatus::Live => 1,
        }
    }

    /// Read a state word, collapsing unknown values to [`DeviceStatus::Dead`].
    pub fn from_wire(state: u16) -> (r: Self)
        ensures
            r == spec_status_of(state),
    {
        if state == 1 {
            DeviceStatus::Live
        } else {
            DeviceStatus::Dead
        }
    }

    /// Read a state word strictly: only the two defined values are accepted.
    pub fn try_from_wire(state: u16) -> (r: Option<Self>)
        ensures
            state == 0 ==> r == Some(DeviceStatus::Dead),
            state == 1 ==> r == Some(DeviceStatus::Live),
            state > 1 ==> r is None,
    {
        if state == 0 {
            Some(DeviceStatus::Dead)
        } else if state == 1 {
            Some(DeviceStatus::Live)
        } else {
            None
        }
    }

    /// The state word written by the driver for this status.
    pub fn wire_value(self) -> (r: u16)
        ensures
            r == self.spec_wire_value(),
    {
        match self {
            DeviceStatus::Dead => 0,
            DeviceStatus::Live => 1,
        }
    }
}

/// Description of one device, as reported by the driver.
#[derive(Debug, Clone, Copy, PartialEq, Eq, Structural)]
pub struct DeviceInfo {
    /// Device id.
    pub dev_id: u32,
    /// Process id of the userspace server.
    pub srv_pid: i32,
    /// Whether the device is serving I/O.
    pub state: DeviceStatus,
    /// Number of hardware queues.
    pub nr_hw_queues: u16,
    /// Depth of each queue.
    pub queue_depth: u16,
    /// Largest single I/O the device accepts, in bytes.
    pub max_io_buf_bytes: u32,
    /// Negotiated feature flags; unknown bits have been dropped.
    pub flags: DeviceFlags,
}

/// The typed reading of a wire record: numeric fields copied, the state
/// collapsed to live-or-not, unknown flag bits dropped.
pub open spec fn spec_decode_dev_info(w: sys::DevInfo) -> DeviceInfo {
    DeviceInfo {
        dev_id: w.dev_id,
        srv_pid: w.ublksrv_pid,
        state: spec_status_of(w.state),
        nr_hw_queues: w.nr_hw_queues,
        queue_depth: w.queue_depth,
        max_io_buf_bytes: w.max_io_buf_bytes,
        flags: DeviceFlags { bits: w.flags & KNOWN_FLAGS_MASK },
    }
}

impl DeviceInfo {
    /// Decode a wire record into its typed form.  Never fails: unknown state
    /// values read as dead and unknown flag bits are dropped.
    pub fn decode(w: &sys::DevInfo) -> (r: Self)
        ensures
            r == spec_decode_dev_info(*w),
            r.flags.wf(),
    {
        DeviceInfo {
            dev_id: w.dev_id,
            srv_pid: w.ublksrv_pid,
            state: DeviceStatus::from_wire(w.state),
            nr_hw_queues: w.nr_hw_queues,
            queue_depth: w.queue_depth,
            max_io_buf_bytes: w.max_io_buf_bytes,
            flags: DeviceFlags::from_bits_truncate(w.flags),
        }
    }

    /// True when the device is live.
    pub fn active(&self) -> (r: bool)
        ensures
            r == (self.state == DeviceStatus::Live),
    {
        match self.state {
            DeviceStatus::Live => true,
            DeviceStatus::Dead => false,
        }
    }
}

/// How a device should be created: shape, limits, and feature flags.
///
/// Built with chained setters; every numeric setter clamps to the driver's
/// advertised maximum instead of failing.
#[derive(Debug, Clone, Copy, PartialEq, Eq, Structural)]
pub struct DeviceOptions {
    /// Requested device id, or [`sys::NEW_DEV_ID`] for "any".
    pub dev_id: u32,
    /// Number of hardware queues.
    pub nr_hw_queues: u16,
    /// Depth of each queue.
    pub queue_depth: u16,
    /// Largest single I/O, in bytes.
    pub max_io_buf_bytes: u32,
    /// Requested feature flags.
    pub flags: DeviceFlags,
}

impl DeviceOptions {
    /// Largest request buffer the driver accepts, in bytes.
    pub const MAX_BUF_SIZE: u32 = 1048576;

    /// Largest number of hardware queues the driver accepts.
    pub const MAX_NR_HW_QUEUES: u16 = 32;

    /// Largest queue depth the driver accepts.
    pub const MAX_QUEUE_DEPTH: u16 = 1024;

    /// Default request buffer size, in bytes.
    pub const DEFAULT_BUF_SIZE: u32 = 524288;

    /// Default number of hardware queues.
    pub const DEFAULT_NR_HW_QUEUES: u16 = 1;

    /// Default queue depth.
    pub const DEFAULT_QUEUE_DEPTH: u16 = 256;

    /// All numeric fields are within the driver's advertised maxima and the
    /// flag set uses only known bits.
    pub open spec fn wf(self) -> bool {
        &&& self.nr_hw_queues <= Self::MAX_NR_HW_QUEUES
        &&& self.queue_depth <= Self::MAX_QUEUE_DEPTH
        &&& self.max_io_buf_bytes <= Self::MAX_BUF_SIZE
        &&& self.flags.wf()
    }

    /// Default options: any device id, one queue of depth 256, 512 KiB
    /// buffers, no flags.
    pub fn new() -> (r: Self)
        ensures
            r == (DeviceOptions {
                dev_id: sys::NEW_DEV_ID,
                nr_hw_queues: Self::DEFAULT_NR_HW_QUEUES,
                queue_depth: Self::DEFAULT_QUEUE_DEPTH,
                max_io_buf_bytes: Self::DEFAULT_BUF_SIZE,
                flags: (DeviceFlags { bits: 0 }),
            }),
            r.wf(),
    {
        DeviceOptions {
            dev_id: sys::NEW_DEV_ID,
            nr_hw_queues: Self::DEFAULT_NR_HW_QUEUES,
            queue_depth: Self::DEFAULT_QUEUE_DEPTH,
            max_io_buf_bytes: Self::DEFAULT_BUF_SIZE,
            flags: DeviceFlags::empty(),
        }
    }

    /// Request a concrete device id instead of "any".
    pub fn device_id(self, dev_id: u32) -> (r: Self)
        ensures
            r == (DeviceOptions { dev_id, ..self }),
    {
        DeviceOptions { dev_id, ..self }
    }

    /// Set the number of hardware queues, clamped to the maximum.
    pub fn nr_hw_queues(self, nr_hw_queues: u16) -> (r: Self)
        ensures
            r == (DeviceOptions {
                nr_hw_queues: if nr_hw_queues <= Self::MAX_NR_HW_QUEUES {
                    nr_hw_queues
                } else {
                    Self::MAX_NR_HW_QUEUES
                },
                ..self
            }),
            r.nr_hw_queues <= Self::MAX_NR_HW_QUEUES,
    {
        DeviceOptions {
            nr_hw_queues: if nr_hw_queues <= Self::MAX_NR_HW_QUEUES {
                nr_hw_queues
            } else {
                Self::MAX_NR_HW_QUEUES
            },
            ..self
        }
    }

    /// Set the queue depth, clamped to the maximum.
    pub fn queue_depth(self, queue_depth: u16) -> (r: Self)
        ensures
            r == (DeviceOptions {
                queue_depth: if queue_depth <= Self::MAX_QUEUE_DEPTH {
                    queue_depth
                } else {
                    Self::MAX_QUEUE_DEPTH
                },
                ..self
            }),
            r.queue_depth <= Self::MAX_QUEUE_DEPTH,
    {
        DeviceOptions {
            queue_depth: if queue_depth <= Self::MAX_QUEUE_DEPTH {
                queue_depth
            } else {
                Self::MAX_QUEUE_DEPTH
            },
            ..self
        }
    }

    /// Set the request buffer size in bytes, clamped to the maximum.
    pub fn max_io_buf_bytes(self, max_io_buf_bytes: u32) -> (r: Self)
        ensures
            r == (DeviceOptions {
                max_io_buf_bytes: if max_io_buf_bytes <= Self::MAX_BUF_SIZE {
                    max_io_buf_bytes
                } else {
                    Self::MAX_BUF_SIZE
                },
                ..self
            }),
            r.max_io_buf_bytes <= Self::MAX_BUF_SIZE,
    {
        DeviceOptions {
            max_io_buf_bytes: if max_io_buf_bytes <= Self::MAX_BUF_SIZE {
                max_io_buf_bytes
            } else {
                Self::MAX_BUF_SIZE
            },
            ..self
        }
    }

    /// Set the requested feature flags.
    pub fn flags(self, flags: DeviceFlags) -> (r: Self)
        ensures
            r == (DeviceOptions { flags, ..self }),
    {
        DeviceOptions { flags, ..self }
    }

    /// Encode the options into the record sent with `AddDev`: the four shape
    /// fields and the flag bits are copied, everything else is zero.
    pub fn encode(&self) -> (r: sys::DevInfo)
        ensures
            r == spec_encode_options(*self),
    {
        sys::DevInfo {
            nr_hw_queues: self.nr_hw_queues,
            queue_depth: self.queue_depth,
            state: 0,
            max_io_buf_bytes: self.max_io_buf_bytes,
            dev_id: self.dev_id,
            ublksrv_pid: 0,
            flags: self.flags.bits,
        }
    }
}

impl Default for DeviceOptions {
    /// Same as [`DeviceOptions::new`].
    fn default() -> (r: Self)
        ensures
            r == (DeviceOptions {
                dev_id: sys::NEW_DEV_ID,
                nr_hw_queues: Self::DEFAULT_NR_HW_QUEUES,
                queue_depth: Self::DEFAULT_QUEUE_DEPTH,
                max_io_buf_bytes: Self::DEFAULT_BUF_SIZE,
                flags: (DeviceFlags { bits: 0 }),
            }),
            r.wf(),
    {
        DeviceOptions::new()
    }
}

/// The wire record announcing a device request: shape fields and flag bits
/// copied from the options, every other field zero.
pub open spec fn spec_encode_options(o: DeviceOptions) -> sys::DevInfo {
    sys::DevInfo {
        nr_hw_queues: o.nr_hw_queues,
        queue_depth: o.queue_depth,
        state: 0,
        max_io_buf_bytes: o.max_io_buf_bytes,
        dev_id: o.dev_id,
        ublksrv_pid: 0,
        flags: o.flags.bits,
    }
}

/// For all in-range options, decoding the encoded record reproduces the
/// requested id, shape fields, and flags bit for bit — also when the record
/// makes a full trip through its 64-byte binary form.
pub proof fn lemma_options_round_trip(o: DeviceOptions)
    requires
        o.wf(),
    ensures
        ({
            let d = spec_decode_dev_info(spec_encode_options(o));
            &&& d.dev_id == o.dev_id
            &&& d.nr_hw_queues == o.nr_hw_queues
            &&& d.queue_depth == o.queue_depth
            &&& d.max_io_buf_bytes == o.max_io_buf_bytes
            &&& d.flags == o.flags
        }),
        spec_decode_dev_info(
            sys::spec_dev_info_of_bytes(sys::spec_dev_info_bytes(spec_encode_options(o))),
        ) == spec_decode_dev_info(spec_encode_options(o)),
{
    lemma_flags_round_trip(o.flags);
    sys::lemma_dev_info_bytes_round_trip(spec_encode_options(o));
}

/// Discard limits of a device, present only when the device supports discard.
#[derive(Debug, Clone, Copy, PartialEq, Eq, Structural)]
pub struct DeviceParamDiscard {
    /// Alignment of discard ranges, in bytes.
    pub discard_alignment: u32,
    /// Granularity of discard ranges, in bytes.
    pub discard_granularity: u32,
    /// Largest discard request, in sectors.
    pub max_discard_sectors: u32,
    /// Largest write-zeroes request, in sectors.
    pub max_write_zeroes_sectors: u32,
    /// Largest number of segments in one discard request.
    pub max_discard_segments: u16,
}

/// Block-device parameters: the mandatory basic section and an optional
/// discard section.
#[derive(Debug, Clone, Copy, PartialEq, Eq, Structural)]
pub struct DeviceParams {
    /// Device attributes; unknown bits have been dropped on decode.
    pub attrs: DeviceAttr,
    /// Logical block size, as a power-of-two shift.
    pub logical_bs_shift: u8,
    /// Physical block size, as a power-of-two shift.
    pub physical_bs_shift: u8,
    /// Optimal I/O size, as a power-of-two shift.
    pub io_opt_shift: u8,
    /// Minimal I/O size, as a power-of-two shift.
    pub io_min_shift: u8,
    /// Largest request, in 512-byte sectors.
    pub max_sectors: u32,
    /// Chunk size, in sectors.
    pub chunk_sectors: u32,
    /// Device capacity, in sectors.
    pub dev_sectors: u64,
    /// Virtual boundary mask for scattered I/O.
    pub virt_boundary_mask: u64,
    /// Discard limits, when the device supports discard.
    pub discard: Option<DeviceParamDiscard>,
}

/// The wire form of the parameters: the basic-type bit is always announced,
/// the discard-type bit and the discard block only when a discard section is
/// present; an absent section leaves the block zeroed.
pub open spec fn spec_encode_params(d: DeviceParams) -> sys::DevParams {
    sys::DevParams {
        len: sys::PARAMS_BYTES as u32,
        types: match d.discard {
            Some(_) => (sys::PARAM_TYPE_BASIC + sys::PARAM_TYPE_DISCARD) as u32,
            None => sys::PARAM_TYPE_BASIC,
        },
        basic: sys::DevParamBasic {
            attrs: d.attrs.bits,
            logical_bs_shift: d.logical_bs_shift,
            physical_bs_shift: d.physical_bs_shift,
            io_opt_shift: d.io_opt_shift,
            io_min_shift: d.io_min_shift,
            max_sectors: d.max_sectors,
            chunk_sectors: d.chunk_sectors,
            dev_sectors: d.dev_sectors,
            virt_boundary_mask: d.virt_boundary_mask,
        },
        discard: match d.discard {
            Some(x) => sys::DevParamDiscard {
                discard_alignment: x.discard_alignment,
                discard_granularity: x.discard_granularity,
                max_discard_sectors: x.max_discard_sectors,
                max_write_zeroes_sectors: x.max_write_zeroes_sectors,
                max_discard_segments: x.max_discard_segments,
            },
            None => sys::DevParamDiscard {
                discard_alignment: 0,
                discard_granularity: 0,
                max_discard_sectors: 0,
                max_write_zeroes_sectors: 0,
                max_discard_segments: 0,
            },
        },
    }
}

/// The typed reading of a wire parameter record: basic fields copied with
/// unknown attribute bits dropped; the discard section is present exactly
/// when its type bit is set, whatever bytes sit in that region otherwise.
pub open spec fn spec_decode_params(w: sys::DevParams) -> DeviceParams {
    DeviceParams {
        attrs: DeviceAttr { bits: w.basic.attrs & KNOWN_ATTRS_MASK },
        logical_bs_shift: w.basic.logical_bs_shift,
        physical_bs_shift: w.basic.physical_bs_shift,
        io_opt_shift: w.basic.io_opt_shift,
        io_min_shift: w.basic.io_min_shift,
        max_sectors: w.basic.max_sectors,
        chunk_sectors: w.basic.chunk_sectors,
        dev_sectors: w.basic.dev_sectors,
        virt_boundary_mask: w.basic.virt_boundary_mask,
        discard: if sys::spec_has_discard(w.types) {
            Some(
                DeviceParamDiscard {
                    discard_alignment: w.discard.discard_alignment,
                    discard_granularity: w.discard.discard_granularity,
                    max_discard_sectors: w.discard.max_discard_sectors,
                    max_write_zeroes_sectors: w.discard.max_write_zeroes_sectors,
                    max_discard_segments: w.discard.max_discard_segments,
                },
            )
        } else {
            None
        },
    }
}

impl DeviceParams {
    /// The attribute set uses only known bits.
    pub open spec fn wf(self) -> bool {
        self.attrs.wf()
    }

    /// Parameters for a plain device: all limits zero, no discard section.
    pub fn zeroed() -> (r: Self)
        ensures
            r == (DeviceParams {
                attrs: (DeviceAttr { bits: 0 }),
                logical_bs_shift: 0,
                physical_bs_shift: 0,
                io_opt_shift: 0,
                io_min_shift: 0,
                max_sectors: 0,
                chunk_sectors: 0,
                dev_sectors: 0,
                virt_boundary_mask: 0,
                discard: None,
            }),
            r.wf(),
    {
        DeviceParams {
            attrs: DeviceAttr::empty(),
            logical_bs_shift: 0,
            physical_bs_shift: 0,
            io_opt_shift: 0,
            io_min_shift: 0,
            max_sectors: 0,
            chunk_sectors: 0,
            dev_sectors: 0,
            virt_boundary_mask: 0,
            discard: None,
        }
    }

    /// Encode the parameters for `SetParams`.
    ///
    /// The basic-type bit is always set; the discard-type bit is set if and
    /// only if a discard section is present.
    pub fn encode(&self) -> (r: sys::DevParams)
        ensures
            r == spec_encode_params(*self),
            self.discard is Some <==> sys::spec_has_discard(r.types),
    {
        proof {
            assert(1u32 & 2u32 == 0) by (bit_vector);
            assert(3u32 & 2u32 != 0) by (bit_vector);
        }
        let (types, discard) = match self.discard {
            Some(x) => (
                sys::PARAM_TYPE_BASIC + sys::PARAM_TYPE_DISCARD,
                sys::DevParamDiscard {
                    discard_alignment: x.discard_alignment,
                    discard_granularity: x.discard_granularity,
                    max_discard_sectors: x.max_discard_sectors,
                    max_write_zeroes_sectors: x.max_write_zeroes_sectors,
                    max_discard_segments: x.max_discard_segments,
                },
            ),
            None => (sys::PARAM_TYPE_BASIC, sys::DevParamDiscard::zeroed()),
        };
        sys::DevParams {
            len: sys::PARAMS_BYTES as u32,
            types,
            basic: sys::DevParamBasic {
                attrs: self.attrs.bits,
                logical_bs_shift: self.logical_bs_shift,
                physical_bs_shift: self.physical_bs_shift,
                io_opt_shift: self.io_opt_shift,
                io_min_shift: self.io_min_shift,
                max_sectors: self.max_sectors,
                chunk_sectors: self.chunk_sectors,
                dev_sectors: self.dev_sectors,
                virt_boundary_mask: self.virt_boundary_mask,
            },
            discard,
        }
    }

    /// Decode a wire parameter record.
    ///
    /// Never fails: the discard section is reported exactly when the record's
    /// discard-type bit is set, and the bytes of an unannounced discard region
    /// are ignored.
    pub fn decode(w: &sys::DevParams) -> (r: Self)
        ensures
            r == spec_decode_params(*w),
            !sys::spec_has_discard(w.types) ==> r.discard is None,
            r.wf(),
    {
        let discard = if w.types & sys::PARAM_TYPE_DISCARD != 0 {
            Some(
                DeviceParamDiscard {
                    discard_alignment: w.discard.discard_alignment,
                    discard_granularity: w.discard.discard_granularity,
                    max_discard_sectors: w.discard.max_discard_sectors,
                    max_write_zeroes_sectors: w.discard.max_write_zeroes_sectors,
                    max_discard_segments: w.discard.max_discard_segments,
                },
            )
        } else {
            None
        };
        DeviceParams {
            attrs: DeviceAttr::from_bits_truncate(w.basic.attrs),
            logical_bs_shift: w.basic.logical_bs_shift,
            physical_bs_shift: w.basic.physical_bs_shift,
            io_opt_shift: w.basic.io_opt_shift,
            io_min_shift: w.basic.io_min_shift,
            max_sectors: w.basic.max_sectors,
            chunk_sectors: w.basic.chunk_sectors,
            dev_sectors: w.basic.dev_sectors,
            virt_boundary_mask: w.basic.virt_boundary_mask,
            discard,
        }
    }
}

impl Default for DeviceParams {
    /// Same as [`DeviceParams::zeroed`].
    fn default() -> (r: Self)
        ensures
            r == (DeviceParams {
                attrs: (DeviceAttr { bits: 0 }),
                logical_bs_shift: 0,
                physical_bs_shift: 0,
                io_opt_shift: 0,
                io_min_shift: 0,
                max_sectors: 0,
                chunk_sectors: 0,
                dev_sectors: 0,
                virt_boundary_mask: 0,
                discard: None,
            }),
            r.wf(),
    {
        DeviceParams::zeroed()
    }
}

/// For all well-formed parameters, decoding the encoded record reproduces
/// them exactly; in particular a missing discard section stays missing and a
/// present one keeps its limits — also when the record makes a full trip
/// through its 60-byte binary form.
pub proof fn lemma_params_round_trip(p: DeviceParams)
    requires
        p.wf(),
    ensures
        spec_decode_params(spec_encode_params(p)) == p,
        spec_decode_params(sys::spec_params_of_bytes(sys::spec_params_bytes(spec_encode_params(p))))
            == p,
{
    lemma_attrs_round_trip(p.attrs);
    assert(1u32 & 2u32 == 0) by (bit_vector);
    assert(3u32 & 2u32 != 0) by (bit_vector);
    sys::lemma_params_bytes_round_trip(spec_encode_params(p));
}

/// A per-queue CPU bitmap as written by the driver: bit `i` of the little-
/// endian bitmap is set when CPU `i` may serve the queue.
#[derive(Debug, Clone, PartialEq, Eq)]
pub struct CpuSet {
    /// The raw bitmap, one bit per CPU.
    pub bits: Vec<u8>,
}

/// Whether bit `k` of byte `b` is set.
pub open spec fn spec_bit(b: u8, k: u8) -> bool {
    (b >> k) & 1 == 1
}

impl CpuSet {
    /// The bitmap has its full fixed size.
    pub open spec fn wf(self) -> bool {
        self.bits@.len() == sys::CPU_SET_BYTES
    }

    /// Whether `cpu` is in the set.
    pub open spec fn spec_is_set(self, cpu: u32) -> bool {
        spec_bit(self.bits@[(cpu / 8) as int], (cpu % 8) as u8)
    }

    /// Whether `cpu` is in the set.
    pub fn is_set(&self, cpu: u32) -> (r: bool)
        requires
            self.wf(),
            cpu < 1024,
        ensures
            r == self.spec_is_set(cpu),
    {
        let b: u8 = self.bits[(cpu / 8) as usize];
        let k: u8 = (cpu % 8) as u8;
        (b >> k) & 1 == 1
    }
}

/// The CPUs of `[0, cores)` that are in the set, in increasing order.
pub open spec fn spec_cpu_list(s: CpuSet, cores: int) -> Seq<u32>
    decreases cores,
{
    if cores <= 0 {
        Seq::empty()
    } else {
        spec_cpu_list(s, cores - 1) + if s.spec_is_set((cores - 1) as u32) {
            seq![(cores - 1) as u32]
        } else {
            Seq::empty()
        }
    }
}

/// The affinity list holds exactly the CPUs of `[0, cores)` whose bit is
/// set, in strictly increasing order.
pub proof fn lemma_cpu_list_members(s: CpuSet, cores: int)
    requires
        0 <= cores <= 1024,
    ensures
        forall|c: u32| #[trigger]
            spec_cpu_list(s, cores).contains(c) <==> (c < cores && s.spec_is_set(c)),
        forall|i: int, j: int|
            #![trigger spec_cpu_list(s, cores)[i], spec_cpu_list(s, cores)[j]]
            0 <= i < j < spec_cpu_list(s, cores).len() ==> spec_cpu_list(s, cores)[i]
                < spec_cpu_list(s, cores)[j],
    decreases cores,
{
    if cores > 0 {
        lemma_cpu_list_members(s, cores - 1);
        let prev = spec_cpu_list(s, cores - 1);
        let cur = spec_cpu_list(s, cores);
        let last = (cores - 1) as u32;
        if s.spec_is_set(last) {
            assert(cur =~= prev.push(last));
            assert forall|c: u32| #[trigger] cur.contains(c) implies (c < cores && s.spec_is_set(
                c,
            )) by {
                let i = choose|i: int| 0 <= i < cur.len() && cur[i] == c;
                if i < prev.len() {
                    assert(prev[i] == c);
                    assert(prev.contains(c));
                } else {
                    assert(c == last);
                }
            };
            assert forall|c: u32| (c < cores && s.spec_is_set(c)) implies #[trigger] cur.contains(
                c,
            ) by {
                if c < last {
                    assert(prev.contains(c));
                    let i = choose|i: int| 0 <= i < prev.len() && prev[i] == c;
                    assert(cur[i] == c);
                } else {
                    assert(c == last);
                    assert(cur[cur.len() - 1] == c);
                }
            };
            assert forall|i: int, j: int| 0 <= i < j < cur.len() implies cur[i] < cur[j] by {
                if j < prev.len() {
                    assert(cur[i] == prev[i] && cur[j] == prev[j]);
                } else {
                    assert(cur[j] == last);
                    assert(prev[i] == cur[i]);
                    assert(prev.contains(prev[i]));
                }
            };
        } else {
            assert(cur =~= prev);
            assert forall|c: u32| #[trigger] cur.contains(c) implies (c < cores && s.spec_is_set(
                c,
            )) by {
                assert(prev.contains(c));
            };
            assert forall|c: u32| (c < cores && s.spec_is_set(c)) implies #[trigger] cur.contains(
                c,
            ) by {
                assert(c != last);
                assert(prev.contains(c));
            };
        }
    }
}

/// List the CPUs of `[0, cores)` that may serve the queue, in increasing
/// order.
pub fn get_cpu_list(cores: u32, cpu_set: &CpuSet) -> (r: Vec<u32>)
    requires
        cpu_set.wf(),
        cores <= 1024,
    ensures
        r@ == spec_cpu_list(*cpu_set, cores as int),
        forall|c: u32| #[trigger] r@.contains(c) <==> (c < cores && cpu_set.spec_is_set(c)),
        forall|i: int, j: int|
            #![trigger r@[i], r@[j]]
            0 <= i < j < r@.len() ==> r@[i] < r@[j],
{
    proof {
        lemma_cpu_list_members(*cpu_set, cores as int);
    }
    let mut v: Vec<u32> = Vec::new();
    let mut cpu: u32 = 0;
    while cpu < cores
        invariant
            cpu <= cores,
            cores <= 1024,
            cpu_set.wf(),
            v@ == spec_cpu_list(*cpu_set, cpu as int),
        decreases cores - cpu,
    {
        if cpu_set.is_set(cpu) {
            v.push(cpu);
        }
        cpu = cpu + 1;
        proof {
            assert(v@ =~= spec_cpu_list(*cpu_set, cpu as int));
        }
    }
    v
}

/// One command made ready for the ring: the payload record and the request
/// id that the completion must echo.
#[derive(Debug, Clone, Copy, PartialEq, Eq, Structural)]
pub struct Submission {
    /// The inline command payload.
    pub cmd: sys::CtrlCmd,
    /// The request id; monotonically increasing per session.
    pub entry_id: u64,
}

/// The completion value mapped to a result: zero is success, anything else a
/// driver rejection carrying the negated code.
pub open spec fn spec_completion(res: i32) -> Result<(), Error> {
    if res == 0 {
        Ok(())
    } else {
        Err(Error::Io { errno: (0 - res) as i32 })
    }
}

/// Map a completion result: `0` is success, any other value a driver
/// rejection whose OS code is the negated result.
pub fn completion_result(res: i32) -> (r: Result<(), Error>)
    requires
        res != i32::MIN,
    ensures
        r == spec_completion(res),
        r is Ok <==> res == 0,
{
    if res == 0 {
        Ok(())
    } else {
        Err(Error::Io { errno: -res })
    }
}

/// Finish an operation that returns a device-information record
/// (`GetDevInfo`, and `AddDev` where the driver writes the granted shape
/// back): on success the filled buffer is decoded, otherwise the rejection
/// is surfaced verbatim.
pub fn finish_device_info(res: i32, buf: &[u8]) -> (r: Result<DeviceInfo, Error>)
    requires
        res != i32::MIN,
        buf@.len() == sys::DEV_INFO_BYTES,
    ensures
        res == 0 ==> r == Ok::<DeviceInfo, Error>(
            spec_decode_dev_info(sys::spec_dev_info_of_bytes(buf@)),
        ),
        res != 0 ==> r == Err::<DeviceInfo, Error>(Error::Io { errno: ((0 - res) as i32) }),
        r is Ok <==> res == 0,
{
    match completion_result(res) {
        Ok(_) => Ok(DeviceInfo::decode(&sys::DevInfo::from_bytes(buf))),
        Err(e) => Err(e),
    }
}

/// Finish `GetParams`: on success the filled buffer is decoded, otherwise
/// the rejection is surfaced verbatim.
pub fn finish_device_parameters(res: i32, buf: &[u8]) -> (r: Result<DeviceParams, Error>)
    requires
        res != i32::MIN,
        buf@.len() == sys::PARAMS_BYTES,
    ensures
        res == 0 ==> r == Ok::<DeviceParams, Error>(
            spec_decode_params(sys::spec_params_of_bytes(buf@)),
        ),
        res != 0 ==> r == Err::<DeviceParams, Error>(Error::Io { errno: ((0 - res) as i32) }),
        r is Ok <==> res == 0,
{
    match completion_result(res) {
        Ok(_) => Ok(DeviceParams::decode(&sys::DevParams::from_bytes(buf))),
        Err(e) => Err(e),
    }
}

/// Finish `GetQueueAffinity`: on success the filled bitmap is taken as the
/// queue's CPU set, otherwise the rejection is surfaced verbatim.
pub fn finish_queue_affinity(res: i32, buf: &[u8]) -> (r: Result<CpuSet, Error>)
    requires
        res != i32::MIN,
        buf@.len() == sys::CPU_SET_BYTES,
    ensures
        res == 0 ==> r is Ok && (r->Ok_0).bits@ == buf@ && (r->Ok_0).wf(),
        res != 0 ==> r == Err::<CpuSet, Error>(Error::Io { errno: ((0 - res) as i32) }),
        r is Ok <==> res == 0,
{
    match completion_result(res) {
        Ok(_) => Ok(CpuSet { bits: slice_to_vec(buf) }),
        Err(e) => Err(e),
    }
}

/// Per-session command bookkeeping.
///
/// One session drives one control channel, strictly one command at a time:
/// each operation takes a fresh, monotonically increasing request id, and
/// the completion observed for it must echo that id.  The session does not
/// hold the ring itself — the caller owns the transport, keeps any attached
/// buffer alive until the completion arrives, and hands the completion's
/// result back to the `finish` functions above.
#[derive(Debug, Clone, Copy, PartialEq, Eq, Structural)]
pub struct UblkCtrl {
    /// Id given to the most recent command; the next command takes the
    /// successor.
    pub entry_id: u64,
}

impl UblkCtrl {
    /// Path of the control channel's device node.
    pub const CTRL_DEV_PATH: &'static str = "/dev/ublk-control";

    /// A fresh session; ids start after zero.
    pub fn new() -> (r: Self)
        ensures
            r.entry_id == 0,
    {
        UblkCtrl { entry_id: 0 }
    }

    /// Prepare `GetDevInfo` for `dev_id`; the caller provides a 64-byte
    /// buffer at `buf_addr` for the driver to fill.
    pub fn get_device_info_cmd(&mut self, dev_id: u32, buf_addr: u64) -> (r: Submission)
        requires
            old(self).entry_id < u64::MAX,
        ensures
            final(self).entry_id == old(self).entry_id + 1,
            r.entry_id == final(self).entry_id,
            r.cmd == (sys::CtrlCmd {
                op: sys::CtrlOp::GetDevInfo,
                dev_id,
                queue_id: sys::QUEUE_IGNORE_ID,
                len: sys::DEV_INFO_BYTES as u16,
                addr: buf_addr,
                data0: 0,
                data1: 0,
            }),
    {
        self.entry_id = self.entry_id + 1;
        Submission {
            cmd: sys::CtrlCmd::new(sys::CtrlOp::GetDevInfo, dev_id).buffer(
                buf_addr,
                sys::DEV_INFO_BYTES as u16,
            ),
            entry_id: self.entry_id,
        }
    }

    /// Prepare `AddDev`.  The caller places the encoded options — see
    /// [`DeviceOptions::encode`] — in a 64-byte buffer at `buf_addr`; the
    /// command targets the same id the record announces, so a request for a
    /// concrete id can never fail on an id mismatch of this client's making,
    /// and [`sys::NEW_DEV_ID`] asks the driver to pick.
    pub fn add_device_cmd(&mut self, options: &DeviceOptions, buf_addr: u64) -> (r: Submission)
        requires
            old(self).entry_id < u64::MAX,
        ensures
            final(self).entry_id == old(self).entry_id + 1,
            r.entry_id == final(self).entry_id,
            r.cmd == (sys::CtrlCmd {
                op: sys::CtrlOp::AddDev,
                dev_id: options.dev_id,
                queue_id: sys::QUEUE_IGNORE_ID,
                len: sys::DEV_INFO_BYTES as u16,
                addr: buf_addr,
                data0: 0,
                data1: 0,
            }),
            r.cmd.dev_id == spec_encode_options(*options).dev_id,
    {
        self.entry_id = self.entry_id + 1;
        Submission {
            cmd: sys::CtrlCmd::new(sys::CtrlOp::AddDev, options.dev_id).buffer(
                buf_addr,
                sys::DEV_INFO_BYTES as u16,
            ),
            entry_id: self.entry_id,
        }
    }

    /// Prepare `DelDev` for `dev_id`; no buffer travels with it.
    pub fn delete_device_cmd(&mut self, dev_id: u32) -> (r: Submission)
        requires
            old(self).entry_id < u64::MAX,
        ensures
            final(self).entry_id == old(self).entry_id + 1,
            r.entry_id == final(self).entry_id,
            r.cmd == (sys::CtrlCmd {
                op: sys::CtrlOp::DelDev,
                dev_id,
                queue_id: sys::QUEUE_IGNORE_ID,
                len: 0,
                addr: 0,
                data0: 0,
                data1: 0,
            }),
    {
        self.entry_id = self.entry_id + 1;
        Submission { cmd: sys::CtrlCmd::new(sys::CtrlOp::DelDev, dev_id), entry_id: self.entry_id }
    }

    /// Prepare `StartDev` for `dev_id`; `pid`, carried in the first scratch
    /// word, names the process that will serve the device's queues.
    pub fn start_device_cmd(&mut self, dev_id: u32, pid: u64) -> (r: Submission)
        requires
            old(self).entry_id < u64::MAX,
        ensures
            final(self).entry_id == old(self).entry_id + 1,
            r.entry_id == final(self).entry_id,
            r.cmd == (sys::CtrlCmd {
                op: sys::CtrlOp::StartDev,
                dev_id,
                queue_id: sys::QUEUE_IGNORE_ID,
                len: 0,
                addr: 0,
                data0: pid,
                data1: 0,
            }),
    {
        self.entry_id = self.entry_id + 1;
        Submission {
            cmd: sys::CtrlCmd::new(sys::CtrlOp::StartDev, dev_id).data(pid),
            entry_id: self.entry_id,
        }
    }

    /// Prepare `StopDev` for `dev_id`; no buffer travels with it.
    pub fn stop_device_cmd(&mut self, dev_id: u32) -> (r: Submission)
        requires
            old(self).entry_id < u64::MAX,
        ensures
            final(self).entry_id == old(self).entry_id + 1,
            r.entry_id == final(self).entry_id,
            r.cmd == (sys::CtrlCmd {
                op: sys::CtrlOp::StopDev,
                dev_id,
                queue_id: sys::QUEUE_IGNORE_ID,
                len: 0,
                addr: 0,
                data0: 0,
                data1: 0,
            }),
    {
        self.entry_id = self.entry_id + 1;
        Submission { cmd: sys::CtrlCmd::new(sys::CtrlOp::StopDev, dev_id), entry_id: self.entry_id }
    }

    /// Prepare `SetParams` for `dev_id`.  The caller places the encoded
    /// parameters — see [`DeviceParams::encode`] — in a 60-byte buffer at
    /// `buf_addr`.  The driver accepts the change only while the device is
    /// not live and rejects it otherwise; the rejection is surfaced verbatim
    /// by [`completion_result`].
    pub fn set_device_parameters_cmd(&mut self, dev_id: u32, buf_addr: u64) -> (r: Submission)
        requires
            old(self).entry_id < u64::MAX,
        ensures
            final(self).entry_id == old(self).entry_id + 1,
            r.entry_id == final(self).entry_id,
            r.cmd == (sys::CtrlCmd {
                op: sys::CtrlOp::SetParams,
                dev_id,
                queue_id: sys::QUEUE_IGNORE_ID,
                len: sys::PARAMS_BYTES as u16,
                addr: buf_addr,
                data0: 0,
                data1: 0,
            }),
    {
        self.entry_id = self.entry_id + 1;
        Submission {
            cmd: sys::CtrlCmd::new(sys::CtrlOp::SetParams, dev_id).buffer(
                buf_addr,
                sys::PARAMS_BYTES as u16,
            ),
            entry_id: self.entry_id,
        }
    }

    /// Prepare `GetParams` for `dev_id`.  The caller places an empty record
    /// with the correct length — see [`sys::DevParams::empty`] — in a
    /// 60-byte buffer at `buf_addr` for the driver to fill.
    pub fn get_device_parameters_cmd(&mut self, dev_id: u32, buf_addr: u64) -> (r: Submission)
        requires
            old(self).entry_id < u64::MAX,
        ensures
            final(self).entry_id == old(self).entry_id + 1,
            r.entry_id == final(self).entry_id,
            r.cmd == (sys::CtrlCmd {
                op: sys::CtrlOp::GetParams,
                dev_id,
                queue_id: sys::QUEUE_IGNORE_ID,
                len: sys::PARAMS_BYTES as u16,
                addr: buf_addr,
                data0: 0,
                data1: 0,
            }),
    {
        self.entry_id = self.entry_id + 1;
        Submission {
            cmd: sys::CtrlCmd::new(sys::CtrlOp::GetParams, dev_id).buffer(
                buf_addr,
                sys::PARAMS_BYTES as u16,
            ),
            entry_id: self.entry_id,
        }
    }

    /// Prepare `GetQueueAffinity` for one queue of `dev_id`; the queue index
    /// travels in the first scratch word and the caller provides a 128-byte
    /// buffer at `buf_addr` for the CPU bitmap.
    pub fn get_queue_affinity_cmd(&mut self, dev_id: u32, queue: u16, buf_addr: u64) -> (r:
        Submission)
        requires
            old(self).entry_id < u64::MAX,
        ensures
            final(self).entry_id == old(self).entry_id + 1,
            r.entry_id == final(self).entry_id,
            r.cmd == (sys::CtrlCmd {
                op: sys::CtrlOp::GetQueueAffinity,
                dev_id,
                queue_id: sys::QUEUE_IGNORE_ID,
                len: sys::CPU_SET_BYTES as u16,
                addr: buf_addr,
                data0: queue as u64,
                data1: 0,
            }),
    {
        self.entry_id = self.entry_id + 1;
        Submission {
            cmd: sys::CtrlCmd::new(sys::CtrlOp::GetQueueAffinity, dev_id).buffer(
                buf_addr,
                sys::CPU_SET_BYTES as u16,
            ).data(queue as u64),
            entry_id: self.entry_id,
        }
    }
}

} // verus!
