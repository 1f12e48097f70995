//! Exact binary mirrors of the kernel's control structures.
//!
//! Field offsets and widths here must match the driver's ABI bit for bit.
//! Every record is encoded to and decoded from little-endian bytes by
//! verified code, with the layout stated field by field in the contracts;
//! reserved and padding regions are zero-filled on encode and ignored on
//! decode.

use vstd::bytes::*;
use vstd::prelude::*;
use vstd::slice::slice_index_get;
use vstd::slice::slice_subrange;

verus! {

/// Size of the inline command payload carried by one ring entry.
pub const CMD_BYTES: usize = 80;

/// Size of the device-information record.
pub const DEV_INFO_BYTES: usize = 64;

/// Size of the parameter record.
pub const PARAMS_BYTES: usize = 60;

/// Size of a per-queue CPU bitmap (1024 CPUs, one bit each).
pub const CPU_SET_BYTES: usize = 128;

/// Sentinel queue id: the command is not aimed at any queue.
pub const QUEUE_IGNORE_ID: u16 = 0xFFFF;

/// Sentinel device id: ask the driver to assign a fresh one.
pub const NEW_DEV_ID: u32 = 0xFFFF_FFFF;

/// A run of `n` zero bytes, as written into padding and reserved regions.
pub open spec fn zero_bytes(n: nat) -> Seq<u8> {
    Seq::new(n, |i: int| 0u8)
}

/// Append `n` zero bytes to `v`.
pub fn push_zero_bytes(v: &mut Vec<u8>, n: usize)
    requires
        old(v)@.len() + n <= usize::MAX,
    ensures
        final(v)@ == old(v)@ + zero_bytes(n as nat),
{
    let base: usize = v.len();
    let mut k: usize = 0;
    while k < n
        invariant
            k <= n,
            base + n <= usize::MAX,
            v@.len() == base + k,
            v@ == old(v)@ + zero_bytes(k as nat),
        decreases n - k,
    {
        v.push(0u8);
        k = k + 1;
        proof {
            assert(v@ =~= old(v)@ + zero_bytes(k as nat));
        }
    }
}

/// Control command opcodes handled by the kernel driver.
#[derive(Debug, Clone, Copy, PartialEq, Eq, Structural)]
pub enum CtrlOp {
    GetQueueAffinity,
    GetDevInfo,
    AddDev,
    DelDev,
    StartDev,
    StopDev,
    SetParams,
    GetParams,
}

impl CtrlOp {
    /// The numeric opcode the driver expects.
    pub open spec fn spec_code(self) -> u32 {
        match self {
            CtrlOp::GetQueueAffinity => 1,
            CtrlOp::GetDevInfo => 2,
            CtrlOp::AddDev => 4,
            CtrlOp::DelDev => 5,
            CtrlOp::StartDev => 6,
            CtrlOp::StopDev => 7,
            CtrlOp::SetParams => 8,
            CtrlOp::GetParams => 9,
        }
    }

    /// The numeric opcode the driver expects.
    pub fn code(self) -> (r: u32)
        ensures
            r == self.spec_code(),
    {
        match self {
            CtrlOp::GetQueueAffinity => 1,
            CtrlOp::GetDevInfo => 2,
            CtrlOp::AddDev => 4,
            CtrlOp::DelDev => 5,
            CtrlOp::StartDev => 6,
            CtrlOp::StopDev => 7,
            CtrlOp::SetParams => 8,
            CtrlOp::GetParams => 9,
        }
    }
}

/// One inline control command, as shipped verbatim to the driver.
///
/// `addr`/`len` describe the command's in/out buffer (zero length means no
/// buffer); `data0`/`data1` are inline scratch words for small arguments.
#[derive(Debug, Clone, Copy, PartialEq, Eq, Structural)]
pub struct CtrlCmd {
    /// Which control operation to perform.
    pub op: CtrlOp,
    /// Target device id.
    pub dev_id: u32,
    /// Target queue; always [`QUEUE_IGNORE_ID`] on the control path.
    pub queue_id: u16,
    /// Length of the attached buffer, zero when none is attached.
    pub len: u16,
    /// Address of the attached buffer, zero when none is attached.
    pub addr: u64,
    /// First inline scratch word.
    pub data0: u64,
    /// Second inline scratch word; the driver ignores it.
    pub data1: u64,
}

/// The 80 payload bytes of a command: `dev_id:u32, queue_id:u16, len:u16,
/// addr:u64, data:[u64;2]`, then zeros.  The opcode travels beside the
/// payload, not inside it.
pub open spec fn spec_cmd_bytes(c: CtrlCmd) -> Seq<u8> {
    spec_u32_to_le_bytes(c.dev_id) + spec_u16_to_le_bytes(c.queue_id) + spec_u16_to_le_bytes(c.len)
        + spec_u64_to_le_bytes(c.addr) + spec_u64_to_le_bytes(c.data0) + spec_u64_to_le_bytes(
        c.data1,
    ) + zero_bytes(48)
}

impl CtrlCmd {
    /// A command for `op` aimed at `dev_id`, with no buffer and no inline data.
    pub fn new(op: CtrlOp, dev_id: u32) -> (r: Self)
        ensures
            r == (CtrlCmd {
                op,
                dev_id,
                queue_id: QUEUE_IGNORE_ID,
                len: 0,
                addr: 0,
                data0: 0,
                data1: 0,
            }),
    {
        CtrlCmd { op, dev_id, queue_id: QUEUE_IGNORE_ID, len: 0, addr: 0, data0: 0, data1: 0 }
    }

    /// Attach an in/out buffer of `len` bytes living at `addr`.
    ///
    /// The caller owns the buffer and must keep it alive, at that address,
    /// until the command's single completion has been observed.
    pub fn buffer(self, addr: u64, len: u16) -> (r: Self)
        ensures
            r == (CtrlCmd { addr, len, ..self }),
    {
        CtrlCmd { addr, len, ..self }
    }

    /// Set the first inline scratch word; the second stays zero.
    pub fn data(self, data: u64) -> (r: Self)
        ensures
            r == (CtrlCmd { data0: data, data1: 0, ..self }),
    {
        CtrlCmd { data0: data, data1: 0, ..self }
    }

    /// Serialize the command into the fixed-size inline payload.
    pub fn as_cmd_data(&self) -> (r: Vec<u8>)
        ensures
            r@ == spec_cmd_bytes(*self),
            r@.len() == CMD_BYTES,
            spec_u32_from_le_bytes(r@.subrange(0, 4)) == self.dev_id,
            spec_u16_from_le_bytes(r@.subrange(4, 6)) == self.queue_id,
            spec_u16_from_le_bytes(r@.subrange(6, 8)) == self.len,
            spec_u64_from_le_bytes(r@.subrange(8, 16)) == self.addr,
            spec_u64_from_le_bytes(r@.subrange(16, 24)) == self.data0,
            spec_u64_from_le_bytes(r@.subrange(24, 32)) == self.data1,
            forall|i: int| 32 <= i < CMD_BYTES ==> r@[i] == 0,
    {
        proof {
            lemma_cmd_bytes_fields(*self);
            lemma_auto_spec_u16_to_from_le_bytes();
            lemma_auto_spec_u32_to_from_le_bytes();
            lemma_auto_spec_u64_to_from_le_bytes();
        }
        let mut v = u32_to_le_bytes(self.dev_id);
        let mut b = u16_to_le_bytes(self.queue_id);
        v.append(&mut b);
        let mut b = u16_to_le_bytes(self.len);
        v.append(&mut b);
        let mut b = u64_to_le_bytes(self.addr);
        v.append(&mut b);
        let mut b = u64_to_le_bytes(self.data0);
        v.append(&mut b);
        let mut b = u64_to_le_bytes(self.data1);
        v.append(&mut b);
        push_zero_bytes(&mut v, 48);
        proof {
            assert(v@ =~= spec_cmd_bytes(*self));
        }
        v
    }
}

/// The serialized command carries each field at its fixed offset, and zeros
/// everywhere else: what the driver reads is exactly what was requested.
pub proof fn lemma_cmd_bytes_fields(c: CtrlCmd)
    ensures
        spec_cmd_bytes(c).len() == CMD_BYTES,
        spec_u32_from_le_bytes(spec_cmd_bytes(c).subrange(0, 4)) == c.dev_id,
        spec_u16_from_le_bytes(spec_cmd_bytes(c).subrange(4, 6)) == c.queue_id,
        spec_u16_from_le_bytes(spec_cmd_bytes(c).subrange(6, 8)) == c.len,
        spec_u64_from_le_bytes(spec_cmd_bytes(c).subrange(8, 16)) == c.addr,
        spec_u64_from_le_bytes(spec_cmd_bytes(c).subrange(16, 24)) == c.data0,
        spec_u64_from_le_bytes(spec_cmd_bytes(c).subrange(24, 32)) == c.data1,
        forall|i: int| 32 <= i < CMD_BYTES ==> spec_cmd_bytes(c)[i] == 0,
{
    lemma_auto_spec_u16_to_from_le_bytes();
    lemma_auto_spec_u32_to_from_le_bytes();
    lemma_auto_spec_u64_to_from_le_bytes();
    let s = spec_cmd_bytes(c);
    assert(s.subrange(0, 4) =~= spec_u32_to_le_bytes(c.dev_id));
    assert(s.subrange(4, 6) =~= spec_u16_to_le_bytes(c.queue_id));
    assert(s.subrange(6, 8) =~= spec_u16_to_le_bytes(c.len));
    assert(s.subrange(8, 16) =~= spec_u64_to_le_bytes(c.addr));
    assert(s.subrange(16, 24) =~= spec_u64_to_le_bytes(c.data0));
    assert(s.subrange(24, 32) =~= spec_u64_to_le_bytes(c.data1));
}

/// The driver's device-information record.
///
/// On `AddDev` the caller fills it with the requested shape and the driver
/// writes back the granted one; on `GetDevInfo` the driver fills it whole.
/// Padding and reserved regions of the binary form are not represented: they
/// are written as zeros and ignored when read.
#[derive(Debug, Clone, Copy, PartialEq, Eq, Structural)]
pub struct DevInfo {
    /// Number of hardware queues.
    pub nr_hw_queues: u16,
    /// Depth of each queue.
    pub queue_depth: u16,
    /// Device state word; `1` means live.
    pub state: u16,
    /// Largest single I/O the device accepts, in bytes.
    pub max_io_buf_bytes: u32,
    /// Device id, or [`NEW_DEV_ID`] to request a fresh one.
    pub dev_id: u32,
    /// Process id of the userspace server, `-1` or `0` when none.
    pub ublksrv_pid: i32,
    /// Feature-flag bits.
    pub flags: u64,
}

/// The 64 record bytes: `nr_hw_queues:u16, queue_depth:u16, state:u16,
/// pad:u16, max_io_buf_bytes:u32, dev_id:u32, srv_pid:i32, pad:u32,
/// flags:u64, reserved:[u64;4]`.
pub open spec fn spec_dev_info_bytes(i: DevInfo) -> Seq<u8> {
    spec_u16_to_le_bytes(i.nr_hw_queues) + spec_u16_to_le_bytes(i.queue_depth)
        + spec_u16_to_le_bytes(i.state) + zero_bytes(2) + spec_u32_to_le_bytes(i.max_io_buf_bytes)
        + spec_u32_to_le_bytes(i.dev_id) + spec_u32_to_le_bytes(i.ublksrv_pid as u32) + zero_bytes(
        4,
    ) + spec_u64_to_le_bytes(i.flags) + zero_bytes(32)
}

/// The record read back from the 64 bytes `s`; padding and reserved bytes
/// carry no information and are dropped.
pub open spec fn spec_dev_info_of_bytes(s: Seq<u8>) -> DevInfo {
    DevInfo {
        nr_hw_queues: spec_u16_from_le_bytes(s.subrange(0, 2)),
        queue_depth: spec_u16_from_le_bytes(s.subrange(2, 4)),
        state: spec_u16_from_le_bytes(s.subrange(4, 6)),
        max_io_buf_bytes: spec_u32_from_le_bytes(s.subrange(8, 12)),
        dev_id: spec_u32_from_le_bytes(s.subrange(12, 16)),
        ublksrv_pid: spec_u32_from_le_bytes(s.subrange(16, 20)) as i32,
        flags: spec_u64_from_le_bytes(s.subrange(24, 32)),
    }
}

impl DevInfo {
    /// An all-zero record, ready to be filled by the driver.
    pub fn new() -> (r: Self)
        ensures
            r == (DevInfo {
                nr_hw_queues: 0,
                queue_depth: 0,
                state: 0,
                max_io_buf_bytes: 0,
                dev_id: 0,
                ublksrv_pid: 0,
                flags: 0,
            }),
    {
        DevInfo {
            nr_hw_queues: 0,
            queue_depth: 0,
            state: 0,
            max_io_buf_bytes: 0,
            dev_id: 0,
            ublksrv_pid: 0,
            flags: 0,
        }
    }

    /// Set the device id.
    pub fn dev_id(self, dev_id: u32) -> (r: Self)
        ensures
            r == (DevInfo { dev_id, ..self }),
    {
        DevInfo { dev_id, ..self }
    }

    /// Set the number of hardware queues.
    pub fn nr_hw_queues(self, nr_hw_queues: u16) -> (r: Self)
        ensures
            r == (DevInfo { nr_hw_queues, ..self }),
    {
        DevInfo { nr_hw_queues, ..self }
    }

    /// Set the queue depth.
    pub fn queue_depth(self, queue_depth: u16) -> (r: Self)
        ensures
            r == (DevInfo { queue_depth, ..self }),
    {
        DevInfo { queue_depth, ..self }
    }

    /// Set the largest single I/O size.
    pub fn max_io_buf_bytes(self, max_io_buf_bytes: u32) -> (r: Self)
        ensures
            r == (DevInfo { max_io_buf_bytes, ..self }),
    {
        DevInfo { max_io_buf_bytes, ..self }
    }

    /// Set the feature-flag bits.
    pub fn flags(self, flags: u64) -> (r: Self)
        ensures
            r == (DevInfo { flags, ..self }),
    {
        DevInfo { flags, ..self }
    }

    /// Serialize the record; padding and reserved regions are zero.
    pub fn to_bytes(&self) -> (r: Vec<u8>)
        ensures
            r@ == spec_dev_info_bytes(*self),
            r@.len() == DEV_INFO_BYTES,
    {
        proof {
            lemma_auto_spec_u16_to_from_le_bytes();
            lemma_auto_spec_u32_to_from_le_bytes();
            lemma_auto_spec_u64_to_from_le_bytes();
        }
        let mut v = u16_to_le_bytes(self.nr_hw_queues);
        let mut b = u16_to_le_bytes(self.queue_depth);
        v.append(&mut b);
        let mut b = u16_to_le_bytes(self.state);
        v.append(&mut b);
        push_zero_bytes(&mut v, 2);
        let mut b = u32_to_le_bytes(self.max_io_buf_bytes);
        v.append(&mut b);
        let mut b = u32_to_le_bytes(self.dev_id);
        v.append(&mut b);
        let pid_raw: u32 = #[verifier::truncate] (self.ublksrv_pid as u32);
        let mut b = u32_to_le_bytes(pid_raw);
        v.append(&mut b);
        push_zero_bytes(&mut v, 4);
        let mut b = u64_to_le_bytes(self.flags);
        v.append(&mut b);
        push_zero_bytes(&mut v, 32);
        proof {
            assert(v@ =~= spec_dev_info_bytes(*self));
        }
        v
    }

    /// Read a record back from its 64 bytes.
    pub fn from_bytes(s: &[u8]) -> (r: Self)
        requires
            s@.len() == DEV_INFO_BYTES,
        ensures
            r == spec_dev_info_of_bytes(s@),
    {
        let nr_hw_queues = u16_from_le_bytes(slice_subrange(s, 0, 2));
        let queue_depth = u16_from_le_bytes(slice_subrange(s, 2, 4));
        let state = u16_from_le_bytes(slice_subrange(s, 4, 6));
        let max_io_buf_bytes = u32_from_le_bytes(slice_subrange(s, 8, 12));
        let dev_id = u32_from_le_bytes(slice_subrange(s, 12, 16));
        let pid_raw = u32_from_le_bytes(slice_subrange(s, 16, 20));
        let ublksrv_pid: i32 = #[verifier::truncate] (pid_raw as i32);
        let flags = u64_from_le_bytes(slice_subrange(s, 24, 32));
        DevInfo { nr_hw_queues, queue_depth, state, max_io_buf_bytes, dev_id, ublksrv_pid, flags }
    }
}

/// Bit set in [`DevParams::types`] when the mandatory basic block is present.
pub const PARAM_TYPE_BASIC: u32 = 0x1;

/// Bit set in [`DevParams::types`] when the optional discard block is present.
pub const PARAM_TYPE_DISCARD: u32 = 0x2;

/// Whether a `types` bitmask announces a discard block.
pub open spec fn spec_has_discard(types: u32) -> bool {
    types & PARAM_TYPE_DISCARD != 0
}

/// The mandatory block of the parameter record.
#[derive(Debug, Clone, Copy, PartialEq, Eq, Structural)]
pub struct DevParamBasic {
    /// Device attribute bits.
    pub attrs: u32,
    /// Logical block size, as a power-of-two shift.
    pub logical_bs_shift: u8,
    /// Physical block size, as a power-of-two shift.
    pub physical_bs_shift: u8,
    /// Optimal I/O size, as a power-of-two shift.
    pub io_opt_shift: u8,
    /// Minimal I/O size, as a power-of-two shift.
    pub io_min_shift: u8,
    /// Largest request, in 512-byte sectors.
    pub max_sectors: u32,
    /// Chunk size, in sectors.
    pub chunk_sectors: u32,
    /// Device capacity, in sectors.
    pub dev_sectors: u64,
    /// Virtual boundary mask for scattered I/O.
    pub virt_boundary_mask: u64,
}

impl DevParamBasic {
    /// The device is read-only.
    pub const ATTR_READ_ONLY: u32 = 0x1;

    /// The device is rotational.
    pub const ATTR_ROTATIONAL: u32 = 0x2;

    /// The device has a volatile write cache.
    pub const ATTR_VOLATILE_CACHE: u32 = 0x4;

    /// The device honours forced unit access.
    pub const ATTR_FUA: u32 = 0x8;

    /// An all-zero block.
    pub fn zeroed() -> (r: Self)
        ensures
            r == (DevParamBasic {
                attrs: 0,
                logical_bs_shift: 0,
                physical_bs_shift: 0,
                io_opt_shift: 0,
                io_min_shift: 0,
                max_sectors: 0,
                chunk_sectors: 0,
                dev_sectors: 0,
                virt_boundary_mask: 0,
            }),
    {
        DevParamBasic {
            attrs: 0,
            logical_bs_shift: 0,
            physical_bs_shift: 0,
            io_opt_shift: 0,
            io_min_shift: 0,
            max_sectors: 0,
            chunk_sectors: 0,
            dev_sectors: 0,
            virt_boundary_mask: 0,
        }
    }
}

/// The optional discard block of the parameter record.
#[derive(Debug, Clone, Copy, PartialEq, Eq, Structural)]
pub struct DevParamDiscard {
    /// Alignment of discard ranges, in bytes.
    pub discard_alignment: u32,
    /// Granularity of discard ranges, in bytes.
    pub discard_granularity: u32,
    /// Largest discard request, in sectors.
    pub max_discard_sectors: u32,
    /// Largest write-zeroes request, in sectors.
    pub max_write_zeroes_sectors: u32,
    /// Largest number of segments in one discard request.
    pub max_discard_segments: u16,
}

impl DevParamDiscard {
    /// An all-zero block.
    pub fn zeroed() -> (r: Self)
        ensures
            r == (DevParamDiscard {
                discard_alignment: 0,
                discard_granularity: 0,
                max_discard_sectors: 0,
                max_write_zeroes_sectors: 0,
                max_discard_segments: 0,
            }),
    {
        DevParamDiscard {
            discard_alignment: 0,
            discard_granularity: 0,
            max_discard_sectors: 0,
            max_write_zeroes_sectors: 0,
            max_discard_segments: 0,
        }
    }
}

/// The driver's parameter record: a length, a `types` bitmask saying which
/// blocks are meaningful, and the two blocks themselves.
#[derive(Debug, Clone, Copy, PartialEq, Eq, Structural)]
pub struct DevParams {
    /// Total record length; both sides use it to negotiate versions.
    pub len: u32,
    /// Which blocks are present; only checked by the driver on `SetParams`.
    pub types: u32,
    /// The mandatory basic block.
    pub basic: DevParamBasic,
    /// The optional discard block; meaningful only when its type bit is set.
    pub discard: DevParamDiscard,
}

impl DevParams {
    /// A record ready for `GetParams`: correct length, nothing claimed.
    ///
    /// The driver ignores `types` on reads and returns every parameter block
    /// it knows about.
    pub fn empty() -> (r: Self)
        ensures
            r == (DevParams {
                len: PARAMS_BYTES as u32,
                types: 0,
                basic: DevParamBasic {
                    attrs: 0,
                    logical_bs_shift: 0,
                    physical_bs_shift: 0,
                    io_opt_shift: 0,
                    io_min_shift: 0,
                    max_sectors: 0,
                    chunk_sectors: 0,
                    dev_sectors: 0,
                    virt_boundary_mask: 0,
                },
                discard: DevParamDiscard {
                    discard_alignment: 0,
                    discard_granularity: 0,
                    max_discard_sectors: 0,
                    max_write_zeroes_sectors: 0,
                    max_discard_segments: 0,
                },
            }),
    {
        DevParams {
            len: PARAMS_BYTES as u32,
            types: 0,
            basic: DevParamBasic::zeroed(),
            discard: DevParamDiscard::zeroed(),
        }
    }

    /// Serialize the record; the reserved tail of the discard block is zero.
    pub fn to_bytes(&self) -> (r: Vec<u8>)
        ensures
            r@ == spec_params_bytes(*self),
            r@.len() == PARAMS_BYTES,
    {
        proof {
            lemma_auto_spec_u16_to_from_le_bytes();
            lemma_auto_spec_u32_to_from_le_bytes();
            lemma_auto_spec_u64_to_from_le_bytes();
        }
        let mut v = u32_to_le_bytes(self.len);
        let mut b = u32_to_le_bytes(self.types);
        v.append(&mut b);
        let mut b = u32_to_le_bytes(self.basic.attrs);
        v.append(&mut b);
        v.push(self.basic.logical_bs_shift);
        v.push(self.basic.physical_bs_shift);
        v.push(self.basic.io_opt_shift);
        v.push(self.basic.io_min_shift);
        let mut b = u32_to_le_bytes(self.basic.max_sectors);
        v.append(&mut b);
        let mut b = u32_to_le_bytes(self.basic.chunk_sectors);
        v.append(&mut b);
        let mut b = u64_to_le_bytes(self.basic.dev_sectors);
        v.append(&mut b);
        let mut b = u64_to_le_bytes(self.basic.virt_boundary_mask);
        v.append(&mut b);
        let mut b = u32_to_le_bytes(self.discard.discard_alignment);
        v.append(&mut b);
        let mut b = u32_to_le_bytes(self.discard.discard_granularity);
        v.append(&mut b);
        let mut b = u32_to_le_bytes(self.discard.max_discard_sectors);
        v.append(&mut b);
        let mut b = u32_to_le_bytes(self.discard.max_write_zeroes_sectors);
        v.append(&mut b);
        let mut b = u16_to_le_bytes(self.discard.max_discard_segments);
        v.append(&mut b);
        push_zero_bytes(&mut v, 2);
        proof {
            assert(v@ =~= spec_params_bytes(*self));
        }
        v
    }

    /// Read a record back from its 60 bytes.
    pub fn from_bytes(s: &[u8]) -> (r: Self)
        requires
            s@.len() == PARAMS_BYTES,
        ensures
            r == spec_params_of_bytes(s@),
    {
        let len = u32_from_le_bytes(slice_subrange(s, 0, 4));
        let types = u32_from_le_bytes(slice_subrange(s, 4, 8));
        let basic = DevParamBasic {
            attrs: u32_from_le_bytes(slice_subrange(s, 8, 12)),
            logical_bs_shift: *slice_index_get(s, 12),
            physical_bs_shift: *slice_index_get(s, 13),
            io_opt_shift: *slice_index_get(s, 14),
            io_min_shift: *slice_index_get(s, 15),
            max_sectors: u32_from_le_bytes(slice_subrange(s, 16, 20)),
            chunk_sectors: u32_from_le_bytes(slice_subrange(s, 20, 24)),
            dev_sectors: u64_from_le_bytes(slice_subrange(s, 24, 32)),
            virt_boundary_mask: u64_from_le_bytes(slice_subrange(s, 32, 40)),
        };
        let discard = DevParamDiscard {
            discard_alignment: u32_from_le_bytes(slice_subrange(s, 40, 44)),
            discard_granularity: u32_from_le_bytes(slice_subrange(s, 44, 48)),
            max_discard_sectors: u32_from_le_bytes(slice_subrange(s, 48, 52)),
            max_write_zeroes_sectors: u32_from_le_bytes(slice_subrange(s, 52, 56)),
            max_discard_segments: u16_from_le_bytes(slice_subrange(s, 56, 58)),
        };
        DevParams { len, types, basic, discard }
    }
}

/// The basic block's 32 bytes: `attrs:u32`, the four shift bytes, then
/// `max_sectors:u32, chunk_sectors:u32, dev_sectors:u64, virt_boundary_mask:u64`.
pub open spec fn spec_basic_bytes(b: DevParamBasic) -> Seq<u8> {
    spec_u32_to_le_bytes(b.attrs) + seq![
        b.logical_bs_shift,
        b.physical_bs_shift,
        b.io_opt_shift,
        b.io_min_shift,
    ] + spec_u32_to_le_bytes(b.max_sectors) + spec_u32_to_le_bytes(b.chunk_sectors)
        + spec_u64_to_le_bytes(b.dev_sectors) + spec_u64_to_le_bytes(b.virt_boundary_mask)
}

/// The discard block's 20 bytes: four `u32` limits, `max_discard_segments:u16`,
/// and a reserved `u16` of zeros.
pub open spec fn spec_discard_bytes(d: DevParamDiscard) -> Seq<u8> {
    spec_u32_to_le_bytes(d.discard_alignment) + spec_u32_to_le_bytes(d.discard_granularity)
        + spec_u32_to_le_bytes(d.max_discard_sectors) + spec_u32_to_le_bytes(
        d.max_write_zeroes_sectors,
    ) + spec_u16_to_le_bytes(d.max_discard_segments) + zero_bytes(2)
}

/// The 60 record bytes: `len:u32, types:u32`, the basic block, the discard block.
pub open spec fn spec_params_bytes(p: DevParams) -> Seq<u8> {
    spec_u32_to_le_bytes(p.len) + spec_u32_to_le_bytes(p.types) + spec_basic_bytes(p.basic)
        + spec_discard_bytes(p.discard)
}

/// The record read back from the 60 bytes `s`.
pub open spec fn spec_params_of_bytes(s: Seq<u8>) -> DevParams {
    DevParams {
        len: spec_u32_from_le_bytes(s.subrange(0, 4)),
        types: spec_u32_from_le_bytes(s.subrange(4, 8)),
        basic: DevParamBasic {
            attrs: spec_u32_from_le_bytes(s.subrange(8, 12)),
            logical_bs_shift: s[12],
            physical_bs_shift: s[13],
            io_opt_shift: s[14],
            io_min_shift: s[15],
            max_sectors: spec_u32_from_le_bytes(s.subrange(16, 20)),
            chunk_sectors: spec_u32_from_le_bytes(s.subrange(20, 24)),
            dev_sectors: spec_u64_from_le_bytes(s.subrange(24, 32)),
            virt_boundary_mask: spec_u64_from_le_bytes(s.subrange(32, 40)),
        },
        discard: DevParamDiscard {
            discard_alignment: spec_u32_from_le_bytes(s.subrange(40, 44)),
            discard_granularity: spec_u32_from_le_bytes(s.subrange(44, 48)),
            max_discard_sectors: spec_u32_from_le_bytes(s.subrange(48, 52)),
            max_write_zeroes_sectors: spec_u32_from_le_bytes(s.subrange(52, 56)),
            max_discard_segments: spec_u16_from_le_bytes(s.subrange(56, 58)),
        },
    }
}

/// Serializing a parameter record and reading it back reproduces it exactly.
pub proof fn lemma_params_bytes_round_trip(p: DevParams)
    ensures
        spec_params_of_bytes(spec_params_bytes(p)) == p,
{
    lemma_auto_spec_u16_to_from_le_bytes();
    lemma_auto_spec_u32_to_from_le_bytes();
    lemma_auto_spec_u64_to_from_le_bytes();
    let s = spec_params_bytes(p);
    assert(s.subrange(0, 4) =~= spec_u32_to_le_bytes(p.len));
    assert(s.subrange(4, 8) =~= spec_u32_to_le_bytes(p.types));
    assert(s.subrange(8, 12) =~= spec_u32_to_le_bytes(p.basic.attrs));
    assert(s[12] == p.basic.logical_bs_shift);
    assert(s[13] == p.basic.physical_bs_shift);
    assert(s[14] == p.basic.io_opt_shift);
    assert(s[15] == p.basic.io_min_shift);
    assert(s.subrange(16, 20) =~= spec_u32_to_le_bytes(p.basic.max_sectors));
    assert(s.subrange(20, 24) =~= spec_u32_to_le_bytes(p.basic.chunk_sectors));
    assert(s.subrange(24, 32) =~= spec_u64_to_le_bytes(p.basic.dev_sectors));
    assert(s.subrange(32, 40) =~= spec_u64_to_le_bytes(p.basic.virt_boundary_mask));
    assert(s.subrange(40, 44) =~= spec_u32_to_le_bytes(p.discard.discard_alignment));
    assert(s.subrange(44, 48) =~= spec_u32_to_le_bytes(p.discard.discard_granularity));
    assert(s.subrange(48, 52) =~= spec_u32_to_le_bytes(p.discard.max_discard_sectors));
    assert(s.subrange(52, 56) =~= spec_u32_to_le_bytes(p.discard.max_write_zeroes_sectors));
    assert(s.subrange(56, 58) =~= spec_u16_to_le_bytes(p.discard.max_discard_segments));
}

/// Serializing a record and reading it back reproduces the record exactly.
pub proof fn lemma_dev_info_bytes_round_trip(i: DevInfo)
    ensures
        spec_dev_info_of_bytes(spec_dev_info_bytes(i)) == i,
{
    lemma_auto_spec_u16_to_from_le_bytes();
    lemma_auto_spec_u32_to_from_le_bytes();
    lemma_auto_spec_u64_to_from_le_bytes();
    let s = spec_dev_info_bytes(i);
    assert(s.subrange(0, 2) =~= spec_u16_to_le_bytes(i.nr_hw_queues));
    assert(s.subrange(2, 4) =~= spec_u16_to_le_bytes(i.queue_depth));
    assert(s.subrange(4, 6) =~= spec_u16_to_le_bytes(i.state));
    assert(s.subrange(8, 12) =~= spec_u32_to_le_bytes(i.max_io_buf_bytes));
    assert(s.subrange(12, 16) =~= spec_u32_to_le_bytes(i.dev_id));
    assert(s.subrange(16, 20) =~= spec_u32_to_le_bytes(i.ublksrv_pid as u32));
    assert(s.subrange(24, 32) =~= spec_u64_to_le_bytes(i.flags));
    let p = i.ublksrv_pid;
    assert((p as u32) as i32 == p) by (bit_vector);
}

} // verus!
