//! Wire-codec behaviour: clamping, flag truncation, byte layouts, round trips.

use ublk::control::sys::{CtrlCmd, CtrlOp, DevInfo, DevParamBasic, DevParamDiscard, DevParams};
use ublk::control::{
    DeviceAttr, DeviceFlags, DeviceInfo, DeviceOptions, DeviceParamDiscard as Discard,
    DeviceParams, DeviceStatus,
};

#[test]
fn clamp_nr_hw_queues() {
    let o = DeviceOptions::new().nr_hw_queues(10000);
    assert_eq!(o.encode().nr_hw_queues, 32);
}

#[test]
fn clamp_queue_depth() {
    let o = DeviceOptions::new().queue_depth(5000);
    assert_eq!(o.encode().queue_depth, 1024);
}

#[test]
fn clamp_max_io_buf_bytes() {
    let o = DeviceOptions::new().max_io_buf_bytes(16 * 1024 * 1024);
    assert_eq!(o.encode().max_io_buf_bytes, 1024 * 1024);
}

#[test]
fn clamp_keeps_values_in_range() {
    let o = DeviceOptions::new()
        .nr_hw_queues(8)
        .queue_depth(512)
        .max_io_buf_bytes(4096);
    let w = o.encode();
    assert_eq!(w.nr_hw_queues, 8);
    assert_eq!(w.queue_depth, 512);
    assert_eq!(w.max_io_buf_bytes, 4096);
}

#[test]
fn options_defaults() {
    let w = DeviceOptions::new().encode();
    assert_eq!(w.dev_id, 0xFFFF_FFFF);
    assert_eq!(w.nr_hw_queues, 1);
    assert_eq!(w.queue_depth, 256);
    assert_eq!(w.max_io_buf_bytes, 512 * 1024);
    assert_eq!(w.flags, 0);
}

#[test]
fn options_round_trip_all_fields() {
    let flags = DeviceFlags::zero_copy().union(DeviceFlags::need_get_data());
    let o = DeviceOptions::new()
        .device_id(5)
        .nr_hw_queues(4)
        .queue_depth(64)
        .max_io_buf_bytes(65536)
        .flags(flags);
    let bytes = o.encode().to_bytes();
    let d = DeviceInfo::decode(&DevInfo::from_bytes(&bytes));
    assert_eq!(d.dev_id, 5);
    assert_eq!(d.nr_hw_queues, 4);
    assert_eq!(d.queue_depth, 64);
    assert_eq!(d.max_io_buf_bytes, 65536);
    assert_eq!(d.flags, flags);
    assert_eq!(d.state, DeviceStatus::Dead);
    assert!(!d.active());
}

#[test]
fn flags_every_subset_round_trips() {
    for bits in 0u64..8 {
        let f = DeviceFlags::from_bits_truncate(bits);
        assert_eq!(f.bits(), bits);
        assert_eq!(DeviceFlags::from_bits_truncate(f.bits()), f);
    }
}

#[test]
fn flags_unknown_bits_are_dropped() {
    assert_eq!(DeviceFlags::from_bits_truncate(0xFFFF_FFFF_FFFF_FFF8).bits(), 0);
    assert_eq!(DeviceFlags::from_bits_truncate(0xFF05).bits(), 5);
    assert_eq!(DeviceFlags::from_bits_truncate(u64::MAX).bits(), 7);
}

#[test]
fn flags_union_and_contains() {
    let f = DeviceFlags::zero_copy()
        .union(DeviceFlags::force_iou_cmd_complete_in_task())
        .union(DeviceFlags::need_get_data());
    assert_eq!(f.bits(), 7);
    assert!(f.contains(DeviceFlags::zero_copy()));
    assert!(!DeviceFlags::empty().contains(DeviceFlags::need_get_data()));
}

#[test]
fn attrs_truncate_and_union() {
    assert_eq!(DeviceAttr::from_bits_truncate(0xFFF0).bits(), 0);
    let a = DeviceAttr::read_only().union(DeviceAttr::fua());
    assert_eq!(a.bits(), 9);
    assert!(a.contains(DeviceAttr::read_only()));
    assert!(!a.contains(DeviceAttr::rotational()));
    assert_eq!(DeviceAttr::from_bits_truncate(a.bits()), a);
}

#[test]
fn status_collapses_unknown_to_dead() {
    assert_eq!(DeviceStatus::from_wire(0), DeviceStatus::Dead);
    assert_eq!(DeviceStatus::from_wire(1), DeviceStatus::Live);
    assert_eq!(DeviceStatus::from_wire(7), DeviceStatus::Dead);
    assert_eq!(DeviceStatus::try_from_wire(0), Some(DeviceStatus::Dead));
    assert_eq!(DeviceStatus::try_from_wire(1), Some(DeviceStatus::Live));
    assert_eq!(DeviceStatus::try_from_wire(2), None);
    assert_eq!(DeviceStatus::Live.wire_value(), 1);
    assert_eq!(DeviceStatus::Dead.wire_value(), 0);
}

#[test]
fn dev_info_byte_layout() {
    let w = DevInfo::new()
        .nr_hw_queues(0x1122)
        .queue_depth(0x3344)
        .max_io_buf_bytes(0x0A0B0C0D)
        .dev_id(0x01020304)
        .flags(0x1112131415161718);
    let bytes = w.to_bytes();
    assert_eq!(bytes.len(), 64);
    let mut expected = vec![
        0x22, 0x11, // nr_hw_queues
        0x44, 0x33, // queue_depth
        0x00, 0x00, // state
        0x00, 0x00, // padding
        0x0D, 0x0C, 0x0B, 0x0A, // max_io_buf_bytes
        0x04, 0x03, 0x02, 0x01, // dev_id
        0x00, 0x00, 0x00, 0x00, // srv pid
        0x00, 0x00, 0x00, 0x00, // padding
        0x18, 0x17, 0x16, 0x15, 0x14, 0x13, 0x12, 0x11, // flags
    ];
    expected.resize(64, 0); // reserved words
    assert_eq!(bytes, expected);
}

#[test]
fn dev_info_bytes_round_trip_negative_pid() {
    let w = DevInfo {
        nr_hw_queues: 3,
        queue_depth: 99,
        state: 1,
        max_io_buf_bytes: 1 << 20,
        dev_id: 0xFFFF_FFFF,
        ublksrv_pid: -1,
        flags: 0x8000_0000_0000_0001,
    };
    let back = DevInfo::from_bytes(&w.to_bytes());
    assert_eq!(back, w);
}

#[test]
fn params_encode_without_discard_leaves_type_bit_clear() {
    let p = DeviceParams::zeroed();
    let w = p.encode();
    assert_eq!(w.types, 1);
    assert_eq!(w.len, 60);
    assert_eq!(w.discard, DevParamDiscard::zeroed());
}

#[test]
fn params_encode_with_discard_sets_type_bit() {
    let mut p = DeviceParams::zeroed();
    p.discard = Some(Discard {
        discard_alignment: 512,
        discard_granularity: 4096,
        max_discard_sectors: 1 << 18,
        max_write_zeroes_sectors: 1 << 17,
        max_discard_segments: 33,
    });
    let w = p.encode();
    assert_eq!(w.types, 3);
    assert_eq!(w.discard.discard_granularity, 4096);
    assert_eq!(w.discard.max_discard_segments, 33);
}

#[test]
fn params_decode_ignores_unannounced_discard_bytes() {
    let w = DevParams {
        len: 60,
        types: 1,
        basic: DevParamBasic::zeroed(),
        discard: DevParamDiscard {
            discard_alignment: 0xDEAD,
            discard_granularity: 0xBEEF,
            max_discard_sectors: 7,
            max_write_zeroes_sectors: 7,
            max_discard_segments: 7,
        },
    };
    let p = DeviceParams::decode(&w);
    assert_eq!(p.discard, None);
}

#[test]
fn params_decode_reads_announced_discard() {
    let w = DevParams {
        len: 60,
        types: 3,
        basic: DevParamBasic::zeroed(),
        discard: DevParamDiscard {
            discard_alignment: 1,
            discard_granularity: 2,
            max_discard_sectors: 3,
            max_write_zeroes_sectors: 4,
            max_discard_segments: 5,
        },
    };
    let p = DeviceParams::decode(&w);
    let d = p.discard.expect("discard block announced");
    assert_eq!(d.discard_alignment, 1);
    assert_eq!(d.discard_granularity, 2);
    assert_eq!(d.max_discard_sectors, 3);
    assert_eq!(d.max_write_zeroes_sectors, 4);
    assert_eq!(d.max_discard_segments, 5);
}

#[test]
fn params_decode_truncates_unknown_attrs() {
    let mut basic = DevParamBasic::zeroed();
    basic.attrs = 0xFFFF_FFFF;
    let w = DevParams {
        len: 60,
        types: 1,
        basic,
        discard: DevParamDiscard::zeroed(),
    };
    assert_eq!(DeviceParams::decode(&w).attrs.bits(), 0xF);
}

#[test]
fn params_byte_layout() {
    let w = DevParams {
        len: 60,
        types: 3,
        basic: DevParamBasic {
            attrs: 0x0000_0009,
            logical_bs_shift: 9,
            physical_bs_shift: 12,
            io_opt_shift: 12,
            io_min_shift: 9,
            max_sectors: 0x11223344,
            chunk_sectors: 0x55667788,
            dev_sectors: 0x0102030405060708,
            virt_boundary_mask: 0,
        },
        discard: DevParamDiscard {
            discard_alignment: 0xAABBCCDD,
            discard_granularity: 0x00000200,
            max_discard_sectors: 0x00010000,
            max_write_zeroes_sectors: 0x00008000,
            max_discard_segments: 0x0102,
        },
    };
    let bytes = w.to_bytes();
    assert_eq!(bytes.len(), 60);
    let expected = vec![
        60, 0, 0, 0, // len
        3, 0, 0, 0, // types
        0x09, 0, 0, 0, // attrs
        9, 12, 12, 9, // block-size shifts
        0x44, 0x33, 0x22, 0x11, // max_sectors
        0x88, 0x77, 0x66, 0x55, // chunk_sectors
        0x08, 0x07, 0x06, 0x05, 0x04, 0x03, 0x02, 0x01, // dev_sectors
        0, 0, 0, 0, 0, 0, 0, 0, // virt_boundary_mask
        0xDD, 0xCC, 0xBB, 0xAA, // discard_alignment
        0x00, 0x02, 0, 0, // discard_granularity
        0, 0, 0x01, 0, // max_discard_sectors
        0, 0x80, 0, 0, // max_write_zeroes_sectors
        0x02, 0x01, // max_discard_segments
        0, 0, // reserved
    ];
    assert_eq!(bytes, expected);
    assert_eq!(DevParams::from_bytes(&bytes), w);
}

#[test]
fn domain_params_full_round_trip() {
    let p = DeviceParams {
        attrs: DeviceAttr::volatile_cache(),
        logical_bs_shift: 9,
        physical_bs_shift: 12,
        io_opt_shift: 12,
        io_min_shift: 9,
        max_sectors: 1024,
        chunk_sectors: 0,
        dev_sectors: 524288000,
        virt_boundary_mask: 0,
        discard: Some(Discard {
            discard_alignment: 0,
            discard_granularity: 4096,
            max_discard_sectors: 1 << 18,
            max_write_zeroes_sectors: 0,
            max_discard_segments: 1,
        }),
    };
    let bytes = p.encode().to_bytes();
    let back = DeviceParams::decode(&DevParams::from_bytes(&bytes));
    assert_eq!(back, p);
}

#[test]
fn cmd_byte_layout() {
    let cmd = CtrlCmd::new(CtrlOp::AddDev, 0x01020304)
        .buffer(0x1122334455667788, 64)
        .data(0x0A0B0C0D0E0F1011);
    let bytes = cmd.as_cmd_data();
    assert_eq!(bytes.len(), 80);
    let mut expected = vec![
        0x04, 0x03, 0x02, 0x01, // dev_id
        0xFF, 0xFF, // queue_id sentinel
        64, 0, // len
        0x88, 0x77, 0x66, 0x55, 0x44, 0x33, 0x22, 0x11, // addr
        0x11, 0x10, 0x0F, 0x0E, 0x0D, 0x0C, 0x0B, 0x0A, // data[0]
        0, 0, 0, 0, 0, 0, 0, 0, // data[1]
    ];
    expected.resize(80, 0);
    assert_eq!(bytes, expected);
}

#[test]
fn opcodes_match_driver_values() {
    assert_eq!(CtrlOp::GetQueueAffinity.code(), 1);
    assert_eq!(CtrlOp::GetDevInfo.code(), 2);
    assert_eq!(CtrlOp::AddDev.code(), 4);
    assert_eq!(CtrlOp::DelDev.code(), 5);
    assert_eq!(CtrlOp::StartDev.code(), 6);
    assert_eq!(CtrlOp::StopDev.code(), 7);
    assert_eq!(CtrlOp::SetParams.code(), 8);
    assert_eq!(CtrlOp::GetParams.code(), 9);
}
