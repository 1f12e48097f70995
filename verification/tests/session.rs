//! Session behaviour: request ids, per-op commands, completion mapping, and
//! simulated driver exchanges.

use ublk::control::sys::{CtrlOp, DevInfo, DevParams};
use ublk::control::{
    completion_result, finish_device_info, finish_device_parameters, finish_queue_affinity,
    get_cpu_list, CpuSet, DeviceOptions, DeviceParams, DeviceStatus, UblkCtrl,
};
use ublk::error::Error;

#[test]
fn entry_ids_are_monotonic() {
    let mut s = UblkCtrl::new();
    let a = s.get_device_info_cmd(0, 0);
    let b = s.delete_device_cmd(0);
    let c = s.stop_device_cmd(0);
    assert_eq!(a.entry_id, 1);
    assert_eq!(b.entry_id, 2);
    assert_eq!(c.entry_id, 3);
}

#[test]
fn add_device_targets_requested_id() {
    let mut s = UblkCtrl::new();
    let o = DeviceOptions::new().device_id(9);
    let sub = s.add_device_cmd(&o, 0x1000);
    // The command and the record announce the same id, so the driver's
    // id-match check cannot fail through this client's doing.
    assert_eq!(sub.cmd.dev_id, 9);
    assert_eq!(o.encode().dev_id, 9);
    assert_eq!(sub.cmd.op, CtrlOp::AddDev);
    assert_eq!(sub.cmd.len, 64);
    assert_eq!(sub.cmd.addr, 0x1000);
}

#[test]
fn add_device_sentinel_requests_fresh_id() {
    let mut s = UblkCtrl::new();
    let o = DeviceOptions::new();
    let sub = s.add_device_cmd(&o, 0);
    assert_eq!(sub.cmd.dev_id, 0xFFFF_FFFF);
    assert_eq!(o.encode().dev_id, 0xFFFF_FFFF);
}

#[test]
fn per_op_commands_carry_their_arguments() {
    let mut s = UblkCtrl::new();

    let del = s.delete_device_cmd(4);
    assert_eq!(del.cmd.op, CtrlOp::DelDev);
    assert_eq!((del.cmd.len, del.cmd.addr), (0, 0));

    let start = s.start_device_cmd(4, 31337);
    assert_eq!(start.cmd.op, CtrlOp::StartDev);
    assert_eq!(start.cmd.data0, 31337);
    assert_eq!(start.cmd.len, 0);

    let stop = s.stop_device_cmd(4);
    assert_eq!(stop.cmd.op, CtrlOp::StopDev);

    let setp = s.set_device_parameters_cmd(4, 0x2000);
    assert_eq!(setp.cmd.op, CtrlOp::SetParams);
    assert_eq!(setp.cmd.len, 60);
    assert_eq!(setp.cmd.addr, 0x2000);

    let getp = s.get_device_parameters_cmd(4, 0x3000);
    assert_eq!(getp.cmd.op, CtrlOp::GetParams);
    assert_eq!(getp.cmd.len, 60);

    let aff = s.get_queue_affinity_cmd(4, 2, 0x4000);
    assert_eq!(aff.cmd.op, CtrlOp::GetQueueAffinity);
    assert_eq!(aff.cmd.len, 128);
    assert_eq!(aff.cmd.data0, 2);

    assert_eq!(
        (del.entry_id, start.entry_id, stop.entry_id, setp.entry_id, getp.entry_id, aff.entry_id),
        (1, 2, 3, 4, 5, 6)
    );
    for sub in [&del, &start, &stop, &setp, &getp, &aff] {
        assert_eq!(sub.cmd.queue_id, 0xFFFF);
    }
}

#[test]
fn completion_zero_is_success() {
    assert!(completion_result(0).is_ok());
}

#[test]
fn completion_negative_carries_os_code() {
    let e = completion_result(-19).unwrap_err();
    assert_eq!(e, Error::Io { errno: 19 });
    assert!(e.is_os_error(19));
    assert!(!e.is_os_error(22));
}

#[test]
fn set_params_rejection_on_live_device_is_surfaced() {
    // A live device answers SetParams with "device or resource busy"; the
    // code must come through verbatim, never be swallowed.
    let res: i32 = -16;
    let r = completion_result(res);
    assert_eq!(r, Err(Error::Io { errno: 16 }));
}

#[test]
fn simulated_add_device_exchange() {
    let mut s = UblkCtrl::new();
    let o = DeviceOptions::new().nr_hw_queues(2).queue_depth(128);
    let mut buf = o.encode().to_bytes();
    let sub = s.add_device_cmd(&o, buf.as_ptr() as u64);
    assert_eq!(sub.entry_id, 1);

    // Simulated driver: grant id 3, keep the requested shape, report the
    // serving pid, and leave the device dead.
    let mut granted = DevInfo::from_bytes(&buf);
    assert_eq!(granted.nr_hw_queues, 2);
    assert_eq!(granted.queue_depth, 128);
    granted = granted.dev_id(3);
    let granted = DevInfo {
        ublksrv_pid: 4242,
        ..granted
    };
    buf = granted.to_bytes();

    let info = finish_device_info(0, &buf).expect("driver accepted");
    assert_eq!(info.dev_id, 3);
    assert_eq!(info.srv_pid, 4242);
    assert_eq!(info.nr_hw_queues, 2);
    assert_eq!(info.queue_depth, 128);
    assert_eq!(info.max_io_buf_bytes, 512 * 1024);
    assert_eq!(info.state, DeviceStatus::Dead);
}

#[test]
fn simulated_add_device_echoes_concrete_id() {
    // A driver that accepts a concrete-id request echoes the record back;
    // the decoded info then reports exactly the requested id.
    let o = DeviceOptions::new().device_id(9);
    let buf = o.encode().to_bytes();
    let info = finish_device_info(0, &buf).expect("driver accepted");
    assert_eq!(info.dev_id, 9);
}

#[test]
fn simulated_get_device_info_failure() {
    // After a delete, GetDevInfo answers "no such device"; the buffer's
    // contents must not matter.
    let buf = vec![0u8; 64];
    let r = finish_device_info(-19, &buf);
    assert_eq!(r, Err(Error::Io { errno: 19 }));
}

#[test]
fn simulated_get_parameters_exchange() {
    let mut s = UblkCtrl::new();
    let mut buf = DevParams::empty().to_bytes();
    assert_eq!(buf[0], 60); // the record announces its own length
    let sub = s.get_device_parameters_cmd(7, buf.as_ptr() as u64);
    assert_eq!(sub.cmd.dev_id, 7);

    // Simulated driver: return basic parameters only.
    let mut filled = DevParams::from_bytes(&buf);
    filled.types = 1;
    filled.basic.logical_bs_shift = 9;
    filled.basic.dev_sectors = 8192;
    buf = filled.to_bytes();

    let p = finish_device_parameters(0, &buf).expect("driver accepted");
    assert_eq!(p.logical_bs_shift, 9);
    assert_eq!(p.dev_sectors, 8192);
    assert_eq!(p.discard, None);
}

#[test]
fn simulated_set_then_get_reflects_basic_fields() {
    // SetParams on a dead device succeeds; a driver that stores the record
    // and returns it on GetParams hands the same basic fields back.
    let mut p = DeviceParams::zeroed();
    p.logical_bs_shift = 9;
    p.physical_bs_shift = 12;
    p.max_sectors = 1024;
    p.dev_sectors = 524288000;
    let stored = p.encode().to_bytes(); // what SetParams shipped
    assert!(completion_result(0).is_ok());

    let got = finish_device_parameters(0, &stored).expect("driver accepted");
    assert_eq!(got.logical_bs_shift, 9);
    assert_eq!(got.physical_bs_shift, 12);
    assert_eq!(got.max_sectors, 1024);
    assert_eq!(got.dev_sectors, 524288000);
}

#[test]
fn affinity_bitmap_decodes_in_order() {
    let mut bits = vec![0u8; 128];
    bits[0] = 0b0000_0111; // CPUs 0, 1, 2
    bits[8] = 0b0000_0010; // CPU 65
    let set = finish_queue_affinity(0, &bits).expect("driver accepted");
    assert!(set.is_set(0) && set.is_set(1) && set.is_set(2) && set.is_set(65));
    assert!(!set.is_set(3) && !set.is_set(64));

    assert_eq!(get_cpu_list(128, &set), vec![0, 1, 2, 65]);
    // A smaller core count cuts the list off.
    assert_eq!(get_cpu_list(64, &set), vec![0, 1, 2]);
    assert_eq!(get_cpu_list(0, &set), Vec::<u32>::new());
}

#[test]
fn affinity_failure_is_surfaced() {
    let bits = vec![0u8; 128];
    let r = finish_queue_affinity(-22, &bits);
    assert!(matches!(r, Err(Error::Io { errno: 22 })));
}

#[test]
fn cpu_set_equality_follows_bits() {
    let a = CpuSet { bits: vec![0u8; 128] };
    let b = CpuSet { bits: vec![0u8; 128] };
    assert_eq!(a, b);
}
