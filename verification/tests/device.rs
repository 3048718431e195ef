use ublks3::device::{
    create_ublk_ctrl, CtrlParams, Device, DeviceState, Geometry, DEFAULT_MAX_IO_BYTES,
    DEFAULT_QUEUE_COUNT, DEFAULT_QUEUE_DEPTH,
};
use ublks3::error::ControlError;

fn fresh() -> Device {
    Device::create(3, 1, 128, 512 << 10)
}

#[test]
fn control_handle_has_one_queue_of_depth_128() {
    assert_eq!(
        create_ublk_ctrl(4, true),
        CtrlParams {
            dev_id: 4,
            nr_queues: 1,
            depth: 128,
            io_buf_bytes: 524288,
            flags: 0,
            for_add: true
        }
    );
    assert_eq!(create_ublk_ctrl(-1, false).dev_id, -1);
    assert!(!create_ublk_ctrl(0, false).for_add);
    assert_eq!(DEFAULT_QUEUE_COUNT, 1);
    assert_eq!(DEFAULT_QUEUE_DEPTH, 128);
    assert_eq!(DEFAULT_MAX_IO_BYTES, 512 << 10);
}

#[test]
fn geometry_of_32_mib() {
    assert_eq!(
        Geometry::new(32 << 20, 512 << 10),
        Geometry {
            logical_bs_shift: 9,
            physical_bs_shift: 12,
            io_opt_shift: 12,
            io_min_shift: 12,
            max_sectors: 1024,
            dev_sectors: 65536
        }
    );
}

#[test]
fn geometry_counts_whole_sectors() {
    assert_eq!(Geometry::new(1023, 511).dev_sectors, 1);
    assert_eq!(Geometry::new(1023, 511).max_sectors, 0);
    assert_eq!(Geometry::new(0, 0).dev_sectors, 0);
    assert_eq!(Geometry::new(u64::MAX, u32::MAX).dev_sectors, u64::MAX >> 9);
    assert_eq!(Geometry::new(u64::MAX, u32::MAX).max_sectors, u32::MAX >> 9);
}

#[test]
fn device_is_created_without_a_size() {
    let dev = fresh();
    assert_eq!(dev.id, 3);
    assert_eq!(dev.queue_count, 1);
    assert_eq!(dev.queue_depth, 128);
    assert_eq!(dev.max_io_bytes, 524288);
    assert_eq!(dev.dev_size_bytes, 0);
    assert_eq!(dev.state, DeviceState::Created);
    assert_eq!(dev.geometry, Geometry::new(0, 524288));
}

#[test]
fn device_goes_through_its_states_in_order() {
    let mut dev = fresh();
    assert_eq!(dev.configure(32 << 20), Ok(()));
    assert_eq!(dev.state, DeviceState::Configured);
    assert_eq!(dev.dev_size_bytes, 32 << 20);
    assert_eq!(dev.geometry, Geometry::new(32 << 20, 524288));
    assert_eq!(dev.start(), Ok(()));
    assert_eq!(dev.state, DeviceState::Running);
    assert_eq!(dev.stop(), Ok(()));
    assert_eq!(dev.state, DeviceState::Stopping);
    assert_eq!(dev.finish_stop(), Ok(()));
    assert_eq!(dev.state, DeviceState::Stopped);
    assert_eq!(dev.delete(), Ok(()));
    assert_eq!(dev.state, DeviceState::Deleted);
    assert_eq!(dev.dev_size_bytes, 32 << 20);
    assert_eq!(dev.id, 3);
}

#[test]
fn no_transition_happens_twice() {
    let mut dev = fresh();
    assert_eq!(dev.configure(1024), Ok(()));
    assert_eq!(dev.configure(2048), Err(ControlError::InvalidState));
    assert_eq!(dev.dev_size_bytes, 1024);
    assert_eq!(dev.start(), Ok(()));
    assert_eq!(dev.start(), Err(ControlError::InvalidState));
    assert_eq!(dev.stop(), Ok(()));
    assert_eq!(dev.stop(), Err(ControlError::InvalidState));
    assert_eq!(dev.finish_stop(), Ok(()));
    assert_eq!(dev.finish_stop(), Err(ControlError::InvalidState));
    assert_eq!(dev.delete(), Ok(()));
    assert_eq!(dev.delete(), Err(ControlError::NotFound));
    assert_eq!(dev.state, DeviceState::Deleted);
}

#[test]
fn device_does_not_start_before_it_is_configured() {
    let mut dev = fresh();
    let before = dev;
    assert_eq!(dev.start(), Err(ControlError::InvalidState));
    assert_eq!(dev.stop(), Err(ControlError::InvalidState));
    assert_eq!(dev.finish_stop(), Err(ControlError::InvalidState));
    assert_eq!(dev, before);
}

#[test]
fn running_device_is_not_deleted() {
    let mut dev = fresh();
    dev.configure(512).unwrap();
    dev.start().unwrap();
    let before = dev;
    assert_eq!(dev.delete(), Err(ControlError::InvalidState));
    assert_eq!(dev, before);
}

#[test]
fn device_that_never_ran_can_be_deleted() {
    let mut dev = fresh();
    assert_eq!(dev.delete(), Ok(()));
    assert_eq!(dev.state, DeviceState::Deleted);
    let mut dev = fresh();
    dev.configure(512).unwrap();
    assert_eq!(dev.delete(), Ok(()));
    assert_eq!(dev.state, DeviceState::Deleted);
}

#[test]
fn deleting_an_absent_device_is_recoverable() {
    let mut dev = fresh();
    dev.delete().unwrap();
    let e = dev.delete().unwrap_err();
    assert_eq!(e, ControlError::NotFound);
    assert!(e.recoverable());
}

#[test]
fn queues_go_on_while_the_device_runs() {
    let mut dev = fresh();
    assert!(!dev.keeps_serving(false));
    dev.configure(512).unwrap();
    assert!(!dev.keeps_serving(false));
    dev.start().unwrap();
    assert!(dev.keeps_serving(false));
    assert!(!dev.keeps_serving(true));
    dev.stop().unwrap();
    assert!(!dev.keeps_serving(false));
}
