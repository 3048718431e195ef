//! The device: its identity, its geometry and the order of its states.
//!
//! A device is created, configured, started, stopped and deleted, in that
//! order. Each transition is allowed from the states named for it and from
//! no other; a transition that is refused leaves the device as it was.

use vstd::prelude::*;
use crate::descriptor::SECTOR_SHIFT;
use crate::error::ControlError;

verus! {

/// Number of queues of a device.
pub const DEFAULT_QUEUE_COUNT: u16 = 1;

/// Number of requests that may be in flight on one queue.
pub const DEFAULT_QUEUE_DEPTH: u16 = 128;

/// Largest request in bytes: 512 KiB.
pub const DEFAULT_MAX_IO_BYTES: u32 = 524288;

/// Logical block size as a shift: 512 bytes.
pub const LOGICAL_BS_SHIFT: u8 = 9;

/// Physical block size as a shift: 4096 bytes.
pub const PHYSICAL_BS_SHIFT: u8 = 12;

/// Optimal request size as a shift: 4096 bytes.
pub const IO_OPT_SHIFT: u8 = 12;

/// Smallest request size as a shift: 4096 bytes.
pub const IO_MIN_SHIFT: u8 = 12;

/// Where a device is in its life.
#[derive(Clone, Copy, Debug, PartialEq, Eq, Structural)]
pub enum DeviceState {
    Created,
    Configured,
    Running,
    Stopping,
    Stopped,
    Deleted,
}

impl DeviceState {
    /// The place of the state in the order of a device's life.
    pub open spec fn rank(self) -> nat {
        match self {
            DeviceState::Created => 0,
            DeviceState::Configured => 1,
            DeviceState::Running => 2,
            DeviceState::Stopping => 3,
            DeviceState::Stopped => 4,
            DeviceState::Deleted => 5,
        }
    }
}

/// Block sizes and capacity, as they are reported to the kernel.
#[derive(Clone, Copy, Debug, PartialEq, Eq, Structural)]
pub struct Geometry {
    pub logical_bs_shift: u8,
    pub physical_bs_shift: u8,
    pub io_opt_shift: u8,
    pub io_min_shift: u8,
    /// Largest request, in sectors.
    pub max_sectors: u32,
    /// Capacity, in sectors.
    pub dev_sectors: u64,
}

impl Geometry {
    /// The geometry of a device of `dev_size_bytes` bytes that takes
    /// requests of up to `max_io_bytes` bytes: fixed block sizes, and both
    /// sizes counted in whole sectors.
    pub open spec fn for_device(dev_size_bytes: u64, max_io_bytes: u32) -> Geometry {
        Geometry {
            logical_bs_shift: LOGICAL_BS_SHIFT,
            physical_bs_shift: PHYSICAL_BS_SHIFT,
            io_opt_shift: IO_OPT_SHIFT,
            io_min_shift: IO_MIN_SHIFT,
            max_sectors: (max_io_bytes / 512) as u32,
            dev_sectors: (dev_size_bytes / 512) as u64,
        }
    }

    /// Computes the geometry of a device.
    pub fn new(dev_size_bytes: u64, max_io_bytes: u32) -> (geometry: Geometry)
        ensures
            geometry == Geometry::for_device(dev_size_bytes, max_io_bytes),
    {
        assert(max_io_bytes >> 9 == max_io_bytes / 512) by (bit_vector);
        assert(dev_size_bytes >> 9 == dev_size_bytes / 512) by (bit_vector);
        Geometry {
            logical_bs_shift: LOGICAL_BS_SHIFT,
            physical_bs_shift: PHYSICAL_BS_SHIFT,
            io_opt_shift: IO_OPT_SHIFT,
            io_min_shift: IO_MIN_SHIFT,
            max_sectors: max_io_bytes >> SECTOR_SHIFT,
            dev_sectors: dev_size_bytes >> SECTOR_SHIFT,
        }
    }
}

/// The parameters with which a control handle is opened.
#[derive(Clone, Copy, Debug, PartialEq, Eq, Structural)]
pub struct CtrlParams {
    /// The device id; -1 lets the kernel pick one.
    pub dev_id: i32,
    pub nr_queues: u16,
    pub depth: u16,
    pub io_buf_bytes: u32,
    pub flags: u64,
    /// True to register a new device, false to look up an existing one.
    pub for_add: bool,
}

/// The parameters of this target's control handle.
pub open spec fn ctrl_params(dev_id: i32, for_add: bool) -> CtrlParams {
    CtrlParams {
        dev_id,
        nr_queues: DEFAULT_QUEUE_COUNT,
        depth: DEFAULT_QUEUE_DEPTH,
        io_buf_bytes: DEFAULT_MAX_IO_BYTES,
        flags: 0,
        for_add,
    }
}

/// The parameters with which the control handle of device `dev_id` is
/// opened: one queue of depth 128 and requests of up to 512 KiB.
pub fn create_ublk_ctrl(dev_id: i32, for_add: bool) -> (params: CtrlParams)
    ensures
        params == ctrl_params(dev_id, for_add),
{
    CtrlParams {
        dev_id,
        nr_queues: DEFAULT_QUEUE_COUNT,
        depth: DEFAULT_QUEUE_DEPTH,
        io_buf_bytes: DEFAULT_MAX_IO_BYTES,
        flags: 0,
        for_add,
    }
}

/// A device.
#[derive(Clone, Copy, Debug, PartialEq, Eq, Structural)]
pub struct Device {
    pub id: i32,
    pub queue_count: u16,
    pub queue_depth: u16,
    pub max_io_bytes: u32,
    pub geometry: Geometry,
    pub dev_size_bytes: u64,
    pub state: DeviceState,
}

impl Device {
    /// The device as it is right after its creation: no size yet.
    pub open spec fn created(id: i32, queue_count: u16, queue_depth: u16, max_io_bytes: u32) -> Device {
        Device {
            id,
            queue_count,
            queue_depth,
            max_io_bytes,
            geometry: Geometry::for_device(0, max_io_bytes),
            dev_size_bytes: 0,
            state: DeviceState::Created,
        }
    }

    /// The device with its size and geometry set.
    pub open spec fn configured(self, dev_size_bytes: u64) -> Device {
        Device {
            geometry: Geometry::for_device(dev_size_bytes, self.max_io_bytes),
            dev_size_bytes,
            state: DeviceState::Configured,
            ..self
        }
    }

    /// The device in another state, all else unchanged.
    pub open spec fn in_state(self, state: DeviceState) -> Device {
        Device { state, ..self }
    }

    /// What `configure` does: only a device that was just created takes a
    /// size.
    pub open spec fn try_configure(self, dev_size_bytes: u64) -> Result<Device, ControlError> {
        if self.state == DeviceState::Created {
            Ok(self.configured(dev_size_bytes))
        } else {
            Err(ControlError::InvalidState)
        }
    }

    /// A step that is allowed in the state `from` alone and leads to `to`.
    pub open spec fn try_step(self, from: DeviceState, to: DeviceState) -> Result<
        Device,
        ControlError,
    > {
        if self.state == from {
            Ok(self.in_state(to))
        } else {
            Err(ControlError::InvalidState)
        }
    }

    /// What `start` does.
    pub open spec fn try_start(self) -> Result<Device, ControlError> {
        self.try_step(DeviceState::Configured, DeviceState::Running)
    }

    /// What `stop` does.
    pub open spec fn try_stop(self) -> Result<Device, ControlError> {
        self.try_step(DeviceState::Running, DeviceState::Stopping)
    }

    /// What `finish_stop` does.
    pub open spec fn try_finish_stop(self) -> Result<Device, ControlError> {
        self.try_step(DeviceState::Stopping, DeviceState::Stopped)
    }

    /// What `delete` does: a running device is refused, a deleted one is
    /// not found.
    pub open spec fn try_delete(self) -> Result<Device, ControlError> {
        if self.state == DeviceState::Running {
            Err(ControlError::InvalidState)
        } else if self.state == DeviceState::Deleted {
            Err(ControlError::NotFound)
        } else {
            Ok(self.in_state(DeviceState::Deleted))
        }
    }

    /// True while requests are delivered: the queues go on only as long as
    /// the device runs and their wait call has not failed.
    pub open spec fn serves(self, wait_failed: bool) -> bool {
        self.state == DeviceState::Running && !wait_failed
    }

    /// Registers the identity of a device.
    pub fn create(id: i32, queue_count: u16, queue_depth: u16, max_io_bytes: u32) -> (dev: Device)
        ensures
            dev == Device::created(id, queue_count, queue_depth, max_io_bytes),
    {
        Device {
            id,
            queue_count,
            queue_depth,
            max_io_bytes,
            geometry: Geometry::new(0, max_io_bytes),
            dev_size_bytes: 0,
            state: DeviceState::Created,
        }
    }

    /// Sets the size of the device and, from it, the geometry. Allowed once,
    /// right after creation.
    pub fn configure(&mut self, dev_size_bytes: u64) -> (r: Result<(), ControlError>)
        ensures
            match old(self).try_configure(dev_size_bytes) {
                Ok(dev) => r is Ok && *final(self) == dev,
                Err(e) => r == Err::<(), ControlError>(e) && *final(self) == *old(self),
            },
    {
        match self.state {
            DeviceState::Created => {
                self.geometry = Geometry::new(dev_size_bytes, self.max_io_bytes);
                self.dev_size_bytes = dev_size_bytes;
                self.state = DeviceState::Configured;
                Ok(())
            },
            _ => Err(ControlError::InvalidState),
        }
    }

    /// Starts the delivery of requests. Allowed on a configured device.
    pub fn start(&mut self) -> (r: Result<(), ControlError>)
        ensures
            match old(self).try_start() {
                Ok(dev) => r is Ok && *final(self) == dev,
                Err(e) => r == Err::<(), ControlError>(e) && *final(self) == *old(self),
            },
    {
        match self.state {
            DeviceState::Configured => {
                self.state = DeviceState::Running;
                Ok(())
            },
            _ => Err(ControlError::InvalidState),
        }
    }

    /// Asks a running device to stop. The queues see it when their wait
    /// call returns next.
    pub fn stop(&mut self) -> (r: Result<(), ControlError>)
        ensures
            match old(self).try_stop() {
                Ok(dev) => r is Ok && *final(self) == dev,
                Err(e) => r == Err::<(), ControlError>(e) && *final(self) == *old(self),
            },
    {
        match self.state {
            DeviceState::Running => {
                self.state = DeviceState::Stopping;
                Ok(())
            },
            _ => Err(ControlError::InvalidState),
        }
    }

    /// Records that the device has stopped. Allowed on a device that was
    /// asked to stop.
    pub fn finish_stop(&mut self) -> (r: Result<(), ControlError>)
        ensures
            match old(self).try_finish_stop() {
                Ok(dev) => r is Ok && *final(self) == dev,
                Err(e) => r == Err::<(), ControlError>(e) && *final(self) == *old(self),
            },
    {
        match self.state {
            DeviceState::Stopping => {
                self.state = DeviceState::Stopped;
                Ok(())
            },
            _ => Err(ControlError::InvalidState),
        }
    }

    /// Releases the device. A device that is already deleted is reported as
    /// not found, which is recoverable; a running device is refused.
    pub fn delete(&mut self) -> (r: Result<(), ControlError>)
        ensures
            match old(self).try_delete() {
                Ok(dev) => r is Ok && *final(self) == dev,
                Err(e) => r == Err::<(), ControlError>(e) && *final(self) == *old(self),
            },
    {
        match self.state {
            DeviceState::Running => Err(ControlError::InvalidState),
            DeviceState::Deleted => Err(ControlError::NotFound),
            _ => {
                self.state = DeviceState::Deleted;
                Ok(())
            },
        }
    }

    /// Whether a queue goes round its loop once more.
    pub fn keeps_serving(&self, wait_failed: bool) -> (b: bool)
        ensures
            b == self.serves(wait_failed),
    {
        match self.state {
            DeviceState::Running => !wait_failed,
            _ => false,
        }
    }
}

/// The transitions of a device, as a relation between the device before and
/// after one of them.
pub open spec fn is_transition(before: Device, after: Device) -> bool {
    ||| exists|size: u64| before.state == DeviceState::Created && after == before.configured(size)
    ||| before.state == DeviceState::Configured && after == before.in_state(DeviceState::Running)
    ||| before.state == DeviceState::Running && after == before.in_state(DeviceState::Stopping)
    ||| before.state == DeviceState::Stopping && after == before.in_state(DeviceState::Stopped)
    ||| before.try_delete() is Ok && after == before.in_state(DeviceState::Deleted)
}

/// The states of a device are strictly ordered: every transition moves the
/// device forward, so none can happen twice, and only the first of them
/// changes the size of the device.
pub proof fn lemma_transitions_move_forward(before: Device, after: Device)
    requires
        is_transition(before, after),
    ensures
        before.state.rank() < after.state.rank(),
        after.id == before.id,
        after.max_io_bytes == before.max_io_bytes,
        before.state != DeviceState::Created ==> after.dev_size_bytes == before.dev_size_bytes
            && after.geometry == before.geometry,
{
}

/// A device runs only after it was configured: on the way to `Running`
/// lies `Configured`, and the geometry set there is the one it runs with.
pub proof fn lemma_running_is_configured(created: Device, size: u64)
    requires
        created.state == DeviceState::Created,
    ensures
        !is_transition(created, created.in_state(DeviceState::Running)),
        is_transition(created, created.configured(size)),
        is_transition(created.configured(size), created.configured(size).in_state(DeviceState::Running)),
        created.configured(size).in_state(DeviceState::Running).geometry == Geometry::for_device(
            size,
            created.max_io_bytes,
        ),
{
}

} // verus!
