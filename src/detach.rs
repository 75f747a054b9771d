//! Validation of a port before it is detached, and the order of the steps
//! that tear it down.

use vstd::prelude::*;

verus! {

/// Occupancy of a port of the virtual host controller.
#[derive(Debug, Clone, Copy, PartialEq, Eq, Structural)]
pub enum DeviceStatus {
    /// No device is attached to the port.
    PortAvailable,
    /// A device is being attached.
    PortInitializing,
    /// A device is attached and in use.
    PortInUse,
    /// The port is in an error state.
    PortError,
}

/// One port of the virtual host controller, as the driver reports it.
#[derive(Debug, Clone, Copy, PartialEq, Eq, Structural)]
pub struct ImportedDevice {
    pub port: u8,
    pub status: DeviceStatus,
}

impl ImportedDevice {
    pub fn port(&self) -> (r: u8)
        ensures
            r == self.port,
    {
        self.port
    }

    pub fn status(&self) -> (r: DeviceStatus)
        ensures
            r == self.status,
    {
        self.status
    }
}

/// Why a port cannot be detached.
#[derive(Debug, Clone, Copy, PartialEq, Eq, Structural)]
pub enum Error {
    /// The port holds no device.
    PortAlreadyDetached(u8),
    /// No port of that number exists; `num_ports` is how many the driver
    /// reported.
    InvalidPort { requested: u8, num_ports: usize },
}

/// Index of the first entry of `idevs` for `port`, from `i` on; the length
/// of `idevs` if there is none.
pub open spec fn first_entry(idevs: Seq<ImportedDevice>, port: u8, i: int) -> int
    decreases idevs.len() - i,
{
    if i >= idevs.len() {
        idevs.len() as int
    } else if idevs[i].port == port {
        i
    } else {
        first_entry(idevs, port, i + 1)
    }
}

/// Whether `port` may be detached, judged on the snapshot `idevs`.
pub open spec fn validate_spec(port: u8, idevs: Seq<ImportedDevice>) -> Result<(), Error> {
    let k = first_entry(idevs, port, 0);
    if k >= idevs.len() {
        Err(Error::InvalidPort { requested: port, num_ports: idevs.len() as usize })
    } else if idevs[k].status == DeviceStatus::PortAvailable {
        Err(Error::PortAlreadyDetached(port))
    } else {
        Ok(())
    }
}

/// The first entry for `port` found from `i` on, if any, comes at or after
/// `i`, and no entry before it is for `port`.
pub proof fn lemma_first_entry(idevs: Seq<ImportedDevice>, port: u8, i: int)
    requires
        0 <= i <= idevs.len(),
    ensures
        i <= first_entry(idevs, port, i) <= idevs.len(),
        first_entry(idevs, port, i) < idevs.len() ==> idevs[first_entry(idevs, port, i)].port
            == port,
        forall|j: int| i <= j < first_entry(idevs, port, i) ==> idevs[j].port != port,
    decreases idevs.len() - i,
{
    if i < idevs.len() && idevs[i].port != port {
        lemma_first_entry(idevs, port, i + 1);
    }
}

/// A port that has no entry in the snapshot is refused as invalid, with the
/// number of ports the snapshot holds.
pub proof fn lemma_absent_port_is_invalid(port: u8, idevs: Seq<ImportedDevice>)
    requires
        forall|i: int| 0 <= i < idevs.len() ==> idevs[i].port != port,
    ensures
        validate_spec(port, idevs) == Err::<(), Error>(
            Error::InvalidPort { requested: port, num_ports: idevs.len() as usize },
        ),
{
    lemma_first_entry(idevs, port, 0);
}

/// A port whose entry in the snapshot holds no device is refused as
/// already detached.
pub proof fn lemma_available_port_is_detached(port: u8, idevs: Seq<ImportedDevice>, i: int)
    requires
        0 <= i < idevs.len(),
        idevs[i].port == port,
        idevs[i].status == DeviceStatus::PortAvailable,
        forall|j: int| 0 <= j < i ==> idevs[j].port != port,
    ensures
        validate_spec(port, idevs) == Err::<(), Error>(Error::PortAlreadyDetached(port)),
{
    lemma_first_entry_at(idevs, port, i, 0);
}

/// A port whose entry in the snapshot holds a device is accepted, and its
/// teardown asks the driver to detach exactly once, for that port, as the
/// last step.
pub proof fn lemma_attached_port_is_detached_once(port: u8, idevs: Seq<ImportedDevice>, i: int)
    requires
        0 <= i < idevs.len(),
        idevs[i].port == port,
        idevs[i].status != DeviceStatus::PortAvailable,
        forall|j: int| 0 <= j < i ==> idevs[j].port != port,
    ensures
        validate_spec(port, idevs) == Ok::<(), Error>(()),
        detach_steps(port).last() == DetachAction::DriverDetach(port),
        forall|k: int|
            0 <= k < detach_steps(port).len() - 1 ==> !(detach_steps(port)[k] is DriverDetach),
{
    lemma_first_entry_at(idevs, port, i, 0);
}

/// Both cleanup steps come before the driver's detach, whatever the port.
pub proof fn lemma_cleanup_precedes_driver(port: u8)
    ensures
        detach_steps(port).len() == 3,
        detach_steps(port)[0] == DetachAction::RemoveStateFile(port),
        detach_steps(port)[1] == DetachAction::RemoveStateDir,
        detach_steps(port)[2] == DetachAction::DriverDetach(port),
{
}

/// The first entry for `port` found from `start` on is the one at `i`, when
/// none between `start` and `i` is for `port`.
proof fn lemma_first_entry_at(idevs: Seq<ImportedDevice>, port: u8, i: int, start: int)
    requires
        0 <= start <= i < idevs.len(),
        idevs[i].port == port,
        forall|j: int| start <= j < i ==> idevs[j].port != port,
    ensures
        first_entry(idevs, port, start) == i,
    decreases i - start,
{
    if start < i {
        lemma_first_entry_at(idevs, port, i, start + 1);
    }
}

/// Checks that `port` appears in the snapshot `idevs` and that its first
/// entry there holds a device.
pub fn validate(port: u8, idevs: &[ImportedDevice]) -> (r: Result<(), Error>)
    ensures
        r == validate_spec(port, idevs@),
        (forall|i: int| 0 <= i < idevs@.len() ==> idevs@[i].port != port) ==> r == Err::<
            (),
            Error,
        >(Error::InvalidPort { requested: port, num_ports: idevs@.len() as usize }),
{
    let num_ports = idevs.len();
    let mut i: usize = 0;
    while i < num_ports
        invariant
            num_ports == idevs@.len(),
            0 <= i <= num_ports,
            first_entry(idevs@, port, 0) == first_entry(idevs@, port, i as int),
        decreases num_ports - i,
    {
        if idevs[i].port() == port {
            if idevs[i].status() == DeviceStatus::PortAvailable {
                return Err(Error::PortAlreadyDetached(port));
            } else {
                return Ok(());
            }
        }
        i += 1;
    }
    proof {
        lemma_first_entry(idevs@, port, 0);
    }
    Err(Error::InvalidPort { requested: port, num_ports })
}

/// A step of tearing down a port.
#[derive(Debug, Clone, Copy, PartialEq, Eq, Structural)]
pub enum DetachAction {
    /// Remove the state record kept on disk for the port.
    RemoveStateFile(u8),
    /// Remove the state directory, if it is now empty.
    RemoveStateDir,
    /// Ask the driver to release the port.
    DriverDetach(u8),
}

/// The steps that tear down `port`, in order: the two cleanup steps, then
/// the driver's detach.
pub open spec fn detach_steps(port: u8) -> Seq<DetachAction> {
    seq![
        DetachAction::RemoveStateFile(port),
        DetachAction::RemoveStateDir,
        DetachAction::DriverDetach(port),
    ]
}

/// Decides, on one snapshot of the imported devices, whether `port` may be
/// detached, and if so the steps to take. The driver's detach comes last,
/// once, for `port`; both cleanup steps come before it.
pub fn plan_detach(port: u8, idevs: &[ImportedDevice]) -> (r: Result<Vec<DetachAction>, Error>)
    ensures
        validate_spec(port, idevs@) is Ok <==> r is Ok,
        r matches Ok(steps) ==> steps@ == detach_steps(port),
        r matches Err(e) ==> validate_spec(port, idevs@) == Err::<(), Error>(e),
{
    match validate(port, idevs) {
        Ok(()) => {
            let steps = vec![
                DetachAction::RemoveStateFile(port),
                DetachAction::RemoveStateDir,
                DetachAction::DriverDetach(port),
            ];
            assert(steps@ =~= detach_steps(port));
            Ok(steps)
        },
        Err(e) => Err(e),
    }
}

/// The outcome of a detach once its steps have run: the driver's result,
/// whatever became of the two cleanup steps.
pub fn settle_detach<E>(_state_file_removed: bool, _state_dir_removed: bool, driver: Result<
    (),
    E,
>) -> (r: Result<(), E>)
    ensures
        r == driver,
{
    driver
}

} // verus!
