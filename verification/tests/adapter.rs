use std::sync::atomic::{AtomicI32, AtomicUsize, Ordering};
use usb_adapter::{
    Error, IdentifierTable, Keyboard, PmMessage, UsbAdapter, UsbDeviceId, UsbDriverTrait,
    UsbInterface,
};

static PROBE_RUNS: AtomicUsize = AtomicUsize::new(0);
static PROBE_INTERFACE: AtomicUsize = AtomicUsize::new(0);
static PROBE_CLASS: AtomicUsize = AtomicUsize::new(0);

struct ProbeCounter;

impl UsbDriverTrait for ProbeCounter {
    const NAME: &'static str = "probe-counter";

    fn new() -> Self {
        ProbeCounter
    }

    fn probe(intf: &mut UsbInterface, id: &mut UsbDeviceId) -> Result<(), Error> {
        PROBE_RUNS.fetch_add(1, Ordering::SeqCst);
        PROBE_INTERFACE.store(intf.as_raw(), Ordering::SeqCst);
        PROBE_CLASS.store(usize::from(id.interface_class), Ordering::SeqCst);
        Ok(())
    }
}

#[test]
fn probe_with_matching_identifier_runs_once_and_succeeds() {
    let table = IdentifierTable::new(&[(3, 1, 1)], &[]);
    assert_eq!(table.len(), 2);
    let matching = table.get(0);
    assert_eq!(PROBE_RUNS.load(Ordering::SeqCst), 0);
    let status = UsbAdapter::<ProbeCounter>::probe_callback(0xffff_8000, matching);
    assert_eq!(status, 0);
    assert_eq!(PROBE_RUNS.load(Ordering::SeqCst), 1);
    assert_eq!(PROBE_INTERFACE.load(Ordering::SeqCst), 0xffff_8000);
    assert_eq!(PROBE_CLASS.load(Ordering::SeqCst), 3);

    let again = UsbAdapter::<ProbeCounter>::probe_callback(0xffff_8000, matching);
    assert_eq!(again, 0);
    assert_eq!(PROBE_RUNS.load(Ordering::SeqCst), 2);
    assert_eq!(table.get(0), matching);
    assert_eq!(table.len(), 2);
}

static NULL_PROBE_RUNS: AtomicUsize = AtomicUsize::new(0);

struct NullProbe;

impl UsbDriverTrait for NullProbe {
    const NAME: &'static str = "null-probe";

    fn new() -> Self {
        NullProbe
    }

    fn probe(_intf: &mut UsbInterface, _id: &mut UsbDeviceId) -> Result<(), Error> {
        NULL_PROBE_RUNS.fetch_add(1, Ordering::SeqCst);
        Ok(())
    }
}

#[test]
fn probe_with_null_address_is_invalid_and_skips_the_driver() {
    let id = UsbDeviceId::usb_interface_info(3, 1, 1);
    assert_eq!(UsbAdapter::<NullProbe>::probe_callback(0, Some(id)), -22);
    assert_eq!(UsbAdapter::<NullProbe>::probe_callback(0x1000, None), -22);
    assert_eq!(UsbAdapter::<NullProbe>::probe_callback(0, None), -22);
    assert_eq!(NULL_PROBE_RUNS.load(Ordering::SeqCst), 0);
}

#[test]
fn driver_without_overrides_reports_unsupported() {
    let id = UsbDeviceId::usb_interface_info(3, 1, 1);
    assert_eq!(UsbAdapter::<Keyboard>::probe_callback(0x1000, Some(id)), -38);
    assert_eq!(
        UsbAdapter::<Keyboard>::unlocked_ioctl_callback(0x1000, 7, &[1, 2, 3], 3),
        -38
    );
    assert_eq!(
        UsbAdapter::<Keyboard>::suspend_callback(0x1000, Some(PmMessage::Event(2))),
        -38
    );
    assert_eq!(UsbAdapter::<Keyboard>::resume_callback(0x1000), -38);
    assert_eq!(UsbAdapter::<Keyboard>::reset_resume_callback(0x1000), -38);
    assert_eq!(UsbAdapter::<Keyboard>::pre_reset_callback(0x1000), -38);
    assert_eq!(UsbAdapter::<Keyboard>::post_reset_callback(0x1000), -38);
}

#[test]
fn null_interface_is_invalid_for_every_reporting_entry() {
    assert_eq!(
        UsbAdapter::<Keyboard>::unlocked_ioctl_callback(0, 7, &[1, 2, 3], 3),
        -22
    );
    assert_eq!(
        UsbAdapter::<Keyboard>::suspend_callback(0, Some(PmMessage::Event(2))),
        -22
    );
    assert_eq!(UsbAdapter::<Keyboard>::suspend_callback(0x1000, None), -22);
    assert_eq!(UsbAdapter::<Keyboard>::resume_callback(0), -22);
    assert_eq!(UsbAdapter::<Keyboard>::reset_resume_callback(0), -22);
    assert_eq!(UsbAdapter::<Keyboard>::pre_reset_callback(0), -22);
    assert_eq!(UsbAdapter::<Keyboard>::post_reset_callback(0), -22);
}

static DISCONNECT_RUNS: AtomicUsize = AtomicUsize::new(0);
static DISCONNECT_INTERFACE: AtomicUsize = AtomicUsize::new(0);

struct DisconnectCounter;

impl UsbDriverTrait for DisconnectCounter {
    const NAME: &'static str = "disconnect-counter";

    fn new() -> Self {
        DisconnectCounter
    }

    fn disconnect(intf: &mut UsbInterface) {
        DISCONNECT_RUNS.fetch_add(1, Ordering::SeqCst);
        DISCONNECT_INTERFACE.store(intf.as_raw(), Ordering::SeqCst);
    }
}

#[test]
fn disconnect_always_reports_success() {
    assert_eq!(UsbAdapter::<Keyboard>::disconnect_callback(0x1000), 0);
    assert_eq!(UsbAdapter::<Keyboard>::disconnect_callback(0), 0);
    assert_eq!(UsbAdapter::<Failing>::disconnect_callback(0x1000), 0);

    assert_eq!(UsbAdapter::<DisconnectCounter>::disconnect_callback(0), 0);
    assert_eq!(DISCONNECT_RUNS.load(Ordering::SeqCst), 0);
    assert_eq!(
        UsbAdapter::<DisconnectCounter>::disconnect_callback(0x2000),
        0
    );
    assert_eq!(DISCONNECT_RUNS.load(Ordering::SeqCst), 1);
    assert_eq!(DISCONNECT_INTERFACE.load(Ordering::SeqCst), 0x2000);
}

static IOCTL_RUNS: AtomicUsize = AtomicUsize::new(0);
static IOCTL_CODE: AtomicI32 = AtomicI32::new(0);
static IOCTL_LEN: AtomicUsize = AtomicUsize::new(0);
static IOCTL_SUM: AtomicUsize = AtomicUsize::new(0);

struct IoctlRecorder;

impl UsbDriverTrait for IoctlRecorder {
    const NAME: &'static str = "ioctl-recorder";

    fn new() -> Self {
        IoctlRecorder
    }

    fn unlocked_ioctl(_intf: &mut UsbInterface, code: i32, buf: &[u8]) -> Result<(), Error> {
        IOCTL_RUNS.fetch_add(1, Ordering::SeqCst);
        IOCTL_CODE.store(code, Ordering::SeqCst);
        IOCTL_LEN.store(buf.len(), Ordering::SeqCst);
        IOCTL_SUM.store(buf.iter().map(|b| usize::from(*b)).sum(), Ordering::SeqCst);
        Ok(())
    }
}

#[test]
fn control_call_checks_the_stated_length_first() {
    let buf = [10u8, 20, 30, 40];
    assert_eq!(
        UsbAdapter::<IoctlRecorder>::unlocked_ioctl_callback(0x1000, 9, &buf, 5),
        -22
    );
    assert_eq!(
        UsbAdapter::<IoctlRecorder>::unlocked_ioctl_callback(0x1000, 9, &buf, usize::MAX),
        -22
    );
    assert_eq!(
        UsbAdapter::<IoctlRecorder>::unlocked_ioctl_callback(0x1000, 9, &[], 1),
        -22
    );
    assert_eq!(IOCTL_RUNS.load(Ordering::SeqCst), 0);

    assert_eq!(
        UsbAdapter::<IoctlRecorder>::unlocked_ioctl_callback(0x1000, 9, &buf, 3),
        0
    );
    assert_eq!(IOCTL_RUNS.load(Ordering::SeqCst), 1);
    assert_eq!(IOCTL_CODE.load(Ordering::SeqCst), 9);
    assert_eq!(IOCTL_LEN.load(Ordering::SeqCst), 3);
    assert_eq!(IOCTL_SUM.load(Ordering::SeqCst), 60);

    assert_eq!(
        UsbAdapter::<IoctlRecorder>::unlocked_ioctl_callback(0x1000, -4, &buf, 4),
        0
    );
    assert_eq!(IOCTL_RUNS.load(Ordering::SeqCst), 2);
    assert_eq!(IOCTL_CODE.load(Ordering::SeqCst), -4);
    assert_eq!(IOCTL_LEN.load(Ordering::SeqCst), 4);
    assert_eq!(IOCTL_SUM.load(Ordering::SeqCst), 100);

    assert_eq!(
        UsbAdapter::<IoctlRecorder>::unlocked_ioctl_callback(0x1000, 1, &buf, 0),
        0
    );
    assert_eq!(IOCTL_LEN.load(Ordering::SeqCst), 0);
    assert_eq!(IOCTL_SUM.load(Ordering::SeqCst), 0);
}

static SUSPEND_EVENT: AtomicI32 = AtomicI32::new(0);

struct PowerAware;

impl UsbDriverTrait for PowerAware {
    const NAME: &'static str = "power-aware";

    fn new() -> Self {
        PowerAware
    }

    fn suspend(_intf: &mut UsbInterface, message: &PmMessage) -> Result<(), Error> {
        let PmMessage::Event(event) = message;
        SUSPEND_EVENT.store(*event, Ordering::SeqCst);
        Ok(())
    }

    fn resume(_intf: &mut UsbInterface) -> Result<(), Error> {
        Ok(())
    }
}

#[test]
fn suspend_passes_the_transition_to_the_driver() {
    assert_eq!(
        UsbAdapter::<PowerAware>::suspend_callback(0x1000, Some(PmMessage::Event(0x402))),
        0
    );
    assert_eq!(SUSPEND_EVENT.load(Ordering::SeqCst), 0x402);
    assert_eq!(UsbAdapter::<PowerAware>::resume_callback(0x1000), 0);
    assert_eq!(UsbAdapter::<PowerAware>::reset_resume_callback(0x1000), -38);
}

struct Failing;

impl UsbDriverTrait for Failing {
    const NAME: &'static str = "failing";

    fn new() -> Self {
        Failing
    }

    fn probe(_intf: &mut UsbInterface, _id: &mut UsbDeviceId) -> Result<(), Error> {
        Err(Error::Internal)
    }

    fn disconnect(_intf: &mut UsbInterface) {}

    fn unlocked_ioctl(_intf: &mut UsbInterface, _code: i32, _buf: &[u8]) -> Result<(), Error> {
        Err(Error::InvalidArgument)
    }

    fn suspend(_intf: &mut UsbInterface, _message: &PmMessage) -> Result<(), Error> {
        Err(Error::HostRejected)
    }

    fn resume(_intf: &mut UsbInterface) -> Result<(), Error> {
        Err(Error::Unsupported)
    }

    fn pre_reset(_intf: &mut UsbInterface) -> Result<(), Error> {
        Err(Error::Internal)
    }

    fn post_reset(_intf: &mut UsbInterface) -> Result<(), Error> {
        Ok(())
    }
}

#[test]
fn driver_failures_reach_the_host_as_error_numbers() {
    let id = UsbDeviceId::usb_interface_info(3, 1, 1);
    assert_eq!(UsbAdapter::<Failing>::probe_callback(0x1000, Some(id)), -5);
    assert_eq!(
        UsbAdapter::<Failing>::unlocked_ioctl_callback(0x1000, 1, &[0], 1),
        -22
    );
    assert_eq!(
        UsbAdapter::<Failing>::suspend_callback(0x1000, Some(PmMessage::Event(1))),
        -16
    );
    assert_eq!(UsbAdapter::<Failing>::resume_callback(0x1000), -38);
    assert_eq!(UsbAdapter::<Failing>::pre_reset_callback(0x1000), -5);
    assert_eq!(UsbAdapter::<Failing>::post_reset_callback(0x1000), 0);
}

#[test]
fn handle_refuses_the_null_address() {
    assert_eq!(UsbInterface::from_raw(0), Err(Error::InvalidArgument));
    let handle = match UsbInterface::from_raw(0xdead_0000) {
        Ok(handle) => handle,
        Err(e) => panic!("refused: {:?}", e),
    };
    assert_eq!(handle.as_raw(), 0xdead_0000);
    assert_eq!(UsbInterface::from_raw(usize::MAX).map(|h| h.as_raw()), Ok(usize::MAX));
}

#[test]
fn driver_name_and_constructor() {
    assert_eq!(Keyboard::NAME, "UsbDriverTest");
    assert_eq!(ProbeCounter::NAME, "probe-counter");
    let _keyboard: Keyboard = Keyboard::new();
    let _counter: ProbeCounter = ProbeCounter::new();
}
