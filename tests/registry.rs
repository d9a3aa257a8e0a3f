use control::{Process, ServiceError, ServiceType, Services};
use std::cell::RefCell;
use std::rc::Rc;

type Log = Rc<RefCell<Vec<(ServiceType, &'static str)>>>;

struct Recorder {
    kind: ServiceType,
    log: Log,
    fail_start: bool,
    fail_stop: bool,
    stopping: bool,
    finished: bool,
}

impl Recorder {
    fn new(kind: ServiceType, log: &Log) -> Recorder {
        Recorder {
            kind,
            log: log.clone(),
            fail_start: false,
            fail_stop: false,
            stopping: false,
            finished: false,
        }
    }
}

impl Process for Recorder {
    fn stop_requested(&self) -> bool {
        self.stopping
    }

    fn joined(&self) -> bool {
        self.finished
    }

    fn start(&mut self) -> Result<(), ServiceError> {
        if self.fail_start {
            return Err(ServiceError::TransmitterNotSet);
        }
        self.log.borrow_mut().push((self.kind, "start"));
        Ok(())
    }

    fn stop(&mut self) -> Result<(), ServiceError> {
        if self.fail_stop {
            return Err(ServiceError::NotActive);
        }
        self.log.borrow_mut().push((self.kind, "stop"));
        self.stopping = true;
        Ok(())
    }

    fn join(&mut self) {
        self.log.borrow_mut().push((self.kind, "join"));
        self.finished = true;
    }
}

#[test]
fn stop_all_is_lifo() {
    let log: Log = Rc::new(RefCell::new(Vec::new()));
    let mut s = Services::new();
    let a = ServiceType::SynchronizeInputs;
    let b = ServiceType::TelemetryInput;
    let c = ServiceType::ScreenCaptureInput;
    for k in [a, b, c] {
        s.add_service(k, Recorder::new(k, &log)).unwrap();
    }
    log.borrow_mut().clear();
    s.stop_all_services().unwrap();
    assert_eq!(
        *log.borrow(),
        vec![(c, "stop"), (c, "join"), (b, "stop"), (b, "join"), (a, "stop"), (a, "join")]
    );
    assert_eq!(*s.stop_order(), vec![c, b, a]);
    // Nothing is left to stop.
    assert_eq!(s.stop_service(a), Err(ServiceError::NotActive));
}

#[test]
fn failed_start_is_not_registered() {
    let log: Log = Rc::new(RefCell::new(Vec::new()));
    let mut s = Services::new();
    let mut r = Recorder::new(ServiceType::TelemetryInput, &log);
    r.fail_start = true;
    assert_eq!(
        s.add_service(ServiceType::TelemetryInput, r),
        Err(ServiceError::TransmitterNotSet)
    );
    assert_eq!(
        s.block_until_telemetry_finished(),
        Err(ServiceError::NotActive)
    );
    assert!(log.borrow().is_empty());
}

#[test]
fn stop_service_removes_only_that_service() {
    let log: Log = Rc::new(RefCell::new(Vec::new()));
    let mut s = Services::new();
    s.add_service(ServiceType::TelemetryInput, Recorder::new(ServiceType::TelemetryInput, &log))
        .unwrap();
    s.add_service(ServiceType::UserInput, Recorder::new(ServiceType::UserInput, &log))
        .unwrap();
    log.borrow_mut().clear();
    s.stop_service(ServiceType::TelemetryInput).unwrap();
    assert_eq!(
        *log.borrow(),
        vec![(ServiceType::TelemetryInput, "stop"), (ServiceType::TelemetryInput, "join")]
    );
    assert_eq!(
        s.stop_service(ServiceType::TelemetryInput),
        Err(ServiceError::NotActive)
    );
    s.stop_all_services().unwrap();
    assert_eq!(*s.stop_order(), vec![ServiceType::TelemetryInput, ServiceType::UserInput]);
}

#[test]
fn wait_for_joins_without_stopping() {
    let log: Log = Rc::new(RefCell::new(Vec::new()));
    let mut s = Services::new();
    s.add_service(ServiceType::TelemetryInput, Recorder::new(ServiceType::TelemetryInput, &log))
        .unwrap();
    log.borrow_mut().clear();
    s.block_until_telemetry_finished().unwrap();
    assert_eq!(*log.borrow(), vec![(ServiceType::TelemetryInput, "join")]);
    assert!(s.stop_order().is_empty());
    assert_eq!(s.wait_for(ServiceType::TelemetryInput), Err(ServiceError::NotActive));
}

#[test]
fn stop_all_keeps_service_whose_stop_fails() {
    let log: Log = Rc::new(RefCell::new(Vec::new()));
    let mut s = Services::new();
    let mut first = Recorder::new(ServiceType::TelemetryInput, &log);
    first.fail_stop = true;
    s.add_service(ServiceType::TelemetryInput, first).unwrap();
    s.add_service(ServiceType::UserInput, Recorder::new(ServiceType::UserInput, &log))
        .unwrap();
    assert_eq!(s.stop_all_services(), Err(ServiceError::NotActive));
    assert_eq!(*s.stop_order(), vec![ServiceType::UserInput]);
    // The failing service is still registered.
    assert_eq!(s.stop_service(ServiceType::TelemetryInput), Err(ServiceError::NotActive));
}

#[test]
fn failed_stop_service_keeps_the_entry() {
    let log: Log = Rc::new(RefCell::new(Vec::new()));
    let mut s = Services::new();
    let mut r = Recorder::new(ServiceType::TelemetryInput, &log);
    r.fail_stop = true;
    s.add_service(ServiceType::UserInput, Recorder::new(ServiceType::UserInput, &log))
        .unwrap();
    s.add_service(ServiceType::TelemetryInput, r).unwrap();
    log.borrow_mut().clear();
    assert_eq!(s.stop_service(ServiceType::TelemetryInput), Err(ServiceError::NotActive));
    // Not joined, and still registered after the other service.
    assert!(log.borrow().is_empty());
    assert!(s.stop_order().is_empty());
    assert_eq!(s.stop_all_services(), Err(ServiceError::NotActive));
    assert!(log.borrow().is_empty());
}

#[test]
fn stop_all_on_empty_registry_succeeds() {
    let mut s: Services<Recorder> = Services::new();
    assert_eq!(s.stop_all_services(), Ok(()));
    assert!(s.stop_order().is_empty());
}
