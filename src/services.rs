use vstd::prelude::*;

use crate::synchronization::CaptureItem;
use crate::telemetry::EventGame;

verus! {

#[derive(Debug, Clone, Copy, PartialEq, Eq, Structural)]
pub enum ServiceError {
    /// A service was asked to start while it runs.
    AlreadyActive,
    /// A service was asked to stop while it does not run, or is not registered.
    NotActive,
    /// An operating-system call failed with this code.
    WindowsGetLastError(i32),
    /// A service was started before it was given a channel to send on.
    TransmitterNotSet,
}

#[derive(Debug, Clone, Copy, PartialEq, Eq, Hash, Structural)]
pub enum ServiceType {
    UserInput,
    TelemetryInput,
    ScreenCaptureInput,
    SynchronizeInputs,
}

/// A running service: started once, stopped by a flag, joined until its
/// worker exits. Implementations are the capture services themselves; their
/// contracts here are what the registry relies on.
pub trait Process {
    /// The service has been asked to stop.
    spec fn stop_requested(&self) -> bool;

    /// The service's worker has exited and released what it held.
    spec fn joined(&self) -> bool;

    fn start(&mut self) -> Result<(), ServiceError>;

    /// Asks the service to stop; on success the request is recorded.
    fn stop(&mut self) -> (r: Result<(), ServiceError>)
        ensures
            r is Ok ==> final(self).stop_requested(),
    ;

    /// Returns once the worker has exited.
    fn join(&mut self)
        ensures
            final(self).joined(),
            final(self).stop_requested() == old(self).stop_requested(),
    ;
}

#[derive(Debug, Clone, Copy, PartialEq, Eq, Structural)]
pub enum InputType {
    User,
    Telemetry,
    Image,
}

/// One item produced by a capture source.
pub trait Input {
    fn input_type(&self) -> InputType;

    fn event_type(&self) -> EventGame;

    /// `(sequence id, type code or width, timestamp, length or height)`.
    fn header(&self) -> (u64, u32, u64, u32);
}

#[verifier::external_type_specification]
#[verifier::external_body]
#[verifier::reject_recursive_types(T)]
pub struct ExSender<T>(std::sync::mpsc::Sender<T>);

/// A way of capturing one input source on a worker thread of its own.
pub trait InputProcessMethod {
    fn start(&mut self) -> Result<(), ServiceError>;

    fn stop(&mut self);

    fn join(&mut self);

    /// The name of the capture method.
    fn method(&self) -> &str;

    /// The channel on which captured items are sent.
    fn set_transmitter(&mut self, transmitter: std::sync::mpsc::Sender<CaptureItem>);
}

/// Services in the order they were registered.
pub struct Services<P> {
    services_ord: Vec<(ServiceType, P)>,
    stop_order: Vec<ServiceType>,
    joined_log: Ghost<Seq<P>>,
}

impl<P: Process> Services<P> {
    /// The registered services' types, oldest first.
    pub closed spec fn types(&self) -> Seq<ServiceType> {
        self.services_ord@.map_values(|e: (ServiceType, P)| e.0)
    }

    /// The registered services themselves, oldest first.
    pub closed spec fn processes(&self) -> Seq<P> {
        self.services_ord@.map_values(|e: (ServiceType, P)| e.1)
    }

    /// The types of the services that this registry has stopped and joined, in that order.
    pub closed spec fn stopped(&self) -> Seq<ServiceType> {
        self.stop_order@
    }

    /// The services that this registry has taken out and joined, in that
    /// order, as they were once joined.
    pub closed spec fn joined_services(&self) -> Seq<P> {
        self.joined_log@
    }

    pub fn new() -> (r: Services<P>)
        ensures
            r.types() == Seq::<ServiceType>::empty(),
            r.stopped() == Seq::<ServiceType>::empty(),
            r.joined_services() == Seq::<P>::empty(),
    {
        let r = Services {
            services_ord: Vec::new(),
            stop_order: Vec::new(),
            joined_log: Ghost(Seq::empty()),
        };
        assert(r.types() =~= Seq::<ServiceType>::empty());
        r
    }

    /// The types of the services stopped so far, in the order they were stopped.
    pub fn stop_order(&self) -> (r: &Vec<ServiceType>)
        ensures
            r@ == self.stopped(),
    {
        &self.stop_order
    }

    /// Starts `process` and records it; a service that fails to start is not recorded.
    pub fn add_service(&mut self, service_type: ServiceType, process: P) -> (r: Result<
        (),
        ServiceError,
    >)
        ensures
            r is Ok ==> final(self).types() == old(self).types().push(service_type),
            r is Err ==> final(self).types() == old(self).types(),
            r is Ok ==> final(self).processes().drop_last() == old(self).processes(),
            r is Err ==> final(self).processes() == old(self).processes(),
            final(self).stopped() == old(self).stopped(),
            final(self).joined_services() == old(self).joined_services(),
    {
        let mut process = process;
        match process.start() {
            Err(e) => Err(e),
            Ok(()) => {
                self.services_ord.push((service_type, process));
                assert(self.types() =~= old(self).types().push(service_type));
                assert(self.processes().drop_last() =~= old(self).processes());
                Ok(())
            },
        }
    }

    /// Takes the first service of type `service_type` out of the registry.
    fn get_service(&mut self, service_type: ServiceType) -> (r: Option<P>)
        ensures
            r is Some <==> old(self).types().contains(service_type),
            r is Some ==> ({
                let k = old(self).types().index_of_first(service_type).unwrap();
                &&& r == Some(old(self).processes()[k])
                &&& final(self).processes() == old(self).processes().remove(k)
            }),
            r is None ==> final(self).processes() == old(self).processes(),
            final(self).types() == old(self).types().remove_value(service_type),
            final(self).stopped() == old(self).stopped(),
            final(self).joined_services() == old(self).joined_services(),
    {
        let ghost s = self.types();
        let ghost ps = self.processes();
        let mut i: usize = 0;
        while i < self.services_ord.len()
            invariant
                *self == *old(self),
                s == self.types(),
                ps == self.processes(),
                s.len() == self.services_ord@.len(),
                i <= s.len(),
                forall|j: int| 0 <= j < i ==> s[j] != service_type,
            decreases self.services_ord@.len() - i,
        {
            if self.services_ord[i].0 == service_type {
                proof {
                    s.index_of_first_ensures(service_type);
                    assert(s[i as int] == service_type);
                    assert(s.contains(service_type));
                    let k = s.index_of_first(service_type).unwrap();
                    assert(!(k < i));
                    assert(!(i < k));
                }
                let entry = self.services_ord.remove(i);
                assert(self.types() =~= s.remove(i as int));
                assert(self.processes() =~= ps.remove(i as int));
                return Some(entry.1);
            }
            i = i + 1;
        }
        proof {
            s.index_of_first_ensures(service_type);
            if s.contains(service_type) {
                let k = choose|k: int| 0 <= k < s.len() && s[k] == service_type;
                assert(s[k] != service_type);
            }
        }
        None
    }

    /// Stops the first service of type `service_type` and joins it; only then
    /// is it removed. A service whose stop fails stays registered where it was.
    pub fn stop_service(&mut self, service_type: ServiceType) -> (r: Result<(), ServiceError>)
        ensures
            !old(self).types().contains(service_type) ==> {
                &&& r == Err::<(), ServiceError>(ServiceError::NotActive)
                &&& final(self).processes() == old(self).processes()
            },
            old(self).types().contains(service_type) && r is Ok ==> ({
                let k = old(self).types().index_of_first(service_type).unwrap();
                &&& final(self).types() == old(self).types().remove(k)
                &&& final(self).processes() == old(self).processes().remove(k)
                &&& final(self).joined_services().drop_last() == old(self).joined_services()
                &&& final(self).joined_services().len() == old(self).joined_services().len() + 1
                &&& final(self).joined_services().last().joined()
                &&& final(self).joined_services().last().stop_requested()
            }),
            old(self).types().contains(service_type) && r is Err ==> ({
                let k = old(self).types().index_of_first(service_type).unwrap();
                &&& final(self).types() == old(self).types()
                &&& final(self).processes().len() == old(self).processes().len()
                &&& forall|j: int|
                    0 <= j < old(self).processes().len() && j != k ==> final(self).processes()[j]
                        == old(self).processes()[j]
            }),
            r is Ok ==> final(self).stopped() == old(self).stopped().push(service_type),
            r is Err ==> final(self).stopped() == old(self).stopped(),
            r is Err ==> final(self).joined_services() == old(self).joined_services(),
    {
        let ghost s = self.types();
        let ghost ps = self.processes();
        let ghost before = self.services_ord@;
        match self.find(service_type) {
            None => Err(ServiceError::NotActive),
            Some(i) => {
                let (st, p) = self.services_ord.remove(i);
                assert(st == service_type) by {
                    s.index_of_first_ensures(service_type);
                    assert(s[i as int] == before[i as int].0);
                }
                let mut p = p;
                match p.stop() {
                    Err(e) => {
                        self.services_ord.insert(i, (st, p));
                        assert(self.types() =~= s) by {
                            assert forall|j: int| 0 <= j < s.len() implies self.types()[j] == s[j] by {
                                if j < i {
                                    assert(self.services_ord@[j] == before[j]);
                                } else if j > i {
                                    assert(self.services_ord@[j] == before[j]);
                                }
                            }
                        }
                        assert forall|j: int| 0 <= j < ps.len() && j != i implies self.processes()[j]
                            == ps[j] by {
                            assert(self.services_ord@[j] == before[j]);
                        }
                        Err(e)
                    },
                    Ok(()) => {
                        p.join();
                        self.stop_order.push(st);
                        let ghost joined_p = p;
                        self.joined_log = Ghost(self.joined_log@.push(joined_p));
                        assert(self.types() =~= s.remove(i as int));
                        assert(self.processes() =~= ps.remove(i as int));
                        assert(self.joined_services().drop_last() =~= old(self).joined_services());
                        Ok(())
                    },
                }
            },
        }
    }

    /// The position of the first service of type `service_type`.
    fn find(&self, service_type: ServiceType) -> (r: Option<usize>)
        ensures
            r is Some <==> self.types().contains(service_type),
            r is Some ==> r.unwrap() as int == self.types().index_of_first(service_type).unwrap(),
            r is Some ==> r.unwrap() < self.services_ord@.len(),
    {
        let ghost s = self.types();
        let mut i: usize = 0;
        while i < self.services_ord.len()
            invariant
                s == self.types(),
                s.len() == self.services_ord@.len(),
                i <= s.len(),
                forall|j: int| 0 <= j < i ==> s[j] != service_type,
            decreases self.services_ord@.len() - i,
        {
            if self.services_ord[i].0 == service_type {
                proof {
                    s.index_of_first_ensures(service_type);
                    assert(s[i as int] == service_type);
                    assert(s.contains(service_type));
                    let k = s.index_of_first(service_type).unwrap();
                    assert(!(k < i));
                    assert(!(i < k));
                }
                return Some(i);
            }
            i = i + 1;
        }
        proof {
            s.index_of_first_ensures(service_type);
            if s.contains(service_type) {
                let k = choose|k: int| 0 <= k < s.len() && s[k] == service_type;
                assert(s[k] != service_type);
            }
        }
        None
    }

    /// Stops and joins every service, the most recently registered first. A
    /// service whose stop fails stays registered, with all older ones.
    pub fn stop_all_services(&mut self) -> (r: Result<(), ServiceError>)
        ensures
            final(self).types().len() <= old(self).types().len(),
            final(self).types() == old(self).types().subrange(0, final(self).types().len() as int),
            final(self).stopped() == old(self).stopped() + old(self).types().subrange(
                final(self).types().len() as int,
                old(self).types().len() as int,
            ).reverse(),
            r is Ok ==> final(self).types().len() == 0,
            old(self).types().len() == 0 ==> r == Ok::<(), ServiceError>(()),
            r is Err ==> final(self).types().len() > 0,
            final(self).processes().len() == final(self).types().len(),
            final(self).joined_services().subrange(0, old(self).joined_services().len() as int)
                == old(self).joined_services(),
            final(self).joined_services().len() == old(self).joined_services().len() + old(
                self,
            ).types().len() - final(self).types().len(),
            forall|j: int|
                old(self).joined_services().len() <= j < final(self).joined_services().len() ==> {
                    &&& (#[trigger] final(self).joined_services()[j]).joined()
                    &&& final(self).joined_services()[j].stop_requested()
                },
    {
        let ghost s = old(self).types();
        let ghost n = s.len() as int;
        let ghost j0 = old(self).joined_services().len() as int;
        let mut result: Result<(), ServiceError> = Ok(());
        assert(self.joined_services().subrange(0, j0) =~= old(self).joined_services());
        assert(s.subrange(n, n).reverse() =~= Seq::<ServiceType>::empty());
        assert(self.stopped() =~= old(self).stopped() + s.subrange(n, n).reverse());
        while result.is_ok() && self.services_ord.len() > 0
            invariant
                n == s.len(),
                self.types().len() == self.services_ord@.len(),
                self.types().len() <= n,
                self.types() == s.subrange(0, self.types().len() as int),
                self.stopped() == old(self).stopped() + s.subrange(
                    self.types().len() as int,
                    n,
                ).reverse(),
                n == 0 ==> result == Ok::<(), ServiceError>(()),
                result is Err ==> self.types().len() > 0,
                j0 == old(self).joined_services().len(),
                self.joined_services().subrange(0, j0) == old(self).joined_services(),
                self.joined_services().len() == j0 + n - self.types().len(),
                forall|j: int|
                    j0 <= j < self.joined_services().len() ==> {
                        &&& (#[trigger] self.joined_services()[j]).joined()
                        &&& self.joined_services()[j].stop_requested()
                    },
            decreases self.services_ord@.len() + (if result is Ok { 1int } else { 0int }),
        {
            let ghost k = self.types().len() as int;
            let ghost before = self.services_ord@;
            let (service_type, p) = self.services_ord.pop().unwrap();
            assert(self.services_ord@ =~= before.drop_last());
            assert forall|j: int| 0 <= j < k - 1 implies self.types()[j] == s[j] by {
                assert(self.types()[j] == before[j].0);
                assert(s.subrange(0, k)[j] == s[j]);
            }
            assert(self.types() =~= s.subrange(0, k - 1));
            assert(service_type == s[k - 1]) by {
                assert(s.subrange(0, k)[k - 1] == s[k - 1]);
            }
            let mut p = p;
            match p.stop() {
                Err(e) => {
                    self.services_ord.push((service_type, p));
                    assert forall|j: int| 0 <= j < k implies self.types()[j] == s[j] by {
                        if j < k - 1 {
                            assert(self.types()[j] == before[j].0);
                            assert(s.subrange(0, k)[j] == s[j]);
                        }
                    }
                    assert(self.types() =~= s.subrange(0, k));
                    result = Err(e);
                },
                Ok(()) => {
                    p.join();
                    self.stop_order.push(service_type);
                    let ghost joined_p = p;
                    let ghost log_before = self.joined_log@;
                    self.joined_log = Ghost(self.joined_log@.push(joined_p));
                    assert(self.joined_services().subrange(0, j0) =~= log_before.subrange(0, j0));
                    assert forall|j: int| j0 <= j < self.joined_services().len() implies {
                        &&& (#[trigger] self.joined_services()[j]).joined()
                        &&& self.joined_services()[j].stop_requested()
                    } by {
                        if j < log_before.len() {
                            assert(self.joined_services()[j] == log_before[j]);
                        }
                    }
                    assert(s.subrange(k - 1, n).reverse() =~= s.subrange(k, n).reverse().push(
                        service_type,
                    ));
                    assert(self.stopped() =~= old(self).stopped() + s.subrange(k - 1, n).reverse());
                },
            }
        }
        result
    }

    /// Removes the first service of type `service_type` and joins it without
    /// asking it to stop: it returns once the service has ended by itself.
    pub fn wait_for(&mut self, service_type: ServiceType) -> (r: Result<(), ServiceError>)
        ensures
            r is Ok <==> old(self).types().contains(service_type),
            r is Err ==> {
                &&& r == Err::<(), ServiceError>(ServiceError::NotActive)
                &&& final(self).processes() == old(self).processes()
                &&& final(self).joined_services() == old(self).joined_services()
            },
            r is Ok ==> ({
                let k = old(self).types().index_of_first(service_type).unwrap();
                &&& final(self).processes() == old(self).processes().remove(k)
                &&& final(self).joined_services().drop_last() == old(self).joined_services()
                &&& final(self).joined_services().len() == old(self).joined_services().len() + 1
                &&& final(self).joined_services().last().joined()
            }),
            final(self).types() == old(self).types().remove_value(service_type),
            final(self).stopped() == old(self).stopped(),
    {
        match self.get_service(service_type) {
            None => Err(ServiceError::NotActive),
            Some(p) => {
                let mut p = p;
                p.join();
                let ghost joined_p = p;
                self.joined_log = Ghost(self.joined_log@.push(joined_p));
                assert(self.joined_services().drop_last() =~= old(self).joined_services());
                Ok(())
            },
        }
    }

    /// Waits until the telemetry service, which ends on the producer's end of
    /// stream, has finished.
    pub fn block_until_telemetry_finished(&mut self) -> (r: Result<(), ServiceError>)
        ensures
            r is Ok <==> old(self).types().contains(ServiceType::TelemetryInput),
            r is Err ==> {
                &&& r == Err::<(), ServiceError>(ServiceError::NotActive)
                &&& final(self).processes() == old(self).processes()
                &&& final(self).joined_services() == old(self).joined_services()
            },
            r is Ok ==> ({
                let k = old(self).types().index_of_first(ServiceType::TelemetryInput).unwrap();
                &&& final(self).processes() == old(self).processes().remove(k)
                &&& final(self).joined_services().drop_last() == old(self).joined_services()
                &&& final(self).joined_services().len() == old(self).joined_services().len() + 1
                &&& final(self).joined_services().last().joined()
            }),
            final(self).types() == old(self).types().remove_value(ServiceType::TelemetryInput),
            final(self).stopped() == old(self).stopped(),
    {
        self.wait_for(ServiceType::TelemetryInput)
    }
}

} // verus!
