use minimio::linux::Event;
use minimio::linux::Events;
use minimio::linux::Poll;
use minimio::linux::Registrator;
use minimio::linux::Syscall;
use minimio::linux::EPOLLONESHOT;
use minimio::linux::EPOLL_CTL_ADD;
use minimio::unix::Reply;
use minimio::Error;
use minimio::Interests;
use minimio::PollStep;
use std::sync::mpsc::channel;
use std::sync::mpsc::Receiver;
use std::sync::mpsc::Sender;
use std::sync::Arc;
use std::sync::Mutex;

const EBADF: i32 = 9;
const EEXIST: i32 = 17;

/// One descriptor that an epoll instance watches.
struct Watch {
    epfd: i32,
    fd: i32,
    event: Event,
    armed: bool,
}

/// Stands in for the kernel: it keeps what was registered and which
/// descriptors have data, and answers the calls as epoll would.
struct Kernel {
    open: Vec<i32>,
    watches: Vec<Watch>,
    readable: Vec<i32>,
    interruptions: usize,
}

impl Kernel {
    fn new() -> Kernel {
        Kernel { open: vec![], watches: vec![], readable: vec![], interruptions: 0 }
    }

    fn descriptor(&mut self) -> i32 {
        let fd = 3 + self.open.len() as i32;
        self.open.push(fd);
        fd
    }

    fn data_arrives(&mut self, fd: i32) {
        if !self.readable.contains(&fd) {
            self.readable.push(fd);
        }
    }

    fn perform(&mut self, call: Syscall, written: &mut Vec<Event>) -> Reply {
        written.clear();
        match call {
            Syscall::EpollCreate { size } => {
                assert!(size > 0);
                Reply { ret: self.descriptor(), errno: 0 }
            }
            Syscall::Eventfd { initval, .. } => {
                let fd = self.descriptor();
                if initval > 0 {
                    self.data_arrives(fd);
                }
                Reply { ret: fd, errno: 0 }
            }
            Syscall::Close { fd } => {
                if !self.open.contains(&fd) {
                    return Reply { ret: -1, errno: EBADF };
                }
                self.open.retain(|open| *open != fd);
                self.watches.retain(|watch| watch.epfd != fd && watch.fd != fd);
                Reply { ret: 0, errno: 0 }
            }
            Syscall::EpollCtl { epfd, op, fd, event } => {
                assert_eq!(op, EPOLL_CTL_ADD);
                if !self.open.contains(&epfd) {
                    return Reply { ret: -1, errno: EBADF };
                }
                if self.watches.iter().any(|watch| watch.epfd == epfd && watch.fd == fd) {
                    return Reply { ret: -1, errno: EEXIST };
                }
                self.watches.push(Watch { epfd, fd, event, armed: true });
                Reply { ret: 0, errno: 0 }
            }
            Syscall::EpollWait { epfd, maxevents, .. } => {
                if self.interruptions > 0 {
                    self.interruptions -= 1;
                    return Reply { ret: -1, errno: 4 };
                }
                if !self.open.contains(&epfd) {
                    return Reply { ret: -1, errno: EBADF };
                }
                for watch in self.watches.iter_mut() {
                    let ready = watch.epfd == epfd && watch.armed;
                    if ready && self.readable.contains(&watch.fd) {
                        if written.len() as i32 >= maxevents {
                            break;
                        }
                        written.push(Event { events: 1, epoll_data: watch.event.epoll_data });
                        if watch.event.events & EPOLLONESHOT as u32 != 0 {
                            watch.armed = false;
                        }
                    }
                }
                Reply { ret: written.len() as i32, errno: 0 }
            }
        }
    }
}

/// Runs one poll to its end against `kernel`, as a caller of the library
/// does: wait, hand the reply back, and wait again when told to.
fn poll(
    kernel: &Mutex<Kernel>,
    poll: &mut Poll,
    events: &mut Events,
    timeout_ms: Option<i32>,
) -> Result<usize, Error> {
    loop {
        let wait = poll.poll(events, timeout_ms);
        let mut written = Vec::new();
        let reply = kernel.lock().unwrap().perform(wait, &mut written);
        match poll.resume(events, reply, written) {
            PollStep::Retry => continue,
            PollStep::Done(result) => return result,
        }
    }
}

fn register(
    kernel: &Mutex<Kernel>,
    registrator: &Registrator,
    fd: i32,
    token: usize,
    interests: Interests,
) -> Result<(), Error> {
    let arm = registrator.register(fd, token, interests)?;
    kernel.lock().unwrap().perform(arm, &mut Vec::new()).done()
}

fn close_loop(kernel: &Mutex<Kernel>, registrator: &Registrator) -> Result<(), Error> {
    let make = registrator.close_loop()?;
    let made = kernel.lock().unwrap().perform(make, &mut Vec::new());
    let arm = registrator.wake(made)?;
    kernel.lock().unwrap().perform(arm, &mut Vec::new()).done()
}

fn new_poll(kernel: &Mutex<Kernel>) -> Poll {
    let create = minimio::linux::epoll_create();
    let created = kernel.lock().unwrap().perform(create, &mut Vec::new());
    Poll::new(created).unwrap()
}

fn connect(kernel: &Mutex<Kernel>) -> i32 {
    kernel.lock().unwrap().descriptor()
}

#[test]
fn main() {
    let kernel = Mutex::new(Kernel::new());
    let mut instance = new_poll(&kernel);
    let mut events = Events::with_capacity(1024);

    let stream = connect(&kernel);

    let (token, arm) = instance.register_with_id(stream, Interests::readable(), 100).unwrap();
    assert_eq!(token, 100);
    kernel.lock().unwrap().perform(arm, &mut Vec::new()).done().unwrap();
    kernel.lock().unwrap().data_arrives(stream);

    poll(&kernel, &mut instance, &mut events, None).unwrap();
    let mut seen = 0;
    for event in events.as_slice() {
        if event.id() == 100 {
            seen += 1;
        }
    }
    assert_eq!(seen, 1);
}

const TEST_TOKEN: usize = 10; // Hard coded for this test only

#[test]
fn proposed_api() {
    let kernel = Arc::new(Mutex::new(Kernel::new()));
    let (evt_sender, evt_reciever) = channel();
    let mut reactor = Reactor::new(kernel.clone(), evt_sender);
    let mut executor = Excutor::new(evt_reciever);

    let stream = connect(&kernel);

    let registrator = reactor.registrator();
    register(&kernel, &registrator, stream, TEST_TOKEN, Interests::readable())
        .expect("registration err.");
    kernel.lock().unwrap().data_arrives(stream);

    let closer = kernel.clone();
    executor.suspend(TEST_TOKEN, move || {
        close_loop(&closer, &registrator).expect("close loop err.");
    });

    let mut turns = 0;
    let closed = loop {
        turns += 1;
        assert!(turns <= 2, "the loop ends with the poll after the close");
        match reactor.turn() {
            Some(error) => break error,
            None => executor.block_on_all(),
        }
    };
    assert_eq!(closed, Error::PollClosed);
    assert_eq!(executor.resumed, 1);
}

struct Reactor {
    kernel: Arc<Mutex<Kernel>>,
    instance: Poll,
    events: Events,
    evt_sender: Sender<usize>,
    registrator: Option<Registrator>,
}

impl Reactor {
    fn new(kernel: Arc<Mutex<Kernel>>, evt_sender: Sender<usize>) -> Reactor {
        let instance = new_poll(&kernel);
        let registrator = instance.registrator();
        let events = Events::with_capacity(1024);
        Reactor { kernel, instance, events, evt_sender, registrator: Some(registrator) }
    }

    /// One turn of the event loop: polls and sends on the tokens of the
    /// events. Yields the error that ends the loop, once the poll is closed.
    fn turn(&mut self) -> Option<Error> {
        match poll(&self.kernel, &mut self.instance, &mut self.events, Some(200)) {
            Ok(..) => (),
            Err(error) if error.is_interrupted() => return Some(error),
            Err(error) => panic!("Poll error: {:?}, {}", error.kind(), error.message()),
        };
        for event in self.events.as_slice() {
            let event_token = event.id();
            self.evt_sender.send(event_token).expect("send event_token err.");
        }
        None
    }

    fn registrator(&mut self) -> Registrator {
        self.registrator.take().unwrap()
    }
}

struct Excutor {
    events: Vec<(usize, Box<dyn FnMut()>)>,
    evt_reciever: Receiver<usize>,
    resumed: usize,
}

impl Excutor {
    fn new(evt_reciever: Receiver<usize>) -> Self {
        Excutor { events: vec![], evt_reciever, resumed: 0 }
    }

    fn suspend(&mut self, id: usize, f: impl FnMut() + 'static) {
        self.events.push((id, Box::new(f)));
    }

    fn resume(&mut self, event: usize) {
        let (_, f) =
            self.events.iter_mut().find(|(e, _)| *e == event).expect("Couldn't find event.");
        f();
        self.resumed += 1;
    }

    fn block_on_all(&mut self) {
        while let Ok(recieved_token) = self.evt_reciever.try_recv() {
            assert_eq!(TEST_TOKEN, recieved_token, "Non matching tokens.");
            self.resume(recieved_token);
        }
    }
}

#[test]
fn scenario_single_read() {
    let kernel = Mutex::new(Kernel::new());
    let mut instance = new_poll(&kernel);
    let mut events = Events::with_capacity(8);
    let stream = connect(&kernel);
    register(&kernel, &instance.registrator(), stream, 100, Interests::readable()).unwrap();
    kernel.lock().unwrap().data_arrives(stream);
    assert_eq!(poll(&kernel, &mut instance, &mut events, None), Ok(1));
    assert_eq!(events.len(), 1);
    assert_eq!(events.get(0).unwrap().id(), 100);
}

#[test]
fn scenario_timeout_expiry() {
    let kernel = Mutex::new(Kernel::new());
    let mut instance = new_poll(&kernel);
    let mut events = Events::with_capacity(8);
    let _stream = connect(&kernel);
    assert_eq!(poll(&kernel, &mut instance, &mut events, Some(50)), Ok(0));
    assert!(events.is_empty());
}

#[test]
fn scenario_interrupted_poll() {
    let kernel = Mutex::new(Kernel::new());
    let mut instance = new_poll(&kernel);
    let mut events = Events::with_capacity(8);
    let registrator = instance.registrator();
    assert_eq!(close_loop(&kernel, &registrator), Ok(()));
    let outcome = poll(&kernel, &mut instance, &mut events, None);
    assert_eq!(outcome, Err(Error::PollClosed));
    assert!(outcome.unwrap_err().is_interrupted());
    assert_eq!(outcome.unwrap_err().message(), "Poll closed.");
}

#[test]
fn scenario_register_after_close_fails() {
    let kernel = Mutex::new(Kernel::new());
    let mut instance = new_poll(&kernel);
    let mut events = Events::with_capacity(8);
    let registrator = instance.registrator();
    let stream = connect(&kernel);
    close_loop(&kernel, &registrator).unwrap();
    assert!(poll(&kernel, &mut instance, &mut events, None).is_err());
    let refused = register(&kernel, &registrator, stream, 7, Interests::readable());
    assert_eq!(refused, Err(Error::InstanceClosed));
    assert!(refused.unwrap_err().is_interrupted());
    assert!(kernel.lock().unwrap().watches.iter().all(|watch| watch.fd != stream));
}

#[test]
fn scenario_close_is_idempotent_and_wakes_once() {
    let kernel = Mutex::new(Kernel::new());
    let mut instance = new_poll(&kernel);
    let mut events = Events::with_capacity(8);
    let registrator = instance.registrator();
    assert_eq!(close_loop(&kernel, &registrator), Ok(()));
    let wakes = kernel.lock().unwrap().watches.len();
    assert_eq!(wakes, 1);
    for _ in 0..3 {
        let again = close_loop(&kernel, &registrator);
        assert_eq!(again, Err(Error::InstanceClosed));
        assert!(again.unwrap_err().is_interrupted());
        assert_eq!(poll(&kernel, &mut instance, &mut events, Some(0)), Err(Error::PollClosed));
    }
    assert_eq!(kernel.lock().unwrap().watches.len(), wakes);
}

#[test]
fn scenario_oneshot() {
    let kernel = Mutex::new(Kernel::new());
    let mut instance = new_poll(&kernel);
    let mut events = Events::with_capacity(8);
    let stream = connect(&kernel);
    register(&kernel, &instance.registrator(), stream, 5, Interests::readable()).unwrap();
    kernel.lock().unwrap().data_arrives(stream);
    assert_eq!(poll(&kernel, &mut instance, &mut events, None), Ok(1));
    assert_eq!(events.get(0).unwrap().id(), 5);
    kernel.lock().unwrap().data_arrives(stream);
    assert_eq!(poll(&kernel, &mut instance, &mut events, Some(100)), Ok(0));
    assert!(events.is_empty());
}

#[test]
fn scenario_handle_cleanup() {
    let kernel = Mutex::new(Kernel::new());
    let instance = new_poll(&kernel);
    let close = instance.selector().close();
    let closed = kernel.lock().unwrap().perform(close, &mut Vec::new());
    assert_eq!(instance.selector().dropped(closed, false), None);
    assert!(kernel.lock().unwrap().open.is_empty());
    let again = kernel.lock().unwrap().perform(close, &mut Vec::new());
    assert_eq!(instance.selector().dropped(again, false), Some(Error::Os { code: EBADF }));
    assert_eq!(instance.selector().dropped(again, true), None);
}

#[test]
fn scenario_interrupted_wait_is_started_again() {
    let kernel = Mutex::new(Kernel::new());
    let mut instance = new_poll(&kernel);
    let mut events = Events::with_capacity(8);
    let stream = connect(&kernel);
    register(&kernel, &instance.registrator(), stream, 1, Interests::readable()).unwrap();
    kernel.lock().unwrap().data_arrives(stream);
    kernel.lock().unwrap().interruptions = 3;
    assert_eq!(poll(&kernel, &mut instance, &mut events, None), Ok(1));
    assert_eq!(kernel.lock().unwrap().interruptions, 0);
}

#[test]
fn scenario_never_more_events_than_capacity() {
    let kernel = Mutex::new(Kernel::new());
    let mut instance = new_poll(&kernel);
    let mut events = Events::with_capacity(2);
    for token in 0..5 {
        let stream = connect(&kernel);
        register(&kernel, &instance.registrator(), stream, token, Interests::readable()).unwrap();
        kernel.lock().unwrap().data_arrives(stream);
    }
    assert_eq!(poll(&kernel, &mut instance, &mut events, None), Ok(2));
    assert_eq!(events.capacity(), 2);
    assert_eq!(poll(&kernel, &mut instance, &mut events, None), Ok(2));
    assert_eq!(poll(&kernel, &mut instance, &mut events, None), Ok(1));
    assert_eq!(poll(&kernel, &mut instance, &mut events, Some(0)), Ok(0));
}
