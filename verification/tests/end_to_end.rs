use std::collections::{HashMap, VecDeque};
use zmq::{
    poll, Call, Constants, Context, Error, Message, OptionKind, OptionValue, Output, PollItem,
    Reply, Socket, SocketType, Step, DONTWAIT, POLLIN, POLLOUT, SNDMORE,
};

/// One socket of the stand-in for the messaging library.
struct Peer {
    role: i32,
    inbox: VecDeque<(Vec<u8>, bool)>,
    peer: Option<usize>,
    more: bool,
    identity: Vec<u8>,
    numbers: HashMap<i32, OptionValue>,
    open: bool,
}

/// A stand-in for the messaging library, enough of it for two sockets to
/// talk over an in-process endpoint. It keeps a log of the calls made.
struct Library {
    next_handle: usize,
    sockets: HashMap<usize, Peer>,
    bound: HashMap<Vec<u8>, usize>,
    message: Vec<u8>,
    calls: Vec<Call>,
}

fn ok(output: Output) -> Reply {
    Reply { rc: 0, errno: 0, output }
}

fn returned(rc: i32, output: Output) -> Reply {
    Reply { rc, errno: 0, output }
}

fn failed(error: Error) -> Reply {
    Reply { rc: -1, errno: error.to_raw(), output: Output::Nothing }
}

impl Library {
    fn new() -> Library {
        Library {
            next_handle: 0x1000,
            sockets: HashMap::new(),
            bound: HashMap::new(),
            message: Vec::new(),
            calls: Vec::new(),
        }
    }

    fn handle(&mut self) -> usize {
        self.next_handle += 0x10;
        self.next_handle
    }

    fn perform(&mut self, call: &Call) -> Reply {
        self.calls.push(call.clone());
        match call {
            Call::Version => ok(Output::Version { major: 3, minor: 2, patch: 5 }),
            Call::ContextNew => {
                let handle = self.handle();
                ok(Output::Handle(handle))
            }
            Call::ContextDestroy { .. } => ok(Output::Nothing),
            Call::SocketNew { socket_type, .. } => {
                if *socket_type < 0 || *socket_type > 10 {
                    return Reply { rc: 0, errno: libc::EINVAL, output: Output::Handle(0) };
                }
                let handle = self.handle();
                self.sockets.insert(
                    handle,
                    Peer {
                        role: *socket_type,
                        inbox: VecDeque::new(),
                        peer: None,
                        more: false,
                        identity: Vec::new(),
                        numbers: HashMap::new(),
                        open: true,
                    },
                );
                ok(Output::Handle(handle))
            }
            Call::SocketClose { socket } => match self.sockets.get_mut(socket) {
                Some(peer) if peer.open => {
                    peer.open = false;
                    ok(Output::Nothing)
                }
                _ => failed(Error::ENOTSOCK),
            },
            Call::Bind { socket, endpoint } => {
                if self.bound.contains_key(endpoint) {
                    failed(Error::EADDRINUSE)
                } else {
                    self.bound.insert(endpoint.clone(), *socket);
                    ok(Output::Nothing)
                }
            }
            Call::Connect { socket, endpoint } => match self.bound.get(endpoint) {
                Some(other) => {
                    let other = *other;
                    self.sockets.get_mut(socket).unwrap().peer = Some(other);
                    self.sockets.get_mut(&other).unwrap().peer = Some(*socket);
                    ok(Output::Nothing)
                }
                None => failed(Error::ECONNREFUSED),
            },
            Call::GetOption { socket, option, kind } => {
                let peer = self.sockets.get(socket).unwrap();
                if *option == Constants::ZMQ_TYPE.to_raw() && *kind == OptionKind::Int {
                    ok(Output::Int(peer.role))
                } else if *option == Constants::ZMQ_RCVMORE.to_raw() && *kind == OptionKind::Long {
                    ok(Output::Long(if peer.more { 1 } else { 0 }))
                } else if *option == Constants::ZMQ_IDENTITY.to_raw() && *kind == OptionKind::Bytes
                {
                    let mut buffer = vec![0u8; kind.width()];
                    buffer[..peer.identity.len()].copy_from_slice(&peer.identity);
                    ok(Output::Bytes { buffer, size: peer.identity.len() })
                } else {
                    match (peer.numbers.get(option), kind) {
                        (Some(OptionValue::Int(value)), OptionKind::Int) => ok(Output::Int(*value)),
                        (Some(OptionValue::Long(value)), OptionKind::Long) => {
                            ok(Output::Long(*value))
                        }
                        (Some(OptionValue::Unsigned(value)), OptionKind::Unsigned) => {
                            ok(Output::Unsigned(*value))
                        }
                        _ => failed(Error::EINVAL),
                    }
                }
            }
            Call::SetOption { socket, option, value } => {
                let peer = self.sockets.get_mut(socket).unwrap();
                match value {
                    OptionValue::Bytes(bytes) => {
                        if *option != Constants::ZMQ_IDENTITY.to_raw() || bytes.len() > 255 {
                            return failed(Error::EINVAL);
                        }
                        peer.identity = bytes.clone();
                    }
                    number => {
                        peer.numbers.insert(*option, number.clone());
                    }
                }
                ok(Output::Nothing)
            }
            Call::MessageInit => {
                self.message = Vec::new();
                ok(Output::Nothing)
            }
            Call::MessageInitSize { size } => {
                self.message = vec![0u8; *size];
                ok(Output::Nothing)
            }
            Call::MessageFill { data } => {
                self.message[..data.len()].copy_from_slice(data);
                ok(Output::Nothing)
            }
            Call::MessageSend { socket, flags } => {
                let target = self.sockets.get(socket).unwrap().peer;
                match target {
                    Some(other) => {
                        let frame = (self.message.clone(), flags & SNDMORE != 0);
                        let sent = frame.0.len() as i32;
                        self.sockets.get_mut(&other).unwrap().inbox.push_back(frame);
                        returned(sent, Output::Nothing)
                    }
                    None => failed(Error::EAGAIN),
                }
            }
            Call::MessageReceive { socket, .. } => {
                let peer = self.sockets.get_mut(socket).unwrap();
                match peer.inbox.pop_front() {
                    Some((payload, more)) => {
                        peer.more = more;
                        self.message = payload.clone();
                        returned(payload.len() as i32, Output::Payload(payload))
                    }
                    None => failed(Error::EAGAIN),
                }
            }
            Call::MessageClose => {
                self.message = Vec::new();
                ok(Output::Nothing)
            }
            Call::Poll { items, .. } => {
                let mut revents = Vec::new();
                let mut ready = 0;
                for item in items {
                    let peer = self.sockets.get(&item.socket).unwrap();
                    let mut found = 0;
                    if item.events & POLLIN != 0 && !peer.inbox.is_empty() {
                        found |= POLLIN;
                    }
                    if item.events & POLLOUT != 0 && peer.peer.is_some() {
                        found |= POLLOUT;
                    }
                    if found != 0 {
                        ready += 1;
                    }
                    revents.push(found);
                }
                returned(ready, Output::Events(revents))
            }
            Call::ErrorText { code } => ok(Output::Text(format!("error {}", code))),
        }
    }
}

/// Runs an operation to its end against the stand-in library.
fn drive<T>(library: &mut Library, mut next: impl FnMut(&[Reply]) -> Step<T>) -> Result<T, Error> {
    let mut replies: Vec<Reply> = Vec::new();
    loop {
        match next(&replies) {
            Step::Call(call) => {
                let reply = library.perform(&call);
                replies.push(reply);
            }
            Step::Done(value) => return Ok(value),
            Step::Failed(error) => return Err(error),
            Step::Fatal(fault) => panic!("the operation cannot go on: {:?}", fault),
        }
    }
}

fn context(library: &mut Library) -> Context {
    drive(library, |replies| Context::new(replies)).unwrap()
}

fn socket(library: &mut Library, context: &Context, role: SocketType) -> Socket {
    drive(library, |replies| context.socket(role, replies)).unwrap()
}

fn pair(library: &mut Library, context: &Context, endpoint: &str) -> (Socket, Socket) {
    let mut pull = socket(library, context, SocketType::PULL);
    let mut push = socket(library, context, SocketType::PUSH);
    drive(library, |replies| pull.bind(endpoint, replies)).unwrap();
    drive(library, |replies| push.connect(endpoint, replies)).unwrap();
    (push, pull)
}

#[test]
fn req_rep_round_trip() {
    let mut library = Library::new();
    let context = context(&mut library);
    let mut rep = socket(&mut library, &context, SocketType::REP);
    let mut req = socket(&mut library, &context, SocketType::REQ);
    assert_eq!(drive(&mut library, |r| rep.bind("inproc://test-a", r)), Ok(()));
    assert_eq!(drive(&mut library, |r| req.connect("inproc://test-a", r)), Ok(()));

    assert_eq!(drive(&mut library, |r| req.send(&[0x01, 0x02, 0x03], 0, r)), Ok(()));
    assert_eq!(drive(&mut library, |r| rep.recv_bytes(0, r)), Ok(vec![0x01, 0x02, 0x03]));
    assert_eq!(drive(&mut library, |r| rep.send(&[0xAA], 0, r)), Ok(()));
    assert_eq!(drive(&mut library, |r| req.recv_bytes(0, r)), Ok(vec![0xAA]));
}

#[test]
fn push_pull_string() {
    let mut library = Library::new();
    let context = context(&mut library);
    let (mut push, mut pull) = pair(&mut library, &context, "inproc://test-b");
    assert_eq!(drive(&mut library, |r| push.send("hello".as_bytes(), 0, r)), Ok(()));
    assert_eq!(drive(&mut library, |r| pull.recv_str(0, r)), Ok("hello".to_string()));
}

#[test]
fn push_pull_string_sent_as_text() {
    let mut library = Library::new();
    let context = context(&mut library);
    let (mut push, mut pull) = pair(&mut library, &context, "inproc://test-b2");
    assert_eq!(drive(&mut library, |r| push.send_str("héllo", 0, r)), Ok(()));
    assert_eq!(drive(&mut library, |r| pull.recv_str(0, r)), Ok("héllo".to_string()));
}

#[test]
fn multipart_message() {
    let mut library = Library::new();
    let context = context(&mut library);
    let (mut push, mut pull) = pair(&mut library, &context, "inproc://test-c");
    assert_eq!(drive(&mut library, |r| push.send_str("part-1", SNDMORE, r)), Ok(()));
    assert_eq!(drive(&mut library, |r| push.send_str("part-2", 0, r)), Ok(()));

    let first: Message = drive(&mut library, |r| pull.recv_msg(0, r)).unwrap();
    assert_eq!(first.to_bytes(), "part-1".as_bytes().to_vec());
    assert_eq!(first.to_str(), "part-1".to_string());
    assert_eq!(drive(&mut library, |r| pull.get_rcvmore(r)), Ok(true));
    assert_eq!(drive(&mut library, |r| first.release(r)), Ok(()));

    let second: Message = drive(&mut library, |r| pull.recv_msg(0, r)).unwrap();
    assert_eq!(second.to_str(), "part-2".to_string());
    assert_eq!(drive(&mut library, |r| pull.get_rcvmore(r)), Ok(false));
    assert_eq!(drive(&mut library, |r| second.release(r)), Ok(()));
}

#[test]
fn non_blocking_recv_on_an_empty_socket() {
    let mut library = Library::new();
    let context = context(&mut library);
    let mut pull = socket(&mut library, &context, SocketType::PULL);
    let received = drive(&mut library, |r| pull.recv_msg(DONTWAIT, r));
    assert_eq!(received, Err(Error::EAGAIN));
    // The message that was made for the receive has been closed again.
    assert_eq!(
        library.calls[library.calls.len() - 3..].to_vec(),
        vec![
            Call::MessageInit,
            Call::MessageReceive { socket: pull.handle(), flags: DONTWAIT },
            Call::MessageClose,
        ]
    );
}

#[test]
fn identity_option() {
    let mut library = Library::new();
    let context = context(&mut library);
    let mut dealer = socket(&mut library, &context, SocketType::DEALER);
    assert_eq!(drive(&mut library, |r| dealer.set_identity(&[0x41, 0x42, 0x43], r)), Ok(()));
    let identity = drive(&mut library, |r| dealer.get_identity(r)).unwrap();
    assert_eq!(identity.len(), 3);
    assert_eq!(identity, vec![0x41, 0x42, 0x43]);
}

#[test]
fn poll_readiness() {
    let mut library = Library::new();
    let context = context(&mut library);
    let (mut push, pull) = pair(&mut library, &context, "inproc://test-f");
    assert_eq!(drive(&mut library, |r| push.send(&[7], 0, r)), Ok(()));
    let mut items: Vec<PollItem> = vec![pull.as_poll_item(POLLIN)];
    assert_eq!(drive(&mut library, |r| poll(&mut items, 1000, r)), Ok(()));
    assert_eq!(items[0].revents & POLLIN, POLLIN);
    assert_eq!(items[0].events, POLLIN);
    assert_eq!(items[0].socket, pull.handle());
}

#[test]
fn poll_finds_nothing_on_an_idle_socket() {
    let mut library = Library::new();
    let context = context(&mut library);
    let (_push, pull) = pair(&mut library, &context, "inproc://test-idle");
    let mut items: Vec<PollItem> = vec![pull.as_poll_item(POLLIN)];
    assert_eq!(drive(&mut library, |r| poll(&mut items, 0, r)), Ok(()));
    assert_eq!(items[0].revents, 0);
}

#[test]
fn every_socket_type_is_read_back() {
    let roles = [
        SocketType::PAIR,
        SocketType::PUB,
        SocketType::SUB,
        SocketType::REQ,
        SocketType::REP,
        SocketType::DEALER,
        SocketType::ROUTER,
        SocketType::PULL,
        SocketType::PUSH,
        SocketType::XPUB,
        SocketType::XSUB,
    ];
    let mut library = Library::new();
    let context = context(&mut library);
    for role in roles {
        let mut made = socket(&mut library, &context, role);
        assert_eq!(drive(&mut library, |r| made.get_socket_type(r)), Ok(role));
    }
}

#[test]
fn options_set_are_read_back() {
    let mut library = Library::new();
    let context = context(&mut library);
    let mut s = socket(&mut library, &context, SocketType::DEALER);

    assert_eq!(drive(&mut library, |r| s.set_maxmsgsize(-1, r)), Ok(()));
    assert_eq!(drive(&mut library, |r| s.get_maxmsgsize(r)), Ok(-1));
    assert_eq!(drive(&mut library, |r| s.set_sndhwm(1000, r)), Ok(()));
    assert_eq!(drive(&mut library, |r| s.get_sndhwm(r)), Ok(1000));
    assert_eq!(drive(&mut library, |r| s.set_rcvhwm(2000, r)), Ok(()));
    assert_eq!(drive(&mut library, |r| s.get_rcvhwm(r)), Ok(2000));
    assert_eq!(drive(&mut library, |r| s.set_affinity(u64::MAX, r)), Ok(()));
    assert_eq!(drive(&mut library, |r| s.get_affinity(r)), Ok(u64::MAX));
    assert_eq!(drive(&mut library, |r| s.set_rate(100, r)), Ok(()));
    assert_eq!(drive(&mut library, |r| s.get_rate(r)), Ok(100));
    assert_eq!(drive(&mut library, |r| s.set_recovery_ivl(10, r)), Ok(()));
    assert_eq!(drive(&mut library, |r| s.get_recovery_ivl(r)), Ok(10));
    assert_eq!(drive(&mut library, |r| s.set_recovery_ivl_msec(10_000, r)), Ok(()));
    assert_eq!(drive(&mut library, |r| s.get_recovery_ivl_msec(r)), Ok(10_000));
    assert_eq!(drive(&mut library, |r| s.set_mcast_loop(true, r)), Ok(()));
    assert_eq!(drive(&mut library, |r| s.get_mcast_loop(r)), Ok(true));
    assert_eq!(drive(&mut library, |r| s.set_mcast_loop(false, r)), Ok(()));
    assert_eq!(drive(&mut library, |r| s.get_mcast_loop(r)), Ok(false));
    assert_eq!(drive(&mut library, |r| s.set_sndbuf(65536, r)), Ok(()));
    assert_eq!(drive(&mut library, |r| s.get_sndbuf(r)), Ok(65536));
    assert_eq!(drive(&mut library, |r| s.set_rcvbuf(131072, r)), Ok(()));
    assert_eq!(drive(&mut library, |r| s.get_rcvbuf(r)), Ok(131072));
    assert_eq!(drive(&mut library, |r| s.set_reconnect_ivl(100, r)), Ok(()));
    assert_eq!(drive(&mut library, |r| s.get_reconnect_ivl(r)), Ok(100));
    assert_eq!(drive(&mut library, |r| s.set_reconnect_ivl_max(i32::MAX, r)), Ok(()));
    assert_eq!(drive(&mut library, |r| s.get_reconnect_ivl_max(r)), Ok(i32::MAX));
    assert_eq!(drive(&mut library, |r| s.set_backlog(i32::MIN, r)), Ok(()));
    assert_eq!(drive(&mut library, |r| s.get_backlog(r)), Ok(i32::MIN));
}

#[test]
fn closing_twice_calls_the_library_once() {
    let mut library = Library::new();
    let context = context(&mut library);
    let mut s = socket(&mut library, &context, SocketType::PAIR);
    assert!(!s.is_closed());
    let before = library.calls.len();
    assert_eq!(drive(&mut library, |r| s.close(r)), Ok(()));
    assert!(s.is_closed());
    assert_eq!(library.calls.len(), before + 1);
    assert_eq!(library.calls[before], Call::SocketClose { socket: s.handle() });
    assert_eq!(drive(&mut library, |r| s.close(r)), Ok(()));
    assert!(s.is_closed());
    assert_eq!(library.calls.len(), before + 1);
    // Letting go of it afterwards calls nothing either.
    assert_eq!(drive(&mut library, |r| s.release(r)), Ok(()));
    assert_eq!(library.calls.len(), before + 1);
}

#[test]
fn letting_go_of_sockets_and_context_in_order() {
    let mut library = Library::new();
    let context = context(&mut library);
    let mut a = socket(&mut library, &context, SocketType::PUSH);
    let mut b = socket(&mut library, &context, SocketType::PULL);
    assert_eq!(drive(&mut library, |r| a.release(r)), Ok(()));
    assert_eq!(drive(&mut library, |r| b.release(r)), Ok(()));
    assert_eq!(drive(&mut library, |r| context.release(r)), Ok(()));
    let n = library.calls.len();
    assert_eq!(
        library.calls[n - 3..].to_vec(),
        vec![
            Call::SocketClose { socket: a.handle() },
            Call::SocketClose { socket: b.handle() },
            Call::ContextDestroy { context: context.handle() },
        ]
    );
}

#[test]
fn messages_are_closed_once_each_over_many_rounds() {
    let mut library = Library::new();
    let context = context(&mut library);
    let (mut push, mut pull) = pair(&mut library, &context, "inproc://test-rounds");
    for round in 0..50u8 {
        assert_eq!(drive(&mut library, |r| push.send(&[round], 0, r)), Ok(()));
        assert_eq!(drive(&mut library, |r| pull.recv_bytes(0, r)), Ok(vec![round]));
    }
    let made = library
        .calls
        .iter()
        .filter(|call| matches!(call, Call::MessageInit | Call::MessageInitSize { .. }))
        .count();
    let closed = library.calls.iter().filter(|call| matches!(call, Call::MessageClose)).count();
    assert_eq!(made, 100);
    assert_eq!(closed, 100);
}

#[test]
fn version_is_handed_on() {
    let mut library = Library::new();
    assert_eq!(drive(&mut library, |r| zmq::version(r)), Ok((3, 2, 5)));
}

#[test]
fn error_text_is_asked_for_by_code() {
    let mut library = Library::new();
    assert_eq!(
        drive(&mut library, |r| Error::EAGAIN.message(r)),
        Ok(format!("error {}", libc::EAGAIN))
    );
    assert_eq!(library.calls, vec![Call::ErrorText { code: libc::EAGAIN }]);
}
