use vstd::prelude::*;

verus! {

/// Where the server stands.
#[derive(Clone, Copy, Debug, PartialEq, Eq, Structural)]
pub enum Phase {
    /// Not listening yet.
    Idle,
    /// Listening: connections are accepted and served.
    Accepting,
    /// Done: nothing is accepted any more.
    Closed,
}

/// What whoever runs the connection loop reports to the server.
#[derive(Clone, Copy, Debug, PartialEq, Eq, Structural)]
pub enum Event {
    /// The listening endpoint is bound.
    Bound,
    /// The listening endpoint could not be bound.
    BindFailed,
    /// A connection has been accepted.
    Accepted,
    /// Accepting a connection has failed.
    AcceptFailed,
    /// The connection of this number has ended: the peer has closed it.
    Finished(u64),
    /// The connection of this number has ended in a fault: a protocol
    /// error, an I/O error, or a panic in its task.
    Failed(u64),
    /// The process is shutting down.
    Shutdown,
}

/// What the server tells the loop to do.
#[derive(Clone, Copy, Debug, PartialEq, Eq, Structural)]
pub enum Action {
    /// Wait for the next connection.
    Accept,
    /// Start a task of its own for the connection just accepted, under this
    /// number, and wait for the next connection.
    Serve(u64),
    /// Note the fault of the connection of this number, and wait for the next
    /// connection.
    Report(u64),
    /// Note that accepting has failed, and wait for the next connection.
    ReportAccept,
    /// Leave the loop: the server has been shut down.
    Stop,
    /// Leave the loop with an error: the server cannot listen.
    Fail,
    /// Nothing: the event does not apply to the phase.
    Nothing,
}

/// The server as a mathematical value: its phase, the number that the next
/// connection gets, and the numbers of the connections that are being
/// served.
pub struct ServerView {
    pub phase: Phase,
    pub next: u64,
    pub open: Set<u64>,
}

/// The number after `next`; the largest number is its own successor.
pub open spec fn successor(next: u64) -> u64 {
    if next < u64::MAX {
        (next + 1) as u64
    } else {
        next
    }
}

/// The server after `event` has been reported to a server in `state`.
pub open spec fn after_event(state: ServerView, event: Event) -> ServerView {
    match state.phase {
        Phase::Idle => match event {
            Event::Bound => ServerView { phase: Phase::Accepting, ..state },
            Event::BindFailed | Event::Shutdown => ServerView { phase: Phase::Closed, ..state },
            _ => state,
        },
        Phase::Accepting => match event {
            Event::Accepted => ServerView {
                next: successor(state.next),
                open: state.open.insert(state.next),
                ..state
            },
            Event::Finished(connection) | Event::Failed(connection) => ServerView {
                open: state.open.remove(connection),
                ..state
            },
            Event::Shutdown => ServerView { phase: Phase::Closed, open: Set::empty(), ..state },
            _ => state,
        },
        Phase::Closed => state,
    }
}

/// What a server in `state` tells the loop to do when `event` is reported.
pub open spec fn action_on(state: ServerView, event: Event) -> Action {
    match state.phase {
        Phase::Idle => match event {
            Event::Bound => Action::Accept,
            Event::BindFailed => Action::Fail,
            Event::Shutdown => Action::Stop,
            _ => Action::Nothing,
        },
        Phase::Accepting => match event {
            Event::Accepted => Action::Serve(state.next),
            Event::AcceptFailed => Action::ReportAccept,
            Event::Finished(_) => Action::Accept,
            Event::Failed(connection) => Action::Report(connection),
            Event::Shutdown => Action::Stop,
            _ => Action::Nothing,
        },
        Phase::Closed => Action::Nothing,
    }
}

/// The decisions of the connection loop. The loop itself, which waits for
/// connections and runs their tasks, is not here: it reports what happens
/// and does what it is told.
pub struct Server {
    phase: Phase,
    next: u64,
    open: Vec<u64>,
}

impl View for Server {
    type V = ServerView;

    closed spec fn view(&self) -> ServerView {
        ServerView { phase: self.phase, next: self.next, open: self.open@.to_set() }
    }
}

/// The numbers in `open` but for `connection`.
fn without(open: &Vec<u64>, connection: u64) -> (rest: Vec<u64>)
    ensures
        rest@.to_set() == open@.to_set().remove(connection),
{
    let mut rest: Vec<u64> = Vec::new();
    let mut i: usize = 0;
    while i < open.len()
        invariant
            i <= open.len(),
            forall|x: u64|
                rest@.contains(x) <==> x != connection && exists|j: int|
                    0 <= j < i && open@[j] == x,
        decreases open.len() - i,
    {
        let ghost before = rest@;
        if open[i] != connection {
            rest.push(open[i]);
            assert forall|x: u64|
                rest@.contains(x) <==> x != connection && exists|j: int|
                    0 <= j < i + 1 && open@[j] == x by {
                if rest@.contains(x) {
                    let k = choose|k: int| 0 <= k < rest@.len() && rest@[k] == x;
                    if k < before.len() {
                        assert(before[k] == x);
                        assert(before.contains(x));
                    } else {
                        assert(open@[i as int] == x);
                    }
                }
                if x != connection && exists|j: int| 0 <= j < i + 1 && open@[j] == x {
                    let j = choose|j: int| 0 <= j < i + 1 && open@[j] == x;
                    if j < i {
                        assert(before.contains(x));
                        let k = choose|k: int| 0 <= k < before.len() && before[k] == x;
                        assert(rest@[k] == x);
                    } else {
                        assert(rest@[before.len() as int] == x);
                    }
                }
            }
        }
        i += 1;
    }
    assert forall|x: u64| rest@.to_set().contains(x) <==> open@.to_set().remove(
        connection,
    ).contains(x) by {
        if open@.to_set().remove(connection).contains(x) {
            assert(open@.contains(x));
            let j = choose|j: int| 0 <= j < open@.len() && open@[j] == x;
            assert(0 <= j < i && open@[j] == x);
        }
        if rest@.contains(x) {
            let j = choose|j: int| 0 <= j < i && open@[j] == x;
            assert(open@.contains(x));
        }
    }
    assert(rest@.to_set() =~= open@.to_set().remove(connection));
    rest
}

impl Server {
    /// A server that is not listening yet. The first connection will get
    /// the number 0.
    pub fn new() -> (server: Server)
        ensures
            server@ == (ServerView { phase: Phase::Idle, next: 0, open: Set::empty() }),
    {
        let server = Server { phase: Phase::Idle, next: 0, open: Vec::new() };
        assert(server.open@.to_set() =~= Set::empty());
        server
    }

    /// The phase that the server is in.
    pub fn phase(&self) -> (phase: Phase)
        ensures
            phase == self@.phase,
    {
        self.phase
    }

    /// Whether the connection of this number is being served.
    pub fn is_open(&self, connection: u64) -> (open: bool)
        ensures
            open == self@.open.contains(connection),
    {
        let mut i: usize = 0;
        while i < self.open.len()
            invariant
                i <= self.open.len(),
                forall|j: int| 0 <= j < i ==> self.open@[j] != connection,
            decreases self.open.len() - i,
        {
            if self.open[i] == connection {
                assert(self.open@.contains(connection));
                return true;
            }
            i += 1;
        }
        assert(!self.open@.contains(connection));
        false
    }

    /// Takes note of `event` and says what the loop is to do.
    pub fn step(&mut self, event: Event) -> (action: Action)
        ensures
            final(self)@ == after_event(old(self)@, event),
            action == action_on(old(self)@, event),
    {
        match self.phase {
            Phase::Idle => match event {
                Event::Bound => {
                    self.phase = Phase::Accepting;
                    Action::Accept
                },
                Event::BindFailed => {
                    self.phase = Phase::Closed;
                    Action::Fail
                },
                Event::Shutdown => {
                    self.phase = Phase::Closed;
                    Action::Stop
                },
                _ => Action::Nothing,
            },
            Phase::Accepting => match event {
                Event::Accepted => {
                    let connection = self.next;
                    let ghost before = self.open@;
                    self.open.push(connection);
                    assert(self.open@.to_set() =~= before.to_set().insert(connection)) by {
                        assert forall|x: u64| self.open@.contains(x) <==> before.to_set().insert(
                            connection,
                        ).contains(x) by {
                            if self.open@.contains(x) {
                                let k = choose|k: int| 0 <= k < self.open@.len() && self.open@[k] == x;
                                if k < before.len() {
                                    assert(before[k] == x);
                                    assert(before.contains(x));
                                }
                            }
                            if before.contains(x) {
                                let k = choose|k: int| 0 <= k < before.len() && before[k] == x;
                                assert(self.open@[k] == x);
                            }
                            if x == connection {
                                assert(self.open@[before.len() as int] == x);
                            }
                        }
                    }
                    if self.next < u64::MAX {
                        self.next = self.next + 1;
                    }
                    Action::Serve(connection)
                },
                Event::AcceptFailed => Action::ReportAccept,
                Event::Finished(connection) => {
                    self.open = without(&self.open, connection);
                    Action::Accept
                },
                Event::Failed(connection) => {
                    self.open = without(&self.open, connection);
                    Action::Report(connection)
                },
                Event::Shutdown => {
                    self.phase = Phase::Closed;
                    self.open = Vec::new();
                    assert(self.open@.to_set() =~= Set::empty());
                    Action::Stop
                },
                _ => Action::Nothing,
            },
            Phase::Closed => Action::Nothing,
        }
    }
}

/// The end of one connection, whatever its cause, leaves the server
/// accepting and every other connection as it was.
pub proof fn lemma_connection_end_is_isolated(state: ServerView, connection: u64, failed: bool)
    requires
        state.phase == Phase::Accepting,
    ensures
        ({
            let event = if failed {
                Event::Failed(connection)
            } else {
                Event::Finished(connection)
            };
            let after = after_event(state, event);
            &&& after.phase == Phase::Accepting
            &&& !after.open.contains(connection)
            &&& forall|other: u64|
                other != connection ==> (after.open.contains(other) <==> state.open.contains(
                    other,
                ))
            &&& action_on(state, event) != Action::Stop
            &&& action_on(state, event) != Action::Fail
        }),
{
}

/// A failed accept leaves the server as it was.
pub proof fn lemma_failed_accept_changes_nothing(state: ServerView)
    ensures
        after_event(state, Event::AcceptFailed) == state,
        action_on(state, Event::AcceptFailed) != Action::Stop,
        action_on(state, Event::AcceptFailed) != Action::Fail,
{
}

/// The server closes on a shutdown or on a failure to bind, and on nothing
/// else.
pub proof fn lemma_what_closes(state: ServerView, event: Event)
    requires
        state.phase != Phase::Closed,
    ensures
        after_event(state, event).phase == Phase::Closed <==> (event == Event::Shutdown || (
        state.phase == Phase::Idle && event == Event::BindFailed)),
{
}

} // verus!
