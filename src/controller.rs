use vstd::prelude::*;
use crate::discovery::{ScanEvent, SpeakerInfo, SpeakerInfoModel, event_match, first_match, resolve_event};
use crate::input::{InputSource, wire};
use crate::json::json_parses;
use crate::protocol::{
    DeviceError, HttpRequest, RequestModel, check_write_reply, decode_power, decode_source,
    get_data, input_request, power_on_value, power_outcome, power_request, set_data,
    source_outcome, source_path, source_request, standby_value, status_path, status_request,
};
use crate::status::{PowerState, SpeakerStatus, status_of, unknown_status};

verus! {

/// How long the speaker is given to power up before an input is selected.
pub const GRACE_MILLIS: u64 = 500;

/// An operation submitted to the controller. A status request carries a
/// ticket that names the waiter its single reply goes to.
#[derive(Debug, Clone, Copy, PartialEq, Eq, Structural)]
pub enum SpeakerCommand {
    SetInput(InputSource),
    GetStatus(u64),
    PowerOn,
    PowerOff,
}

/// Why the controller is reading the speaker's status.
#[derive(Debug, Clone, Copy, PartialEq, Eq, Structural)]
pub enum Purpose {
    /// To answer the status request with this ticket.
    Report(u64),
    /// To decide whether the speaker must be woken before this input is
    /// selected.
    Switch(InputSource),
}

/// A write to the device whose outcome is reported.
#[derive(Debug, Clone, Copy, PartialEq, Eq, Structural)]
pub enum Write {
    PowerOn,
    PowerOff,
    Input(InputSource),
}

/// Where the controller stands in servicing its current command.
#[derive(Debug, Clone, Copy, PartialEq, Eq, Structural)]
pub enum Phase {
    /// No command is being serviced.
    Idle,
    /// Waiting for the reply to the power-status read.
    ReadingPower(Purpose),
    /// Waiting for the reply to the source read.
    ReadingSource(Purpose),
    /// Waiting for the reply to the wake-up write; with an input, the one to
    /// select once the speaker is up.
    PoweringOn(Option<InputSource>),
    /// Pausing before selecting this input.
    Settling(InputSource),
    /// Waiting for the reply to the last write of the command.
    Writing(Write),
}

/// What happened since the controller's last action.
#[derive(Debug, Clone)]
pub enum Event {
    /// The reply to the request last fetched: its body, or `None` when the
    /// exchange could not complete.
    Response(Option<Vec<u8>>),
    /// The last action was carried out (a pause ended, a status was
    /// delivered, a command was submitted).
    Done,
    /// No more commands will be submitted.
    Closed,
}

pub enum EventModel {
    Response(Option<Seq<u8>>),
    Done,
    Closed,
}

impl View for Event {
    type V = EventModel;

    open spec fn view(&self) -> EventModel {
        match self {
            Event::Response(Some(b)) => EventModel::Response(Some(b@)),
            Event::Response(None) => EventModel::Response(None),
            Event::Done => EventModel::Done,
            Event::Closed => EventModel::Closed,
        }
    }
}

/// What the controller asks its driver to do next.
#[derive(Debug)]
pub enum Action {
    /// Send this request to the device and report the reply.
    Fetch(HttpRequest),
    /// Wait this many milliseconds.
    Pause(u64),
    /// Hand this status to the waiter with this ticket.
    Deliver(u64, SpeakerStatus),
    /// A write was answered: whether the device confirmed it, or why not.
    Report(Write, Result<(), DeviceError>),
    /// Wait for the next command.
    Wait,
    /// The command source is closed and all work is done.
    Stop,
}

pub enum ActionModel {
    Fetch(RequestModel),
    Pause(u64),
    Deliver(u64, SpeakerStatus),
    Report(Write, Result<(), DeviceError>),
    Wait,
    Stop,
}

impl View for Action {
    type V = ActionModel;

    open spec fn view(&self) -> ActionModel {
        match self {
            Action::Fetch(r) => ActionModel::Fetch(r@),
            Action::Pause(ms) => ActionModel::Pause(*ms),
            Action::Deliver(t, s) => ActionModel::Deliver(*t, *s),
            Action::Report(w, res) => ActionModel::Report(*w, *res),
            Action::Wait => ActionModel::Wait,
            Action::Stop => ActionModel::Stop,
        }
    }
}

/// The controller's state: the phase of the current command and the
/// commands waiting behind it, oldest first.
pub struct ControllerModel {
    pub phase: Phase,
    pub queue: Seq<SpeakerCommand>,
}

/// The first action of a command, and the phase it leaves the controller in.
pub open spec fn start(base: Seq<char>, cmd: SpeakerCommand) -> (Phase, ActionModel) {
    match cmd {
        SpeakerCommand::SetInput(s) => (
            Phase::ReadingPower(Purpose::Switch(s)),
            ActionModel::Fetch(get_data(base, status_path())),
        ),
        SpeakerCommand::GetStatus(t) => (
            Phase::ReadingPower(Purpose::Report(t)),
            ActionModel::Fetch(get_data(base, status_path())),
        ),
        SpeakerCommand::PowerOn => (
            Phase::PoweringOn(None),
            ActionModel::Fetch(set_data(base, power_on_value())),
        ),
        SpeakerCommand::PowerOff => (
            Phase::Writing(Write::PowerOff),
            ActionModel::Fetch(set_data(base, standby_value())),
        ),
    }
}

/// Takes up the oldest waiting command, if there is one.
pub open spec fn begin_next(base: Seq<char>, queue: Seq<SpeakerCommand>) -> (ControllerModel, ActionModel) {
    if queue.len() == 0 {
        (ControllerModel { phase: Phase::Idle, queue }, ActionModel::Wait)
    } else {
        let (phase, action) = start(base, queue[0]);
        (ControllerModel { phase, queue: queue.drop_first() }, action)
    }
}

pub open spec fn response_body(e: EventModel) -> Option<Seq<u8>> {
    match e {
        EventModel::Response(Some(b)) => Some(b),
        _ => None,
    }
}

/// The power reading that an event brings; anything but a reply body is a
/// failed exchange.
pub open spec fn read_power(e: EventModel) -> Result<PowerState, DeviceError> {
    match response_body(e) {
        Some(b) => power_outcome(b),
        None => Err(DeviceError::Transport),
    }
}

/// The source reading that an event brings.
pub open spec fn read_source(e: EventModel) -> Result<Option<InputSource>, DeviceError> {
    match response_body(e) {
        Some(b) => source_outcome(b),
        None => Err(DeviceError::Transport),
    }
}

/// The outcome of a write that an event answers: confirmed only by a reply
/// that is JSON.
pub open spec fn write_result(e: EventModel) -> Result<(), DeviceError> {
    match response_body(e) {
        Some(b) => if json_parses(b) {
            Ok(())
        } else {
            Err(DeviceError::Decode)
        },
        None => Err(DeviceError::Transport),
    }
}

/// Whether an event confirms a write.
pub open spec fn write_ok(e: EventModel) -> bool {
    write_result(e) is Ok
}

/// The status read by a power read answered by `e1` and, where the speaker is
/// powered on, a source read answered by `e2`.
pub open spec fn status_outcome(e1: EventModel, e2: EventModel) -> Result<SpeakerStatus, DeviceError> {
    match read_power(e1) {
        Ok(PowerState::PoweredOn) => match read_source(e2) {
            Ok(src) => Ok(status_of(PowerState::PoweredOn, src)),
            Err(err) => Err(err),
        },
        Ok(p) => Ok(status_of(p, None)),
        Err(err) => Err(err),
    }
}

/// The status handed to a waiter: the one read, or `Unknown` on failure.
pub open spec fn reported(res: Result<SpeakerStatus, DeviceError>) -> SpeakerStatus {
    match res {
        Ok(s) => s,
        Err(_) => unknown_status(),
    }
}

/// What follows a completed status read.
pub open spec fn finish_status(
    base: Seq<char>,
    queue: Seq<SpeakerCommand>,
    purpose: Purpose,
    res: Result<SpeakerStatus, DeviceError>,
) -> (ControllerModel, ActionModel) {
    match purpose {
        Purpose::Report(t) => (
            ControllerModel { phase: Phase::Idle, queue },
            ActionModel::Deliver(t, reported(res)),
        ),
        Purpose::Switch(src) => if res matches Ok(st) && st.power == PowerState::Standby {
            (
                ControllerModel { phase: Phase::PoweringOn(Some(src)), queue },
                ActionModel::Fetch(set_data(base, power_on_value())),
            )
        } else {
            (
                ControllerModel { phase: Phase::Writing(Write::Input(src)), queue },
                ActionModel::Fetch(set_data(base, wire(src))),
            )
        },
    }
}

/// One step of the command loop.
pub open spec fn transition(base: Seq<char>, m: ControllerModel, e: EventModel) -> (ControllerModel, ActionModel) {
    match m.phase {
        Phase::Idle => if e is Closed && m.queue.len() == 0 {
            (m, ActionModel::Stop)
        } else {
            begin_next(base, m.queue)
        },
        Phase::ReadingPower(p) => match read_power(e) {
            Ok(PowerState::PoweredOn) => (
                ControllerModel { phase: Phase::ReadingSource(p), queue: m.queue },
                ActionModel::Fetch(get_data(base, source_path())),
            ),
            Ok(pw) => finish_status(base, m.queue, p, Ok(status_of(pw, None))),
            Err(err) => finish_status(base, m.queue, p, Err(err)),
        },
        Phase::ReadingSource(p) => match read_source(e) {
            Ok(src) => finish_status(base, m.queue, p, Ok(status_of(PowerState::PoweredOn, src))),
            Err(err) => finish_status(base, m.queue, p, Err(err)),
        },
        Phase::PoweringOn(target) => match target {
            Some(src) => if write_ok(e) {
                (
                    ControllerModel { phase: Phase::Settling(src), queue: m.queue },
                    ActionModel::Pause(GRACE_MILLIS),
                )
            } else {
                (
                    ControllerModel { phase: Phase::Idle, queue: m.queue },
                    ActionModel::Report(Write::PowerOn, write_result(e)),
                )
            },
            None => (
                ControllerModel { phase: Phase::Idle, queue: m.queue },
                ActionModel::Report(Write::PowerOn, write_result(e)),
            ),
        },
        Phase::Settling(src) => (
            ControllerModel { phase: Phase::Writing(Write::Input(src)), queue: m.queue },
            ActionModel::Fetch(set_data(base, wire(src))),
        ),
        Phase::Writing(w) => (
            ControllerModel { phase: Phase::Idle, queue: m.queue },
            ActionModel::Report(w, write_result(e)),
        ),
    }
}

/// Whether a phase belongs to the servicing of a command.
pub open spec fn serves(phase: Phase, cmd: SpeakerCommand) -> bool {
    match phase {
        Phase::Idle => true,
        Phase::ReadingPower(Purpose::Report(t)) => cmd == SpeakerCommand::GetStatus(t),
        Phase::ReadingSource(Purpose::Report(t)) => cmd == SpeakerCommand::GetStatus(t),
        Phase::ReadingPower(Purpose::Switch(s)) => cmd == SpeakerCommand::SetInput(s),
        Phase::ReadingSource(Purpose::Switch(s)) => cmd == SpeakerCommand::SetInput(s),
        Phase::PoweringOn(Some(s)) => cmd == SpeakerCommand::SetInput(s),
        Phase::PoweringOn(None) => cmd == SpeakerCommand::PowerOn,
        Phase::Settling(s) => cmd == SpeakerCommand::SetInput(s),
        Phase::Writing(Write::Input(s)) => cmd == SpeakerCommand::SetInput(s),
        Phase::Writing(Write::PowerOff) => cmd == SpeakerCommand::PowerOff,
        Phase::Writing(Write::PowerOn) => cmd == SpeakerCommand::PowerOn,
    }
}

/// The single consumer of the speaker's commands: it services one command
/// fully before it takes up the next, in the order they were submitted.
pub struct SpeakerController {
    info: SpeakerInfo,
    phase: Phase,
    queue: Vec<SpeakerCommand>,
    submitted: Ghost<Seq<SpeakerCommand>>,
    started: Ghost<Seq<SpeakerCommand>>,
}

impl SpeakerController {
    pub closed spec fn model(&self) -> ControllerModel {
        ControllerModel { phase: self.phase, queue: self.queue@ }
    }

    /// The speaker this controller is bound to.
    pub closed spec fn identity(&self) -> SpeakerInfoModel {
        self.info@
    }

    pub open spec fn base(&self) -> Seq<char> {
        self.identity().base_url
    }

    /// Every command submitted so far, in order.
    pub closed spec fn submitted(&self) -> Seq<SpeakerCommand> {
        self.submitted@
    }

    /// Every command taken up so far, in order.
    pub closed spec fn started(&self) -> Seq<SpeakerCommand> {
        self.started@
    }

    pub closed spec fn wf(&self) -> bool {
        &&& self.submitted@ == self.started@ + self.queue@
        &&& self.phase != Phase::Idle ==> self.started@.len() > 0 && serves(
            self.phase,
            self.started@.last(),
        )
    }

    /// A controller bound to one discovered speaker, with nothing to do yet.
    pub fn new(info: SpeakerInfo) -> (r: SpeakerController)
        ensures
            r.wf(),
            r.model() == (ControllerModel { phase: Phase::Idle, queue: Seq::empty() }),
            r.identity() == info@,
            r.submitted() == Seq::<SpeakerCommand>::empty(),
            r.started() == Seq::<SpeakerCommand>::empty(),
    {
        let r = SpeakerController {
            info,
            phase: Phase::Idle,
            queue: Vec::new(),
            submitted: Ghost(Seq::empty()),
            started: Ghost(Seq::empty()),
        };
        assert(r.started@ + r.queue@ =~= Seq::<SpeakerCommand>::empty());
        r
    }

    /// The speaker that a finished scan binds to: the first event that
    /// describes one. A scan that saw no such event yields `None`, never a
    /// partly filled speaker.
    pub fn discover_speaker(events: &Vec<ScanEvent>) -> (r: Option<SpeakerInfo>)
        ensures
            r matches Some(i) ==> first_match(events@) == Some(i@),
            r is None <==> first_match(events@) is None,
            r is None <==> forall|k: int| 0 <= k < events@.len() ==> event_match(#[trigger] events@[k]) is None,
    {
        let mut i: usize = 0;
        assert(events@.subrange(0, events@.len() as int) =~= events@);
        while i < events.len()
            invariant
                i <= events@.len(),
                first_match(events@) == first_match(events@.subrange(i as int, events@.len() as int)),
                forall|k: int| 0 <= k < i ==> event_match(#[trigger] events@[k]) is None,
            decreases events@.len() - i,
        {
            let rest = Ghost(events@.subrange(i as int, events@.len() as int));
            assert(rest@.drop_first() =~= events@.subrange(i + 1, events@.len() as int));
            assert(rest@[0] == events@[i as int]);
            match resolve_event(&events[i]) {
                Some(info) => {
                    return Some(info);
                },
                None => {},
            }
            i = i + 1;
        }
        assert(events@.subrange(i as int, events@.len() as int).len() == 0);
        None
    }

    /// The speaker this controller is bound to.
    pub fn info(&self) -> (r: &SpeakerInfo)
        ensures
            r@ == self.identity(),
    {
        &self.info
    }

    pub fn phase(&self) -> (r: Phase)
        ensures
            r == self.model().phase,
    {
        self.phase
    }

    /// The number of commands waiting behind the current one.
    pub fn pending(&self) -> (r: usize)
        ensures
            r == self.model().queue.len(),
    {
        self.queue.len()
    }

    /// Queues a command behind every command submitted before it.
    pub fn submit(&mut self, cmd: SpeakerCommand)
        requires
            old(self).wf(),
        ensures
            final(self).wf(),
            final(self).model() == (ControllerModel {
                phase: old(self).model().phase,
                queue: old(self).model().queue.push(cmd),
            }),
            final(self).identity() == old(self).identity(),
            final(self).submitted() == old(self).submitted().push(cmd),
            final(self).started() == old(self).started(),
    {
        self.queue.push(cmd);
        self.submitted = Ghost(self.submitted@.push(cmd));
        assert(self.submitted@ =~= self.started@ + self.queue@);
    }

    fn start(&mut self, cmd: SpeakerCommand) -> (r: Action)
        requires
            old(self).submitted@ == old(self).started@.push(cmd) + old(self).queue@,
        ensures
            final(self).wf(),
            (final(self).phase, r@) == start(old(self).base(), cmd),
            final(self).queue@ == old(self).queue@,
            final(self).info == old(self).info,
            final(self).submitted@ == old(self).submitted@,
            final(self).started@ == old(self).started@.push(cmd),
    {
        self.started = Ghost(self.started@.push(cmd));
        let base = self.info.base_url.as_str();
        match cmd {
            SpeakerCommand::SetInput(s) => {
                self.phase = Phase::ReadingPower(Purpose::Switch(s));
                Action::Fetch(status_request(base))
            },
            SpeakerCommand::GetStatus(t) => {
                self.phase = Phase::ReadingPower(Purpose::Report(t));
                Action::Fetch(status_request(base))
            },
            SpeakerCommand::PowerOn => {
                self.phase = Phase::PoweringOn(None);
                Action::Fetch(power_request(base, true))
            },
            SpeakerCommand::PowerOff => {
                self.phase = Phase::Writing(Write::PowerOff);
                Action::Fetch(power_request(base, false))
            },
        }
    }

    fn begin_next(&mut self) -> (r: Action)
        requires
            old(self).submitted@ == old(self).started@ + old(self).queue@,
        ensures
            final(self).wf(),
            (final(self).model(), r@) == begin_next(old(self).base(), old(self).queue@),
            final(self).info == old(self).info,
            final(self).submitted@ == old(self).submitted@,
            final(self).started@ == old(self).started@ || (old(self).queue@.len() > 0
                && final(self).started@ == old(self).started@.push(old(self).queue@[0])),
    {
        if self.queue.len() == 0 {
            self.phase = Phase::Idle;
            Action::Wait
        } else {
            let cmd = self.queue.remove(0);
            assert(old(self).queue@ == seq![cmd] + self.queue@);
            assert(self.submitted@ =~= self.started@.push(cmd) + self.queue@);
            let r = self.start(cmd);
            assert(self.queue@ =~= old(self).queue@.drop_first());
            r
        }
    }

    fn finish_status(&mut self, purpose: Purpose, res: Result<SpeakerStatus, DeviceError>) -> (r: Action)
        requires
            old(self).wf(),
            old(self).phase is ReadingPower || old(self).phase is ReadingSource,
            old(self).phase matches Phase::ReadingPower(p) ==> p == purpose,
            old(self).phase matches Phase::ReadingSource(p) ==> p == purpose,
        ensures
            final(self).wf(),
            (final(self).model(), r@) == finish_status(old(self).base(), old(self).queue@, purpose, res),
            final(self).info == old(self).info,
            final(self).submitted@ == old(self).submitted@,
            final(self).started@ == old(self).started@,
    {
        let base = self.info.base_url.as_str();
        match purpose {
            Purpose::Report(t) => {
                self.phase = Phase::Idle;
                let status = match res {
                    Ok(s) => s,
                    Err(_) => SpeakerStatus::unknown(),
                };
                Action::Deliver(t, status)
            },
            Purpose::Switch(src) => {
                let standby = match res {
                    Ok(st) => match st.power {
                        PowerState::Standby => true,
                        _ => false,
                    },
                    Err(_) => false,
                };
                if standby {
                    self.phase = Phase::PoweringOn(Some(src));
                    Action::Fetch(power_request(base, true))
                } else {
                    self.phase = Phase::Writing(Write::Input(src));
                    Action::Fetch(input_request(base, src))
                }
            },
        }
    }

    /// The outcome of a write that `event` answers.
    fn write_outcome(event: &Event) -> (r: Result<(), DeviceError>)
        ensures
            r == write_result(event@),
    {
        match event {
            Event::Response(Some(body)) => check_write_reply(body.as_slice()),
            _ => Err(DeviceError::Transport),
        }
    }

    /// Advances the command loop by one event and says what to do next.
    pub fn step(&mut self, event: Event) -> (r: Action)
        requires
            old(self).wf(),
        ensures
            final(self).wf(),
            (final(self).model(), r@) == transition(old(self).base(), old(self).model(), event@),
            final(self).identity() == old(self).identity(),
            final(self).submitted() == old(self).submitted(),
            final(self).started() == old(self).started() || (old(self).model().queue.len() > 0
                && final(self).started() == old(self).started().push(old(self).model().queue[0])),
    {
        let base = self.info.base_url.as_str();
        match self.phase {
            Phase::Idle => {
                if matches!(event, Event::Closed) && self.queue.len() == 0 {
                    Action::Stop
                } else {
                    self.begin_next()
                }
            },
            Phase::ReadingPower(p) => {
                let power = match &event {
                    Event::Response(Some(body)) => decode_power(body.as_slice()),
                    _ => Err(DeviceError::Transport),
                };
                match power {
                    Ok(PowerState::PoweredOn) => {
                        self.phase = Phase::ReadingSource(p);
                        Action::Fetch(source_request(base))
                    },
                    Ok(pw) => {
                        let status = SpeakerStatus::new(pw, None);
                        self.finish_status(p, Ok(status))
                    },
                    Err(err) => self.finish_status(p, Err(err)),
                }
            },
            Phase::ReadingSource(p) => {
                let source = match &event {
                    Event::Response(Some(body)) => decode_source(body.as_slice()),
                    _ => Err(DeviceError::Transport),
                };
                match source {
                    Ok(src) => {
                        let status = SpeakerStatus::new(PowerState::PoweredOn, src);
                        self.finish_status(p, Ok(status))
                    },
                    Err(err) => self.finish_status(p, Err(err)),
                }
            },
            Phase::PoweringOn(target) => {
                let result = Self::write_outcome(&event);
                match target {
                    Some(src) => {
                        if result.is_ok() {
                            self.phase = Phase::Settling(src);
                            Action::Pause(GRACE_MILLIS)
                        } else {
                            self.phase = Phase::Idle;
                            Action::Report(Write::PowerOn, result)
                        }
                    },
                    None => {
                        self.phase = Phase::Idle;
                        Action::Report(Write::PowerOn, result)
                    },
                }
            },
            Phase::Settling(src) => {
                self.phase = Phase::Writing(Write::Input(src));
                Action::Fetch(input_request(base, src))
            },
            Phase::Writing(w) => {
                self.phase = Phase::Idle;
                Action::Report(w, Self::write_outcome(&event))
            },
        }
    }
}

/// The state reached and the actions asked for when the controller takes
/// `events` one after another from state `m`.
pub open spec fn run(base: Seq<char>, m: ControllerModel, events: Seq<EventModel>) -> (ControllerModel, Seq<ActionModel>)
    decreases events.len(),
{
    if events.len() == 0 {
        (m, Seq::empty())
    } else {
        let (m1, a) = transition(base, m, events[0]);
        let (m2, rest) = run(base, m1, events.drop_first());
        (m2, seq![a] + rest)
    }
}

pub open spec fn delivered(a: ActionModel) -> Seq<(u64, SpeakerStatus)> {
    match a {
        ActionModel::Deliver(t, s) => seq![(t, s)],
        _ => Seq::empty(),
    }
}

/// The statuses handed to waiters among `actions`, in order.
pub open spec fn deliveries(actions: Seq<ActionModel>) -> Seq<(u64, SpeakerStatus)>
    decreases actions.len(),
{
    if actions.len() == 0 {
        Seq::empty()
    } else {
        let rest = deliveries(actions.drop_first());
        delivered(actions[0]) + rest
    }
}

proof fn lemma_run_three(base: Seq<char>, m: ControllerModel, e0: EventModel, e1: EventModel, e2: EventModel)
    ensures
        ({
            let (m1, a0) = transition(base, m, e0);
            let (m2, a1) = transition(base, m1, e1);
            let (m3, a2) = transition(base, m2, e2);
            run(base, m, seq![e0, e1, e2]) == (m3, seq![a0, a1, a2])
        }),
{
    let (m1, a0) = transition(base, m, e0);
    let (m2, a1) = transition(base, m1, e1);
    let (m3, a2) = transition(base, m2, e2);
    let s0 = seq![e0, e1, e2];
    let s1 = seq![e1, e2];
    let s2 = seq![e2];
    let s3 = Seq::<EventModel>::empty();
    assert(s0.drop_first() =~= s1);
    assert(s1.drop_first() =~= s2);
    assert(s2.drop_first() =~= s3);
    assert(run(base, m3, s3) == (m3, Seq::<ActionModel>::empty()));
    assert(run(base, m2, s2) == (m3, seq![a2] + Seq::<ActionModel>::empty()));
    assert(seq![a2] + Seq::<ActionModel>::empty() =~= seq![a2]);
    assert(run(base, m1, s1) == (m3, seq![a1] + seq![a2]));
    assert(seq![a1] + seq![a2] =~= seq![a1, a2]);
    assert(run(base, m, s0) == (m3, seq![a0] + seq![a1, a2]));
    assert(seq![a0] + seq![a1, a2] =~= seq![a0, a1, a2]);
}

proof fn lemma_deliveries_three(a0: ActionModel, a1: ActionModel, a2: ActionModel)
    ensures
        deliveries(seq![a0, a1, a2]) == delivered(a0) + delivered(a1) + delivered(a2),
{
    let s0 = seq![a0, a1, a2];
    let s1 = seq![a1, a2];
    let s2 = seq![a2];
    let s3 = Seq::<ActionModel>::empty();
    assert(s0.drop_first() =~= s1);
    assert(s1.drop_first() =~= s2);
    assert(s2.drop_first() =~= s3);
    assert(deliveries(s3) == Seq::<(u64, SpeakerStatus)>::empty());
    assert(deliveries(s2) =~= delivered(a2));
    assert(deliveries(s1) =~= delivered(a1) + delivered(a2));
    assert(deliveries(s0) =~= delivered(a0) + delivered(a1) + delivered(a2));
}

/// Commands are taken up strictly in the order they were submitted: those
/// taken up so far, followed by those still waiting, are exactly those
/// submitted. At most one is being serviced, and it is the last one taken up.
pub proof fn lemma_commands_in_submission_order(c: &SpeakerController)
    requires
        c.wf(),
    ensures
        c.started() + c.model().queue == c.submitted(),
        c.started().len() <= c.submitted().len(),
        c.started() == c.submitted().subrange(0, c.started().len() as int),
        c.model().phase != Phase::Idle ==> c.started().len() > 0 && serves(
            c.model().phase,
            c.started().last(),
        ),
{
    assert(c.submitted().subrange(0, c.started().len() as int) =~= c.started());
}

/// A status request yields exactly one reply, to its own ticket, whatever
/// the device answers, and even when every exchange fails: the status read,
/// or `Unknown` with no source.
pub proof fn lemma_status_request_answered_once(
    base: Seq<char>,
    rest: Seq<SpeakerCommand>,
    t: u64,
    e1: EventModel,
    e2: EventModel,
)
    ensures
        ({
            let m = ControllerModel { phase: Phase::Idle, queue: seq![SpeakerCommand::GetStatus(t)] + rest };
            deliveries(run(base, m, seq![EventModel::Done, e1, e2]).1) == seq![
                (t, reported(status_outcome(e1, e2))),
            ]
        }),
        reported(status_outcome(e1, e2)).wf(),
        status_outcome(e1, e2) is Err ==> reported(status_outcome(e1, e2)) == unknown_status(),
{
    let m = ControllerModel { phase: Phase::Idle, queue: seq![SpeakerCommand::GetStatus(t)] + rest };
    assert((seq![SpeakerCommand::GetStatus(t)] + rest)[0] == SpeakerCommand::GetStatus(t));
    lemma_run_three(base, m, EventModel::Done, e1, e2);
    let (m1, a0) = transition(base, m, EventModel::Done);
    let (m2, a1) = transition(base, m1, e1);
    let (m3, a2) = transition(base, m2, e2);
    lemma_deliveries_three(a0, a1, a2);
    assert(deliveries(seq![a0, a1, a2]) =~= seq![(t, reported(status_outcome(e1, e2)))]);
}

/// Selecting an input while the speaker is in standby takes, in order: one
/// status read, one wake-up write, a pause, and only then the write that
/// selects the input.
pub proof fn lemma_switch_wakes_standby_speaker(
    base: Seq<char>,
    rest: Seq<SpeakerCommand>,
    src: InputSource,
    b1: Seq<u8>,
    b2: Seq<u8>,
)
    requires
        power_outcome(b1) == Ok::<PowerState, DeviceError>(PowerState::Standby),
        json_parses(b2),
    ensures
        ({
            let m = ControllerModel { phase: Phase::Idle, queue: seq![SpeakerCommand::SetInput(src)] + rest };
            let events = seq![
                EventModel::Done,
                EventModel::Response(Some(b1)),
                EventModel::Response(Some(b2)),
                EventModel::Done,
            ];
            run(base, m, events) == (
                ControllerModel { phase: Phase::Writing(Write::Input(src)), queue: rest },
                seq![
                    ActionModel::Fetch(get_data(base, status_path())),
                    ActionModel::Fetch(set_data(base, power_on_value())),
                    ActionModel::Pause(GRACE_MILLIS),
                    ActionModel::Fetch(set_data(base, wire(src))),
                ],
            )
        }),
{
    let q = seq![SpeakerCommand::SetInput(src)] + rest;
    let m = ControllerModel { phase: Phase::Idle, queue: q };
    assert(q[0] == SpeakerCommand::SetInput(src));
    assert(q.drop_first() =~= rest);
    let e0 = EventModel::Done;
    let e1 = EventModel::Response(Some(b1));
    let e2 = EventModel::Response(Some(b2));
    let e3 = EventModel::Done;
    let events = seq![e0, e1, e2, e3];
    let (m1, a0) = transition(base, m, e0);
    let (m2, a1) = transition(base, m1, e1);
    let (m3, a2) = transition(base, m2, e2);
    let (m4, a3) = transition(base, m3, e3);
    assert(events.drop_first() =~= seq![e1, e2, e3]);
    lemma_run_three(base, m1, e1, e2, e3);
    assert(run(base, m, events).1 =~= seq![a0, a1, a2, a3]);
}

/// When the wake-up write before an input switch fails, the switch is
/// abandoned: no input is written, the failure is reported, and the
/// controller is free for the next command.
pub proof fn lemma_switch_abandoned_when_wake_fails(
    base: Seq<char>,
    rest: Seq<SpeakerCommand>,
    src: InputSource,
    b1: Seq<u8>,
    e2: EventModel,
)
    requires
        power_outcome(b1) == Ok::<PowerState, DeviceError>(PowerState::Standby),
        !write_ok(e2),
    ensures
        ({
            let m = ControllerModel { phase: Phase::Idle, queue: seq![SpeakerCommand::SetInput(src)] + rest };
            run(base, m, seq![EventModel::Done, EventModel::Response(Some(b1)), e2]) == (
                ControllerModel { phase: Phase::Idle, queue: rest },
                seq![
                    ActionModel::Fetch(get_data(base, status_path())),
                    ActionModel::Fetch(set_data(base, power_on_value())),
                    ActionModel::Report(Write::PowerOn, write_result(e2)),
                ],
            )
        }),
{
    let q = seq![SpeakerCommand::SetInput(src)] + rest;
    let m = ControllerModel { phase: Phase::Idle, queue: q };
    assert(q[0] == SpeakerCommand::SetInput(src));
    assert(q.drop_first() =~= rest);
    lemma_run_three(base, m, EventModel::Done, EventModel::Response(Some(b1)), e2);
}

/// Putting the speaker in standby is one write, with no status read before
/// it, and its outcome is reported: confirmed exactly when the reply came
/// back as JSON, a transport or decode failure otherwise.
pub proof fn lemma_power_off_reported(base: Seq<char>, rest: Seq<SpeakerCommand>, e1: EventModel)
    ensures
        ({
            let m = ControllerModel { phase: Phase::Idle, queue: seq![SpeakerCommand::PowerOff] + rest };
            run(base, m, seq![EventModel::Done, e1, EventModel::Done]) == (
                begin_next(base, rest).0,
                seq![
                    ActionModel::Fetch(set_data(base, standby_value())),
                    ActionModel::Report(Write::PowerOff, write_result(e1)),
                    begin_next(base, rest).1,
                ],
            )
        }),
        write_result(e1) is Ok <==> (response_body(e1) matches Some(b) && json_parses(b)),
{
    let q = seq![SpeakerCommand::PowerOff] + rest;
    let m = ControllerModel { phase: Phase::Idle, queue: q };
    assert(q[0] == SpeakerCommand::PowerOff);
    assert(q.drop_first() =~= rest);
    lemma_run_three(base, m, EventModel::Done, e1, EventModel::Done);
}

/// A status that reports standby carries no source, whatever the source read
/// would have said.
pub proof fn lemma_standby_status_has_no_source(e1: EventModel, e2: EventModel)
    ensures
        reported(status_outcome(e1, e2)).wf(),
        reported(status_outcome(e1, e2)).power == PowerState::Standby ==> reported(
            status_outcome(e1, e2),
        ).source is None,
{
}

} // verus!
