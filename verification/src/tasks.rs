//! The task interface, the registry of task slots, and the cooperative
//! scheduler that drives them.

use vstd::prelude::*;

use crate::bsp::Bsp;
use crate::bsp::BspView;
use crate::channel::send_spec;
use crate::channel::Bus;
use crate::channel::Sender;
use crate::errors::ConfigError;
use crate::metrics::record_spec;
use crate::metrics::Metrics;
use crate::metrics::MetricsView;
use crate::msg::Msg;
use crate::stack::StackMonitor;
use crate::timebase::Clock;

verus! {

/// How many task slots the registry holds.
pub const MAX_TASKS: usize = 10;

/// The immutable descriptor of a task: a fixed-width name label, the
/// minimum spacing between invocations (always positive), and the
/// advisory time and stack budgets.
#[derive(Copy, Clone, Debug)]
pub struct TaskInfo {
    /// Fixed-width name label.
    pub name: [u8; 8],
    /// Minimum microseconds between two invocations; always positive.
    pub run_every_us: u32,
    /// Advisory ceiling on one invocation's duration, in microseconds.
    pub time_budget_us: u32,
    /// Advisory ceiling on one invocation's stack growth, in bytes.
    pub mem_budget_bytes: u32,
}

/// The chat task.
#[derive(Copy, Clone, Debug)]
pub struct ChatTask {}

/// The crypto task.
#[derive(Copy, Clone, Debug)]
pub struct CryptoTask {}

/// The keyboard task.
#[derive(Copy, Clone, Debug)]
pub struct KeyboardTask {}

/// The radio-link task.
#[derive(Copy, Clone, Debug)]
pub struct LinkTask {}

/// The render task.
#[derive(Copy, Clone, Debug)]
pub struct RenderTask {}

/// The text-edit task.
#[derive(Copy, Clone, Debug)]
pub struct TextEditTask {}

/// The button task.
#[derive(Copy, Clone, Debug)]
pub struct ButtonTask {}

/// The Fibonacci benchmark task, registered only by test harnesses.
#[derive(Copy, Clone, Debug)]
pub struct FibTask {}

/// The closed set of task kinds the registry can hold.
#[derive(Copy, Clone, Debug)]
pub enum TaskKind {
    Chat(ChatTask),
    Crypto(CryptoTask),
    Keyboard(KeyboardTask),
    Metrics(crate::metrics_task::MetricsTask),
    Link(LinkTask),
    Render(RenderTask),
    TextEdit(TextEditTask),
    Button(ButtonTask),
    Fib(FibTask),
}

/// The name label of each task kind, eight bytes wide.
pub open spec fn name_of(k: TaskKind) -> Seq<u8> {
    match k {
        TaskKind::Chat(_) => seq![67u8, 104u8, 97u8, 116u8, 95u8, 95u8, 95u8, 95u8],
        TaskKind::Crypto(_) => seq![67u8, 114u8, 121u8, 112u8, 116u8, 111u8, 95u8, 95u8],
        TaskKind::Keyboard(_) => seq![75u8, 101u8, 121u8, 98u8, 111u8, 97u8, 114u8, 100u8],
        TaskKind::Metrics(_) => seq![77u8, 101u8, 116u8, 114u8, 105u8, 99u8, 115u8, 95u8],
        TaskKind::Link(_) => seq![78u8, 101u8, 116u8, 76u8, 105u8, 110u8, 107u8, 95u8],
        TaskKind::Render(_) => seq![82u8, 101u8, 110u8, 100u8, 101u8, 114u8, 95u8, 95u8],
        TaskKind::TextEdit(_) => seq![84u8, 101u8, 120u8, 116u8, 69u8, 100u8, 105u8, 116u8],
        TaskKind::Button(_) => seq![66u8, 117u8, 116u8, 116u8, 111u8, 110u8, 115u8, 95u8],
        TaskKind::Fib(_) => seq![70u8, 105u8, 98u8, 95u8, 95u8, 95u8, 95u8, 95u8],
    }
}

/// The minimum spacing between two invocations of each task kind.
pub open spec fn run_every_of(k: TaskKind) -> u32 {
    match k {
        TaskKind::Chat(_) => 100,
        TaskKind::Crypto(_) => 300,
        TaskKind::Keyboard(_) => 10_000,
        TaskKind::Metrics(_) => 5_000_000,
        TaskKind::Link(_) => 20_000,
        TaskKind::Render(_) => 50_000,
        TaskKind::TextEdit(_) => 10_000,
        TaskKind::Button(_) => 1_000,
        TaskKind::Fib(_) => 1_000_000,
    }
}

/// The advisory time budget of each task kind, in microseconds.
pub open spec fn time_budget_of(k: TaskKind) -> u32 {
    match k {
        TaskKind::Chat(_) => 1_000,
        TaskKind::Crypto(_) => 10_000,
        TaskKind::Keyboard(_) => 1_000,
        TaskKind::Metrics(_) => 2_000_000,
        TaskKind::Link(_) => 1_000,
        TaskKind::Render(_) => 10_000,
        TaskKind::TextEdit(_) => 1_000,
        TaskKind::Button(_) => 100,
        TaskKind::Fib(_) => 2_000_000,
    }
}

/// The advisory stack budget of each task kind, in bytes.
pub open spec fn mem_budget_of(k: TaskKind) -> u32 {
    match k {
        TaskKind::Fib(_) => 4_000,
        _ => 500,
    }
}

/// A descriptor carries exactly the static values of kind `k`.
pub open spec fn info_matches(info: TaskInfo, k: TaskKind) -> bool {
    &&& info.name@ == name_of(k)
    &&& info.run_every_us == run_every_of(k)
    &&& info.time_budget_us == time_budget_of(k)
    &&& info.mem_budget_bytes == mem_budget_of(k)
}

/// Every task kind's descriptor has a positive invocation spacing.
pub proof fn lemma_info_positive(k: TaskKind)
    ensures
        run_every_of(k) > 0,
{
}

impl TaskKind {
    /// The task's static descriptor; the same on every call.
    pub fn info(&self) -> (r: TaskInfo)
        ensures
            info_matches(r, *self),
    {
        match self {
            TaskKind::Chat(_) => TaskInfo {
                name: [67u8, 104u8, 97u8, 116u8, 95u8, 95u8, 95u8, 95u8],
                run_every_us: 100,
                time_budget_us: 1_000,
                mem_budget_bytes: 500,
            },
            TaskKind::Crypto(_) => TaskInfo {
                name: [67u8, 114u8, 121u8, 112u8, 116u8, 111u8, 95u8, 95u8],
                run_every_us: 300,
                time_budget_us: 10_000,
                mem_budget_bytes: 500,
            },
            TaskKind::Keyboard(_) => TaskInfo {
                name: [75u8, 101u8, 121u8, 98u8, 111u8, 97u8, 114u8, 100u8],
                run_every_us: 10_000,
                time_budget_us: 1_000,
                mem_budget_bytes: 500,
            },
            TaskKind::Metrics(_) => TaskInfo {
                name: [77u8, 101u8, 116u8, 114u8, 105u8, 99u8, 115u8, 95u8],
                run_every_us: 5_000_000,
                time_budget_us: 2_000_000,
                mem_budget_bytes: 500,
            },
            TaskKind::Link(_) => TaskInfo {
                name: [78u8, 101u8, 116u8, 76u8, 105u8, 110u8, 107u8, 95u8],
                run_every_us: 20_000,
                time_budget_us: 1_000,
                mem_budget_bytes: 500,
            },
            TaskKind::Render(_) => TaskInfo {
                name: [82u8, 101u8, 110u8, 100u8, 101u8, 114u8, 95u8, 95u8],
                run_every_us: 50_000,
                time_budget_us: 10_000,
                mem_budget_bytes: 500,
            },
            TaskKind::TextEdit(_) => TaskInfo {
                name: [84u8, 101u8, 120u8, 116u8, 69u8, 100u8, 105u8, 116u8],
                run_every_us: 10_000,
                time_budget_us: 1_000,
                mem_budget_bytes: 500,
            },
            TaskKind::Button(_) => TaskInfo {
                name: [66u8, 117u8, 116u8, 116u8, 111u8, 110u8, 115u8, 95u8],
                run_every_us: 1_000,
                time_budget_us: 100,
                mem_budget_bytes: 500,
            },
            TaskKind::Fib(_) => TaskInfo {
                name: [70u8, 105u8, 98u8, 95u8, 95u8, 95u8, 95u8, 95u8],
                run_every_us: 1_000_000,
                time_budget_us: 2_000_000,
                mem_budget_bytes: 4_000,
            },
        }
    }
}


/// Persistent state of the text-edit task: the line being edited.
pub struct TextEditData {
    /// The characters typed so far.
    pub buffer: Vec<char>,
}

/// Persistent state of the chat task.
pub struct ChatData {
    /// Whether chat last saw the push-to-talk button pressed.
    pub ptt: bool,
}

/// Persistent state of the radio-link task.
pub struct LinkData {
    /// Whether the link last saw the push-to-talk button pressed.
    pub ptt: bool,
}

/// How many scratch bytes [`TaskData`] carries.
pub const JUNK_LEN: usize = 4;

/// What the shared task state looks like in specifications.
pub struct TaskDataView {
    /// The text-edit line.
    pub text_edit: Seq<char>,
    /// Chat's view of the push-to-talk button.
    pub chat_ptt: bool,
    /// The link's view of the push-to-talk button.
    pub link_ptt: bool,
    /// The button task's last observed button state.
    pub button_last: bool,
    /// Scratch bytes.
    pub junk: Seq<u8>,
}

/// The single shared structure of per-task persistent state, exclusively
/// owned by the scheduler; only the currently executing task's field (or
/// the dispatch loop on its behalf) touches a field.
pub struct TaskData {
    /// Text-edit state.
    pub text_edit: TextEditData,
    /// Chat state.
    pub chat: ChatData,
    /// Radio-link state.
    pub link: LinkData,
    /// The button task's last observed button state.
    pub button_last: bool,
    /// Scratch bytes.
    pub junk_data: Vec<u8>,
}

impl View for TaskData {
    type V = TaskDataView;

    open spec fn view(&self) -> TaskDataView {
        TaskDataView {
            text_edit: self.text_edit.buffer@,
            chat_ptt: self.chat.ptt,
            link_ptt: self.link.ptt,
            button_last: self.button_last,
            junk: self.junk_data@,
        }
    }
}

impl TaskData {
    /// Fresh shared state: empty line, buttons released, zeroed scratch.
    pub fn new() -> (d: TaskData)
        ensures
            d@.text_edit == Seq::<char>::empty(),
            d@.chat_ptt == false,
            d@.link_ptt == false,
            d@.button_last == false,
            d@.junk == Seq::new(JUNK_LEN as nat, |i: int| 0u8),
    {
        let mut junk_data: Vec<u8> = Vec::new();
        let mut i: usize = 0;
        while i < JUNK_LEN
            invariant
                i <= JUNK_LEN,
                junk_data@.len() == i,
                forall|j: int| 0 <= j < i ==> #[trigger] junk_data@[j] == 0,
            decreases JUNK_LEN - i,
        {
            junk_data.push(0);
            i = i + 1;
        }
        proof {
            assert(junk_data@ =~= Seq::new(JUNK_LEN as nat, |i: int| 0u8));
        }
        TaskData {
            text_edit: TextEditData { buffer: Vec::new() },
            chat: ChatData { ptt: false },
            link: LinkData { ptt: false },
            button_last: false,
            junk_data,
        }
    }

    /// Write one scratch byte.
    pub fn set_junk(&mut self, i: usize, b: u8)
        requires
            i < old(self)@.junk.len(),
        ensures
            final(self)@ == (TaskDataView { junk: old(self)@.junk.update(i as int, b), ..old(
                self,
            )@ }),
    {
        self.junk_data[i] = b;
    }
}

/// The capability contract every task variant implements: a stateless
/// handler that runs to completion without blocking, plus a static
/// descriptor.
pub trait Task: Sized {
    /// The task's whole effect on the shared context in one invocation.
    spec fn step(
        &self,
        sender: Sender,
        q: Seq<Seq<Msg>>,
        b: BspView,
        d: TaskDataView,
        m: MetricsView,
    ) -> (Seq<Seq<Msg>>, BspView, TaskDataView, MetricsView);

    /// Execute once, with exclusive access to the shared context.  A task
    /// never returns an error; internally detected failure is reported by
    /// sending a message on the bus.
    fn run(
        &self,
        sender: &Sender,
        bus: &mut Bus,
        bsp: &mut Bsp,
        data: &mut TaskData,
        metrics: &mut Metrics,
    )
        requires
            old(bus).wf(),
            sender.wf(),
            old(metrics).wf(),
        ensures
            final(bus).wf(),
            final(metrics).wf(),
            final(bus).allocated_spec() == old(bus).allocated_spec(),
            (final(bus).channels(), final(bsp)@, final(data)@, final(metrics)@) == self.step(
                *sender,
                old(bus).channels(),
                old(bsp)@,
                old(data)@,
                old(metrics)@,
            ),
    ;
}

impl Task for ChatTask {
    open spec fn step(
        &self,
        sender: Sender,
        q: Seq<Seq<Msg>>,
        b: BspView,
        d: TaskDataView,
        m: MetricsView,
    ) -> (Seq<Seq<Msg>>, BspView, TaskDataView, MetricsView) {
        (q, b, d, m)
    }

    fn run(
        &self,
        sender: &Sender,
        bus: &mut Bus,
        bsp: &mut Bsp,
        data: &mut TaskData,
        metrics: &mut Metrics,
    ) {
    }
}

impl Task for CryptoTask {
    open spec fn step(
        &self,
        sender: Sender,
        q: Seq<Seq<Msg>>,
        b: BspView,
        d: TaskDataView,
        m: MetricsView,
    ) -> (Seq<Seq<Msg>>, BspView, TaskDataView, MetricsView) {
        (q, b, d, m)
    }

    fn run(
        &self,
        sender: &Sender,
        bus: &mut Bus,
        bsp: &mut Bsp,
        data: &mut TaskData,
        metrics: &mut Metrics,
    ) {
    }
}

impl Task for LinkTask {
    open spec fn step(
        &self,
        sender: Sender,
        q: Seq<Seq<Msg>>,
        b: BspView,
        d: TaskDataView,
        m: MetricsView,
    ) -> (Seq<Seq<Msg>>, BspView, TaskDataView, MetricsView) {
        (q, b, d, m)
    }

    fn run(
        &self,
        sender: &Sender,
        bus: &mut Bus,
        bsp: &mut Bsp,
        data: &mut TaskData,
        metrics: &mut Metrics,
    ) {
    }
}

impl Task for RenderTask {
    open spec fn step(
        &self,
        sender: Sender,
        q: Seq<Seq<Msg>>,
        b: BspView,
        d: TaskDataView,
        m: MetricsView,
    ) -> (Seq<Seq<Msg>>, BspView, TaskDataView, MetricsView) {
        (q, b, d, m)
    }

    fn run(
        &self,
        sender: &Sender,
        bus: &mut Bus,
        bsp: &mut Bsp,
        data: &mut TaskData,
        metrics: &mut Metrics,
    ) {
    }
}

impl Task for TextEditTask {
    open spec fn step(
        &self,
        sender: Sender,
        q: Seq<Seq<Msg>>,
        b: BspView,
        d: TaskDataView,
        m: MetricsView,
    ) -> (Seq<Seq<Msg>>, BspView, TaskDataView, MetricsView) {
        (q, b, d, m)
    }

    fn run(
        &self,
        sender: &Sender,
        bus: &mut Bus,
        bsp: &mut Bsp,
        data: &mut TaskData,
        metrics: &mut Metrics,
    ) {
    }
}

impl Task for FibTask {
    open spec fn step(
        &self,
        sender: Sender,
        q: Seq<Seq<Msg>>,
        b: BspView,
        d: TaskDataView,
        m: MetricsView,
    ) -> (Seq<Seq<Msg>>, BspView, TaskDataView, MetricsView) {
        (q, b, d, m)
    }

    fn run(
        &self,
        sender: &Sender,
        bus: &mut Bus,
        bsp: &mut Bsp,
        data: &mut TaskData,
        metrics: &mut Metrics,
    ) {
        let _ = crate::fib::fib(20);
    }
}

impl Task for KeyboardTask {
    open spec fn step(
        &self,
        sender: Sender,
        q: Seq<Seq<Msg>>,
        b: BspView,
        d: TaskDataView,
        m: MetricsView,
    ) -> (Seq<Seq<Msg>>, BspView, TaskDataView, MetricsView) {
        let b2 = BspView { key_in: None, ..b };
        match b.key_in {
            Some(k) => (send_spec(q, sender.ch_spec() as int, Msg::Keyboard { key: k }), b2, d, m),
            None => (q, b2, d, m),
        }
    }

    fn run(
        &self,
        sender: &Sender,
        bus: &mut Bus,
        bsp: &mut Bsp,
        data: &mut TaskData,
        metrics: &mut Metrics,
    ) {
        match bsp.take_key() {
            Some(k) => {
                sender.send(bus, Msg::Keyboard { key: k });
            },
            None => {},
        }
    }
}

impl Task for ButtonTask {
    open spec fn step(
        &self,
        sender: Sender,
        q: Seq<Seq<Msg>>,
        b: BspView,
        d: TaskDataView,
        m: MetricsView,
    ) -> (Seq<Seq<Msg>>, BspView, TaskDataView, MetricsView) {
        if b.ptt_pressed != d.button_last {
            (
                send_spec(q, sender.ch_spec() as int, Msg::PttButton(b.ptt_pressed)),
                b,
                TaskDataView { button_last: b.ptt_pressed, ..d },
                m,
            )
        } else {
            (q, b, d, m)
        }
    }

    fn run(
        &self,
        sender: &Sender,
        bus: &mut Bus,
        bsp: &mut Bsp,
        data: &mut TaskData,
        metrics: &mut Metrics,
    ) {
        let cur = bsp.ptt_pressed();
        if cur != data.button_last {
            sender.send(bus, Msg::PttButton(cur));
            data.button_last = cur;
        }
    }
}

/// The effect of one invocation of a task of kind `k`.
pub open spec fn kind_step(
    k: TaskKind,
    sender: Sender,
    q: Seq<Seq<Msg>>,
    b: BspView,
    d: TaskDataView,
    m: MetricsView,
) -> (Seq<Seq<Msg>>, BspView, TaskDataView, MetricsView) {
    match k {
        TaskKind::Chat(t) => t.step(sender, q, b, d, m),
        TaskKind::Crypto(t) => t.step(sender, q, b, d, m),
        TaskKind::Keyboard(t) => t.step(sender, q, b, d, m),
        TaskKind::Metrics(t) => t.step(sender, q, b, d, m),
        TaskKind::Link(t) => t.step(sender, q, b, d, m),
        TaskKind::Render(t) => t.step(sender, q, b, d, m),
        TaskKind::TextEdit(t) => t.step(sender, q, b, d, m),
        TaskKind::Button(t) => t.step(sender, q, b, d, m),
        TaskKind::Fib(t) => t.step(sender, q, b, d, m),
    }
}

impl TaskKind {
    /// Execute one invocation of the task kind held in the value.
    pub fn run(
        &self,
        sender: &Sender,
        bus: &mut Bus,
        bsp: &mut Bsp,
        data: &mut TaskData,
        metrics: &mut Metrics,
    )
        requires
            old(bus).wf(),
            sender.wf(),
            old(metrics).wf(),
        ensures
            final(bus).wf(),
            final(metrics).wf(),
            final(bus).allocated_spec() == old(bus).allocated_spec(),
            (final(bus).channels(), final(bsp)@, final(data)@, final(metrics)@) == kind_step(
                *self,
                *sender,
                old(bus).channels(),
                old(bsp)@,
                old(data)@,
                old(metrics)@,
            ),
    {
        match self {
            TaskKind::Chat(t) => t.run(sender, bus, bsp, data, metrics),
            TaskKind::Crypto(t) => t.run(sender, bus, bsp, data, metrics),
            TaskKind::Keyboard(t) => t.run(sender, bus, bsp, data, metrics),
            TaskKind::Metrics(t) => t.run(sender, bus, bsp, data, metrics),
            TaskKind::Link(t) => t.run(sender, bus, bsp, data, metrics),
            TaskKind::Render(t) => t.run(sender, bus, bsp, data, metrics),
            TaskKind::TextEdit(t) => t.run(sender, bus, bsp, data, metrics),
            TaskKind::Button(t) => t.run(sender, bus, bsp, data, metrics),
            TaskKind::Fib(t) => t.run(sender, bus, bsp, data, metrics),
        }
    }
}

/// One registry entry: a task, its descriptor, and when it last ran.
#[derive(Copy, Clone, Debug)]
pub struct TaskSlot {
    /// The task in this slot.
    pub kind: TaskKind,
    /// The task's static descriptor.
    pub info: TaskInfo,
    /// The clock reading at which the slot's task last ran.
    pub last_run: u64,
}

/// The whole scheduler state a tick works on, at the spec level.
pub struct TickState {
    /// The registry slots.
    pub slots: Seq<TaskSlot>,
    /// The bus channel contents.
    pub q: Seq<Seq<Msg>>,
    /// The board state.
    pub b: BspView,
    /// The shared task state.
    pub d: TaskDataView,
    /// The metrics counters.
    pub m: MetricsView,
    /// The slot indices of every task invocation so far, in order.
    pub log: Seq<int>,
}

/// One scheduler tick, from slot `i` on: every slot whose elapsed time
/// since `last_run` has reached its spacing is invoked, in registration
/// order; after each invocation the slot's metrics take the observed
/// duration (the model clock stands still inside a tick, so zero) and the
/// stack probe's reading `su`, and its `last_run` becomes `now`.
pub open spec fn tick_from(s: TickState, now: u64, sender: Sender, su: usize, i: int) -> TickState
    decreases s.slots.len() - i,
{
    if i < 0 || i >= s.slots.len() {
        s
    } else {
        let slot = s.slots[i];
        if now - slot.last_run >= slot.info.run_every_us {
            let stepped = kind_step(slot.kind, sender, s.q, s.b, s.d, s.m);
            let s2 = TickState {
                slots: s.slots.update(i, TaskSlot { last_run: now, ..slot }),
                q: stepped.0,
                b: stepped.1,
                d: stepped.2,
                m: record_spec(stepped.3, i, 0, su),
                log: s.log.push(i),
            };
            tick_from(s2, now, sender, su, i + 1)
        } else {
            tick_from(s, now, sender, su, i + 1)
        }
    }
}

/// The registry and scheduler: owns the bounded list of registered tasks
/// plus the shared mutable context, and drives the cooperative tick.
pub struct TaskMgr {
    /// The registered task slots, in registration order.
    pub tasks: Vec<TaskSlot>,
    /// The bus handle tasks send events through.
    pub sender: Sender,
    /// The board capability set.
    pub bsp: Bsp,
    /// The shared per-task state.
    pub data: TaskData,
    /// The per-slot counters.
    pub metrics: Metrics,
    /// The scheduler's time source.
    pub clock: Clock,
    /// The stack probe's latest reading.
    pub stack: StackMonitor,
    /// The slot indices of every task invocation so far, in order.
    pub run_log: Ghost<Seq<int>>,
}

impl TaskMgr {
    /// The registered task slots, in registration order.
    pub open spec fn slots(&self) -> Seq<TaskSlot> {
        self.tasks@
    }

    /// The slot indices of every task invocation so far, in order.
    pub open spec fn log(&self) -> Seq<int> {
        self.run_log@
    }

    /// The registry never exceeds its capacity, every slot's descriptor is
    /// its kind's, no slot's `last_run` lies in the future, and the parts
    /// are well formed.
    pub open spec fn wf(&self) -> bool {
        &&& self.slots().len() <= MAX_TASKS
        &&& forall|i: int|
            0 <= i < self.slots().len() ==> info_matches(
                (#[trigger] self.slots()[i]).info,
                self.slots()[i].kind,
            )
        &&& forall|i: int|
            0 <= i < self.slots().len() ==> (#[trigger] self.slots()[i]).last_run
                <= self.clock.now_spec()
        &&& self.metrics.wf()
        &&& self.sender.wf()
    }

    /// Whether slot `i` is due at the current clock reading.
    pub open spec fn due(&self, i: int) -> bool {
        self.clock.now_spec() - self.slots()[i].last_run >= self.slots()[i].info.run_every_us
    }

    /// This scheduler's state as one tick-level value, next to the bus
    /// channel contents `q`.
    pub open spec fn state(&self, q: Seq<Seq<Msg>>) -> TickState {
        TickState {
            slots: self.slots(),
            q,
            b: self.bsp@,
            d: self.data@,
            m: self.metrics@,
            log: self.log(),
        }
    }

    /// A scheduler with no tasks registered, its clock at zero.
    pub fn new(sender: Sender, bsp: Bsp, data: TaskData, metrics: Metrics) -> (mgr: TaskMgr)
        requires
            sender.wf(),
            metrics.wf(),
        ensures
            mgr.wf(),
            mgr.slots() == Seq::<TaskSlot>::empty(),
            mgr.log() == Seq::<int>::empty(),
            mgr.sender == sender,
            mgr.bsp@ == bsp@,
            mgr.data@ == data@,
            mgr.metrics@ == metrics@,
            mgr.clock.now_spec() == 0,
            mgr.stack.used_spec() == 0,
    {
        TaskMgr {
            tasks: Vec::new(),
            sender,
            bsp,
            data,
            metrics,
            clock: Clock::new(),
            stack: StackMonitor::new(),
            run_log: Ghost(Seq::empty()),
        }
    }

    /// How many tasks are registered.
    pub fn num_tasks(&self) -> (n: usize)
        ensures
            n == self.slots().len(),
    {
        self.tasks.len()
    }

    /// Append a task to the registry.  Registering beyond the fixed
    /// task-slot capacity fails, with the registry unchanged; the firmware
    /// treats that as a fatal configuration error at startup.
    pub fn add_task(&mut self, kind: TaskKind) -> (r: Result<(), ConfigError>)
        requires
            old(self).wf(),
        ensures
            final(self).wf(),
            r is Ok <==> old(self).slots().len() < MAX_TASKS,
            r is Err ==> r == Result::<(), ConfigError>::Err(ConfigError::TooManyTasks)
                && final(self).slots() == old(self).slots()
                && final(self).metrics@ == old(self).metrics@,
            r is Ok ==> final(self).slots().len() == old(self).slots().len() + 1,
            r is Ok ==> forall|j: int|
                0 <= j < old(self).slots().len() ==> final(self).slots()[j] == old(self).slots()[j],
            r is Ok ==> final(self).slots()[old(self).slots().len() as int].kind == kind,
            r is Ok ==> final(self).slots()[old(self).slots().len() as int].last_run == old(
                self,
            ).clock.now_spec(),
            r is Ok ==> info_matches(final(self).slots()[old(self).slots().len() as int].info, kind),
            r is Ok ==> final(self).metrics@ == (MetricsView {
                names: old(self).metrics@.names.update(
                    old(self).slots().len() as int,
                    name_of(kind),
                ),
                ..old(self).metrics@
            }),
            final(self).bsp@ == old(self).bsp@,
            final(self).data@ == old(self).data@,
            final(self).clock == old(self).clock,
            final(self).stack == old(self).stack,
            final(self).sender == old(self).sender,
            final(self).log() == old(self).log(),
    {
        if self.tasks.len() >= MAX_TASKS {
            return Err(ConfigError::TooManyTasks);
        }
        let info = kind.info();
        let idx = self.tasks.len();
        let now = self.clock.now();
        self.tasks.push(TaskSlot { kind, info, last_run: now });
        self.metrics.set_name(idx, info.name);
        proof {
            assert(self.metrics@.names =~= old(self).metrics@.names.update(
                idx as int,
                name_of(kind),
            ));
        }
        Ok(())
    }

    /// One cooperative tick: invoke every due task in registration order,
    /// recording each invocation's observed duration and stack reading in
    /// its slot's metrics and stamping the slot with the current time.
    pub fn run(&mut self, bus: &mut Bus)
        requires
            old(self).wf(),
            old(bus).wf(),
        ensures
            final(self).wf(),
            final(bus).wf(),
            final(bus).allocated_spec() == old(bus).allocated_spec(),
            final(self).sender == old(self).sender,
            final(self).clock == old(self).clock,
            final(self).stack == old(self).stack,
            final(self).state(final(bus).channels()) == tick_from(
                old(self).state(old(bus).channels()),
                old(self).clock.now_spec(),
                old(self).sender,
                old(self).stack.used_spec(),
                0,
            ),
    {
        let ghost s0 = old(self).state(old(bus).channels());
        let now = self.clock.now();
        let su_triple = self.stack.usage(false);
        let su = su_triple.0;
        let n = self.tasks.len();
        let mut i: usize = 0;
        while i < n
            invariant
                n == self.slots().len(),
                i <= n,
                self.wf(),
                bus.wf(),
                bus.allocated_spec() == old(bus).allocated_spec(),
                self.sender == old(self).sender,
                self.clock == old(self).clock,
                self.stack == old(self).stack,
                now == old(self).clock.now_spec(),
                su == old(self).stack.used_spec(),
                tick_from(s0, now, old(self).sender, su, 0) == tick_from(
                    self.state(bus.channels()),
                    now,
                    old(self).sender,
                    su,
                    i as int,
                ),
            decreases n - i,
        {
            let ghost pre = self.state(bus.channels());
            let slot = self.tasks[i];
            let elapsed = now - slot.last_run;
            if elapsed >= slot.info.run_every_us as u64 {
                let kind = slot.kind;
                let t0 = self.clock.now();
                kind.run(&self.sender, bus, &mut self.bsp, &mut self.data, &mut self.metrics);
                let t1 = self.clock.now();
                let dur = (t1 - t0) as u32;
                let used_triple = self.stack.usage(false);
                let used = used_triple.0;
                self.metrics.record(i, dur, used);
                self.tasks[i].last_run = now;
                self.run_log = Ghost(self.run_log@.push(i as int));
                proof {
                    let stepped = kind_step(slot.kind, old(self).sender, pre.q, pre.b, pre.d, pre.m);
                    let s2 = TickState {
                        slots: pre.slots.update(i as int, TaskSlot { last_run: now, ..slot }),
                        q: stepped.0,
                        b: stepped.1,
                        d: stepped.2,
                        m: record_spec(stepped.3, i as int, 0, su),
                        log: pre.log.push(i as int),
                    };
                    assert(dur == 0);
                    assert(used == su);
                    assert(self.slots() =~= s2.slots);
                    assert(self.state(bus.channels()) == s2);
                    assert(tick_from(pre, now, old(self).sender, su, i as int) == tick_from(
                        s2,
                        now,
                        old(self).sender,
                        su,
                        i as int + 1,
                    ));
                }
            } else {
                proof {
                    assert(tick_from(pre, now, old(self).sender, su, i as int) == tick_from(
                        pre,
                        now,
                        old(self).sender,
                        su,
                        i as int + 1,
                    ));
                }
            }
            i = i + 1;
        }
        proof {
            assert(tick_from(self.state(bus.channels()), now, old(self).sender, su, n as int)
                == self.state(bus.channels()));
        }
    }
}

/// The slot indices among `slots[i..]` that are due at time `now`, in
/// registration order.
pub open spec fn due_seq(slots: Seq<TaskSlot>, now: u64, i: int) -> Seq<int>
    decreases slots.len() - i,
{
    if i < 0 || i >= slots.len() {
        Seq::<int>::empty()
    } else if now - slots[i].last_run >= slots[i].info.run_every_us {
        seq![i] + due_seq(slots, now, i + 1)
    } else {
        due_seq(slots, now, i + 1)
    }
}

/// Which slots are due from `i` on depends only on the slots from `i` on.
proof fn lemma_due_seq_congruent(s1: Seq<TaskSlot>, s2: Seq<TaskSlot>, now: u64, i: int)
    requires
        s1.len() == s2.len(),
        forall|j: int| i <= j < s1.len() ==> s1[j] == s2[j],
    ensures
        due_seq(s1, now, i) == due_seq(s2, now, i),
    decreases s1.len() - i,
{
    if 0 <= i < s1.len() {
        lemma_due_seq_congruent(s1, s2, now, i + 1);
    }
}

/// A tick invokes exactly the tasks that are due when it starts, in
/// registration order: the invocation log grows by `due_seq`, and a
/// slot's `last_run` becomes `now` exactly when the slot was due.
pub proof fn lemma_tick_invokes_due(s: TickState, now: u64, sender: Sender, su: usize, i: int)
    requires
        0 <= i <= s.slots.len(),
    ensures
        ({
            let t = tick_from(s, now, sender, su, i);
            &&& t.log == s.log + due_seq(s.slots, now, i)
            &&& t.slots.len() == s.slots.len()
            &&& forall|j: int| 0 <= j < i ==> t.slots[j] == s.slots[j]
            &&& forall|j: int|
                i <= j < s.slots.len() ==> t.slots[j] == (if now - s.slots[j].last_run
                    >= s.slots[j].info.run_every_us {
                    TaskSlot { last_run: now, ..s.slots[j] }
                } else {
                    s.slots[j]
                })
        }),
    decreases s.slots.len() - i,
{
    let t = tick_from(s, now, sender, su, i);
    if i >= s.slots.len() {
        assert(t.log =~= s.log + due_seq(s.slots, now, i));
    } else {
        let slot = s.slots[i];
        if now - slot.last_run >= slot.info.run_every_us {
            let stepped = kind_step(slot.kind, sender, s.q, s.b, s.d, s.m);
            let s2 = TickState {
                slots: s.slots.update(i, TaskSlot { last_run: now, ..slot }),
                q: stepped.0,
                b: stepped.1,
                d: stepped.2,
                m: record_spec(stepped.3, i, 0, su),
                log: s.log.push(i),
            };
            lemma_tick_invokes_due(s2, now, sender, su, i + 1);
            lemma_due_seq_congruent(s2.slots, s.slots, now, i + 1);
            assert(s.log.push(i) + due_seq(s.slots, now, i + 1) =~= s.log + (seq![i] + due_seq(
                s.slots,
                now,
                i + 1,
            )));
        } else {
            lemma_tick_invokes_due(s, now, sender, su, i + 1);
        }
    }
}

/// When no slot from `i` on is due, the tick from `i` changes nothing.
proof fn lemma_tick_no_due(s: TickState, now: u64, sender: Sender, su: usize, i: int)
    requires
        0 <= i <= s.slots.len(),
        forall|j: int|
            i <= j < s.slots.len() ==> !(now - (#[trigger] s.slots[j]).last_run
                >= s.slots[j].info.run_every_us),
    ensures
        tick_from(s, now, sender, su, i) == s,
    decreases s.slots.len() - i,
{
    if i < s.slots.len() {
        lemma_tick_no_due(s, now, sender, su, i + 1);
    }
}

/// Running a second tick with zero elapsed time between the two calls
/// invokes zero tasks and leaves the whole state untouched: after a tick
/// at time `now`, every slot that ran carries `last_run == now`, so
/// nothing is due again until the clock advances.
pub proof fn lemma_rerun_zero_elapsed(s: TickState, now: u64, sender: Sender, su: usize)
    requires
        forall|j: int|
            0 <= j < s.slots.len() ==> (#[trigger] s.slots[j]).info.run_every_us > 0,
        forall|j: int| 0 <= j < s.slots.len() ==> (#[trigger] s.slots[j]).last_run <= now,
    ensures
        ({
            let t = tick_from(s, now, sender, su, 0);
            tick_from(t, now, sender, su, 0) == t
        }),
{
    let t = tick_from(s, now, sender, su, 0);
    lemma_tick_invokes_due(s, now, sender, su, 0);
    assert forall|j: int| 0 <= j < t.slots.len() implies !(now - (#[trigger] t.slots[j]).last_run
        >= t.slots[j].info.run_every_us) by {
        if now - s.slots[j].last_run >= s.slots[j].info.run_every_us {
            assert(t.slots[j].last_run == now);
        } else {
            assert(t.slots[j] == s.slots[j]);
        }
    }
    lemma_tick_no_due(t, now, sender, su, 0);
}

/// Running the scheduler twice with zero elapsed time between the two
/// calls invokes zero tasks the second time: after one tick of a
/// well-formed scheduler, a second tick at the same clock reading leaves
/// the whole state untouched.
pub proof fn lemma_mgr_rerun_zero_elapsed(mgr: TaskMgr, q: Seq<Seq<Msg>>)
    requires
        mgr.wf(),
    ensures
        ({
            let s = mgr.state(q);
            let now = mgr.clock.now_spec();
            let su = mgr.stack.used_spec();
            let t = tick_from(s, now, mgr.sender, su, 0);
            tick_from(t, now, mgr.sender, su, 0) == t
        }),
{
    let s = mgr.state(q);
    assert forall|j: int| 0 <= j < s.slots.len() implies (#[trigger] s.slots[j]).info.run_every_us
        > 0 by {
        lemma_info_positive(s.slots[j].kind);
    }
    lemma_rerun_zero_elapsed(s, mgr.clock.now_spec(), mgr.sender, mgr.stack.used_spec());
}

} // verus!
