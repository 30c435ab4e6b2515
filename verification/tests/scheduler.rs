use neo::bsp::Bsp;
use neo::channel::Bus;
use neo::dispatch::process;
use neo::metrics::Metrics;
use neo::msg::Msg;
use neo::tasks::ButtonTask;
use neo::tasks::ChatTask;
use neo::tasks::CryptoTask;
use neo::tasks::FibTask;
use neo::tasks::KeyboardTask;
use neo::tasks::LinkTask;
use neo::tasks::RenderTask;
use neo::tasks::TaskData;
use neo::tasks::TaskKind;
use neo::tasks::TaskMgr;
use neo::tasks::TextEditTask;
use neo::tasks::MAX_TASKS;
use neo::metrics_task::MetricsTask;
use neo::tasks::Task;

fn fresh_mgr(bus: &mut Bus) -> (TaskMgr, neo::channel::Receiver) {
    let (sender, receiver) = bus.channel().unwrap();
    let bsp = Bsp::new();
    let data = TaskData::new();
    let metrics = Metrics::new();
    (TaskMgr::new(sender, bsp, data, metrics), receiver)
}

#[test]
fn two_tasks_mock_clock() {
    // Two tasks spaced 100 and 300 microseconds apart, driven by a mock
    // clock advancing 100 per tick: after 3 ticks the faster task has run
    // three times and the slower one once.
    let mut bus = Bus::new();
    let (mut mgr, _receiver) = fresh_mgr(&mut bus);
    mgr.add_task(TaskKind::Chat(ChatTask {})).unwrap();
    mgr.add_task(TaskKind::Crypto(CryptoTask {})).unwrap();
    for _ in 0..3 {
        mgr.clock.advance(100);
        mgr.run(&mut bus);
    }
    assert_eq!(mgr.metrics.run_count(0), 3);
    assert_eq!(mgr.metrics.run_count(1), 1);
}

#[test]
fn run_invokes_exactly_the_due_subset_in_order() {
    let mut bus = Bus::new();
    let (mut mgr, _receiver) = fresh_mgr(&mut bus);
    mgr.add_task(TaskKind::Chat(ChatTask {})).unwrap();  // every 100
    mgr.add_task(TaskKind::Crypto(CryptoTask {})).unwrap();  // every 300
    mgr.add_task(TaskKind::Button(ButtonTask {})).unwrap();  // every 1000
    mgr.clock.advance(100);
    mgr.run(&mut bus);
    assert_eq!(mgr.metrics.run_count(0), 1);
    assert_eq!(mgr.metrics.run_count(1), 0);
    assert_eq!(mgr.metrics.run_count(2), 0);
    mgr.clock.advance(900);
    mgr.run(&mut bus);
    assert_eq!(mgr.metrics.run_count(0), 2);
    assert_eq!(mgr.metrics.run_count(1), 1);
    assert_eq!(mgr.metrics.run_count(2), 1);
}

#[test]
fn run_twice_with_zero_elapsed_invokes_nothing() {
    let mut bus = Bus::new();
    let (mut mgr, _receiver) = fresh_mgr(&mut bus);
    mgr.add_task(TaskKind::Chat(ChatTask {})).unwrap();
    mgr.add_task(TaskKind::Crypto(CryptoTask {})).unwrap();
    mgr.clock.advance(1000);
    mgr.run(&mut bus);
    let rc0 = mgr.metrics.run_count(0);
    let rc1 = mgr.metrics.run_count(1);
    mgr.run(&mut bus);
    assert_eq!(mgr.metrics.run_count(0), rc0);
    assert_eq!(mgr.metrics.run_count(1), rc1);
}

#[test]
fn registering_past_capacity_fails() {
    let mut bus = Bus::new();
    let (mut mgr, _receiver) = fresh_mgr(&mut bus);
    for _ in 0..MAX_TASKS {
        mgr.add_task(TaskKind::Chat(ChatTask {})).unwrap();
    }
    assert!(mgr.add_task(TaskKind::Chat(ChatTask {})).is_err());
    assert_eq!(mgr.num_tasks(), MAX_TASKS);
}

#[test]
fn keyboard_event_reaches_text_edit_state() {
    // One sent keyboard event, one dispatch pass: the text-edit state has
    // the key appended and the channel is drained.
    let mut bus = Bus::new();
    let (mut mgr, receiver) = fresh_mgr(&mut bus);
    let sender = mgr.sender;
    sender.send(&mut bus, Msg::Keyboard { key: 'A' });
    process(receiver, &mut bus, &mut mgr);
    assert_eq!(mgr.data.text_edit.buffer, vec!['A']);
    assert_eq!(receiver.recv(&mut bus), Msg::Empty);
}

#[test]
fn ptt_event_reaches_chat_and_link_state() {
    let mut bus = Bus::new();
    let (mut mgr, receiver) = fresh_mgr(&mut bus);
    let sender = mgr.sender;
    sender.send(&mut bus, Msg::PttButton(true));
    process(receiver, &mut bus, &mut mgr);
    assert!(mgr.data.chat.ptt);
    assert!(mgr.data.link.ptt);
}

#[test]
fn metrics_record_accumulates_and_reset_is_per_slot() {
    // After three runs with durations 5, 9 and 7 the slot shows three
    // runs and a worst duration of 9; a reset zeroes exactly that slot.
    let mut m = Metrics::new();
    m.record(0, 5, 100);
    m.record(0, 9, 80);
    m.record(0, 7, 120);
    m.record(1, 4, 50);
    assert_eq!(m.run_count(0), 3);
    assert_eq!(m.max_duration_us(0), 9);
    assert_eq!(m.max_stack(0), 120);
    assert_eq!(m.run_count(1), 1);
    m.reset(0);
    assert_eq!(m.run_count(0), 0);
    assert_eq!(m.max_duration_us(0), 0);
    assert_eq!(m.max_stack(0), 0);
    assert_eq!(m.run_count(1), 1);
    assert_eq!(m.max_duration_us(1), 4);
}

#[test]
fn metrics_report_format_is_exact() {
    let mut bus = Bus::new();
    let (sender, _receiver) = bus.channel().unwrap();
    let mut bsp = Bsp::new();
    let mut data = TaskData::new();
    let mut metrics = Metrics::new();
    metrics.set_name(0, *b"Metrics_");
    for _ in 0..12 {
        metrics.record(0, 6789, 345);
    }
    let task = MetricsTask {};
    task.run(&sender, &mut bus, &mut bsp, &mut data, &mut metrics);
    let expected = b"\r\n\r\nTask Metrics_: 0012 runs, 00345 bytes, 0006789 uS\r\n";
    assert_eq!(bsp.console_bytes().as_slice(), expected);
    assert_eq!(metrics.run_count(0), 0);
    assert_eq!(metrics.max_stack(0), 0);
    assert_eq!(metrics.max_duration_us(0), 0);
}

#[test]
fn test_tasks() {
    let mut bus = Bus::new();
    let mut bsp = Bsp::new();
    bsp.led_set(neo::led::Color::Blue);

    let (sender, receiver) = bus.channel().unwrap();
    let metrics = Metrics::new();
    let mut data = TaskData::new();
    data.set_junk(0, 1);

    let mut task_mgr = TaskMgr::new(sender, bsp, data, metrics);

    task_mgr.add_task(TaskKind::Button(ButtonTask {})).unwrap();
    task_mgr.add_task(TaskKind::Chat(ChatTask {})).unwrap();
    task_mgr.add_task(TaskKind::Crypto(CryptoTask {})).unwrap();
    task_mgr.add_task(TaskKind::Keyboard(KeyboardTask {})).unwrap();
    task_mgr.add_task(TaskKind::Metrics(MetricsTask {})).unwrap();
    task_mgr.add_task(TaskKind::Link(LinkTask {})).unwrap();
    task_mgr.add_task(TaskKind::Render(RenderTask {})).unwrap();
    task_mgr.add_task(TaskKind::TextEdit(TextEditTask {})).unwrap();
    task_mgr.add_task(TaskKind::Fib(FibTask {})).unwrap();

    for i in 0..100 {
        task_mgr.clock.advance(100_000);
        task_mgr.run(&mut bus);
        process(receiver, &mut bus, &mut task_mgr);

        if i == 5 {
            let sender = task_mgr.sender;
            sender.send(&mut bus, Msg::Keyboard { key: 'A' });
        }
        if i == 10 {
            let sender = task_mgr.sender;
            sender.send(&mut bus, Msg::Keyboard { key: '\r' });
        }
    }

    let stack_usage = task_mgr.stack.usage(false).0 as u32;
    assert_eq!(stack_usage, 0);
    task_mgr.bsp.led_set(neo::led::Color::Green);
}
