//! The metrics task: periodically prints every active slot's counters to
//! the console and then resets them, defining a reporting epoch.
//!
//! Console report line format, fixed for compatibility:
//! `"Task <name>: <run_count> runs, <max_stack> bytes, <max_duration_us> uS\r\n"`,
//! with the numeric fields zero-padded to widths 4, 5 and 7.

use vstd::prelude::*;

use crate::bsp::Bsp;
use crate::bsp::BspView;
use crate::channel::Bus;
use crate::channel::Sender;
use crate::console::padded_dec;
use crate::console::push_padded_decimal;
use crate::metrics::Metrics;
use crate::metrics::MetricsView;
use crate::msg::Msg;
use crate::tasks::Task;
use crate::tasks::TaskData;
use crate::tasks::TaskDataView;
use crate::tasks::MAX_TASKS;

verus! {

/// The metrics-reporting task.
#[derive(Copy, Clone, Debug)]
pub struct MetricsTask {}

/// The bytes of `"\r\n\r\n"`: the blank separator lines before a report.
pub open spec fn report_header() -> Seq<u8> {
    seq![13u8, 10u8, 13u8, 10u8]
}

/// The bytes of `"Task "`: the label that opens each report line.
pub open spec fn lbl_task() -> Seq<u8> {
    seq![84u8, 97u8, 115u8, 107u8, 32u8]
}

/// The bytes of `": "`: the separator after the task name.
pub open spec fn lbl_colon() -> Seq<u8> {
    seq![58u8, 32u8]
}

/// The bytes of `" runs, "`: the label after the run count.
pub open spec fn lbl_runs() -> Seq<u8> {
    seq![32u8, 114u8, 117u8, 110u8, 115u8, 44u8, 32u8]
}

/// The bytes of `" bytes, "`: the label after the stack high-water mark.
pub open spec fn lbl_bytes() -> Seq<u8> {
    seq![32u8, 98u8, 121u8, 116u8, 101u8, 115u8, 44u8, 32u8]
}

/// The bytes of `" uS\r\n"`: the label closing each report line.
pub open spec fn lbl_us() -> Seq<u8> {
    seq![32u8, 117u8, 83u8, 13u8, 10u8]
}

/// One report line for a slot with name label `name` and counters `rc`,
/// `ms` and `md`.
pub open spec fn report_line(name: Seq<u8>, rc: nat, ms: nat, md: nat) -> Seq<u8> {
    lbl_task() + name + lbl_colon() + padded_dec(rc, 4) + lbl_runs() + padded_dec(ms, 5)
        + lbl_bytes() + padded_dec(md, 7) + lbl_us()
}

/// What slot `i` contributes to the report: its line if it ran during the
/// epoch, nothing otherwise.
pub open spec fn slot_report(m: MetricsView, i: int) -> Seq<u8> {
    if m.rc[i] == 0 {
        Seq::<u8>::empty()
    } else {
        report_line(m.names[i], m.rc[i] as nat, m.ms[i] as nat, m.md[i] as nat)
    }
}

/// The report lines of the first `n` slots, in slot order.
pub open spec fn report_upto(m: MetricsView, n: int) -> Seq<u8>
    decreases n,
{
    if n <= 0 {
        Seq::<u8>::empty()
    } else {
        report_upto(m, n - 1) + slot_report(m, n - 1)
    }
}

/// Everything one report prints: the separator then each active slot's line.
pub open spec fn report_bytes(m: MetricsView) -> Seq<u8> {
    report_header() + report_upto(m, MAX_TASKS as int)
}

/// What a whole report does to the counters: every slot that ran has its
/// three counters zeroed; slots that did not run, and all names, are
/// untouched.
pub open spec fn reset_all(m: MetricsView) -> MetricsView {
    MetricsView {
        rc: Seq::new(m.rc.len(), |i: int| 0u32),
        ms: Seq::new(m.ms.len(), |i: int| if m.rc[i] > 0 { 0usize } else { m.ms[i] }),
        md: Seq::new(m.md.len(), |i: int| if m.rc[i] > 0 { 0u32 } else { m.md[i] }),
        names: m.names,
    }
}

/// Append `"\r\n\r\n"` to `out`.
fn append_report_header(out: &mut Vec<u8>)
    ensures
        final(out)@ == old(out)@ + report_header(),
{
    out.push(13u8);
    out.push(10u8);
    out.push(13u8);
    out.push(10u8);
    proof {
        assert(out@ =~= old(out)@ + report_header());
    }
}

/// Append `"Task "` to `out`.
fn append_lbl_task(out: &mut Vec<u8>)
    ensures
        final(out)@ == old(out)@ + lbl_task(),
{
    out.push(84u8);
    out.push(97u8);
    out.push(115u8);
    out.push(107u8);
    out.push(32u8);
    proof {
        assert(out@ =~= old(out)@ + lbl_task());
    }
}

/// Append `": "` to `out`.
fn append_lbl_colon(out: &mut Vec<u8>)
    ensures
        final(out)@ == old(out)@ + lbl_colon(),
{
    out.push(58u8);
    out.push(32u8);
    proof {
        assert(out@ =~= old(out)@ + lbl_colon());
    }
}

/// Append `" runs, "` to `out`.
fn append_lbl_runs(out: &mut Vec<u8>)
    ensures
        final(out)@ == old(out)@ + lbl_runs(),
{
    out.push(32u8);
    out.push(114u8);
    out.push(117u8);
    out.push(110u8);
    out.push(115u8);
    out.push(44u8);
    out.push(32u8);
    proof {
        assert(out@ =~= old(out)@ + lbl_runs());
    }
}

/// Append `" bytes, "` to `out`.
fn append_lbl_bytes(out: &mut Vec<u8>)
    ensures
        final(out)@ == old(out)@ + lbl_bytes(),
{
    out.push(32u8);
    out.push(98u8);
    out.push(121u8);
    out.push(116u8);
    out.push(101u8);
    out.push(115u8);
    out.push(44u8);
    out.push(32u8);
    proof {
        assert(out@ =~= old(out)@ + lbl_bytes());
    }
}

/// Append `" uS\r\n"` to `out`.
fn append_lbl_us(out: &mut Vec<u8>)
    ensures
        final(out)@ == old(out)@ + lbl_us(),
{
    out.push(32u8);
    out.push(117u8);
    out.push(83u8);
    out.push(13u8);
    out.push(10u8);
    proof {
        assert(out@ =~= old(out)@ + lbl_us());
    }
}

/// Append the eight bytes of a name label to `out`.
fn append_name(out: &mut Vec<u8>, name: &[u8; 8])
    ensures
        final(out)@ == old(out)@ + name@,
{
    let mut k: usize = 0;
    proof {
        assert(out@ =~= old(out)@ + name@.subrange(0, 0));
    }
    while k < 8
        invariant
            k <= 8,
            name@.len() == 8,
            out@ == old(out)@ + name@.subrange(0, k as int),
        decreases 8 - k,
    {
        out.push(name[k]);
        k = k + 1;
        proof {
            assert(out@ =~= old(out)@ + name@.subrange(0, k as int));
        }
    }
    proof {
        assert(name@.subrange(0, 8) =~= name@);
    }
}

impl Task for MetricsTask {
    open spec fn step(
        &self,
        sender: Sender,
        q: Seq<Seq<Msg>>,
        b: BspView,
        d: TaskDataView,
        m: MetricsView,
    ) -> (Seq<Seq<Msg>>, BspView, TaskDataView, MetricsView) {
        (q, BspView { console: b.console + report_bytes(m), ..b }, d, reset_all(m))
    }

    /// Print the report for every slot that ran during the epoch, zeroing
    /// each printed slot's counters as it goes.
    fn run(
        &self,
        sender: &Sender,
        bus: &mut Bus,
        bsp: &mut Bsp,
        data: &mut TaskData,
        metrics: &mut Metrics,
    ) {
        let ghost m0 = metrics@;
        let mut line: Vec<u8> = Vec::new();
        append_report_header(&mut line);
        bsp.print(line.as_slice());
        proof {
            assert(bsp@.console =~= old(bsp)@.console + report_header() + report_upto(m0, 0));
        }
        let mut i: usize = 0;
        while i < MAX_TASKS
            invariant
                i <= MAX_TASKS,
                metrics.wf(),
                m0.rc.len() == MAX_TASKS,
                m0.ms.len() == MAX_TASKS,
                m0.md.len() == MAX_TASKS,
                m0.names.len() == MAX_TASKS,
                metrics@.names == m0.names,
                forall|j: int| i <= j < MAX_TASKS ==> #[trigger] metrics@.rc[j] == m0.rc[j],
                forall|j: int| i <= j < MAX_TASKS ==> #[trigger] metrics@.ms[j] == m0.ms[j],
                forall|j: int| i <= j < MAX_TASKS ==> #[trigger] metrics@.md[j] == m0.md[j],
                forall|j: int| 0 <= j < i ==> #[trigger] metrics@.rc[j] == reset_all(m0).rc[j],
                forall|j: int| 0 <= j < i ==> #[trigger] metrics@.ms[j] == reset_all(m0).ms[j],
                forall|j: int| 0 <= j < i ==> #[trigger] metrics@.md[j] == reset_all(m0).md[j],
                bsp@.console == old(bsp)@.console + report_header() + report_upto(m0, i as int),
                bsp@.led == old(bsp)@.led,
                bsp@.key_in == old(bsp)@.key_in,
                bsp@.ptt_pressed == old(bsp)@.ptt_pressed,
            decreases MAX_TASKS - i,
        {
            let rc = metrics.run_count(i);
            if rc != 0 {
                let name = metrics.name(i);
                let ms = metrics.max_stack(i);
                let md = metrics.max_duration_us(i);
                let mut line: Vec<u8> = Vec::new();
                append_lbl_task(&mut line);
                append_name(&mut line, &name);
                append_lbl_colon(&mut line);
                push_padded_decimal(&mut line, rc as u64, 4);
                append_lbl_runs(&mut line);
                push_padded_decimal(&mut line, ms as u64, 5);
                append_lbl_bytes(&mut line);
                push_padded_decimal(&mut line, md as u64, 7);
                append_lbl_us(&mut line);
                proof {
                    let ghost ii = i as int;
                    assert(line@ =~= report_line(
                        m0.names[ii],
                        m0.rc[ii] as nat,
                        m0.ms[ii] as nat,
                        m0.md[ii] as nat,
                    ));
                }
                bsp.print(line.as_slice());
                metrics.reset(i);
            }
            i = i + 1;
            proof {
                assert(bsp@.console =~= old(bsp)@.console + report_header() + report_upto(
                    m0,
                    i as int,
                ));
            }
        }
        proof {
            assert(metrics@.rc =~= reset_all(m0).rc);
            assert(metrics@.ms =~= reset_all(m0).ms);
            assert(metrics@.md =~= reset_all(m0).md);
            assert(bsp@.console =~= old(bsp)@.console + report_bytes(m0));
        }
    }
}

} // verus!
