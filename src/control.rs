use vstd::prelude::*;

verus! {

/// What the wait for the log file does after one look.
#[derive(Copy, Clone, Debug, PartialEq, Eq, Structural)]
pub enum WaitStep {
    /// The file is there: start streaming.
    Ready,
    /// Look again after a short pause.
    PollAgain,
    /// Shutdown came first: the run ends without a report.
    FileUnavailable,
}

/// One look while waiting for the log file: shutdown wins over the file.
pub fn wait_for_file(shutdown: bool, file_exists: bool) -> (r: WaitStep)
    ensures
        shutdown ==> r == WaitStep::FileUnavailable,
        !shutdown && file_exists ==> r == WaitStep::Ready,
        !shutdown && !file_exists ==> r == WaitStep::PollAgain,
{
    if shutdown {
        WaitStep::FileUnavailable
    } else if file_exists {
        WaitStep::Ready
    } else {
        WaitStep::PollAgain
    }
}

/// What the wait on the event channel brought.
#[derive(Copy, Clone, Debug, PartialEq, Eq, Structural)]
pub enum LoopEvent {
    /// A change in the watched directory; `touches_log` when one of its paths
    /// is the log file.
    FileChanged { touches_log: bool },
    /// Nothing came within the wait.
    Timeout,
    /// The watcher is gone.
    Disconnected,
}

/// What the streaming loop does next.
#[derive(Copy, Clone, Debug, PartialEq, Eq, Structural)]
pub enum LoopAction {
    /// Read what was appended to the log and send it.
    Tail,
    /// Send a heartbeat report.
    Heartbeat,
    /// Nothing to do: wait again.
    Continue,
    /// Leave the loop and stop.
    Exit,
}

/// The idle timer of the streaming loop, in milliseconds since the run began.
pub struct HeartbeatTimer {
    pub interval_ms: u64,
    pub last_activity_ms: u64,
}

/// The loop's answer to `event` at time `now`, with the timer as it was.
pub open spec fn action_for(event: LoopEvent, interval: u64, last: u64, now: u64) -> LoopAction {
    match event {
        LoopEvent::FileChanged { touches_log } => if touches_log {
            LoopAction::Tail
        } else {
            LoopAction::Continue
        },
        LoopEvent::Timeout => if now >= last && now - last >= interval {
            LoopAction::Heartbeat
        } else {
            LoopAction::Continue
        },
        LoopEvent::Disconnected => LoopAction::Exit,
    }
}

impl HeartbeatTimer {
    /// A timer that last saw activity at `now_ms`.
    pub fn new(interval_ms: u64, now_ms: u64) -> (r: HeartbeatTimer)
        ensures
            r.interval_ms == interval_ms,
            r.last_activity_ms == now_ms,
    {
        HeartbeatTimer { interval_ms, last_activity_ms: now_ms }
    }

    /// Notes activity at `now_ms`: the idle time starts again.
    pub fn touch(&mut self, now_ms: u64)
        ensures
            final(self).interval_ms == old(self).interval_ms,
            final(self).last_activity_ms == now_ms,
    {
        self.last_activity_ms = now_ms;
    }

    /// Decides the next step on `event` at `now_ms`: a change to the log file
    /// is tailed, a timeout after a full idle interval sends a heartbeat, and a
    /// lost watcher ends the loop. The idle time restarts, by `touch`, once a
    /// tail or a heartbeat is done.
    pub fn on_event(&self, event: LoopEvent, now_ms: u64) -> (r: LoopAction)
        ensures
            r == action_for(event, self.interval_ms, self.last_activity_ms, now_ms),
    {
        match event {
            LoopEvent::FileChanged { touches_log } => {
                if touches_log {
                    LoopAction::Tail
                } else {
                    LoopAction::Continue
                }
            },
            LoopEvent::Timeout => {
                if now_ms >= self.last_activity_ms && now_ms - self.last_activity_ms
                    >= self.interval_ms {
                    LoopAction::Heartbeat
                } else {
                    LoopAction::Continue
                }
            },
            LoopEvent::Disconnected => LoopAction::Exit,
        }
    }
}

/// The times of the heartbeats sent when nothing but timeouts, at `times`,
/// reach the loop after activity at `start`: each heartbeat restarts the idle time.
pub open spec fn heartbeat_times(interval: u64, start: u64, times: Seq<u64>) -> Seq<u64>
    decreases times.len(),
{
    if times.len() == 0 {
        Seq::empty()
    } else {
        let before = heartbeat_times(interval, start, times.drop_last());
        let last = if before.len() == 0 {
            start
        } else {
            before.last()
        };
        if action_for(LoopEvent::Timeout, interval, last, times.last()) == LoopAction::Heartbeat {
            before.push(times.last())
        } else {
            before
        }
    }
}

/// While the log does not change, a heartbeat is sent at a timeout exactly
/// when a full interval has passed since the last activity or heartbeat; so the
/// k-th heartbeat comes no earlier than k intervals after the activity, each at
/// least one interval after the one before, and over a quiet period of T
/// milliseconds at most T / interval of them are sent.
pub proof fn lemma_one_heartbeat_per_interval(interval: u64, start: u64, times: Seq<u64>)
    ensures
        ({
            let hs = heartbeat_times(interval, start, times);
            &&& hs.len() <= times.len()
            &&& forall|k: int| 0 <= k < hs.len() ==> #[trigger] hs[k] >= start + (k + 1) * interval
            &&& forall|k: int| 0 < k < hs.len() ==> #[trigger] hs[k] >= hs[k - 1] + interval
        }),
    decreases times.len(),
{
    if times.len() > 0 {
        let before = heartbeat_times(interval, start, times.drop_last());
        lemma_one_heartbeat_per_interval(interval, start, times.drop_last());
        let hs = heartbeat_times(interval, start, times);
        if hs.len() > before.len() {
            let n = before.len() as int;
            assert(hs[n] == times.last());
            if n > 0 {
                assert(before[n - 1] >= start + n * interval);
                assert(start + n * interval + interval == start + (n + 1) * interval) by (nonlinear_arith);
                assert(before.last() == before[n - 1]);
            } else {
                assert((n + 1) * interval == interval) by (nonlinear_arith)
                    requires
                        n == 0,
                ;
            }
            assert(hs[n] >= start + (n + 1) * interval);
            assert forall|k: int| 0 <= k < hs.len() implies #[trigger] hs[k] >= start + (k + 1)
                * interval by {
                if k < n {
                    assert(hs[k] == before[k]);
                }
            }
            assert forall|k: int| 0 < k < hs.len() implies #[trigger] hs[k] >= hs[k - 1] + interval by {
                if k < n {
                    assert(hs[k] == before[k]);
                    assert(hs[k - 1] == before[k - 1]);
                } else {
                    assert(hs[k - 1] == before[k - 1]);
                }
            }
        }
    }
}

} // verus!
