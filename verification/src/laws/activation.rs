//! Public PPS is enabled on what was just read.

use vstd::prelude::*;

use crate::clock::Instant;
use crate::laws::trace::Occurrence;
use crate::monitor::{Event, MonitorView, Stage, Subject};
use crate::readings::Node;
use crate::tracker::ChargingMode;

verus! {

impl Stage {
    /// Whether the verification was read before, on the way to enabling public
    /// PPS.
    pub open spec fn follows_verified(self) -> bool {
        self is IdentifyUsbType || self is IdentifySvid || self is NativeUsbType || self
            is RetryUsbType
    }
}

impl MonitorView {
    /// Whether an event is the answer with which a node is read.
    pub open spec fn reads(self, node: Node, event: Event, text: Seq<char>) -> bool {
        self.stage.node() == Some(node) && (event matches Event::Content(content) && content@
            == text)
    }

    /// Whether one of the first `n` of some events reads a node, and the monitor
    /// has not gone back to waiting since.
    pub open spec fn read_this_turn(
        self,
        trace: Seq<Occurrence>,
        n: int,
        node: Node,
        text: Seq<char>,
    ) -> bool {
        exists|read: int| #[trigger] self.read_at(trace, n, read, node, text)
    }

    /// Whether one of the first `n` of some events, that at `read`, reads a node,
    /// and the monitor has not gone back to waiting since.
    pub open spec fn read_at(
        self,
        trace: Seq<Occurrence>,
        n: int,
        read: int,
        node: Node,
        text: Seq<char>,
    ) -> bool {
        &&& 0 <= read < n
        &&& self.after_first(trace, read).reads(node, trace[read].event, text)
        &&& forall|i: int|
            read < i <= n ==> !((#[trigger] self.after_first(trace, i)).stage is Waiting)
    }
}

/// How one event leads on towards an attempt: each node that the attempt rests on
/// is read in its stage, and what was read is kept.
#[verifier::opaque]
pub open spec fn turn_after(before: MonitorView, event: Event, after: MonitorView) -> bool {
    &&& after.stage.follows_verified() ==> {
        ||| before.reads(Node::PdVerified, event, after.readings.verified)
        ||| before.stage.follows_verified() && before.readings.verified
            == after.readings.verified
    }
    &&& after.stage is IdentifySvid ==> {
        ||| before.reads(Node::UsbRealType, event, after.readings.usb_type)
        ||| before.stage is IdentifySvid && before.readings.usb_type == after.readings.usb_type
    }
    &&& after.stage is Enabling && !(before.stage is Enabling) ==> {
        &&& before.stage.follows_verified()
        &&& before.readings.verified == after.readings.verified
        &&& before.stage is IdentifySvid <==> before.tracker.phase is IdentifyingPublic
        &&& before.stage is IdentifySvid ==> before.readings.usb_type
            == after.readings.usb_type && before.reads(
            Node::AdapterSvid,
            event,
            after.readings.adapter_svid,
        )
        &&& !(before.stage is IdentifySvid) ==> before.reads(
            Node::UsbRealType,
            event,
            after.readings.usb_type,
        )
    }
}

proof fn lemma_content_turn(monitor: MonitorView, time: Instant, event: Event, now: Instant)
    requires
        monitor.wf(time),
        event is Content,
    ensures
        turn_after(monitor, event, monitor.after_reading(event->Content_0@, now)),
{
    reveal(MonitorView::after_reading);
    reveal(turn_after);
    let text = event->Content_0@;
    match monitor.stage.subject() {
        Subject::Port => {
            assert(monitor.after_reading(text, now) == monitor.after_port(text, now));
        },
        Subject::Settled => {
            assert(monitor.after_reading(text, now) == monitor.after_settled(text, now));
        },
        Subject::Identification => {
            assert(monitor.after_reading(text, now) == monitor.after_identification(text, now));
        },
        Subject::Native => {
            assert(monitor.after_reading(text, now) == monitor.after_native(text, now));
        },
        Subject::Public => {
            assert(monitor.after_reading(text, now) == monitor.after_public(text));
        },
        Subject::Nothing => {},
    }
}

proof fn lemma_missing_node_turn(monitor: MonitorView, time: Instant, now: Instant)
    requires
        monitor.wf(time),
        !monitor.stage.fails(),
    ensures
        turn_after(monitor, Event::Failed, monitor.after_reading(Seq::empty(), now)),
{
    reveal(MonitorView::after_reading);
    reveal(turn_after);
    reveal_strlit("0000");
    assert("0000"@.len() == 4);
}

proof fn lemma_done_turn(monitor: MonitorView, now: Instant)
    ensures
        turn_after(monitor, Event::Done, monitor.after_done(now)),
{
    reveal(turn_after);
}

proof fn lemma_failure_turn(monitor: MonitorView)
    ensures
        turn_after(monitor, Event::Failed, monitor.at(Stage::Ended { failed: true })),
{
    reveal(turn_after);
}

proof fn lemma_wakeup_turn(monitor: MonitorView, event: Event, now: Instant)
    requires
        !(event is Content || event is Failed || event is Done),
    ensures
        turn_after(monitor, event, monitor.next(event, now)),
{
    crate::laws::order::wakeups_change_no_negotiation(monitor, event, now);
    reveal(turn_after);
}

/// On the way to an attempt, no event passes over a node that the attempt rests on
/// or changes what was read of another.
pub proof fn attempts_are_approached_by_reading(
    monitor: MonitorView,
    time: Instant,
    event: Event,
    now: Instant,
)
    requires
        monitor.wf(time),
    ensures
        turn_after(monitor, event, monitor.next(event, now)),
{
    match event {
        Event::Content(text) => {
            assert(monitor.next(event, now) == monitor.after_reading(text@, now));
            lemma_content_turn(monitor, time, event, now);
        },
        Event::Failed => {
            if monitor.stage.fails() {
                assert(monitor.next(event, now) == monitor.at(Stage::Ended { failed: true }));
                lemma_failure_turn(monitor);
            } else {
                assert(monitor.next(event, now) == monitor.after_reading(Seq::empty(), now));
                lemma_missing_node_turn(monitor, time, now);
            }
        },
        Event::Done => {
            assert(monitor.next(event, now) == monitor.after_done(now));
            lemma_done_turn(monitor, now);
        },
        _ => {
            lemma_wakeup_turn(monitor, event, now);
        },
    }
}

proof fn lemma_turn_goes_on(
    monitor: MonitorView,
    trace: Seq<Occurrence>,
    n: int,
    node: Node,
    text: Seq<char>,
)
    requires
        !(monitor.after_first(trace, n + 1).stage is Waiting),
        ({
            ||| monitor.read_this_turn(trace, n, node, text)
            ||| 0 <= n && monitor.after_first(trace, n).reads(node, trace[n].event, text)
        }),
    ensures
        monitor.read_this_turn(trace, n + 1, node, text),
{
    if monitor.read_this_turn(trace, n, node, text) {
        let read = choose|read: int| #[trigger] monitor.read_at(trace, n, read, node, text);
        assert(monitor.read_at(trace, n + 1, read, node, text));
    } else {
        assert(monitor.read_at(trace, n + 1, n, node, text));
    }
}

proof fn lemma_nodes_were_read(mode: ChargingMode, start: Instant, trace: Seq<Occurrence>, n: int)
    requires
        crate::laws::trace::is_timeline(start, trace),
        0 <= n <= trace.len(),
    ensures
        ({
            let monitor = MonitorView::initial(mode);
            let state = monitor.after_first(trace, n);
            &&& state.stage.follows_verified() ==> monitor.read_this_turn(
                trace,
                n,
                Node::PdVerified,
                state.readings.verified,
            )
            &&& state.stage is IdentifySvid ==> monitor.read_this_turn(
                trace,
                n,
                Node::UsbRealType,
                state.readings.usb_type,
            )
        }),
    decreases n,
{
    let monitor = MonitorView::initial(mode);
    crate::laws::order::initial_monitor_is_well_formed(mode, start);
    if n == 0 {
        crate::laws::trace::events_lead_from_state_to_state(monitor, start, trace, 0);
    } else {
        let before = monitor.after_first(trace, n - 1);
        let after = monitor.after_first(trace, n);
        lemma_nodes_were_read(mode, start, trace, n - 1);
        crate::laws::trace::events_lead_from_state_to_state(monitor, start, trace, n - 1);
        attempts_are_approached_by_reading(
            before,
            crate::laws::trace::time_after(start, trace.take(n - 1)),
            trace[n - 1].event,
            trace[n - 1].now,
        );
        lemma_node_is_kept(monitor, trace, n - 1);
    }
}

proof fn lemma_node_is_kept(monitor: MonitorView, trace: Seq<Occurrence>, n: int)
    requires
        0 <= n,
        turn_after(
            monitor.after_first(trace, n),
            trace[n].event,
            monitor.after_first(trace, n + 1),
        ),
        monitor.after_first(trace, n).stage.follows_verified() ==> monitor.read_this_turn(
            trace,
            n,
            Node::PdVerified,
            monitor.after_first(trace, n).readings.verified,
        ),
        monitor.after_first(trace, n).stage is IdentifySvid ==> monitor.read_this_turn(
            trace,
            n,
            Node::UsbRealType,
            monitor.after_first(trace, n).readings.usb_type,
        ),
    ensures
        ({
            let before = monitor.after_first(trace, n);
            let after = monitor.after_first(trace, n + 1);
            let attempts = after.stage is Enabling && !(before.stage is Enabling);
            &&& after.stage.follows_verified() || attempts ==> monitor.read_this_turn(
                trace,
                n + 1,
                Node::PdVerified,
                after.readings.verified,
            )
            &&& after.stage is IdentifySvid || attempts ==> monitor.read_this_turn(
                trace,
                n + 1,
                Node::UsbRealType,
                after.readings.usb_type,
            )
            &&& attempts && before.tracker.phase is IdentifyingPublic ==> monitor.read_this_turn(
                trace,
                n + 1,
                Node::AdapterSvid,
                after.readings.adapter_svid,
            )
        }),
{
    reveal(turn_after);
    let before = monitor.after_first(trace, n);
    let after = monitor.after_first(trace, n + 1);
    let attempts = after.stage is Enabling && !(before.stage is Enabling);
    if after.stage.follows_verified() || attempts {
        lemma_turn_goes_on(monitor, trace, n, Node::PdVerified, after.readings.verified);
    }
    if after.stage is IdentifySvid || attempts {
        lemma_turn_goes_on(monitor, trace, n, Node::UsbRealType, after.readings.usb_type);
    }
    if attempts && before.tracker.phase is IdentifyingPublic {
        lemma_turn_goes_on(monitor, trace, n, Node::AdapterSvid, after.readings.adapter_svid);
    }
}

impl MonitorView {
    /// Whether one of some events, that at `n`, makes the monitor enable public PPS
    /// where it may, on nothing but what was read since the last wait.
    #[verifier::opaque]
    pub open spec fn activates(self, trace: Seq<Occurrence>, n: int) -> bool {
        let before = self.after_first(trace, n);
        let read = self.after_first(trace, n + 1).readings;
        &&& 0 <= n < trace.len()
        &&& before.attempts_public(trace[n].event, trace[n].now)
        &&& crate::laws::negotiation::may_enable_public(before.tracker, read, trace[n].now)
        &&& self.read_this_turn(trace, n + 1, Node::PdVerified, read.verified)
        &&& self.read_this_turn(trace, n + 1, Node::UsbRealType, read.usb_type)
        &&& before.tracker.phase is IdentifyingPublic ==> self.read_this_turn(
            trace,
            n + 1,
            Node::AdapterSvid,
            read.adapter_svid,
        )
    }
}

/// In the whole life of a monitor, public PPS is enabled only where it may be, and
/// only on what was read since the last wait.
pub proof fn attempts_rest_on_what_their_turn_read(
    mode: ChargingMode,
    start: Instant,
    trace: Seq<Occurrence>,
    n: int,
)
    requires
        crate::laws::trace::is_timeline(start, trace),
        0 <= n < trace.len(),
        MonitorView::initial(mode).after_first(trace, n).attempts_public(
            trace[n].event,
            trace[n].now,
        ),
    ensures
        MonitorView::initial(mode).activates(trace, n),
{
    reveal(MonitorView::activates);
    let monitor = MonitorView::initial(mode);
    let time = crate::laws::trace::time_after(start, trace.take(n));
    crate::laws::order::initial_monitor_is_well_formed(mode, start);
    crate::laws::trace::timeline_begins_with_timelines(start, trace, n);
    crate::laws::trace::events_lead_from_state_to_state(monitor, start, trace, n);
    lemma_nodes_were_read(mode, start, trace, n);
    attempts_are_approached_by_reading(
        monitor.after_first(trace, n),
        time,
        trace[n].event,
        trace[n].now,
    );
    lemma_node_is_kept(monitor, trace, n);
    crate::laws::negotiation::public_is_enabled_only_where_it_may(
        monitor.after_first(trace, n),
        time,
        trace[n].event,
        trace[n].now,
    );
}

} // verus!
