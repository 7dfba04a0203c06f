//! The fixed control sequence of the GPIO toggle command.
//!
//! The sequencer is a state machine: [`step`] maps the current [`State`] and
//! the latest [`Event`] from the hardware layer to the next state and a
//! [`Directive`] — either an [`Action`] to perform against a foreign
//! capability, a normal finish, or a permanent halt. An unverified shim
//! performs each action and feeds the outcome back in; [`run`] is the same
//! loop driven by a [`MockHal`], so the whole protocol — banner print, pin
//! configuration, ten toggles with a delay after each set, fail-stop on any
//! nonzero status — is verified end to end over the emitted action trace.

use vstd::prelude::*;

use crate::bounded::BoundedString;
use crate::bounded::CAPACITY;
use crate::wrapper::check_status;
use crate::wrapper::mock_ms_to_ticks;
use crate::wrapper::ticks_model;
use crate::WrapperError;

verus! {

/// The one GPIO line this command drives.
pub const LED_PIN: u8 = 11;

/// A request to perform one foreign capability call.
#[derive(Debug)]
pub enum Action {
    /// Print a null-terminated message on the serial console.
    Print { msg: BoundedString },
    /// Configure a pin for output with the given pull-up/pull-down flags.
    EnableOutput { pin: u8, pullup: u8, pulldown: u8 },
    /// Drive a pin to a logical level (0 asserted, 1 deasserted).
    SetOutput { pin: u8, level: u8 },
    /// Convert milliseconds to platform ticks.
    ConvertTicks { ms: u32 },
    /// Block the execution context for the given tick count.
    Delay { ticks: u32 },
}

/// Mathematical image of an [`Action`]: the same request over plain values.
pub enum ActionModel {
    Print { msg: Seq<u8> },
    EnableOutput { pin: u8, pullup: u8, pulldown: u8 },
    SetOutput { pin: u8, level: u8 },
    ConvertTicks { ms: u32 },
    Delay { ticks: u32 },
}

impl View for Action {
    type V = ActionModel;

    open spec fn view(&self) -> ActionModel {
        match self {
            Action::Print { msg } => ActionModel::Print { msg: msg@ },
            Action::EnableOutput { pin, pullup, pulldown } => ActionModel::EnableOutput {
                pin: *pin,
                pullup: *pullup,
                pulldown: *pulldown,
            },
            Action::SetOutput { pin, level } => ActionModel::SetOutput {
                pin: *pin,
                level: *level,
            },
            Action::ConvertTicks { ms } => ActionModel::ConvertTicks { ms: *ms },
            Action::Delay { ticks } => ActionModel::Delay { ticks: *ticks },
        }
    }
}

/// What the machine asks of its driver after a step.
#[derive(Debug)]
pub enum Directive {
    /// Perform this foreign call and report its outcome.
    Emit(Action),
    /// The sequence is complete: return to the host shell.
    Finish,
    /// Park the execution context forever.
    Halt,
}

/// Mathematical image of a [`Directive`].
pub enum DirectiveModel {
    Emit(ActionModel),
    Finish,
    Halt,
}

impl View for Directive {
    type V = DirectiveModel;

    open spec fn view(&self) -> DirectiveModel {
        match self {
            Directive::Emit(a) => DirectiveModel::Emit(a@),
            Directive::Finish => DirectiveModel::Finish,
            Directive::Halt => DirectiveModel::Halt,
        }
    }
}

/// The outcome of the foreign call the machine last asked for.
#[derive(Clone, Copy, Debug, PartialEq, Eq, Structural)]
pub enum Event {
    /// Initial invocation by the host shell; no call has run yet.
    Go,
    /// A status-returning call (print, enable-output, set-output) finished.
    Status(i32),
    /// The tick conversion finished with this tick count.
    Ticks(u32),
    /// The delay finished.
    Elapsed,
}

/// Where the machine stands in the protocol.
#[derive(Clone, Copy, Debug, PartialEq, Eq, Structural)]
pub enum State {
    /// Nothing has run yet.
    Start,
    /// The banner print was requested; its status is awaited (and ignored).
    BannerSent,
    /// The enable-output call was requested; its status is awaited.
    ConfigSent,
    /// The set-output call of toggle iteration `i` was requested.
    SetSent { i: u8 },
    /// The tick conversion of iteration `i` was requested.
    TicksRequested { i: u8 },
    /// The delay of iteration `i` was requested.
    Delaying { i: u8 },
    /// All ten iterations finished; control returns to the host shell.
    Done,
    /// A failure occurred; the fallback diagnostic print was requested.
    Faulted,
    /// Terminal parked state: nothing further ever executes.
    Parked,
}

impl State {
    /// Toggle iteration counters stay below ten.
    pub open spec fn wf(&self) -> bool {
        match *self {
            State::SetSent { i } => i < 10,
            State::TicksRequested { i } => i < 10,
            State::Delaying { i } => i < 10,
            _ => true,
        }
    }
}

/// The banner message, `Hello from Rust!`, as bytes.
pub open spec fn banner_bytes() -> Seq<u8> {
    seq![72u8, 101u8, 108u8, 108u8, 111u8, 32u8, 102u8, 114u8, 111u8, 109u8, 32u8, 82u8, 117u8,
        115u8, 116u8, 33u8]
}

/// The fallback diagnostic, `Fault: system halted`, as bytes.
pub open spec fn fallback_bytes() -> Seq<u8> {
    seq![70u8, 97u8, 117u8, 108u8, 116u8, 58u8, 32u8, 115u8, 121u8, 115u8, 116u8, 101u8, 109u8,
        32u8, 104u8, 97u8, 108u8, 116u8, 101u8, 100u8]
}

/// A message as the foreign console receives it: null-terminated.
pub open spec fn terminated(m: Seq<u8>) -> Seq<u8> {
    m.push(0u8)
}

/// The banner message as an owned byte vector.
pub fn banner_text() -> (r: Vec<u8>)
    ensures
        r@ == banner_bytes(),
{
    let r: Vec<u8> = vec![72u8, 101u8, 108u8, 108u8, 111u8, 32u8, 102u8, 114u8, 111u8, 109u8,
        32u8, 82u8, 117u8, 115u8, 116u8, 33u8];
    proof {
        assert(r@ =~= banner_bytes());
    }
    r
}

/// The fallback diagnostic as an owned byte vector.
pub fn fallback_text() -> (r: Vec<u8>)
    ensures
        r@ == fallback_bytes(),
{
    let r: Vec<u8> = vec![70u8, 97u8, 117u8, 108u8, 116u8, 58u8, 32u8, 115u8, 121u8, 115u8,
        116u8, 101u8, 109u8, 32u8, 104u8, 97u8, 108u8, 116u8, 101u8, 100u8];
    proof {
        assert(r@ =~= fallback_bytes());
    }
    r
}

/// Safe console writing, short of the foreign call itself: marshals `text`
/// into a fresh null-terminated bounded buffer and wraps it as the print
/// request. Fails with `Overflow` — and builds no request at all, so the
/// foreign capability cannot be invoked — iff the text plus terminator
/// exceeds the buffer capacity.
pub fn prepare_print(text: &[u8]) -> (r: Result<Action, WrapperError>)
    ensures
        r is Ok <==> text@.len() + 1 <= CAPACITY,
        r matches Ok(a) ==> a@ == (ActionModel::Print { msg: terminated(text@) }),
        r matches Err(e) ==> e == WrapperError::Overflow,
{
    match BoundedString::from_text(text) {
        Ok(mut buf) => {
            match buf.append_terminator() {
                Ok(()) => Ok(Action::Print { msg: buf }),
                // from_text left room for the terminator
                Err(_) => vstd::pervasive::unreached(),
            }
        },
        Err(_) => Err(WrapperError::Overflow),
    }
}

/// The banner print request; the banner always fits the buffer.
fn banner_print() -> (a: Action)
    ensures
        a@ == (ActionModel::Print { msg: terminated(banner_bytes()) }),
{
    let text = banner_text();
    match prepare_print(text.as_slice()) {
        Ok(a) => a,
        Err(_) => vstd::pervasive::unreached(),
    }
}

/// The fallback diagnostic print request; it always fits the buffer.
fn fallback_print() -> (a: Action)
    ensures
        a@ == (ActionModel::Print { msg: terminated(fallback_bytes()) }),
{
    let text = fallback_text();
    match prepare_print(text.as_slice()) {
        Ok(a) => a,
        Err(_) => vstd::pervasive::unreached(),
    }
}

/// The transition every failure takes: request the fallback diagnostic print,
/// then park.
pub open spec fn fault_transition() -> (State, DirectiveModel) {
    (State::Faulted, DirectiveModel::Emit(ActionModel::Print { msg: terminated(fallback_bytes()) }))
}

/// The transition relation of the sequencer. Status codes are interpreted by
/// the zero-is-success convention everywhere but after a print, whose status
/// is an ignored diagnostic; an event that the current state cannot expect is
/// an unrecoverable violation and faults.
pub open spec fn next_spec(s: State, e: Event) -> (State, DirectiveModel) {
    match (s, e) {
        (State::Start, Event::Go) => (
            State::BannerSent,
            DirectiveModel::Emit(ActionModel::Print { msg: terminated(banner_bytes()) }),
        ),
        (State::BannerSent, Event::Status(_)) => (
            State::ConfigSent,
            DirectiveModel::Emit(
                ActionModel::EnableOutput { pin: LED_PIN, pullup: 0, pulldown: 0 },
            ),
        ),
        (State::ConfigSent, Event::Status(code)) => if code == 0 {
            (
                State::SetSent { i: 0 },
                DirectiveModel::Emit(ActionModel::SetOutput { pin: LED_PIN, level: 0 }),
            )
        } else {
            fault_transition()
        },
        (State::SetSent { i }, Event::Status(code)) => if code == 0 {
            (
                State::TicksRequested { i },
                DirectiveModel::Emit(ActionModel::ConvertTicks { ms: 1000 }),
            )
        } else {
            fault_transition()
        },
        (State::TicksRequested { i }, Event::Ticks(t)) => (
            State::Delaying { i },
            DirectiveModel::Emit(ActionModel::Delay { ticks: t }),
        ),
        (State::Delaying { i }, Event::Elapsed) => if i < 9 {
            (
                State::SetSent { i: (i + 1) as u8 },
                DirectiveModel::Emit(
                    ActionModel::SetOutput { pin: LED_PIN, level: ((i + 1) % 2) as u8 },
                ),
            )
        } else {
            (State::Done, DirectiveModel::Finish)
        },
        (State::Done, _) => (State::Done, DirectiveModel::Finish),
        (State::Faulted, _) => (State::Parked, DirectiveModel::Halt),
        (State::Parked, _) => (State::Parked, DirectiveModel::Halt),
        _ => fault_transition(),
    }
}

/// One step of the sequencer: from the current state and the latest foreign
/// outcome to the next state and what to do, exactly as [`next_spec`] says.
pub fn step(s: State, e: Event) -> (r: (State, Directive))
    requires
        s.wf(),
    ensures
        r.0 == next_spec(s, e).0,
        r.1@ == next_spec(s, e).1,
        r.0.wf(),
{
    match (s, e) {
        (State::Start, Event::Go) => (State::BannerSent, Directive::Emit(banner_print())),
        (State::BannerSent, Event::Status(_)) => (
            State::ConfigSent,
            Directive::Emit(Action::EnableOutput { pin: LED_PIN, pullup: 0, pulldown: 0 }),
        ),
        (State::ConfigSent, Event::Status(code)) => match check_status(code) {
            Ok(()) => (
                State::SetSent { i: 0 },
                Directive::Emit(Action::SetOutput { pin: LED_PIN, level: 0 }),
            ),
            Err(_) => (State::Faulted, Directive::Emit(fallback_print())),
        },
        (State::SetSent { i }, Event::Status(code)) => match check_status(code) {
            Ok(()) => (
                State::TicksRequested { i },
                Directive::Emit(Action::ConvertTicks { ms: 1000 }),
            ),
            Err(_) => (State::Faulted, Directive::Emit(fallback_print())),
        },
        (State::TicksRequested { i }, Event::Ticks(t)) => (
            State::Delaying { i },
            Directive::Emit(Action::Delay { ticks: t }),
        ),
        (State::Delaying { i }, Event::Elapsed) => if i < 9 {
            (
                State::SetSent { i: i + 1 },
                Directive::Emit(Action::SetOutput { pin: LED_PIN, level: (i + 1) % 2 }),
            )
        } else {
            (State::Done, Directive::Finish)
        },
        (State::Done, _) => (State::Done, Directive::Finish),
        (State::Faulted, _) => (State::Parked, Directive::Halt),
        (State::Parked, _) => (State::Parked, Directive::Halt),
        _ => (State::Faulted, Directive::Emit(fallback_print())),
    }
}

/// Once the fault handler has parked the machine, no sequencer logic runs
/// again: from `Faulted` every event leads to `Parked` with a halt, and from
/// `Parked` every event stays in `Parked` with a halt.
pub proof fn lemma_parked_is_terminal(e: Event)
    ensures
        next_spec(State::Parked, e) == (State::Parked, DirectiveModel::Halt),
        next_spec(State::Faulted, e) == (State::Parked, DirectiveModel::Halt),
{
}

/// A stand-in hardware layer for driving the sequencer without a device: the
/// statuses each capability reports and the mock tick rate.
pub struct MockHal {
    /// Status every console print reports.
    pub print_status: i32,
    /// Status the enable-output call reports.
    pub enable_status: i32,
    /// Status the k-th set-output call reports; ten entries.
    pub set_statuses: Vec<i32>,
    /// Ticks per millisecond of the mock tick conversion.
    pub tick_factor: u32,
}

/// How an invocation of the sequencer ended.
#[derive(Clone, Copy, Debug, PartialEq, Eq, Structural)]
pub enum Outcome {
    /// The full toggle sequence ran; control returned to the host shell.
    Completed,
    /// A failure halted the sequence; the execution context is parked.
    Parked,
}

/// The models of a sequence of emitted actions.
pub open spec fn models_of(s: Seq<Action>) -> Seq<ActionModel> {
    s.map_values(|a: Action| a@)
}

proof fn lemma_models_push(s: Seq<Action>, a: Action)
    ensures
        models_of(s.push(a)) == models_of(s).push(a@),
{
    assert(models_of(s.push(a)) =~= models_of(s).push(a@));
}

/// The two actions every invocation emits first: the banner print and the
/// enable-output call.
pub open spec fn opening_models() -> Seq<ActionModel> {
    seq![
        ActionModel::Print { msg: terminated(banner_bytes()) },
        ActionModel::EnableOutput { pin: LED_PIN, pullup: 0, pulldown: 0 },
    ]
}

/// The model of toggle iteration `i`'s set-output action: level `i % 2`.
pub open spec fn set_model(i: int) -> ActionModel {
    ActionModel::SetOutput { pin: LED_PIN, level: if i % 2 == 0 { 0u8 } else { 1u8 } }
}

/// The actions of the first `n` toggle iterations when every set-output call
/// succeeds and the tick conversion yields `t`: for each iteration a
/// set-output, the conversion of 1000 ms, and a delay of `t` ticks.
pub open spec fn toggle_models(t: u32, n: int) -> Seq<ActionModel>
    decreases n,
{
    if n <= 0 {
        Seq::empty()
    } else {
        toggle_models(t, n - 1) + seq![
            set_model(n - 1),
            ActionModel::ConvertTicks { ms: 1000 },
            ActionModel::Delay { ticks: t },
        ]
    }
}

/// The first index at or after `i` whose set-output status is nonzero; ten if
/// all ten succeed.
pub open spec fn first_failure(st: Seq<i32>, i: int) -> int
    decreases 10 - i,
{
    if i < 0 || i >= 10 {
        10
    } else if st[i] != 0 {
        i
    } else {
        first_failure(st, i + 1)
    }
}

proof fn lemma_first_failure_from(st: Seq<i32>, i: int)
    requires
        0 <= i <= 10,
        forall|j: int| 0 <= j < i ==> st[j] == 0,
    ensures
        first_failure(st, 0) == first_failure(st, i),
    decreases i,
{
    if i > 0 {
        lemma_first_failure_from(st, i - 1);
    }
}

fn take_emitted(d: Directive) -> (a: Action)
    requires
        d@ is Emit,
    ensures
        DirectiveModel::Emit(a@) == d@,
{
    match d {
        Directive::Emit(a) => a,
        _ => vstd::pervasive::unreached(),
    }
}

/// One whole invocation of the entry point, driven against `hal` in place of
/// the real hardware: the banner is printed, the pin is configured, and on
/// success the ten toggles run, each set-output followed by one tick
/// conversion of 1000 ms and one delay of the converted value. Any nonzero
/// enable-output or set-output status halts the sequence right there: the
/// fallback diagnostic is printed once and the machine parks. The returned
/// trace holds every emitted action in order.
pub fn run(hal: &MockHal) -> (r: (Vec<Action>, Outcome))
    requires
        hal.set_statuses@.len() == 10,
    ensures
        ({
            let t = ticks_model(1000, hal.tick_factor);
            let k = first_failure(hal.set_statuses@, 0);
            let fallback = ActionModel::Print { msg: terminated(fallback_bytes()) };
            &&& hal.enable_status != 0 ==> r.1 == Outcome::Parked
                && models_of(r.0@) == opening_models() + seq![fallback]
            &&& hal.enable_status == 0 && k == 10 ==> r.1 == Outcome::Completed
                && models_of(r.0@) == opening_models() + toggle_models(t, 10)
            &&& hal.enable_status == 0 && k < 10 ==> r.1 == Outcome::Parked
                && models_of(r.0@) == opening_models() + toggle_models(t, k)
                    + seq![set_model(k), fallback]
        }),
{
    let mut trace: Vec<Action> = Vec::new();
    proof {
        assert(models_of(trace@) =~= Seq::<ActionModel>::empty());
    }
    let (s, d) = step(State::Start, Event::Go);
    proof {
        lemma_models_push(trace@, d->Emit_0);
    }
    trace.push(take_emitted(d));
    let (s, d) = step(s, Event::Status(hal.print_status));
    proof {
        lemma_models_push(trace@, d->Emit_0);
    }
    trace.push(take_emitted(d));
    proof {
        assert(models_of(trace@) =~= opening_models());
    }
    let (s, d) = step(s, Event::Status(hal.enable_status));
    if hal.enable_status != 0 {
        proof {
            lemma_models_push(trace@, d->Emit_0);
        }
        trace.push(take_emitted(d));
        let _ = step(s, Event::Status(hal.print_status));
        proof {
            assert(models_of(trace@) =~= opening_models() + seq![
                ActionModel::Print { msg: terminated(fallback_bytes()) },
            ]);
        }
        return (trace, Outcome::Parked);
    }
    let ticks = mock_ms_to_ticks(1000, hal.tick_factor);
    let mut state = s;
    let mut pending = d;
    let mut i: usize = 0;
    while i < 10
        invariant
            hal.set_statuses@.len() == 10,
            hal.enable_status == 0,
            ticks == ticks_model(1000, hal.tick_factor),
            0 <= i <= 10,
            forall|j: int| 0 <= j < i ==> hal.set_statuses@[j] == 0,
            i < 10 ==> state == (State::SetSent { i: i as u8 })
                && pending@ == DirectiveModel::Emit(set_model(i as int)),
            models_of(trace@) == opening_models() + toggle_models(ticks, i as int),
        decreases 10 - i,
    {
        proof {
            lemma_models_push(trace@, pending->Emit_0);
        }
        trace.push(take_emitted(pending));
        let code = hal.set_statuses[i];
        let (s1, d1) = step(state, Event::Status(code));
        if code != 0 {
            proof {
                lemma_models_push(trace@, d1->Emit_0);
            }
            trace.push(take_emitted(d1));
            let _ = step(s1, Event::Status(hal.print_status));
            proof {
                lemma_first_failure_from(hal.set_statuses@, i as int);
                assert(first_failure(hal.set_statuses@, 0) == i as int);
                assert(models_of(trace@) =~= opening_models() + toggle_models(ticks, i as int)
                    + seq![
                    set_model(i as int),
                    ActionModel::Print { msg: terminated(fallback_bytes()) },
                ]);
            }
            return (trace, Outcome::Parked);
        }
        proof {
            lemma_models_push(trace@, d1->Emit_0);
        }
        trace.push(take_emitted(d1));
        let (s2, d2) = step(s1, Event::Ticks(ticks));
        proof {
            lemma_models_push(trace@, d2->Emit_0);
        }
        trace.push(take_emitted(d2));
        let (s3, d3) = step(s2, Event::Elapsed);
        proof {
            assert(models_of(trace@) =~= opening_models() + toggle_models(
                ticks,
                i as int + 1,
            ));
        }
        state = s3;
        pending = d3;
        i = i + 1;
    }
    proof {
        lemma_first_failure_from(hal.set_statuses@, 10);
    }
    (trace, Outcome::Completed)
}

proof fn lemma_toggle_models_shape(t: u32, n: int)
    requires
        0 <= n <= 10,
    ensures
        toggle_models(t, n).len() == 3 * n,
        forall|i: int| 0 <= i < n ==> #[trigger] toggle_models(t, n)[3 * i] == set_model(i),
        forall|i: int| 0 <= i < n ==> #[trigger] toggle_models(t, n)[3 * i + 1]
            == (ActionModel::ConvertTicks { ms: 1000 }),
        forall|i: int| 0 <= i < n ==> #[trigger] toggle_models(t, n)[3 * i + 2]
            == (ActionModel::Delay { ticks: t }),
    decreases n,
{
    if n > 0 {
        lemma_toggle_models_shape(t, n - 1);
    }
}

/// Across the ten toggle iterations the set-output levels are exactly
/// 0,1,0,1,0,1,0,1,0,1 — level `i % 2` at iteration `i` — and each set-output
/// is followed by exactly one conversion of 1000 ms and one delay of the
/// converted tick value `t`.
pub proof fn lemma_toggle_pattern(t: u32)
    ensures
        toggle_models(t, 10).len() == 30,
        forall|i: int| 0 <= i < 10 ==> #[trigger] toggle_models(t, 10)[3 * i]
            == (ActionModel::SetOutput {
            pin: LED_PIN,
            level: if i % 2 == 0 { 0u8 } else { 1u8 },
        }),
        forall|i: int| 0 <= i < 10 ==> #[trigger] toggle_models(t, 10)[3 * i + 1]
            == (ActionModel::ConvertTicks { ms: 1000 }),
        forall|i: int| 0 <= i < 10 ==> #[trigger] toggle_models(t, 10)[3 * i + 2]
            == (ActionModel::Delay { ticks: t }),
{
    lemma_toggle_models_shape(t, 10);
}

} // verus!
