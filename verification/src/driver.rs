//! The execution driver: entry-point resolution and outcome
//! classification, phrased as an explicit state machine.
//!
//! The driver walks a compiled module through instantiation,
//! initialization, entry-point resolution and the call itself, and
//! collapses whatever happened into a single exit code. The host glue
//! performs the interpreter work and reports each step's outcome back as
//! an event; every decision between the steps is made here.

use vstd::prelude::*;
use vstd::string::StringExecFns;

verus! {

/// The exit code reported when a structural failure aborts the call:
/// a rejected binary, a failed instantiation, or a missing entry point.
pub const FAILURE_EXIT_CODE: i32 = -1;

/// The exit code reported when the guest trapped for a reason other
/// than a deliberate exit.
pub const TRAP_EXIT_CODE: i32 = 1;

/// The two entry-point conventions, in resolution order.
#[derive(Clone, Copy, Debug, PartialEq, Eq)]
pub enum EntryPoint {
    /// A run-once `_start` export: no return value, exit code 0 unless
    /// the call traps.
    Command,
    /// A `main` export returning an explicit integer exit code.
    Reactor,
}

/// The export name of the command convention.
pub open spec fn command_export() -> Seq<char> {
    "_start"@
}

/// The export name of the reactor convention.
pub open spec fn reactor_export() -> Seq<char> {
    "main"@
}

/// Whether some export in the list carries the given name.
pub open spec fn has_export(exports: Seq<String>, name: Seq<char>) -> bool {
    exists|i: int| 0 <= i < exports.len() && exports[i]@ == name
}

/// Which entry point the export list resolves to: the command convention
/// when `_start` is exported, else the reactor convention when `main`
/// is, else none.
pub open spec fn resolved_entry(exports: Seq<String>) -> Option<EntryPoint> {
    if has_export(exports, command_export()) {
        Some(EntryPoint::Command)
    } else if has_export(exports, reactor_export()) {
        Some(EntryPoint::Reactor)
    } else {
        None
    }
}

/// Whether the list holds an export of exactly the given name.
fn contains_export(exports: &Vec<String>, name: &String) -> (r: bool)
    ensures
        r == has_export(exports@, name@),
{
    let mut i: usize = 0;
    while i < exports.len()
        invariant
            i <= exports.len(),
            forall|j: int| 0 <= j < i ==> exports@[j]@ != name@,
        decreases exports.len() - i,
    {
        if exports[i].eq(name) {
            return true;
        }
        i = i + 1;
    }
    false
}

/// Resolve the entry point from the instantiated module's export names:
/// the command convention is preferred, the reactor convention is the
/// fallback, and a module offering neither resolves to nothing.
pub fn resolve_entry_point(exports: &Vec<String>) -> (r: Option<EntryPoint>)
    ensures
        r == resolved_entry(exports@),
{
    let command_name: String = "_start".to_owned();
    if contains_export(exports, &command_name) {
        return Some(EntryPoint::Command);
    }
    let reactor_name: String = "main".to_owned();
    if contains_export(exports, &reactor_name) {
        return Some(EntryPoint::Reactor);
    }
    None
}

/// The diagnostic lines reported for a module with no recognized entry
/// point: a headline, a caption, then one line naming each of the
/// module's actual exports, in order.
pub fn missing_entry_diagnostic(exports: &Vec<String>) -> (r: Vec<String>)
    ensures
        r@.len() == exports@.len() + 2,
        r@[0]@ == "wasmer-ios: No _start or main function found in WASM module"@,
        r@[1]@ == "  Available exports:"@,
        forall|i: int| 0 <= i < exports@.len() ==> (#[trigger] r@[i + 2])@ == "    - "@
            + exports@[i]@,
{
    let mut lines: Vec<String> = Vec::new();
    lines.push("wasmer-ios: No _start or main function found in WASM module".to_owned());
    lines.push("  Available exports:".to_owned());
    let mut i: usize = 0;
    while i < exports.len()
        invariant
            i <= exports@.len(),
            lines@.len() == i + 2,
            lines@[0]@ == "wasmer-ios: No _start or main function found in WASM module"@,
            lines@[1]@ == "  Available exports:"@,
            forall|j: int| 0 <= j < i ==> (#[trigger] lines@[j + 2])@ == "    - "@ + exports@[j]@,
        decreases exports@.len() - i,
    {
        let line = "    - ".to_owned().concat(exports[i].as_str());
        lines.push(line);
        i = i + 1;
    }
    lines
}

/// The marker that a trap diagnostic carries when the guest signalled a
/// deliberate process exit: the bytes of the word "exit".
pub open spec fn exit_marker() -> Seq<u8> {
    seq![0x65u8, 0x78u8, 0x69u8, 0x74u8]
}

/// Whether the diagnostic contains the exit marker anywhere.
pub open spec fn mentions_exit(msg: Seq<u8>) -> bool {
    exists|i: int| 0 <= i && i + 4 <= msg.len() && #[trigger] msg.subrange(i, i + 4) == exit_marker()
}

/// Whether the marker sits at the given position of the diagnostic.
fn marker_at(msg: &[u8], i: usize) -> (r: bool)
    requires
        i + 4 <= msg@.len(),
    ensures
        r == (msg@.subrange(i as int, i + 4 as int) == exit_marker()),
{
    let hit = msg[i] == 0x65u8 && msg[i + 1] == 0x78u8 && msg[i + 2] == 0x69u8 && msg[i + 3]
        == 0x74u8;
    proof {
        let sub = msg@.subrange(i as int, i + 4 as int);
        assert(sub[0] == msg@[i as int]);
        assert(sub[1] == msg@[i + 1 as int]);
        assert(sub[2] == msg@[i + 2 as int]);
        assert(sub[3] == msg@[i + 3 as int]);
        if hit {
            assert(sub =~= exit_marker());
        } else {
            assert(sub != exit_marker());
        }
    }
    hit
}

/// Extract a deliberate-exit code from a trap diagnostic. A diagnostic
/// that mentions an exit is taken as a deliberate process exit and maps
/// to code 0; any other diagnostic yields nothing. This classification
/// cannot recover a non-zero code the guest may have signalled.
pub fn extract_exit_code(msg: &[u8]) -> (r: Option<i32>)
    ensures
        r == (if mentions_exit(msg@) {
            Some(0i32)
        } else {
            None::<i32>
        }),
{
    if msg.len() < 4 {
        return None;
    }
    let n = msg.len();
    let mut i: usize = 0;
    while i <= n - 4
        invariant
            n == msg@.len(),
            n >= 4,
            i <= n - 3,
            forall|j: int| 0 <= j < i ==> #[trigger] msg@.subrange(j, j + 4) != exit_marker(),
        decreases msg.len() - i,
    {
        if marker_at(msg, i) {
            return Some(0);
        }
        i = i + 1;
    }
    proof {
        assert(!mentions_exit(msg@)) by {
            if mentions_exit(msg@) {
                let j = choose|j: int|
                    0 <= j && j + 4 <= msg@.len() && #[trigger] msg@.subrange(j, j + 4)
                        == exit_marker();
                assert(j < i);
            }
        }
    }
    None
}

/// How one call of the entry point ended.
pub enum CallOutcome {
    /// The call returned. The payload is the first integer result, when
    /// the entry point produced one.
    Returned(Option<i32>),
    /// The call raised a trap; the payload is the diagnostic text's
    /// bytes.
    Trapped(Vec<u8>),
}

/// The exit code an entry point's outcome collapses to.
///
/// A command return is success, and a reactor return reports its first
/// integer result, or 0 without one. A trap is classified the same way
/// under either convention: one whose diagnostic mentions an exit is a
/// deliberate process exit (code 0); any other trap is failure (code 1).
pub open spec fn exit_code_spec(entry: EntryPoint, outcome: CallOutcome) -> i32 {
    match entry {
        EntryPoint::Command => match outcome {
            CallOutcome::Returned(_) => 0,
            CallOutcome::Trapped(msg) => if mentions_exit(msg@) {
                0
            } else {
                TRAP_EXIT_CODE
            },
        },
        EntryPoint::Reactor => match outcome {
            CallOutcome::Returned(Some(code)) => code,
            CallOutcome::Returned(None) => 0,
            CallOutcome::Trapped(msg) => if mentions_exit(msg@) {
                0
            } else {
                TRAP_EXIT_CODE
            },
        },
    }
}

/// Collapse an entry point's outcome into the exit code reported to the
/// host.
pub fn exit_code_for(entry: EntryPoint, outcome: &CallOutcome) -> (r: i32)
    ensures
        r == exit_code_spec(entry, *outcome),
{
    match entry {
        EntryPoint::Command => match outcome {
            CallOutcome::Returned(_) => 0,
            CallOutcome::Trapped(msg) => match extract_exit_code(msg.as_slice()) {
                Some(code) => code,
                None => TRAP_EXIT_CODE,
            },
        },
        EntryPoint::Reactor => match outcome {
            CallOutcome::Returned(Some(code)) => *code,
            CallOutcome::Returned(None) => 0,
            CallOutcome::Trapped(msg) => match extract_exit_code(msg.as_slice()) {
                Some(code) => code,
                None => TRAP_EXIT_CODE,
            },
        },
    }
}

/// Law: traps are classified without regard to the entry convention — a
/// diagnostic that indicates a deliberate exit maps to code 0, and any
/// other trap to code 1, under either convention.
pub proof fn lemma_trap_classification(entry: EntryPoint, msg: Vec<u8>)
    ensures
        mentions_exit(msg@) ==> exit_code_spec(entry, CallOutcome::Trapped(msg)) == 0,
        !mentions_exit(msg@) ==> exit_code_spec(entry, CallOutcome::Trapped(msg))
            == TRAP_EXIT_CODE,
{
}

/// Where the driver stands between two steps of a run.
pub enum DriverPhase {
    /// The module is compiled but not yet instantiated.
    Uninstantiated,
    /// The module is instantiated against the session's imports.
    Instantiated,
    /// The instance is bound back into the session; calls are possible.
    Initialized,
    /// The entry point is resolved and about to be, or being, called.
    Running(EntryPoint),
    /// The run is over; the payload is the exit code to report.
    Finished(i32),
}

/// What the host glue reports back after performing one step.
pub enum DriverEvent {
    /// Instantiation finished; the payload says whether it succeeded.
    InstantiationDone(bool),
    /// Binding the instance into the session finished; the payload says
    /// whether it succeeded.
    InitializationDone(bool),
    /// The instantiated module's export names, for entry resolution.
    ExportsListed(Vec<String>),
    /// The entry point returned; the payload is its first integer
    /// result, when there is one.
    EntryReturned(Option<i32>),
    /// The entry point trapped; the payload is the diagnostic bytes.
    EntryTrapped(Vec<u8>),
}

/// Whether an event is the one the phase is waiting for.
pub open spec fn expects(phase: DriverPhase, event: DriverEvent) -> bool {
    match phase {
        DriverPhase::Uninstantiated => event is InstantiationDone,
        DriverPhase::Instantiated => event is InitializationDone,
        DriverPhase::Initialized => event is ExportsListed,
        DriverPhase::Running(_) => event is EntryReturned || event is EntryTrapped,
        DriverPhase::Finished(_) => false,
    }
}

/// The phase the driver moves to on an event.
pub open spec fn advanced(phase: DriverPhase, event: DriverEvent) -> DriverPhase {
    match (phase, event) {
        (DriverPhase::Uninstantiated, DriverEvent::InstantiationDone(ok)) => if ok {
            DriverPhase::Instantiated
        } else {
            DriverPhase::Finished(FAILURE_EXIT_CODE)
        },
        (DriverPhase::Instantiated, DriverEvent::InitializationDone(ok)) => if ok {
            DriverPhase::Initialized
        } else {
            DriverPhase::Finished(FAILURE_EXIT_CODE)
        },
        (DriverPhase::Initialized, DriverEvent::ExportsListed(exports)) => match resolved_entry(
            exports@,
        ) {
            Some(entry) => DriverPhase::Running(entry),
            None => DriverPhase::Finished(FAILURE_EXIT_CODE),
        },
        (DriverPhase::Running(entry), DriverEvent::EntryReturned(result)) => DriverPhase::Finished(
            exit_code_spec(entry, CallOutcome::Returned(result)),
        ),
        (DriverPhase::Running(entry), DriverEvent::EntryTrapped(msg)) => DriverPhase::Finished(
            exit_code_spec(entry, CallOutcome::Trapped(msg)),
        ),
        (p, _) => p,
    }
}

/// Advance the driver one step: consume the event the current phase
/// waits for and move to the phase the transition table names. A failed
/// instantiation or initialization, and a module with no recognized
/// entry point, finish the run with the failure sentinel; a returned or
/// trapped call finishes it with the classified exit code.
pub fn advance(phase: DriverPhase, event: DriverEvent) -> (r: DriverPhase)
    requires
        expects(phase, event),
    ensures
        r == advanced(phase, event),
{
    match (phase, event) {
        (DriverPhase::Uninstantiated, DriverEvent::InstantiationDone(ok)) => {
            if ok {
                DriverPhase::Instantiated
            } else {
                DriverPhase::Finished(FAILURE_EXIT_CODE)
            }
        },
        (DriverPhase::Instantiated, DriverEvent::InitializationDone(ok)) => {
            if ok {
                DriverPhase::Initialized
            } else {
                DriverPhase::Finished(FAILURE_EXIT_CODE)
            }
        },
        (DriverPhase::Initialized, DriverEvent::ExportsListed(exports)) => {
            match resolve_entry_point(&exports) {
                Some(entry) => DriverPhase::Running(entry),
                None => DriverPhase::Finished(FAILURE_EXIT_CODE),
            }
        },
        (DriverPhase::Running(entry), DriverEvent::EntryReturned(result)) => {
            DriverPhase::Finished(exit_code_for(entry, &CallOutcome::Returned(result)))
        },
        (DriverPhase::Running(entry), DriverEvent::EntryTrapped(msg)) => {
            DriverPhase::Finished(exit_code_for(entry, &CallOutcome::Trapped(msg)))
        },
        (p, _) => p,
    }
}

/// Law: a module exporting the command entry point that returns normally
/// reports exit code 0, whatever other exports stand beside it.
pub proof fn lemma_command_return_is_zero(exports: Seq<String>, result: Option<i32>)
    requires
        has_export(exports, command_export()),
    ensures
        resolved_entry(exports) == Some(EntryPoint::Command),
        exit_code_spec(EntryPoint::Command, CallOutcome::Returned(result)) == 0,
{
}

/// Law: a module without the command entry point whose reactor entry
/// point returns value `v` reports exactly `v`, and reports 0 when the
/// call produces no integer result.
pub proof fn lemma_reactor_return_value(exports: Seq<String>, v: i32)
    requires
        !has_export(exports, command_export()),
        has_export(exports, reactor_export()),
    ensures
        resolved_entry(exports) == Some(EntryPoint::Reactor),
        exit_code_spec(EntryPoint::Reactor, CallOutcome::Returned(Some(v))) == v,
        exit_code_spec(EntryPoint::Reactor, CallOutcome::Returned(None)) == 0,
{
}

/// Law: a finished run is final — no further event is expected, and no
/// event moves the driver out of the finished phase or alters its exit
/// code.
pub proof fn lemma_finished_is_final(code: i32, event: DriverEvent)
    ensures
        !expects(DriverPhase::Finished(code), event),
        advanced(DriverPhase::Finished(code), event) == DriverPhase::Finished(code),
{
}

/// Law: a module exporting neither entry point finishes the run with the
/// failure sentinel.
pub proof fn lemma_missing_entry_fails(exports: Vec<String>)
    requires
        !has_export(exports@, command_export()),
        !has_export(exports@, reactor_export()),
    ensures
        resolved_entry(exports@) is None,
        advanced(DriverPhase::Initialized, DriverEvent::ExportsListed(exports))
            == DriverPhase::Finished(FAILURE_EXIT_CODE),
{
}

} // verus!
