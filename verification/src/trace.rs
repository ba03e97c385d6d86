//! What holds of every run of the session engine, whatever the parser, the
//! compiler and the runtime answer.

use crate::repl::{
    accepts, advance, step, unit_file, ActionView, Event, Goal, Phase, ReplView, QUIT, TYPE,
};
use crate::source::{
    fn_names_differ, lemma_with_fn_differ, lemma_with_var_differ, var_names_differ, var_place,
    SessionView, VariableView,
};
use crate::text::trimmed;
use vstd::prelude::*;

verus! {

/// Whether every variable of the session has a slot below `next_slot`.
pub open spec fn slots_below(s: SessionView, next_slot: int) -> bool {
    forall|i: int| 0 <= i < s.vars.len() ==> 0 <= (#[trigger] s.vars[i]).index < next_slot
}

/// Whether no two functions and no two variables of the session have the
/// same name.
pub open spec fn names_differ(s: SessionView) -> bool {
    fn_names_differ(s.fns) && var_names_differ(s.vars)
}

/// What holds of the engine in every state that it reaches.
pub open spec fn inv(r: ReplView) -> bool {
    &&& 0 <= r.turn
    &&& 0 <= r.next_slot
    &&& 0 <= r.item <= r.items.len()
    &&& names_differ(r.session)
    &&& names_differ(r.saved)
    &&& slots_below(r.session, r.next_slot)
    &&& slots_below(r.saved, r.next_slot)
    &&& r.saved.imports == r.session.imports
    &&& r.saved.user_import == r.session.user_import
    &&& r.phase == Phase::Parsing ==> r.item == 0
    &&& r.phase != Phase::Idle && r.phase != Phase::Parsing ==> {
        &&& r.type_query ==> r.item == r.items.len()
        &&& r.phase != Phase::Saying ==> (r.type_query <==> r.goal == Goal::Query)
        &&& r.phase == Phase::Running ==> r.goal == Goal::Evaluate || r.goal == Goal::Bind
        &&& r.phase == Phase::Measuring ==> r.goal == Goal::Bind
        &&& r.phase == Phase::Typing ==> r.goal == Goal::Query || r.goal == Goal::Bind
        &&& r.phase == Phase::Running || r.phase == Phase::Measuring || r.phase == Phase::Typing
            ==> r.unit is Some
    }
}

proof fn lemma_advance_inv(r: ReplView)
    requires
        inv(r),
        !r.type_query || r.item == r.items.len(),
    ensures
        inv(advance(r).0),
        r.type_query ==> advance(r).0.session == r.session && advance(r).0.phase == Phase::Idle,
        advance(r).0.saved == r.saved,
        advance(r).0.next_slot == r.next_slot,
        advance(r).0.turn == r.turn,
        advance(r).0.type_query == r.type_query,
{
    if r.item < r.items.len() {
        match r.items[r.item] {
            crate::parser::ItemView::FunctionDeclaration { name, params, head, body } => {
                let code = crate::source::fn_text_with_lets(r.session.vars, params, head, body);
                lemma_with_fn_differ(r.session.fns, crate::source::FunctionView { name, code });
            },
            _ => {},
        }
    }
}

/// Every step keeps what holds of the engine.
pub proof fn lemma_step_inv(r: ReplView, event: Event)
    requires
        inv(r),
    ensures
        inv(step(r, event).0),
{
    if accepts(r, event) {
        match event {
            Event::Line(line) => {},
            Event::Parsed(items) => {
                let found = crate::parser::items_of(items@, r.input);
                let kept = ReplView { saved: r.session, items: found, ..r };
                if !r.type_query {
                    lemma_advance_inv(kept);
                }
            },
            Event::ParseFailed => {},
            Event::Compiled(names) => {
                crate::gleam::lemma_name_place(
                    names.deep_view(),
                    crate::repl::unit_name(r.turn, r.item),
                );
            },
            Event::CompileFailed => {},
            Event::StoreLength(length) => {
                if length <= r.next_slot {
                    lemma_advance_inv(r);
                }
            },
            Event::FunctionType(ty) => {
                if r.goal != Goal::Query {
                    let var = VariableView {
                        name: r.name,
                        index: r.next_slot,
                        type_: crate::gleam::shown(ty),
                    };
                    lemma_with_var_differ(r.session.vars, var);
                    crate::source::lemma_var_place(r.session.vars, var.name);
                    let session = SessionView {
                        vars: crate::source::with_var(r.session.vars, var),
                        ..r.session
                    };
                    let next = ReplView { session, next_slot: r.next_slot + 1, ..r };
                    assert(slots_below(session, r.next_slot + 1));
                    assert(slots_below(r.saved, r.next_slot + 1));
                    lemma_advance_inv(next);
                }
            },
            Event::Done => {
                if r.phase == Phase::Saying {
                    lemma_advance_inv(r);
                } else if r.phase == Phase::Cleaning {
                    if r.unit is Some && r.goal == Goal::Check {
                        lemma_advance_inv(r);
                    }
                } else if r.phase == Phase::Running {
                    if r.goal != Goal::Bind {
                        lemma_advance_inv(r);
                    }
                }
            },
        }
    }
}

/// A new session is in order.
pub proof fn lemma_initial_inv(user_import: Option<Seq<char>>)
    ensures
        inv(crate::repl::initial(user_import)),
{
}

/// Whether the turn and item of `a` come before those of `b`, or are the
/// same.
pub open spec fn not_after(a: ReplView, b: ReplView) -> bool {
    a.turn < b.turn || (a.turn == b.turn && a.item <= b.item)
}

/// The counters only grow, and what is imported stays.
///
/// Whatever happens, and also where a turn fails: the number of the turn and
/// the next slot never fall, so that no slot is handed out twice; within a
/// turn the number of the item never falls; the imports of the session stay
/// what they were made with. Where the engine asks to write a unit, the
/// unit is a new one: it is named for the turn and the item, and the number
/// of the item has just grown.
pub proof fn lemma_step_counts(r: ReplView, event: Event)
    requires
        inv(r),
    ensures
        not_after(r, step(r, event).0),
        r.next_slot <= step(r, event).0.next_slot,
        step(r, event).0.session.imports == r.session.imports,
        step(r, event).0.session.user_import == r.session.user_import,
        step(r, event).1 matches ActionView::WriteSource { file, text } ==> {
            &&& file == unit_file(step(r, event).0.turn, step(r, event).0.item)
            &&& !not_after(step(r, event).0, r)
        },
{
    if accepts(r, event) {
        match event {
            Event::Parsed(items) => {
                let found = crate::parser::items_of(items@, r.input);
                lemma_advance_counts(ReplView { saved: r.session, items: found, ..r });
            },
            Event::StoreLength(length) => {
                lemma_advance_counts(r);
            },
            Event::FunctionType(ty) => {
                let var = VariableView {
                    name: r.name,
                    index: r.next_slot,
                    type_: crate::gleam::shown(ty),
                };
                let session = SessionView {
                    vars: crate::source::with_var(r.session.vars, var),
                    ..r.session
                };
                lemma_advance_counts(ReplView { session, next_slot: r.next_slot + 1, ..r });
            },
            Event::Done => {
                lemma_advance_counts(r);
            },
            _ => {},
        }
    }
}

proof fn lemma_advance_counts(r: ReplView)
    ensures
        advance(r).0.turn == r.turn,
        advance(r).0.next_slot == r.next_slot,
        advance(r).0.session.imports == r.session.imports,
        advance(r).0.session.user_import == r.session.user_import,
        0 <= r.item <= r.items.len() ==> r.item <= advance(r).0.item,
        advance(r).1 matches ActionView::WriteSource { file, text } ==> {
            &&& file == unit_file(advance(r).0.turn, advance(r).0.item)
            &&& r.item < advance(r).0.item
        },
{
}

proof fn lemma_trace_inv(r: ReplView, events: Seq<Event>, count: int)
    requires
        inv(r),
        0 <= count <= events.len(),
    ensures
        inv(state_at(r, events, count)),
    decreases count,
{
    if count > 0 {
        lemma_trace_inv(r, events, count - 1);
        lemma_step_inv(state_at(r, events, count - 1), events[count - 1]);
    }
}

proof fn lemma_trace_counts(r: ReplView, events: Seq<Event>, from: int, to: int)
    requires
        inv(r),
        0 <= from <= to <= events.len(),
    ensures
        not_after(state_at(r, events, from), state_at(r, events, to)),
    decreases to - from,
{
    if from < to {
        lemma_trace_counts(r, events, from, to - 1);
        lemma_trace_inv(r, events, to - 1);
        lemma_step_counts(state_at(r, events, to - 1), events[to - 1]);
    }
}

proof fn lemma_answer_unit(r: ReplView, events: Seq<Event>, at: int)
    requires
        inv(r),
        0 <= at < events.len(),
        answer_at(r, events, at) is WriteSource,
    ensures
        answer_at(r, events, at)->WriteSource_file == unit_file(
            state_at(r, events, at + 1).turn,
            state_at(r, events, at + 1).item,
        ),
        !not_after(state_at(r, events, at + 1), state_at(r, events, at)),
        0 <= state_at(r, events, at + 1).turn,
        0 <= state_at(r, events, at + 1).item,
{
    lemma_trace_inv(r, events, at);
    lemma_trace_inv(r, events, at + 1);
    lemma_step_counts(state_at(r, events, at), events[at]);
}

/// No unit is written twice.
///
/// Whatever the events of a session are, over however many turns: where the
/// engine asks to write a unit in answer to one event and again in answer
/// to a later one, the two units have different files. So a unit never
/// takes the place of one that was compiled before.
pub proof fn lemma_units_are_new(r: ReplView, events: Seq<Event>, first: int, second: int)
    requires
        inv(r),
        0 <= first < second < events.len(),
        answer_at(r, events, first) is WriteSource,
        answer_at(r, events, second) is WriteSource,
    ensures
        answer_at(r, events, first)->WriteSource_file != answer_at(
            r,
            events,
            second,
        )->WriteSource_file,
{
    let a = state_at(r, events, first + 1);
    let b = state_at(r, events, second);
    let c = state_at(r, events, second + 1);
    lemma_answer_unit(r, events, first);
    lemma_answer_unit(r, events, second);
    lemma_trace_counts(r, events, first + 1, second);
    assert(not_after(a, b));
    assert(!not_after(c, b));
    assert(a.turn != c.turn || a.item != c.item);
    if unit_file(a.turn, a.item) == unit_file(c.turn, c.item) {
        crate::repl::lemma_unit_files_differ(
            a.turn as nat,
            a.item as nat,
            c.turn as nat,
            c.item as nat,
        );
    }
}

/// The state of the engine after the first `count` of `events`, begun in
/// the state `r`.
pub open spec fn state_at(r: ReplView, events: Seq<Event>, count: int) -> ReplView
    decreases count,
{
    if count <= 0 || count > events.len() {
        r
    } else {
        step(state_at(r, events, count - 1), events[count - 1]).0
    }
}

/// What the engine asks for when event number `at` comes.
pub open spec fn answer_at(r: ReplView, events: Seq<Event>, at: int) -> ActionView {
    step(state_at(r, events, at), events[at]).1
}

/// Whether `events` are events of one turn that begins in the state `r`: a
/// line comes while the engine waits for one, and the turn does not end
/// before the last of the events.
pub open spec fn one_turn(r: ReplView, events: Seq<Event>) -> bool {
    &&& events.len() > 0
    &&& r.phase == Phase::Idle
    &&& events[0] is Line
    &&& forall|i: int| 1 <= i < events.len() ==> (#[trigger] state_at(r, events, i)).phase
        != Phase::Idle
}

proof fn lemma_advance_keeps(r: ReplView)
    ensures
        advance(r).0.saved == r.saved,
        advance(r).0.turn == r.turn,
        advance(r).0.next_slot == r.next_slot,
        advance(r).0.type_query == r.type_query,
        advance(r).0.session.vars == r.session.vars,
        !(advance(r).1 is Fail),
        !(advance(r).1 is DeleteSource),
        advance(r).1 is WriteSource ==> advance(r).0.phase == Phase::Staging && advance(r).1
            == (ActionView::WriteSource {
            file: unit_file(advance(r).0.turn, advance(r).0.item),
            text: advance(r).1->WriteSource_text,
        }),
        advance(r).0.phase == Phase::Staging ==> advance(r).1 is WriteSource,
        advance(r).0.phase != Phase::Compiling,
{
}

/// Whether the state `s` of a turn still knows what the session held when
/// the turn began, `base`.
pub open spec fn remembers(s: ReplView, base: SessionView) -> bool {
    &&& s.phase == Phase::Parsing ==> s.session == base
    &&& s.phase != Phase::Idle && s.phase != Phase::Parsing ==> s.saved == base
}

proof fn lemma_step_remembers(s: ReplView, base: SessionView, event: Event)
    requires
        s.phase != Phase::Idle,
        remembers(s, base),
    ensures
        step(s, event).0.phase != Phase::Idle ==> remembers(step(s, event).0, base),
        step(s, event).1 is Fail ==> step(s, event).0.session == base,
{
    if accepts(s, event) {
        match event {
            Event::Parsed(items) => {
                let found = crate::parser::items_of(items@, s.input);
                lemma_advance_keeps(ReplView { saved: s.session, items: found, ..s });
            },
            Event::StoreLength(length) => {
                lemma_advance_keeps(s);
            },
            Event::FunctionType(ty) => {
                let var = VariableView {
                    name: s.name,
                    index: s.next_slot,
                    type_: crate::gleam::shown(ty),
                };
                let session = SessionView {
                    vars: crate::source::with_var(s.session.vars, var),
                    ..s.session
                };
                lemma_advance_keeps(ReplView { session, next_slot: s.next_slot + 1, ..s });
            },
            Event::Done => {
                lemma_advance_keeps(s);
            },
            _ => {},
        }
    }
}

proof fn lemma_turn_remembers(r: ReplView, events: Seq<Event>, count: int)
    requires
        one_turn(r, events),
        1 <= count <= events.len(),
    ensures
        state_at(r, events, count).phase != Phase::Idle ==> remembers(
            state_at(r, events, count),
            r.session,
        ),
        answer_at(r, events, count - 1) is Fail ==> state_at(r, events, count).session
            == r.session,
    decreases count,
{
    if count == 1 {
        assert(state_at(r, events, 0) == r);
    } else {
        lemma_turn_remembers(r, events, count - 1);
        let before = state_at(r, events, count - 1);
        assert(before.phase != Phase::Idle);
        lemma_step_remembers(before, r.session, events[count - 1]);
    }
}

/// A turn that fails leaves the session as it was before the turn, so that
/// the next turn builds its program from the same declarations and the same
/// bindings.
///
/// Whatever the events of a turn are: where the engine answers the last of
/// them by `Fail`, the session holds what it held when the line came in.
/// The number of the turn and the next slot are no part of this: they only
/// grow.
pub proof fn lemma_failed_turn_changes_nothing(r: ReplView, events: Seq<Event>)
    requires
        one_turn(r, events),
        answer_at(r, events, events.len() - 1) is Fail,
    ensures
        state_at(r, events, events.len() as int).session == r.session,
        crate::source::source_text(state_at(r, events, events.len() as int).session)
            == crate::source::source_text(r.session),
{
    lemma_turn_remembers(r, events, events.len() as int);
}

/// A line that the parser rejects is a turn that fails, and changes nothing
/// but the number of the turn.
pub proof fn lemma_rejected_line_fails(r: ReplView, line: String)
    requires
        r.phase == Phase::Idle,
        r.turn < usize::MAX,
        trimmed(line@) != QUIT@,
    ensures
        one_turn(r, seq![Event::Line(line), Event::ParseFailed]),
        answer_at(r, seq![Event::Line(line), Event::ParseFailed], 1) == ActionView::Fail(
            crate::repl::Failure::Parse,
        ),
        state_at(r, seq![Event::Line(line), Event::ParseFailed], 2).session == r.session,
        state_at(r, seq![Event::Line(line), Event::ParseFailed], 2).phase == Phase::Idle,
{
    let events = seq![Event::Line(line), Event::ParseFailed];
    assert(state_at(r, events, 0) == r);
    assert(events[0] == Event::Line(line));
    assert(events[1] == Event::ParseFailed);
    let first = state_at(r, events, 1);
    assert(first == step(r, events[0]).0);
    assert(first.phase == Phase::Parsing);
    assert(state_at(r, events, 2) == step(first, events[1]).0);
}

/// A binding whose value was not stored binds nothing.
///
/// Where the store has not grown beyond the slot that the binding was to
/// get, the evaluation has not come to its end: the variables stay as they
/// were, the slot is not used up, and a name that was not bound before is
/// not bound afterwards.
pub proof fn lemma_unsaved_value_binds_nothing(r: ReplView, length: usize)
    requires
        r.phase == Phase::Measuring,
        length <= r.next_slot,
    ensures
        step(r, Event::StoreLength(length)).0.session.vars == r.session.vars,
        step(r, Event::StoreLength(length)).0.next_slot == r.next_slot,
        var_place(r.session.vars, r.name) == r.session.vars.len() ==> var_place(
            step(r, Event::StoreLength(length)).0.session.vars,
            r.name,
        ) == step(r, Event::StoreLength(length)).0.session.vars.len(),
{
    lemma_advance_keeps(r);
}

/// Whether the store has grown beyond the next slot at none of the first
/// `count` of `events`: whether each length that the runtime tells is at
/// most the slot that the next variable gets.
pub open spec fn nothing_stored(r: ReplView, events: Seq<Event>, count: int) -> bool {
    forall|i: int|
        0 <= i < count && i < events.len() ==> (#[trigger] events[i] matches Event::StoreLength(
            length,
        ) ==> length <= state_at(r, events, i).next_slot)
}

/// Whether the state `s` of a turn holds the variables `vars` and is on no
/// way to bind another.
pub open spec fn binds_nothing(s: ReplView, vars: Seq<VariableView>, next_slot: int) -> bool {
    &&& s.session.vars == vars
    &&& s.next_slot == next_slot
    &&& s.phase != Phase::Idle && s.phase != Phase::Parsing ==> s.saved.vars == vars
    &&& s.phase == Phase::Typing ==> s.goal == Goal::Query
}

proof fn lemma_step_binds_nothing(
    s: ReplView,
    vars: Seq<VariableView>,
    next_slot: int,
    event: Event,
)
    requires
        s.phase != Phase::Idle,
        binds_nothing(s, vars, next_slot),
        event matches Event::StoreLength(length) ==> length <= s.next_slot,
    ensures
        binds_nothing(step(s, event).0, vars, next_slot),
{
    if accepts(s, event) {
        match event {
            Event::Parsed(items) => {
                let found = crate::parser::items_of(items@, s.input);
                lemma_advance_keeps(ReplView { saved: s.session, items: found, ..s });
            },
            Event::StoreLength(length) => {
                lemma_advance_keeps(s);
            },
            Event::Done => {
                lemma_advance_keeps(s);
            },
            _ => {},
        }
    }
}

proof fn lemma_turn_binds_nothing(r: ReplView, events: Seq<Event>, count: int)
    requires
        one_turn(r, events),
        nothing_stored(r, events, events.len() as int),
        1 <= count <= events.len(),
    ensures
        binds_nothing(state_at(r, events, count), r.session.vars, r.next_slot),
    decreases count,
{
    if count == 1 {
        assert(state_at(r, events, 0) == r);
    } else {
        lemma_turn_binds_nothing(r, events, count - 1);
        let before = state_at(r, events, count - 1);
        assert(before.phase != Phase::Idle);
        let event = events[count - 1];
        lemma_step_binds_nothing(before, r.session.vars, r.next_slot, event);
    }
}

/// A turn binds nothing unless a value was stored.
///
/// Whatever the events of a turn are: where the store has never grown
/// beyond the next slot, because each evaluation ended before its value was
/// stored, the session holds after each of the events the variables that it
/// held before the turn, and the next slot is the same. So the name of a
/// binding that failed is not bound, unless it was bound before.
pub proof fn lemma_turn_binds_only_what_is_stored(r: ReplView, events: Seq<Event>)
    requires
        one_turn(r, events),
        nothing_stored(r, events, events.len() as int),
    ensures
        forall|i: int|
            0 <= i <= events.len() ==> (#[trigger] state_at(r, events, i)).session.vars
                == r.session.vars,
        forall|i: int|
            0 <= i <= events.len() ==> (#[trigger] state_at(r, events, i)).next_slot
                == r.next_slot,
{
    assert forall|i: int| 0 <= i <= events.len() implies (#[trigger] state_at(
        r,
        events,
        i,
    )).session.vars == r.session.vars && state_at(r, events, i).next_slot == r.next_slot by {
        if i > 0 {
            lemma_turn_binds_nothing(r, events, i);
        }
    }
}

/// Whether a line asks for a type.
pub open spec fn asks_type(line: Seq<char>) -> bool {
    trimmed(line) != QUIT@ && TYPE@.is_prefix_of(trimmed(line))
}

proof fn lemma_step_of_query(s: ReplView, event: Event)
    requires
        inv(s),
        s.type_query,
        s.phase != Phase::Idle,
        s.phase != Phase::Parsing ==> s.saved == s.session,
    ensures
        step(s, event).0.phase != Phase::Parsing && step(s, event).0.phase != Phase::Idle ==> step(
            s,
            event,
        ).0.saved == step(s, event).0.session,
        step(s, event).0.session == s.session,
        step(s, event).0.next_slot == s.next_slot,
        step(s, event).0.type_query,
        !(step(s, event).1 is Run),
{
    if accepts(s, event) {
        match event {
            Event::Done => {
                lemma_advance_inv(s);
            },
            _ => {},
        }
    }
}

proof fn lemma_turn_of_query(r: ReplView, events: Seq<Event>, count: int)
    requires
        inv(r),
        one_turn(r, events),
        events[0] matches Event::Line(line) && asks_type(line@),
        1 <= count <= events.len(),
    ensures
        inv(state_at(r, events, count)),
        state_at(r, events, count).session == r.session,
        state_at(r, events, count).next_slot == r.next_slot,
        state_at(r, events, count).phase != Phase::Idle ==> state_at(r, events, count).type_query,
        state_at(r, events, count).phase != Phase::Idle && state_at(r, events, count).phase
            != Phase::Parsing ==> state_at(r, events, count).saved == r.session,
        !(answer_at(r, events, count - 1) is Run),
    decreases count,
{
    if count == 1 {
        assert(state_at(r, events, 0) == r);
        lemma_step_inv(r, events[0]);
    } else {
        lemma_turn_of_query(r, events, count - 1);
        let before = state_at(r, events, count - 1);
        assert(before.phase != Phase::Idle);
        lemma_step_inv(before, events[count - 1]);
        lemma_step_of_query(before, events[count - 1]);
    }
}

/// To ask for a type changes nothing and runs nothing.
///
/// Whatever the events of a turn are whose line begins with `:type `: the
/// engine never asks for a run, and after each of the events the session
/// holds what it held before the turn, and the next slot is the same.
pub proof fn lemma_type_query_has_no_effect(r: ReplView, events: Seq<Event>)
    requires
        inv(r),
        one_turn(r, events),
        events[0] matches Event::Line(line) && asks_type(line@),
    ensures
        forall|i: int| 0 <= i < events.len() ==> !(#[trigger] answer_at(r, events, i) is Run),
        forall|i: int|
            0 <= i <= events.len() ==> (#[trigger] state_at(r, events, i)).session == r.session,
        forall|i: int|
            0 <= i <= events.len() ==> (#[trigger] state_at(r, events, i)).next_slot
                == r.next_slot,
{
    assert forall|i: int| 0 <= i < events.len() implies !(#[trigger] answer_at(r, events, i)
        is Run) by {
        lemma_turn_of_query(r, events, i + 1);
    }
    assert forall|i: int| 0 <= i <= events.len() implies (#[trigger] state_at(
        r,
        events,
        i,
    )).session == r.session && state_at(r, events, i).next_slot == r.next_slot by {
        if i > 0 {
            lemma_turn_of_query(r, events, i);
        }
    }
}

/// The files that there are once the host has done what `action` asks.
pub open spec fn files_after(files: Set<Seq<char>>, action: ActionView) -> Set<Seq<char>> {
    match action {
        ActionView::WriteSource { file, text } => files.insert(file),
        ActionView::DeleteSource { file } => files.remove(file),
        _ => files,
    }
}

/// The files that there are once the host has done what the engine asked
/// for in answer to the first `count` of `events`.
pub open spec fn files_at(
    r: ReplView,
    files: Set<Seq<char>>,
    events: Seq<Event>,
    count: int,
) -> Set<Seq<char>>
    decreases count,
{
    if count <= 0 || count > events.len() {
        files
    } else {
        files_after(files_at(r, files, events, count - 1), answer_at(r, events, count - 1))
    }
}

/// Whether `file` is the file of a unit of turn number `turn`.
pub open spec fn is_unit_of_turn(file: Seq<char>, turn: int) -> bool {
    exists|item: int| 0 <= item && file == #[trigger] unit_file(turn, item)
}

/// Whether `files` holds no unit of turn number `turn`.
pub open spec fn no_unit_of_turn(files: Set<Seq<char>>, turn: int) -> bool {
    forall|file: Seq<char>| is_unit_of_turn(file, turn) ==> !files.contains(file)
}

/// Whether `files` holds no unit of the turn that the engine is in, but for
/// the one that it has asked to write and not yet to delete.
pub open spec fn tidy(s: ReplView, files: Set<Seq<char>>) -> bool {
    forall|file: Seq<char>|
        is_unit_of_turn(file, s.turn) && files.contains(file) ==> (s.phase == Phase::Staging
            || s.phase == Phase::Compiling) && file == unit_file(s.turn, s.item)
}

proof fn lemma_step_tidy(s: ReplView, files: Set<Seq<char>>, event: Event)
    requires
        s.phase != Phase::Idle,
        tidy(s, files),
    ensures
        tidy(step(s, event).0, files_after(files, step(s, event).1)),
        step(s, event).0.turn == s.turn,
{
    if accepts(s, event) {
        match event {
            Event::Parsed(items) => {
                let found = crate::parser::items_of(items@, s.input);
                lemma_advance_keeps(ReplView { saved: s.session, items: found, ..s });
            },
            Event::StoreLength(length) => {
                lemma_advance_keeps(s);
            },
            Event::FunctionType(ty) => {
                let var = VariableView {
                    name: s.name,
                    index: s.next_slot,
                    type_: crate::gleam::shown(ty),
                };
                let session = SessionView {
                    vars: crate::source::with_var(s.session.vars, var),
                    ..s.session
                };
                lemma_advance_keeps(ReplView { session, next_slot: s.next_slot + 1, ..s });
            },
            Event::Done => {
                lemma_advance_keeps(s);
            },
            _ => {},
        }
    }
}

proof fn lemma_turn_tidy(r: ReplView, files: Set<Seq<char>>, events: Seq<Event>, count: int)
    requires
        one_turn(r, events),
        no_unit_of_turn(files, r.turn),
        no_unit_of_turn(files, r.turn + 1),
        1 <= count <= events.len(),
    ensures
        tidy(state_at(r, events, count), files_at(r, files, events, count)),
        state_at(r, events, count).turn == r.turn || state_at(r, events, count).turn == r.turn
            + 1,
    decreases count,
{
    if count == 1 {
        assert(state_at(r, events, 0) == r);
        assert(files_at(r, files, events, 0) == files);
    } else {
        lemma_turn_tidy(r, files, events, count - 1);
        let before = state_at(r, events, count - 1);
        assert(before.phase != Phase::Idle);
        lemma_step_tidy(before, files_at(r, files, events, count - 1), events[count - 1]);
    }
}

/// A turn leaves none of its units behind.
///
/// Let the host write and delete the units as the engine asks. Whatever the
/// events of a turn are, and however it ends: once the engine waits for the
/// next line, no file is left that is named for that turn.
pub proof fn lemma_turn_leaves_no_unit(r: ReplView, files: Set<Seq<char>>, events: Seq<Event>)
    requires
        one_turn(r, events),
        no_unit_of_turn(files, r.turn),
        no_unit_of_turn(files, r.turn + 1),
        state_at(r, events, events.len() as int).phase == Phase::Idle,
    ensures
        no_unit_of_turn(
            files_at(r, files, events, events.len() as int),
            state_at(r, events, events.len() as int).turn,
        ),
{
    lemma_turn_tidy(r, files, events, events.len() as int);
}

} // verus!
