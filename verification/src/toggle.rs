//! Toggle switches: a switch that reports a flipped state on each press.
use vstd::prelude::*;

use crate::input::{Switch, SwitchEvent};
use crate::SwitchEventKind;

verus! {

/// The effect of one event on the toggle states and what is reported for
/// it: events of other switches pass as they are; the closing of a toggle
/// switch is dropped; the opening of a toggle switch flips its state
/// (first to closed) and reports the new state.
pub open spec fn translate_step(state: Map<Switch, SwitchEventKind>, event: SwitchEvent) -> (
    Map<Switch, SwitchEventKind>,
    Option<SwitchEvent>,
) {
    if !event.switch.spec_is_toggle() {
        (state, Some(event))
    } else if event.kind == SwitchEventKind::Close {
        (state, None)
    } else {
        let kind = if state.contains_key(event.switch) {
            state[event.switch].spec_inverted()
        } else {
            SwitchEventKind::Close
        };
        (state.insert(event.switch, kind), Some(SwitchEvent { switch: event.switch, kind }))
    }
}

/// The toggle states after a sequence of events, and the events reported,
/// in order.
pub open spec fn translate_all(state: Map<Switch, SwitchEventKind>, events: Seq<SwitchEvent>) -> (
    Map<Switch, SwitchEventKind>,
    Seq<SwitchEvent>,
)
    decreases events.len(),
{
    if events.len() == 0 {
        (state, Seq::empty())
    } else {
        let (s, out) = translate_all(state, events.drop_last());
        let (s2, e) = translate_step(s, events.last());
        (
            s2,
            match e {
                Some(r) => out.push(r),
                None => out,
            },
        )
    }
}

/// Events of switches that do not toggle pass through unchanged, in
/// order, and leave the toggle states as they were.
pub proof fn lemma_ordinary_events_pass(state: Map<Switch, SwitchEventKind>, events: Seq<SwitchEvent>)
    requires
        forall|i: int| 0 <= i < events.len() ==> !(#[trigger] events[i]).switch.spec_is_toggle(),
    ensures
        translate_all(state, events) == (state, events),
    decreases events.len(),
{
    if events.len() > 0 {
        let prefix = events.drop_last();
        assert forall|i: int| 0 <= i < prefix.len() implies !(
        #[trigger] prefix[i]).switch.spec_is_toggle() by {
            assert(prefix[i] == events[i]);
        }
        lemma_ordinary_events_pass(state, prefix);
        assert(!events[events.len() - 1].switch.spec_is_toggle());
        assert(prefix.push(events.last()) =~= events);
    }
}

/// Releasing a toggle switch reports nothing and changes nothing.
pub proof fn lemma_toggle_release_dropped(state: Map<Switch, SwitchEventKind>, switch: Switch)
    requires
        switch.spec_is_toggle(),
    ensures
        translate_all(state, seq![SwitchEvent { kind: SwitchEventKind::Close, switch }])
            == (state, Seq::<SwitchEvent>::empty()),
{
    let e = seq![SwitchEvent { kind: SwitchEventKind::Close, switch }];
    assert(e.drop_last() =~= Seq::<SwitchEvent>::empty());
    assert(translate_all(state, e.drop_last()) == (state, Seq::<SwitchEvent>::empty()));
}

/// The first press of a toggle switch reports it closed.
pub proof fn lemma_toggle_first_press(state: Map<Switch, SwitchEventKind>, switch: Switch)
    requires
        switch.spec_is_toggle(),
        !state.contains_key(switch),
    ensures
        translate_all(state, seq![SwitchEvent { kind: SwitchEventKind::Open, switch }]) == (
            state.insert(switch, SwitchEventKind::Close),
            seq![SwitchEvent { kind: SwitchEventKind::Close, switch }],
        ),
{
    let e = seq![SwitchEvent { kind: SwitchEventKind::Open, switch }];
    assert(e.drop_last() =~= Seq::<SwitchEvent>::empty());
    assert(translate_all(state, e.drop_last()) == (state, Seq::<SwitchEvent>::empty()));
    assert(Seq::<SwitchEvent>::empty().push(SwitchEvent { kind: SwitchEventKind::Close, switch })
        =~= seq![SwitchEvent { kind: SwitchEventKind::Close, switch }]);
}

/// Two presses of a toggle switch report its state flipped, then flipped
/// back, and leave the toggle states as they were.
pub proof fn lemma_toggle_two_presses(state: Map<Switch, SwitchEventKind>, switch: Switch)
    requires
        switch.spec_is_toggle(),
        state.contains_key(switch),
    ensures
        ({
            let press = SwitchEvent { kind: SwitchEventKind::Open, switch };
            translate_all(state, seq![press, press]) == (
                state,
                seq![
                    SwitchEvent { kind: state[switch].spec_inverted(), switch },
                    SwitchEvent { kind: state[switch], switch },
                ],
            )
        }),
{
    let press = SwitchEvent { kind: SwitchEventKind::Open, switch };
    let two = seq![press, press];
    assert(two.drop_last() =~= seq![press]);
    assert(seq![press].drop_last() =~= Seq::<SwitchEvent>::empty());
    let k = state[switch].spec_inverted();
    assert(translate_all(state, Seq::<SwitchEvent>::empty()) == (state, Seq::<SwitchEvent>::empty()));
    assert(translate_all(state, seq![press]) == (
        state.insert(switch, k),
        Seq::<SwitchEvent>::empty().push(SwitchEvent { kind: k, switch }),
    ));
    assert(k.spec_inverted() == state[switch]);
    assert(state.insert(switch, k).insert(switch, state[switch]) =~= state);
    assert(Seq::<SwitchEvent>::empty().push(SwitchEvent { kind: k, switch }).push(
        SwitchEvent { kind: state[switch], switch },
    ) =~= seq![SwitchEvent { kind: k, switch }, SwitchEvent { kind: state[switch], switch }]);
}

/// Translating a batch and then another from the resulting states is
/// translating both at once: what calls of `translate` report across
/// batches is what one call on all their events would report.
pub proof fn lemma_translate_concat(
    state: Map<Switch, SwitchEventKind>,
    a: Seq<SwitchEvent>,
    b: Seq<SwitchEvent>,
)
    ensures
        ({
            let (s1, o1) = translate_all(state, a);
            let (s2, o2) = translate_all(s1, b);
            translate_all(state, a + b) == (s2, o1 + o2)
        }),
    decreases b.len(),
{
    let (s1, o1) = translate_all(state, a);
    if b.len() == 0 {
        assert(a + b =~= a);
        assert(o1 + Seq::<SwitchEvent>::empty() =~= o1);
    } else {
        assert((a + b).drop_last() =~= a + b.drop_last());
        assert((a + b).last() == b.last());
        lemma_translate_concat(state, a, b.drop_last());
        let (s3, o3) = translate_all(s1, b.drop_last());
        let (s4, e) = translate_step(s3, b.last());
        match e {
            Some(r) => {
                assert((o1 + o3).push(r) =~= o1 + o3.push(r));
            },
            None => {},
        }
    }
}

/// Pressing a switch: the event of its opening.
pub open spec fn press(switch: Switch) -> SwitchEvent {
    SwitchEvent { kind: SwitchEventKind::Open, switch }
}

/// How many times the switch is pressed in a sequence of events.
pub open spec fn press_count(events: Seq<SwitchEvent>, switch: Switch) -> nat
    decreases events.len(),
{
    if events.len() == 0 {
        0
    } else {
        press_count(events.drop_last(), switch) + if events.last() == press(switch) {
            1nat
        } else {
            0nat
        }
    }
}

/// The reported events of one switch, in order.
pub open spec fn reports_of(out: Seq<SwitchEvent>, switch: Switch) -> Seq<SwitchEvent>
    decreases out.len(),
{
    if out.len() == 0 {
        Seq::empty()
    } else {
        let r = reports_of(out.drop_last(), switch);
        if out.last().switch == switch {
            r.push(out.last())
        } else {
            r
        }
    }
}

/// The state of a toggle switch after `k > 0` presses: closed after an odd
/// number, open after an even one.
pub open spec fn state_after_presses(k: nat) -> SwitchEventKind {
    if k % 2 == 1 {
        SwitchEventKind::Close
    } else {
        SwitchEventKind::Open
    }
}

/// The reports of `k` presses of a toggle switch: closed, open, closed, ...
pub open spec fn alternating_reports(switch: Switch, k: nat) -> Seq<SwitchEvent> {
    Seq::new(
        k,
        |i: int|
            SwitchEvent {
                switch,
                kind: if i % 2 == 0 {
                    SwitchEventKind::Close
                } else {
                    SwitchEventKind::Open
                },
            },
    )
}

/// From a state that does not know a toggle switch, `k` presses of it
/// (whatever other events come between) leave it unknown when `k` is 0,
/// closed when `k` is odd and open when `k` is even, and its reports are
/// closed, open, closed, ... one for each press. With
/// [`lemma_translate_concat`], this holds across calls of `translate` on a
/// [`StatefulEvents::new`].
pub proof fn lemma_toggle_parity(
    state: Map<Switch, SwitchEventKind>,
    events: Seq<SwitchEvent>,
    switch: Switch,
)
    requires
        switch.spec_is_toggle(),
        !state.contains_key(switch),
    ensures
        ({
            let (st, out) = translate_all(state, events);
            let k = press_count(events, switch);
            &&& st.contains_key(switch) == (k > 0)
            &&& k > 0 ==> st[switch] == state_after_presses(k)
            &&& reports_of(out, switch) == alternating_reports(switch, k)
        }),
    decreases events.len(),
{
    if events.len() == 0 {
        assert(alternating_reports(switch, 0) =~= Seq::<SwitchEvent>::empty());
    } else {
        let rest = events.drop_last();
        let e = events.last();
        lemma_toggle_parity(state, rest, switch);
        let (s1, o1) = translate_all(state, rest);
        let k1 = press_count(rest, switch);
        if !e.switch.spec_is_toggle() {
            assert(e != press(switch));
            assert(o1.push(e).drop_last() =~= o1);
        } else if e.kind == SwitchEventKind::Close {
            assert(e != press(switch));
        } else {
            assert(e == press(switch));
            let kind = if s1.contains_key(switch) {
                s1[switch].spec_inverted()
            } else {
                SwitchEventKind::Close
            };
            let r = SwitchEvent { switch, kind };
            assert(o1.push(r).drop_last() =~= o1);
            assert(kind == state_after_presses(k1 + 1));
            assert(alternating_reports(switch, k1 + 1) =~= alternating_reports(switch, k1).push(r));
        }
    }
}

/// The states of a list of switch and state pairs.
pub open spec fn pairs_to_map(s: Seq<(Switch, SwitchEventKind)>) -> Map<Switch, SwitchEventKind>
    decreases s.len(),
{
    if s.len() == 0 {
        Map::empty()
    } else {
        pairs_to_map(s.drop_last()).insert(s.last().0, s.last().1)
    }
}

/// No switch occurs twice.
pub open spec fn unique_switches(s: Seq<(Switch, SwitchEventKind)>) -> bool {
    forall|i: int, j: int| 0 <= i < j < s.len() ==> s[i].0 != s[j].0
}

proof fn lemma_pairs_lookup(s: Seq<(Switch, SwitchEventKind)>, i: int)
    requires
        unique_switches(s),
        0 <= i < s.len(),
    ensures
        pairs_to_map(s).contains_key(s[i].0),
        pairs_to_map(s)[s[i].0] == s[i].1,
    decreases s.len(),
{
    if i < s.len() - 1 {
        lemma_pairs_lookup(s.drop_last(), i);
    }
}

proof fn lemma_pairs_absent(s: Seq<(Switch, SwitchEventKind)>, k: Switch)
    requires
        forall|i: int| 0 <= i < s.len() ==> s[i].0 != k,
    ensures
        !pairs_to_map(s).contains_key(k),
    decreases s.len(),
{
    if s.len() > 0 {
        lemma_pairs_absent(s.drop_last(), k);
    }
}

proof fn lemma_pairs_update(s: Seq<(Switch, SwitchEventKind)>, i: int, v: SwitchEventKind)
    requires
        unique_switches(s),
        0 <= i < s.len(),
    ensures
        pairs_to_map(s.update(i, (s[i].0, v))) == pairs_to_map(s).insert(s[i].0, v),
    decreases s.len(),
{
    let u = s.update(i, (s[i].0, v));
    if i == s.len() - 1 {
        assert(u.drop_last() =~= s.drop_last());
        assert(pairs_to_map(u) =~= pairs_to_map(s).insert(s[i].0, v));
    } else {
        assert(u.drop_last() =~= s.drop_last().update(i, (s[i].0, v)));
        lemma_pairs_update(s.drop_last(), i, v);
        assert(pairs_to_map(u) =~= pairs_to_map(s).insert(s[i].0, v));
    }
}

/// The state of each toggle switch that has been pressed so far.
pub struct StatefulEvents {
    state: Vec<(Switch, SwitchEventKind)>,
}

impl View for StatefulEvents {
    type V = Map<Switch, SwitchEventKind>;

    closed spec fn view(&self) -> Map<Switch, SwitchEventKind> {
        pairs_to_map(self.state@)
    }
}

impl StatefulEvents {
    /// Each switch is kept once.
    pub closed spec fn wf(&self) -> bool {
        unique_switches(self.state@)
    }

    /// No toggle switch pressed yet.
    pub fn new() -> (s: StatefulEvents)
        ensures
            s.wf(),
            s@ == Map::<Switch, SwitchEventKind>::empty(),
    {
        StatefulEvents { state: Vec::new() }
    }

    /// Flips the state of a toggle switch, closed the first time, and
    /// returns the new state.
    fn toggle(&mut self, switch: Switch) -> (kind: SwitchEventKind)
        requires
            old(self).wf(),
        ensures
            final(self).wf(),
            kind == (if old(self)@.contains_key(switch) {
                old(self)@[switch].spec_inverted()
            } else {
                SwitchEventKind::Close
            }),
            final(self)@ == old(self)@.insert(switch, kind),
    {
        let mut i: usize = 0;
        while i < self.state.len()
            invariant
                i <= self.state@.len(),
                self.state@ == old(self).state@,
                unique_switches(self.state@),
                forall|j: int| 0 <= j < i ==> self.state@[j].0 != switch,
            decreases self.state@.len() - i,
        {
            if self.state[i].0 == switch {
                let kind = self.state[i].1.inverted();
                proof {
                    lemma_pairs_lookup(self.state@, i as int);
                    lemma_pairs_update(self.state@, i as int, kind);
                }
                self.state.set(i, (switch, kind));
                return kind;
            }
            i = i + 1;
        }
        proof {
            lemma_pairs_absent(self.state@, switch);
        }
        let ghost before = self.state@;
        self.state.push((switch, SwitchEventKind::Close));
        assert(self.state@.drop_last() =~= before);
        SwitchEventKind::Close
    }

    /// Reports the events of a batch as the keyboard should see them:
    /// events of ordinary switches pass unchanged; the closing of a toggle
    /// switch is dropped; each opening of a toggle switch flips its state,
    /// closed the first time, and reports that state.
    pub fn translate(&mut self, events: Vec<SwitchEvent>) -> (out: Vec<SwitchEvent>)
        requires
            old(self).wf(),
        ensures
            final(self).wf(),
            (final(self)@, out@) == translate_all(old(self)@, events@),
    {
        let mut out: Vec<SwitchEvent> = Vec::new();
        let mut i: usize = 0;
        while i < events.len()
            invariant
                i <= events@.len(),
                self.wf(),
                (self@, out@) == translate_all(old(self)@, events@.take(i as int)),
            decreases events@.len() - i,
        {
            let event = events[i];
            assert(events@.take(i as int + 1).drop_last() =~= events@.take(i as int));
            match (event.switch.is_toggle(), event.kind) {
                (false, _) => {
                    out.push(event);
                },
                (true, SwitchEventKind::Close) => {},
                (true, SwitchEventKind::Open) => {
                    let kind = self.toggle(event.switch);
                    out.push(SwitchEvent { switch: event.switch, kind });
                },
            }
            i = i + 1;
        }
        assert(events@.take(i as int) =~= events@);
        out
    }
}

} // verus!
