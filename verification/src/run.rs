//! Driving a whole event sequence through the collector into a sink.
//!
//! The run is written down once as a spec function folding the collector's
//! step transitions over the events; `process_events` is proved to follow it
//! exactly, aborting at the first fatal condition.  On top of the run stands
//! the accounting proof: a fully closed document emits exactly one record per
//! member element, in the order of the members' closing tags.

use vstd::prelude::*;

use crate::collector::{
    collector_wf, spec_visit_empty, spec_visit_end, spec_visit_start, spec_visit_text,
    AddressCollector, CollectorView,
};
use crate::emitter::FeatureMemberEmitter;
use crate::{FeatureMemberView, GmlError};

verus! {

/// One structural event of the document, as plain values.  Attributes are
/// (key, value) pairs in document order.
pub enum XmlEvent {
    Start { name: String, attrs: Vec<(String, String)> },
    End { name: String },
    Text { content: String },
    Empty { name: String, attrs: Vec<(String, String)> },
}

/// Abstraction of one event.
#[verifier::ext_equal]
pub enum XmlEventView {
    Start { name: Seq<char>, attrs: Seq<(Seq<char>, Seq<char>)> },
    End { name: Seq<char> },
    Text { content: Seq<char> },
    Empty { name: Seq<char>, attrs: Seq<(Seq<char>, Seq<char>)> },
}

impl View for XmlEvent {
    type V = XmlEventView;

    open spec fn view(&self) -> XmlEventView {
        match self {
            XmlEvent::Start { name, attrs } => XmlEventView::Start {
                name: name@,
                attrs: attrs.deep_view(),
            },
            XmlEvent::End { name } => XmlEventView::End { name: name@ },
            XmlEvent::Text { content } => XmlEventView::Text { content: content@ },
            XmlEvent::Empty { name, attrs } => XmlEventView::Empty {
                name: name@,
                attrs: attrs.deep_view(),
            },
        }
    }
}

impl DeepView for XmlEvent {
    type V = XmlEventView;

    open spec fn deep_view(&self) -> XmlEventView {
        self.view()
    }
}

/// One event through the collector: the next state, and either the record
/// completed by this event (a member-closing tag), nothing, or the fatal
/// condition that aborts the run.
pub open spec fn spec_run_step(c: CollectorView, ev: XmlEventView) -> (
    CollectorView,
    Result<Option<FeatureMemberView>, GmlError>,
) {
    match ev {
        XmlEventView::Start { name, attrs } => {
            let (c1, r) = spec_visit_start(c, name, attrs);
            (
                c1,
                match r {
                    Ok(u) => Ok(None),
                    Err(e) => Err(e),
                },
            )
        },
        XmlEventView::End { name } => spec_visit_end(c, name),
        XmlEventView::Text { content } => {
            let (c1, r) = spec_visit_text(c, content);
            (
                c1,
                match r {
                    Ok(u) => Ok(None),
                    Err(e) => Err(e),
                },
            )
        },
        XmlEventView::Empty { name, attrs } => {
            let (c1, r) = spec_visit_empty(c, name, attrs);
            (
                c1,
                match r {
                    Ok(u) => Ok(None),
                    Err(e) => Err(e),
                },
            )
        },
    }
}

/// The whole run from state `c`: the state when the run stops, the records
/// completed before it stopped, in the order of their members' closing tags,
/// and whether it consumed all events or aborted.
pub open spec fn spec_run_from(c: CollectorView, events: Seq<XmlEventView>) -> (
    CollectorView,
    Seq<FeatureMemberView>,
    Result<(), GmlError>,
)
    decreases events.len(),
{
    if events.len() == 0 {
        (c, Seq::empty(), Ok(()))
    } else {
        let (cp, recs, res) = spec_run_from(c, events.drop_last());
        match res {
            Err(e) => (cp, recs, Err(e)),
            Ok(u) => {
                let (c1, r) = spec_run_step(cp, events.last());
                match r {
                    Ok(opt) => (
                        c1,
                        match opt {
                            Some(fm) => recs.push(fm),
                            None => recs,
                        },
                        Ok(()),
                    ),
                    Err(e) => (c1, recs, Err(e)),
                }
            },
        }
    }
}

/// Once the run has aborted, later events change nothing.
pub proof fn lemma_run_error_stable(c: CollectorView, s: Seq<XmlEventView>, k: int)
    requires
        0 <= k <= s.len(),
        spec_run_from(c, s.take(k)).2 is Err,
    ensures
        spec_run_from(c, s) == spec_run_from(c, s.take(k)),
    decreases s.len(),
{
    if s.len() == k {
        assert(s.take(k) =~= s);
    } else {
        assert(s.drop_last().take(k) =~= s.take(k));
        lemma_run_error_stable(c, s.drop_last(), k);
    }
}

/// Feed every event to the collector in order, handing each completed record
/// to the sink: `start` before any record, one `emit` per record in document
/// order, `end` once the input is exhausted; the first fatal condition aborts
/// the run.
pub fn process_events<E: FeatureMemberEmitter>(
    collector: &mut AddressCollector,
    events: &Vec<XmlEvent>,
    emitter: &mut E,
) -> (r: Result<(), GmlError>)
    requires
        old(collector).wf(),
    ensures
        final(collector).wf(),
        final(collector)@ == spec_run_from(old(collector)@, events.deep_view()).0,
        final(emitter).emitted() == old(emitter).emitted() + spec_run_from(
            old(collector)@,
            events.deep_view(),
        ).1,
        r == spec_run_from(old(collector)@, events.deep_view()).2,
{
    emitter.start();
    let ghost evs = events.deep_view();
    let n = events.len();
    let mut i: usize = 0;
    while i < n
        invariant
            n == events@.len(),
            evs == events.deep_view(),
            i <= n,
            collector.wf(),
            collector@ == spec_run_from(old(collector)@, evs.take(i as int)).0,
            emitter.emitted() == old(emitter).emitted() + spec_run_from(
                old(collector)@,
                evs.take(i as int),
            ).1,
            spec_run_from(old(collector)@, evs.take(i as int)).2 == Ok::<(), GmlError>(()),
        decreases n - i,
    {
        proof {
            assert(evs.take(i as int + 1).drop_last() =~= evs.take(i as int));
            assert(evs.take(i as int + 1).last() == evs[i as int]);
        }
        let event = &events[i];
        proof {
            assert(event.deep_view() == evs[i as int]);
        }
        match event {
            XmlEvent::Start { name, attrs } => {
                match collector.visit_start(name.as_str(), attrs) {
                    Ok(u) => {},
                    Err(e) => {
                        proof {
                            lemma_run_error_stable(old(collector)@, evs, i as int + 1);
                        }
                        return Err(e);
                    },
                }
            },
            XmlEvent::End { name } => {
                match collector.visit_end(name.as_str()) {
                    Ok(Some(fm)) => {
                        emitter.emit(fm);
                    },
                    Ok(None) => {},
                    Err(e) => {
                        proof {
                            lemma_run_error_stable(old(collector)@, evs, i as int + 1);
                        }
                        return Err(e);
                    },
                }
            },
            XmlEvent::Text { content } => {
                match collector.visit_text(content.clone()) {
                    Ok(u) => {},
                    Err(e) => {
                        proof {
                            lemma_run_error_stable(old(collector)@, evs, i as int + 1);
                        }
                        return Err(e);
                    },
                }
            },
            XmlEvent::Empty { name, attrs } => {
                match collector.visit_empty(name.as_str(), attrs) {
                    Ok(u) => {},
                    Err(e) => {
                        proof {
                            lemma_run_error_stable(old(collector)@, evs, i as int + 1);
                        }
                        return Err(e);
                    },
                }
            },
        }
        i = i + 1;
    }
    proof {
        assert(evs.take(n as int) =~= evs);
    }
    emitter.end();
    Ok(())
}

/// 1 when a member is in flight, else 0.
pub open spec fn member_flag(c: CollectorView) -> int {
    if c.member is Some {
        1
    } else {
        0
    }
}

/// How one event changes the number of open elements.
pub open spec fn depth_delta(ev: XmlEventView) -> int {
    match ev {
        XmlEventView::Start { .. } => 1,
        XmlEventView::End { .. } => -1,
        XmlEventView::Text { .. } => 0,
        XmlEventView::Empty { .. } => 0,
    }
}

/// How a whole event sequence changes the number of open elements.
pub open spec fn depth_delta_seq(s: Seq<XmlEventView>) -> int
    decreases s.len(),
{
    if s.len() == 0 {
        0
    } else {
        depth_delta_seq(s.drop_last()) + depth_delta(s.last())
    }
}

/// The number of member elements in `s`: open events arriving while exactly
/// the two container elements are open, with `d` elements open before `s`
/// begins.
pub open spec fn member_open_count(s: Seq<XmlEventView>, d: int) -> int
    decreases s.len(),
{
    if s.len() == 0 {
        0
    } else {
        member_open_count(s.drop_last(), d) + (match s.last() {
            XmlEventView::Start { .. } => {
                if d + depth_delta_seq(s.drop_last()) == 2 {
                    1int
                } else {
                    0int
                }
            },
            _ => 0int,
        })
    }
}

/// The structural invariant a run maintains: below the container boundary
/// the path always begins with the boundary, and a member is in flight only
/// strictly below it.
pub open spec fn run_inv(c: CollectorView) -> bool {
    &&& c.table.feature_member_prefix.len() == 2
    &&& (c.path.len() >= 2 ==> c.path.take(2) == c.table.feature_member_prefix)
    &&& (c.member is Some ==> c.path.len() >= 3)
}

/// One successful step keeps the invariant, moves the depth by the event's
/// delta, and completes a record exactly when a member closes; a member
/// begins exactly at an open event at container depth.
pub proof fn lemma_step_accounting(c: CollectorView, ev: XmlEventView)
    requires
        run_inv(c),
        spec_run_step(c, ev).1 is Ok,
    ensures
        run_inv(spec_run_step(c, ev).0),
        spec_run_step(c, ev).0.path.len() == c.path.len() + depth_delta(ev),
        spec_run_step(c, ev).0.table == c.table,
        ({
            let (c1, r) = spec_run_step(c, ev);
            let e: int = match r {
                Ok(Some(fm)) => 1,
                _ => 0,
            };
            e + member_flag(c1) == member_flag(c) + (match ev {
                XmlEventView::Start { .. } => {
                    if c.path.len() == 2 {
                        1int
                    } else {
                        0int
                    }
                },
                _ => 0int,
            })
        }),
{
    let prefix = c.table.feature_member_prefix;
    match ev {
        XmlEventView::Start { name, attrs } => {
            let path1 = c.path.push(start_sym(c, name));
            assert(path1.len() == c.path.len() + 1);
            if c.path.len() == 2 {
                assert(path1.subrange(0, 2) =~= c.path.take(2));
                assert(prefix.is_prefix_of(path1));
            }
            if c.path.len() >= 2 {
                assert(path1.take(2) =~= c.path.take(2));
            }
            if path1.len() == 2 {
                assert(path1.take(2) =~= path1);
            }
        },
        XmlEventView::End { name } => {
            if c.path.len() > 0 {
                let path1 = c.path.drop_last();
                assert(path1 =~= c.path.take(c.path.len() - 1));
                if c.path.len() >= 3 {
                    assert(path1.take(2) =~= c.path.take(2));
                }
                if c.path.len() == 3 && c.member is Some {
                    assert(path1 =~= c.path.take(2));
                }
            }
        },
        XmlEventView::Text { .. } => {},
        XmlEventView::Empty { .. } => {},
    }
}

/// The handle an open event pushes, as the step spec computes it.
pub open spec fn start_sym(c: CollectorView, name: Seq<char>) -> crate::interner::StrRef {
    crate::interner::StrRef(
        (match crate::interner::spec_intern(c.interner, name).1 {
            Some(hi) => hi,
            None => 0,
        }) as u16,
    )
}

/// A successful run keeps the invariant and the accounting: the records it
/// completed plus the member still in flight balance the members it opened.
pub proof fn lemma_run_accounting(c: CollectorView, s: Seq<XmlEventView>)
    requires
        run_inv(c),
        spec_run_from(c, s).2 is Ok,
    ensures
        run_inv(spec_run_from(c, s).0),
        spec_run_from(c, s).0.path.len() == c.path.len() + depth_delta_seq(s),
        spec_run_from(c, s).0.table == c.table,
        spec_run_from(c, s).1.len() + member_flag(spec_run_from(c, s).0) == member_flag(c)
            + member_open_count(s, c.path.len() as int),
    decreases s.len(),
{
    if s.len() > 0 {
        let s0 = s.drop_last();
        lemma_run_accounting(c, s0);
        let cp = spec_run_from(c, s0).0;
        lemma_step_accounting(cp, s.last());
    }
}

/// A run that consumes a fully closed document emits exactly one record per
/// member element of the input; the run spec appends each record at its
/// member's closing tag, so the records stand in the order of those closing
/// tags.
pub proof fn lemma_emit_count_matches_members(c: CollectorView, s: Seq<XmlEventView>)
    requires
        run_inv(c),
        c.path.len() == 0,
        c.member is None,
        spec_run_from(c, s).2 is Ok,
        spec_run_from(c, s).0.path.len() == 0,
    ensures
        spec_run_from(c, s).1.len() == member_open_count(s, 0),
{
    lemma_run_accounting(c, s);
}

} // verus!
