//! The top-level state machine.
//!
//! The collector owns the rolling ancestor path and the single in-flight
//! record builder, and dispatches each incoming structural event.  Its state
//! transitions are written down once, as spec functions, and every visit
//! method is proved to take exactly that transition.

use vstd::prelude::*;

use crate::interner::{spec_intern, StrRef, StringInterner, MAX_SYMBOLS};
use crate::member::{
    spec_finish, spec_member_start, spec_member_text, spec_new_from_tag, CurrentMemberBuilder,
    CurrentMemberView, FeatureMemberBuilder,
};
use crate::paths::{path_ends_with, path_eq, path_starts_with};
use crate::table::{lemma_table_wf_preserved, table_wf, PathTable, PathTableView};
use crate::{FeatureMember, FeatureMemberView, GmlError};

verus! {

/// Abstraction of the collector: the interner model, the path tables, the
/// rolling ancestor path, and the in-flight member.
#[verifier::ext_equal]
pub struct CollectorView {
    pub interner: Seq<Seq<char>>,
    pub table: PathTableView,
    pub path: Seq<StrRef>,
    pub member: Option<CurrentMemberView>,
}

/// A collector state whose interner is well formed and whose tables resolve
/// to the schema's fixed names.
pub open spec fn collector_wf(c: CollectorView) -> bool {
    &&& crate::interner::model_wf(c.interner)
    &&& table_wf(c.table, c.interner)
}

/// What an element-open event does.  The element's name is interned and
/// pushed; at the container boundary no builder may be active; exactly one
/// level past the boundary a new member begins (fatal on an unknown tag);
/// anywhere deeper the event is forwarded to the active builder (fatal if
/// none is active).
pub open spec fn spec_visit_start(
    c: CollectorView,
    name: Seq<char>,
    attrs: Seq<(Seq<char>, Seq<char>)>,
) -> (CollectorView, Result<(), GmlError>) {
    let (interner1, h) = spec_intern(c.interner, name);
    let c1 = CollectorView { interner: interner1, ..c };
    match h {
        None => (c1, Err(GmlError::SymbolCapacityExceeded)),
        Some(hi) => {
            let sym = StrRef(hi as u16);
            let path1 = c.path.push(sym);
            let c2 = CollectorView { path: path1, ..c1 };
            if path1 == c.table.feature_member_prefix || path1.len() < 2 {
                if c.member is Some {
                    (c2, Err(GmlError::UnexpectedMember))
                } else {
                    (c2, Ok(()))
                }
            } else if c.table.feature_member_prefix.is_prefix_of(path1) && path1.len()
                == c.table.feature_member_prefix.len() + 1 {
                match spec_new_from_tag(name) {
                    Some(b) => (
                        CollectorView {
                            member: Some(CurrentMemberView { local_id: None, feature_member: b }),
                            ..c2
                        },
                        Ok(()),
                    ),
                    None => (c2, Err(GmlError::UnknownMemberTag)),
                }
            } else {
                match c.member {
                    None => (c2, Err(GmlError::NoMemberActive)),
                    Some(m) => (
                        CollectorView {
                            member: Some(spec_member_start(m, c.table, path1, attrs)),
                            ..c2
                        },
                        Ok(()),
                    ),
                }
            }
        },
    }
}

/// What an element-close event does.  The closing name must match the top of
/// the path, which is popped; with no builder active this must be a
/// container-level close; back at the boundary the member is finished and the
/// completed record handed out; anywhere deeper the close is forwarded to the
/// builder, which has nothing to extract from it.
pub open spec fn spec_visit_end(c: CollectorView, name: Seq<char>) -> (
    CollectorView,
    Result<Option<FeatureMemberView>, GmlError>,
) {
    let (interner1, h) = spec_intern(c.interner, name);
    let c1 = CollectorView { interner: interner1, ..c };
    match h {
        None => (c1, Err(GmlError::SymbolCapacityExceeded)),
        Some(hi) => {
            let sym = StrRef(hi as u16);
            if c.path.len() > 0 && c.path.last() == sym {
                let path1 = c.path.drop_last();
                let c2 = CollectorView { path: path1, ..c1 };
                match c.member {
                    None => {
                        if path1.len() <= 1 {
                            (c2, Ok(None))
                        } else {
                            (c2, Err(GmlError::NoMemberActive))
                        }
                    },
                    Some(m) => {
                        if path1 == c.table.feature_member_prefix {
                            let c3 = CollectorView { member: None, ..c2 };
                            match spec_finish(m) {
                                Ok(fm) => (c3, Ok(Some(fm))),
                                Err(e) => (c3, Err(e)),
                            }
                        } else {
                            (c2, Ok(None))
                        }
                    },
                }
            } else {
                (c1, Err(GmlError::MismatchedCloseTag))
            }
        },
    }
}

/// What a text event does.  Text requires an active member; at the fixed
/// `localId` suffix the identifier is captured last-write-wins; otherwise the
/// text is forwarded to the builder.
pub open spec fn spec_visit_text(c: CollectorView, content: Seq<char>) -> (
    CollectorView,
    Result<(), GmlError>,
) {
    match c.member {
        None => (c, Err(GmlError::NoMemberActive)),
        Some(m) => {
            if c.table.local_id_suffix.is_suffix_of(c.path) {
                (
                    CollectorView {
                        member: Some(CurrentMemberView { local_id: Some(content), ..m }),
                        ..c
                    },
                    Ok(()),
                )
            } else {
                (
                    CollectorView {
                        member: Some(spec_member_text(m, c.table, c.path, content)),
                        ..c
                    },
                    Ok(()),
                )
            }
        },
    }
}

/// What a self-closing element does: open-then-immediate-close at the same
/// depth.  Such elements carry only attributes, so the builder's open handler
/// runs against the momentarily extended path, which is then popped again.
pub open spec fn spec_visit_empty(
    c: CollectorView,
    name: Seq<char>,
    attrs: Seq<(Seq<char>, Seq<char>)>,
) -> (CollectorView, Result<(), GmlError>) {
    let (interner1, h) = spec_intern(c.interner, name);
    let c1 = CollectorView { interner: interner1, ..c };
    match h {
        None => (c1, Err(GmlError::SymbolCapacityExceeded)),
        Some(hi) => {
            let sym = StrRef(hi as u16);
            let path1 = c.path.push(sym);
            match c.member {
                None => (CollectorView { path: path1, ..c1 }, Err(GmlError::NoMemberActive)),
                Some(m) => (
                    CollectorView {
                        member: Some(spec_member_start(m, c.table, path1, attrs)),
                        ..c1
                    },
                    Ok(()),
                ),
            }
        },
    }
}

/// The collector: the interner, the eagerly built path tables, the rolling
/// ancestor path, and at most one in-flight member.
pub struct AddressCollector {
    string_interner: StringInterner,
    table: PathTable,
    current_path: Vec<StrRef>,
    current_member: Option<CurrentMemberBuilder>,
}

impl View for AddressCollector {
    type V = CollectorView;

    closed spec fn view(&self) -> CollectorView {
        CollectorView {
            interner: self.string_interner@,
            table: self.table@,
            path: self.current_path@,
            member: self.current_member.deep_view(),
        }
    }
}

impl AddressCollector {
    /// The collector's invariant: see [`collector_wf`].
    pub open spec fn wf(&self) -> bool {
        collector_wf(self@)
    }

    /// A fresh collector over an empty document: the interner is warmed with
    /// the schema's names and the path tables laid out.
    pub fn new() -> (r: AddressCollector)
        ensures
            r.wf(),
            r@.path == Seq::<StrRef>::empty(),
            r@.member is None,
    {
        let mut string_interner = StringInterner::new();
        let table = PathTable::build(&mut string_interner);
        let r = AddressCollector {
            string_interner,
            table,
            current_path: Vec::new(),
            current_member: None,
        };
        proof {
            assert(r@.path =~= Seq::<StrRef>::empty());
        }
        r
    }

    /// Element open: push the element's interned name and dispatch as
    /// [`spec_visit_start`] describes.
    pub fn visit_start(&mut self, name: &str, attrs: &Vec<(String, String)>) -> (r: Result<
        (),
        GmlError,
    >)
        requires
            old(self).wf(),
        ensures
            final(self).wf(),
            final(self)@ == spec_visit_start(old(self)@, name@, attrs.deep_view()).0,
            r == spec_visit_start(old(self)@, name@, attrs.deep_view()).1,
    {
        let sym = match self.string_interner.intern(name) {
            Ok(sym) => sym,
            Err(e) => {
                return Err(e);
            },
        };
        proof {
            lemma_table_wf_preserved(old(self)@.table, old(self)@.interner, name@);
        }
        self.current_path.push(sym);
        proof {
            assert(self@.table.feature_member_prefix.len() == 2);
        }
        if path_eq(&self.current_path, &self.table.feature_member_prefix)
            || self.current_path.len() < 2 {
            if self.current_member.is_some() {
                return Err(GmlError::UnexpectedMember);
            }
            Ok(())
        } else if path_starts_with(&self.current_path, &self.table.feature_member_prefix)
            && self.current_path.len() == self.table.feature_member_prefix.len() + 1 {
            let feature_member = match FeatureMemberBuilder::new_from_tag(name) {
                Ok(b) => b,
                Err(e) => {
                    return Err(e);
                },
            };
            self.current_member = Some(CurrentMemberBuilder { local_id: None, feature_member });
            Ok(())
        } else {
            match &mut self.current_member {
                None => Err(GmlError::NoMemberActive),
                Some(member) => {
                    member.visit_start(&self.table, &self.current_path, attrs);
                    Ok(())
                },
            }
        }
    }

    /// Element close: pop the matching name and dispatch as
    /// [`spec_visit_end`] describes; a completed record is handed back.
    pub fn visit_end(&mut self, name: &str) -> (r: Result<Option<FeatureMember>, GmlError>)
        requires
            old(self).wf(),
        ensures
            final(self).wf(),
            final(self)@ == spec_visit_end(old(self)@, name@).0,
            match r {
                Ok(opt) => spec_visit_end(old(self)@, name@).1 == Ok::<
                    Option<FeatureMemberView>,
                    GmlError,
                >(opt.deep_view()),
                Err(e) => spec_visit_end(old(self)@, name@).1 == Err::<
                    Option<FeatureMemberView>,
                    GmlError,
                >(e),
            },
    {
        let sym = match self.string_interner.intern(name) {
            Ok(sym) => sym,
            Err(e) => {
                return Err(e);
            },
        };
        proof {
            lemma_table_wf_preserved(old(self)@.table, old(self)@.interner, name@);
        }
        let n = self.current_path.len();
        if n == 0 {
            return Err(GmlError::MismatchedCloseTag);
        }
        let top = self.current_path[n - 1];
        if top != sym {
            return Err(GmlError::MismatchedCloseTag);
        }
        self.current_path.pop();
        match self.current_member.take() {
            None => {
                if self.current_path.len() <= 1 {
                    Ok(None)
                } else {
                    Err(GmlError::NoMemberActive)
                }
            },
            Some(mut member) => {
                if path_eq(&self.current_path, &self.table.feature_member_prefix) {
                    match member.finish() {
                        Ok(fm) => Ok(Some(fm)),
                        Err(e) => Err(e),
                    }
                } else {
                    member.visit_end();
                    self.current_member = Some(member);
                    Ok(None)
                }
            },
        }
    }

    /// Text content: capture the `localId` (last occurrence wins) or forward
    /// to the active builder, as [`spec_visit_text`] describes.
    pub fn visit_text(&mut self, content: String) -> (r: Result<(), GmlError>)
        requires
            old(self).wf(),
        ensures
            final(self).wf(),
            final(self)@ == spec_visit_text(old(self)@, content@).0,
            r == spec_visit_text(old(self)@, content@).1,
    {
        match &mut self.current_member {
            None => Err(GmlError::NoMemberActive),
            Some(member) => {
                if path_ends_with(&self.current_path, &self.table.local_id_suffix) {
                    member.local_id = Some(content);
                    Ok(())
                } else {
                    member.visit_text(&self.table, &self.current_path, content);
                    Ok(())
                }
            },
        }
    }

    /// Self-closing element: extend the path for the builder's open handler,
    /// then pop it again, as [`spec_visit_empty`] describes.
    pub fn visit_empty(&mut self, name: &str, attrs: &Vec<(String, String)>) -> (r: Result<
        (),
        GmlError,
    >)
        requires
            old(self).wf(),
        ensures
            final(self).wf(),
            final(self)@ == spec_visit_empty(old(self)@, name@, attrs.deep_view()).0,
            r == spec_visit_empty(old(self)@, name@, attrs.deep_view()).1,
    {
        let sym = match self.string_interner.intern(name) {
            Ok(sym) => sym,
            Err(e) => {
                return Err(e);
            },
        };
        proof {
            lemma_table_wf_preserved(old(self)@.table, old(self)@.interner, name@);
        }
        self.current_path.push(sym);
        match &mut self.current_member {
            None => Err(GmlError::NoMemberActive),
            Some(member) => {
                member.visit_empty(&self.table, &self.current_path, attrs);
                self.current_path.pop();
                proof {
                    assert(self@.path =~= old(self)@.path);
                }
                Ok(())
            },
        }
    }
}

} // verus!
