//! Two-tier error model.
//!
//! An internal error (`ValError`) is a cheap list of single failures whose
//! location paths grow outward while the tree unwinds: nodes push the
//! outer segment onto a reversed path, so the finished report reads
//! root-to-leaf.  A host-facing `ValidationError` report is formed once at
//! a call boundary from the internal error.

use vstd::prelude::*;
use crate::value::Value;
use crate::value::ValueS;

verus! {

/// One segment of a location path: a mapping key or a sequence index.
#[derive(Clone, Debug)]
pub enum LocItem {
    Key(String),
    Index(usize),
}

/// Mathematical model of a path segment.
pub enum LocS {
    Key(Seq<char>),
    Index(int),
}

impl LocItem {
    pub open spec fn deep(&self) -> LocS {
        match self {
            LocItem::Key(s) => LocS::Key(s@),
            LocItem::Index(i) => LocS::Index(*i as int),
        }
    }

    pub fn dup(&self) -> (r: LocItem)
        ensures
            r.deep() == self.deep(),
    {
        match self {
            LocItem::Key(s) => LocItem::Key(s.clone()),
            LocItem::Index(i) => LocItem::Index(*i),
        }
    }
}

/// Model of an optional path segment.
pub open spec fn opt_loc_deep(o: &Option<LocItem>) -> Option<LocS> {
    match o {
        Some(l) => Some(l.deep()),
        None => None,
    }
}

/// The kinds of validation failure this engine can report.
///
/// `TooShort` records the observed count; `TooLong` deliberately does not:
/// the producer is never drained past the bound, so the true final length
/// is unknown at the moment the failure is raised.
#[derive(Clone, Copy, PartialEq, Eq, Structural, Debug)]
pub enum ErrorKind {
    IntType,
    StrType,
    IterableType,
    Recursion,
    TooShort { min_length: usize, actual_length: usize },
    TooLong { max_length: usize },
}

/// One internal failure: a kind, a reversed (leaf-to-root) location path,
/// and the offending input.
#[derive(Debug)]
pub struct ValLineError {
    pub kind: ErrorKind,
    pub rev_path: Vec<LocItem>,
    pub input: Value,
}

/// Mathematical model of one failure, with the path in root-to-leaf order.
pub struct LineS {
    pub kind: ErrorKind,
    pub path: Seq<LocS>,
    pub input: ValueS,
}

impl ValLineError {
    pub open spec fn deep(&self) -> LineS {
        LineS {
            kind: self.kind,
            path: self.rev_path@.map_values(|l: LocItem| l.deep()).reverse(),
            input: self.input.deep(),
        }
    }

    pub fn dup(&self) -> (r: ValLineError)
        ensures
            r.deep() == self.deep(),
    {
        let mut path: Vec<LocItem> = Vec::new();
        let mut k: usize = 0;
        while k < self.rev_path.len()
            invariant
                k <= self.rev_path.len(),
                path@.len() == k as int,
                forall|j: int| 0 <= j < k ==> #[trigger] path@[j].deep() == self.rev_path@[j].deep(),
            decreases self.rev_path.len() - k,
        {
            let d = self.rev_path[k].dup();
            path.push(d);
            k += 1;
        }
        proof {
            assert(path@.map_values(|l: LocItem| l.deep()) =~= self.rev_path@.map_values(
                |l: LocItem| l.deep(),
            ));
        }
        ValLineError { kind: self.kind, rev_path: path, input: self.input.dup() }
    }
}

/// Model of a list of internal failures.
pub open spec fn lines_deep(lines: Seq<ValLineError>) -> Seq<LineS> {
    lines.map_values(|l: ValLineError| l.deep())
}

/// An internal validation error: one or more located failures, cheap to
/// construct and to propagate through nested nodes.
#[derive(Debug)]
pub struct ValError {
    pub lines: Vec<ValLineError>,
}

impl ValError {
    pub open spec fn deep(&self) -> Seq<LineS> {
        lines_deep(self.lines@)
    }

    /// A single failure with an empty location path.
    pub fn new_custom(kind: ErrorKind, input: Value) -> (r: ValError)
        ensures
            (r.deep() =~= seq![
                (LineS { kind, path: Seq::empty(), input: input.deep() }),
            ]),
    {
        let line = ValLineError { kind, rev_path: Vec::new(), input };
        let mut lines: Vec<ValLineError> = Vec::new();
        lines.push(line);
        ValError { lines }
    }

    /// Prepend `loc` to the path of every failure: errors unwinding
    /// through a nested node gain the outer segment at the front.
    pub fn prepend_loc(&mut self, loc: &LocItem)
        ensures
            final(self).deep() =~= old(self).deep().map_values(
                |l: LineS| (LineS { kind: l.kind, path: seq![loc.deep()] + l.path, input: l.input }),
            ),
    {
        let mut out: Vec<ValLineError> = Vec::new();
        let mut k: usize = 0;
        while k < self.lines.len()
            invariant
                k <= self.lines.len(),
                self.lines@ == old(self).lines@,
                out@.len() == k as int,
                forall|j: int|
                    0 <= j < k ==> #[trigger] out@[j].deep() == (LineS {
                        kind: old(self).lines@[j].deep().kind,
                        path: seq![loc.deep()] + old(self).lines@[j].deep().path,
                        input: old(self).lines@[j].deep().input,
                    }),
            decreases self.lines.len() - k,
        {
            let mut line = self.lines[k].dup();
            let ghost pre = line.deep();
            let d = loc.dup();
            line.rev_path.push(d);
            proof {
                assert(line.deep().path =~= seq![loc.deep()] + pre.path);
            }
            out.push(line);
            k += 1;
        }
        self.lines = out;
        proof {
            assert(final(self).deep() =~= old(self).deep().map_values(
                |l: LineS| (LineS { kind: l.kind, path: seq![loc.deep()] + l.path, input: l.input }),
            ));
        }
    }

    /// Append all failures of `other` after those of `self`.
    pub fn extend(&mut self, other: ValError)
        ensures
            final(self).deep() =~= old(self).deep() + other.deep(),
    {
        let rest = other.lines;
        let ghost lines0: Seq<ValLineError> = rest@;
        let n: usize = rest.len();
        let mut k: usize = 0;
        // copy the lines over one by one, keeping their order
        while k < n
            invariant
                k <= n,
                n == rest@.len(),
                rest@ == lines0,
                self.lines@.len() == old(self).lines@.len() + k,
                forall|j: int|
                    0 <= j < old(self).lines@.len() ==> #[trigger] self.lines@[j].deep() == old(
                        self,
                    ).lines@[j].deep(),
                forall|j: int|
                    0 <= j < k ==> #[trigger] self.lines@[old(self).lines@.len() + j].deep()
                        == lines0[j].deep(),
            decreases n - k,
        {
            let line = rest[k].dup();
            self.lines.push(line);
            k += 1;
        }
        proof {
            let n0 = old(self).lines@.len();
            assert forall|j: int| n0 <= j < self.lines@.len() implies self.lines@[j].deep()
                == lines0[j - n0].deep() by {
                assert(self.lines@[n0 + (j - n0)].deep() == lines0[j - n0].deep());
            }
            assert(final(self).deep() =~= old(self).deep() + lines_deep(lines0));
        }
    }
}

/// One entry of a host-facing report: kind, root-to-leaf path, and the
/// offending input unless it was redacted.
#[derive(Debug)]
pub struct ErrorItem {
    pub kind: ErrorKind,
    pub path: Vec<LocItem>,
    pub input: Option<Value>,
}

/// Mathematical model of a report entry.
pub struct ItemS {
    pub kind: ErrorKind,
    pub path: Seq<LocS>,
    pub input: Option<ValueS>,
}

impl ErrorItem {
    pub open spec fn deep(&self) -> ItemS {
        ItemS {
            kind: self.kind,
            path: self.path@.map_values(|l: LocItem| l.deep()),
            input: match self.input {
                Some(v) => Some(v.deep()),
                None => None,
            },
        }
    }
}

/// Mathematical model of a whole report.
pub struct ReportS {
    pub title: Seq<char>,
    pub items: Seq<ItemS>,
    pub cause: Option<Seq<LineS>>,
}

/// What a report formed from `lines` under the given options must hold.
pub open spec fn report_of(
    title: Seq<char>,
    lines: Seq<LineS>,
    outer: Option<LocS>,
    hide_input: bool,
    with_cause: bool,
) -> ReportS {
    ReportS {
        title,
        items: lines.map_values(
            |l: LineS| (ItemS {
                kind: l.kind,
                path: match outer {
                    Some(o) => seq![o] + l.path,
                    None => l.path,
                },
                input: if hide_input {
                    None
                } else {
                    Some(l.input)
                },
            }),
        ),
        cause: if with_cause {
            Some(lines)
        } else {
            None
        },
    }
}

/// The terminal, host-facing aggregation of located validation failures.
#[derive(Debug)]
pub struct ValidationError {
    pub title: String,
    pub items: Vec<ErrorItem>,
    pub cause: Option<ValError>,
}

impl ValidationError {
    pub open spec fn deep(&self) -> ReportS {
        ReportS {
            title: self.title@,
            items: self.items@.map_values(|e: ErrorItem| e.deep()),
            cause: match self.cause {
                Some(c) => Some(c.deep()),
                None => None,
            },
        }
    }

    /// Form the host-facing report from an internal error at a call
    /// boundary: reverse each path into root-to-leaf order, prepend the
    /// outer location if any, redact inputs when asked to, and attach the
    /// internal error as the cause when asked to.
    pub fn from_val_error(
        title: String,
        error: ValError,
        outer_location: Option<LocItem>,
        hide_input_in_errors: bool,
        validation_error_cause: bool,
    ) -> (r: ValidationError)
        ensures
            r.deep() == report_of(
                title@,
                error.deep(),
                match outer_location {
                    Some(l) => Some(l.deep()),
                    None => None,
                },
                hide_input_in_errors,
                validation_error_cause,
            ),
    {
        let mut items: Vec<ErrorItem> = Vec::new();
        let mut k: usize = 0;
        let ghost outer_s: Option<LocS> = match &outer_location {
            Some(l) => Some(l.deep()),
            None => None,
        };
        while k < error.lines.len()
            invariant
                k <= error.lines.len(),
                items@.len() == k as int,
                outer_s == (match outer_location {
                    Some(l) => Some(l.deep()),
                    None => None,
                }),
                forall|j: int|
                    0 <= j < k ==> #[trigger] items@[j].deep() == (ItemS {
                        kind: error.lines@[j].deep().kind,
                        path: match outer_s {
                            Some(o) => seq![o] + error.lines@[j].deep().path,
                            None => error.lines@[j].deep().path,
                        },
                        input: if hide_input_in_errors {
                            None
                        } else {
                            Some(error.lines@[j].deep().input)
                        },
                    }),
            decreases error.lines.len() - k,
        {
            let line = &error.lines[k];
            // reverse the leaf-to-root path, with the outer segment first
            let mut path: Vec<LocItem> = Vec::new();
            match &outer_location {
                Some(l) => path.push(l.dup()),
                None => (),
            }
            let ghost base: int = if outer_location is Some {
                1int
            } else {
                0int
            };
            let mut j: usize = line.rev_path.len();
            while j > 0
                invariant
                    j <= line.rev_path.len(),
                    base == (if outer_location is Some {
                        1int
                    } else {
                        0int
                    }),
                    path@.len() == base + (line.rev_path@.len() - j),
                    outer_location is Some ==> path@[0].deep() == outer_s->Some_0,
                    outer_s is Some <==> outer_location is Some,
                    forall|m: int|
                        0 <= m < line.rev_path@.len() - j ==> #[trigger] path@[m + base].deep()
                            == line.rev_path@[line.rev_path@.len() - 1 - m].deep(),
                decreases j,
            {
                j -= 1;
                let d = line.rev_path[j].dup();
                path.push(d);
            }
            let input: Option<Value> = if hide_input_in_errors {
                None
            } else {
                Some(line.input.dup())
            };
            let item = ErrorItem { kind: line.kind, path, input };
            proof {
                let ls = line.deep();
                let n_seg = line.rev_path@.len();
                assert forall|i: int| base <= i < path@.len() implies path@[i].deep()
                    == line.rev_path@[n_seg - 1 - (i - base)].deep() by {
                    assert(path@[(i - base) + base].deep() == line.rev_path@[n_seg - 1 - (i
                        - base)].deep());
                }
                assert(ls.path =~= line.rev_path@.map_values(|l: LocItem| l.deep()).reverse());
                assert(item.deep().path =~= (match outer_s {
                    Some(o) => seq![o] + ls.path,
                    None => ls.path,
                }));
            }
            items.push(item);
            k += 1;
        }
        let cause: Option<ValError> = if validation_error_cause {
            Some(error)
        } else {
            None
        };
        let r = ValidationError { title, items, cause };
        proof {
            assert(r.deep().items =~= report_of(
                title@,
                error.deep(),
                outer_s,
                hide_input_in_errors,
                validation_error_cause,
            ).items);
            assert(r.deep() == report_of(
                title@,
                error.deep(),
                outer_s,
                hide_input_in_errors,
                validation_error_cause,
            ));
        }
        r
    }
}

/// Structural misconfiguration found while compiling a schema: a schema
/// reference whose name is never defined.  Fatal to compilation.
#[derive(Clone, Debug)]
pub struct DefinitionError {
    pub name: String,
}

} // verus!
