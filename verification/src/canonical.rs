//! Canonical paths for the source and the destination of a run. The destination
//! need not exist yet, so its last component may be left as it is.

use crate::path::Component;
use crate::path::FsPath;
use crate::path::Part;
use crate::utils::ErrorKind;
use crate::utils::IoError;
use crate::utils::Metadata;
use vstd::prelude::*;

verus! {

/// Why a path has no canonical form.
#[derive(PartialEq, Eq, Debug, Clone, Copy)]
pub enum CanonError {
    /// The directory that holds the path could not be resolved.
    Io(IoError),
    /// The path must exist and does not.
    Missing,
    /// A report did not answer what was asked for.
    Confused,
}

/// Where a resolution stands.
#[derive(PartialEq, Eq, Debug, Clone, Copy, Structural)]
pub enum CanonPhase {
    /// The whole path is being resolved.
    Whole,
    /// The path without its last component is being resolved.
    Parent,
    /// The result is being probed.
    Probe,
    Finished,
    Failed,
}

/// What the resolution asks for.
#[derive(PartialEq, Eq, Debug, Clone, Copy)]
pub enum CanonDirective {
    /// Ask the file system for the canonical form of the subject, in which every
    /// link is followed, and report with `CanonReport::Resolved`.
    Resolve,
    /// Probe the subject without following links, and report with
    /// `CanonReport::Probed`.
    Probe,
    /// The subject is the result.
    Done,
    Fail(CanonError),
}

/// What the resolution is told.
pub enum CanonReport {
    Resolved(Result<FsPath, IoError>),
    Probed(Result<Metadata, IoError>),
}

/// What a resolution is told, as plain values.
pub enum CanonReportView {
    Resolved(Result<Seq<Part>, IoError>),
    Probed(Result<Metadata, IoError>),
}

impl View for CanonReport {
    type V = CanonReportView;

    open spec fn view(&self) -> CanonReportView {
        match self {
            CanonReport::Resolved(Ok(path)) => CanonReportView::Resolved(Ok(path@)),
            CanonReport::Resolved(Err(e)) => CanonReportView::Resolved(Err(*e)),
            CanonReport::Probed(probe) => CanonReportView::Probed(*probe),
        }
    }
}

/// The state of a resolution.
pub struct CanonState {
    pub phase: CanonPhase,
    /// The path to resolve.
    pub path: Seq<Part>,
    pub must_exist: bool,
    /// What the pending question is about; in the end, the result.
    pub subject: Seq<Part>,
    pub error: CanonError,
}

impl CanonState {
    /// The state of a resolution that has not begun.
    pub open spec fn start(path: Seq<Part>, must_exist: bool) -> CanonState {
        CanonState {
            phase: CanonPhase::Whole,
            path,
            must_exist,
            subject: path,
            error: CanonError::Confused,
        }
    }

    /// The state once the resolution has failed with `error`.
    pub open spec fn fail(self, error: CanonError) -> CanonState {
        CanonState { phase: CanonPhase::Failed, error, ..self }
    }

    /// The state once `canon` is the candidate: it is the result, unless it has
    /// to exist, which a probe will tell.
    pub open spec fn settle(self, canon: Seq<Part>) -> CanonState {
        CanonState {
            phase: if self.must_exist {
                CanonPhase::Probe
            } else {
                CanonPhase::Finished
            },
            subject: canon,
            ..self
        }
    }

    /// Whether the path ends in a name, so that it has a directory that holds it.
    pub open spec fn has_name(self) -> bool {
        self.path.len() > 0 && self.path.last() is Name
    }

    /// The state after `report`.
    pub open spec fn step(self, report: CanonReportView) -> CanonState {
        match (self.phase, report) {
            (CanonPhase::Finished, _) => self,
            (CanonPhase::Failed, _) => self,
            (CanonPhase::Whole, CanonReportView::Resolved(Ok(resolved))) => CanonState {
                phase: CanonPhase::Finished,
                subject: resolved,
                ..self
            },
            (CanonPhase::Whole, CanonReportView::Resolved(Err(_))) => if self.has_name() {
                CanonState { phase: CanonPhase::Parent, subject: self.path.drop_last(), ..self }
            } else {
                self.settle(self.path)
            },
            (CanonPhase::Parent, CanonReportView::Resolved(Ok(resolved))) => self.settle(
                resolved.push(self.path.last()),
            ),
            (CanonPhase::Parent, CanonReportView::Resolved(Err(e))) => self.fail(CanonError::Io(e)),
            (CanonPhase::Probe, CanonReportView::Probed(Ok(_))) => CanonState {
                phase: CanonPhase::Finished,
                ..self
            },
            (CanonPhase::Probe, CanonReportView::Probed(Err(e))) => if e.kind
                == ErrorKind::NotFound {
                self.fail(CanonError::Missing)
            } else {
                self.fail(CanonError::Io(e))
            },
            _ => self.fail(CanonError::Confused),
        }
    }

    /// What holds of every state that a resolution can reach.
    pub open spec fn wf(self) -> bool {
        self.phase == CanonPhase::Parent ==> self.has_name()
    }

    /// What is asked for in this state.
    pub open spec fn pending(self) -> CanonDirective {
        match self.phase {
            CanonPhase::Whole | CanonPhase::Parent => CanonDirective::Resolve,
            CanonPhase::Probe => CanonDirective::Probe,
            CanonPhase::Finished => CanonDirective::Done,
            CanonPhase::Failed => CanonDirective::Fail(self.error),
        }
    }
}

/// A path on its way to its canonical form.
pub struct Canonicalizer {
    phase: CanonPhase,
    path: FsPath,
    must_exist: bool,
    subject: FsPath,
    error: CanonError,
}

impl View for Canonicalizer {
    type V = CanonState;

    closed spec fn view(&self) -> CanonState {
        CanonState {
            phase: self.phase,
            path: self.path@,
            must_exist: self.must_exist,
            subject: self.subject@,
            error: self.error,
        }
    }
}

/// Attempts to canonicalize `path`, but allows its last component to be a broken
/// symlink, or not to exist at all unless `must_exist` is true. Returns the
/// resolution and what it asks for first.
pub fn canonicalize(path: &FsPath, must_exist: bool) -> (res: (Canonicalizer, CanonDirective))
    ensures
        res.0@ == CanonState::start(path@, must_exist),
        res.0@.wf(),
        res.1 == res.0@.pending(),
{
    (
        Canonicalizer {
            phase: CanonPhase::Whole,
            path: path.clone(),
            must_exist,
            subject: path.clone(),
            error: CanonError::Confused,
        },
        CanonDirective::Resolve,
    )
}

impl Canonicalizer {
    /// What the pending question is about; in the end, the result.
    pub fn subject(&self) -> (subject: &FsPath)
        ensures
            subject@ == self@.subject,
    {
        &self.subject
    }

    fn fail(&mut self, error: CanonError) -> (directive: CanonDirective)
        ensures
            final(self)@ == old(self)@.fail(error),
            directive == final(self)@.pending(),
    {
        self.phase = CanonPhase::Failed;
        self.error = error;
        CanonDirective::Fail(error)
    }

    fn settle(&mut self, canon: FsPath) -> (directive: CanonDirective)
        ensures
            final(self)@ == old(self)@.settle(canon@),
            directive == final(self)@.pending(),
    {
        self.subject = canon;
        if self.must_exist {
            self.phase = CanonPhase::Probe;
            CanonDirective::Probe
        } else {
            self.phase = CanonPhase::Finished;
            CanonDirective::Done
        }
    }

    /// Takes in what became of the last directive and says what to do next.
    pub fn step(&mut self, report: CanonReport) -> (directive: CanonDirective)
        requires
            old(self)@.wf(),
        ensures
            final(self)@ == old(self)@.step(report@),
            final(self)@.wf(),
            directive == final(self)@.pending(),
    {
        match self.phase {
            CanonPhase::Finished => {
                return CanonDirective::Done;
            },
            CanonPhase::Failed => {
                return CanonDirective::Fail(self.error);
            },
            _ => {},
        }
        match report {
            CanonReport::Resolved(Ok(resolved)) => match self.phase {
                CanonPhase::Whole => {
                    self.subject = resolved;
                    self.phase = CanonPhase::Finished;
                    CanonDirective::Done
                },
                CanonPhase::Parent => match self.path.file_name() {
                    Some(name) => {
                        let mut canon = resolved;
                        canon.push(Component::Normal(name));
                        self.settle(canon)
                    },
                    None => self.fail(CanonError::Confused),
                },
                _ => self.fail(CanonError::Confused),
            },
            CanonReport::Resolved(Err(e)) => match self.phase {
                CanonPhase::Whole => match (self.path.parent(), self.path.file_name()) {
                    (Some(parent), Some(_)) => {
                        self.subject = parent;
                        self.phase = CanonPhase::Parent;
                        CanonDirective::Resolve
                    },
                    _ => {
                        let canon = self.path.clone();
                        self.settle(canon)
                    },
                },
                CanonPhase::Parent => self.fail(CanonError::Io(e)),
                _ => self.fail(CanonError::Confused),
            },
            CanonReport::Probed(probe) => match self.phase {
                CanonPhase::Probe => match crate::utils::path_exists(&probe) {
                    Ok(true) => {
                        self.phase = CanonPhase::Finished;
                        CanonDirective::Done
                    },
                    Ok(false) => self.fail(CanonError::Missing),
                    Err(e) => self.fail(CanonError::Io(e)),
                },
                _ => self.fail(CanonError::Confused),
            },
        }
    }
}

/// A path that the file system resolves is canonical as the file system gives it.
pub proof fn resolved_path_is_taken(path: Seq<Part>, must_exist: bool, resolved: Seq<Part>)
    ensures
        CanonState::start(path, must_exist).step(CanonReportView::Resolved(Ok(resolved))).pending()
            == CanonDirective::Done,
        CanonState::start(path, must_exist).step(CanonReportView::Resolved(Ok(resolved))).subject
            == resolved,
{
}

} // verus!
