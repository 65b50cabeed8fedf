use crate::error::{is_io_error, Error, IoFailure};
use crate::gate::{delete_file, existence, file_exists, removal_done};
use crate::names::{file_name_is_legal_on, host_family, legality, Family};
use crate::times::{pair_of, uniform, FileStamp, TimestampPair, TimestampSource};
use vstd::prelude::*;

verus! {

/// The options of one run, as the command line gives them.
#[derive(Debug, Clone)]
pub struct Poke {
    /// Change only the access time.
    pub access_time: bool,
    /// Delete the given file instead of touching it.
    pub bin: bool,
    /// Do not create a missing file.
    pub no_create: bool,
    /// Use this date text instead of the current time.
    pub date: Option<String>,
    /// Change only the modification time.
    pub modification_time: bool,
    /// Use this file's times instead of the current time.
    pub reference_file: Option<String>,
    /// The files to work on, in order.
    pub files: Vec<String>,
}

/// The per-file policy of a run.
#[derive(Debug, Clone, Copy, PartialEq, Eq, Structural)]
pub struct OperationFlags {
    pub bin: bool,
    pub no_create: bool,
    pub access_only: bool,
    pub modification_only: bool,
}

impl Poke {
    /// A date wins over a reference file; with neither, the current time is used.
    pub open spec fn spec_source(self) -> TimestampSource {
        match self.date {
            Some(d) => TimestampSource::ExplicitDate(d),
            None => match self.reference_file {
                Some(f) => TimestampSource::ReferenceFile(f),
                None => TimestampSource::Now,
            },
        }
    }

    pub open spec fn spec_flags(self) -> OperationFlags {
        OperationFlags {
            bin: self.bin,
            no_create: self.no_create,
            access_only: self.access_time,
            modification_only: self.modification_time,
        }
    }

    pub open spec fn has_explicit_source(self) -> bool {
        self.date is Some || self.reference_file is Some
    }

    /// The one source of times of this run.
    pub fn source(&self) -> (r: TimestampSource)
        ensures
            r == self.spec_source(),
    {
        match &self.date {
            Some(d) => TimestampSource::ExplicitDate(d.clone()),
            None => match &self.reference_file {
                Some(f) => TimestampSource::ReferenceFile(f.clone()),
                None => TimestampSource::Now,
            },
        }
    }

    pub fn flags(&self) -> (r: OperationFlags)
        ensures
            r == self.spec_flags(),
    {
        OperationFlags {
            bin: self.bin,
            no_create: self.no_create,
            access_only: self.access_time,
            modification_only: self.modification_time,
        }
    }
}

/// The times the applier writes, as (access, modification): the access time
/// unless only the modification time was asked for, the modification time
/// unless only the access time was asked for.
pub open spec fn planned_writes(pair: TimestampPair, flags: OperationFlags) -> (
    Option<FileStamp>,
    Option<FileStamp>,
) {
    (
        if flags.modification_only {
            None
        } else {
            Some(pair.access)
        },
        if flags.access_only {
            None
        } else {
            Some(pair.modification)
        },
    )
}

pub fn time_writes(pair: TimestampPair, flags: OperationFlags) -> (r: (
    Option<FileStamp>,
    Option<FileStamp>,
))
    ensures
        r == planned_writes(pair, flags),
{
    let write_access = !flags.modification_only;
    let write_modification = !flags.access_only;
    (
        if write_access {
            Some(pair.access)
        } else {
            None
        },
        if write_modification {
            Some(pair.modification)
        } else {
            None
        },
    )
}

/// Where a session stands.
#[derive(Debug, Clone, Copy, PartialEq, Eq, Structural)]
pub enum Phase {
    /// Nothing done yet.
    Start,
    /// Waiting for the outcome of removing the current file.
    Removing,
    /// Waiting for the outcome of reading the current file's metadata.
    Checking,
    /// Waiting for the outcome of creating the current file.
    Creating,
    /// Waiting for the outcome of setting the current file's times.
    Applying,
    /// The run is over.
    Done,
}

/// What the session asks its driver to do next.
#[derive(Debug)]
pub enum Action {
    /// Remove this file and report the outcome.
    Remove(String),
    /// Read this file's metadata and report the outcome.
    Probe(String),
    /// Create this file, empty, and report the outcome.
    Create(String),
    /// Set this file's access and modification times where given, and report the outcome.
    SetTimes(String, Option<FileStamp>, Option<FileStamp>),
    /// Tell the user that a missing file was not created; the run ends successfully.
    Notice,
    /// The run ends with this result.
    Finish(Result<(), Error>),
}

/// One run over a list of files, as a state machine: each outcome of the
/// driver's last action yields the next action.
pub struct Session {
    pub files: Vec<String>,
    pub flags: OperationFlags,
    /// Whether the times came from a date or a reference file.
    pub explicit: bool,
    pub pair: TimestampPair,
    pub family: Family,
    /// Index of the current file.
    pub pos: usize,
    pub phase: Phase,
}

impl Session {
    pub open spec fn wf(self) -> bool {
        match self.phase {
            Phase::Start | Phase::Done => self.pos <= self.files.len(),
            _ => self.pos < self.files.len(),
        }
    }

    pub open spec fn current(self) -> String {
        self.files@[self.pos as int]
    }

    pub open spec fn with_phase(self, p: Phase) -> Session {
        Session { phase: p, ..self }
    }

    pub open spec fn advanced(self) -> Session {
        Session { pos: (self.pos + 1) as usize, ..self }
    }
}

/// The state and action on taking up file `s.pos`: finish when no file is
/// left; otherwise validate its name, then remove it in delete mode, else
/// check whether it exists.
pub open spec fn entered(s: Session, t: Session, a: Action) -> bool {
    if s.pos >= s.files.len() {
        t == s.with_phase(Phase::Done) && a == Action::Finish(Ok(()))
    } else {
        let name = s.files@[s.pos as int];
        if legality(name@, s.family, Ok(())) {
            if s.flags.bin {
                t == s.with_phase(Phase::Removing) && a == Action::Remove(name)
            } else {
                t == s.with_phase(Phase::Checking) && a == Action::Probe(name)
            }
        } else {
            &&& t == s.with_phase(Phase::Done)
            &&& a matches Action::Finish(Err(e))
            &&& legality(name@, s.family, Err(e))
        }
    }
}

/// The run stops on failure `f`, reported as an `IoError`.
pub open spec fn halted(s: Session, f: IoFailure, t: Session, a: Action) -> bool {
    &&& t == s.with_phase(Phase::Done)
    &&& a matches Action::Finish(Err(e))
    &&& is_io_error(e, f.message())
}

/// The state and action after writing the planned times to the current file.
pub open spec fn applying(s: Session, t: Session, a: Action) -> bool {
    let w = planned_writes(s.pair, s.flags);
    t == s.with_phase(Phase::Applying) && a == Action::SetTimes(s.current(), w.0, w.1)
}

/// One transition, on the outcome `o` of the action last asked for.
pub open spec fn stepped(s: Session, o: Result<(), IoFailure>, t: Session, a: Action) -> bool {
    match s.phase {
        Phase::Removing => if removal_done(o) {
            t == s.with_phase(Phase::Done) && a == Action::Finish(Ok(()))
        } else {
            halted(s, o->Err_0, t, a)
        },
        Phase::Checking => match existence(o) {
            Some(true) => applying(s, t, a),
            Some(false) => if s.flags.no_create {
                t == s.with_phase(Phase::Done) && a == Action::Notice
            } else {
                t == s.with_phase(Phase::Creating) && a == Action::Create(s.current())
            },
            None => halted(s, o->Err_0, t, a),
        },
        Phase::Creating => match o {
            Ok(()) => if s.explicit {
                applying(s, t, a)
            } else {
                entered(s.advanced(), t, a)
            },
            Err(f) => halted(s, f, t, a),
        },
        Phase::Applying => match o {
            Ok(()) => entered(s.advanced(), t, a),
            Err(f) => halted(s, f, t, a),
        },
        _ => false,
    }
}

/// The times are resolved once per run: no transition changes the pair, so
/// every file of the run gets the same times.
pub proof fn pair_is_shared(s: Session, o: Result<(), IoFailure>, t: Session, a: Action)
    requires
        stepped(s, o, t, a),
    ensures
        t.pair == s.pair,
        a matches Action::SetTimes(_, x, y) ==> (x, y) == planned_writes(s.pair, s.flags),
{
}

/// With neither axis restricted, the applier writes both times of the pair, and
/// reading them back from the file's metadata yields the same pair.
pub proof fn written_times_read_back(pair: TimestampPair, flags: OperationFlags)
    requires
        !flags.access_only,
        !flags.modification_only,
    ensures
        planned_writes(pair, flags) == (Some(pair.access), Some(pair.modification)),
        pair_of(planned_writes(pair, flags).0->0, planned_writes(pair, flags).1->0) == pair,
{
}

/// Under the current time, captured once as `now`, every write of every step
/// puts that one instant on each axis it writes, for all files of the run.
pub proof fn now_is_shared_by_all_files(
    now: FileStamp,
    s: Session,
    o: Result<(), IoFailure>,
    t: Session,
    a: Action,
)
    requires
        s.pair == uniform(now),
        stepped(s, o, t, a),
    ensures
        t.pair == uniform(now),
        a matches Action::SetTimes(_, x, y) ==> (x is Some ==> x->0 == now) && (y is Some
            ==> y->0 == now),
{
}

/// With no-create, the first missing file of the batch, wherever it stands,
/// ends the run with the notice: the session is over, so no later file is
/// taken up, created or touched.
pub proof fn missing_file_without_create_ends_batch(
    s: Session,
    o: Result<(), IoFailure>,
    t: Session,
    a: Action,
)
    requires
        s.phase == Phase::Checking,
        s.flags.no_create,
        o is Err && o->Err_0 is NotFound,
        stepped(s, o, t, a),
    ensures
        a == Action::Notice,
        t.phase == Phase::Done,
        t.pos == s.pos,
        t.files == s.files,
{
}

/// A fresh session whose first file has a legal name.
pub open spec fn fresh_with_legal_first(s: Session) -> bool {
    &&& s.phase == Phase::Start
    &&& s.pos == 0
    &&& s.files.len() >= 1
    &&& legality(s.files@[0]@, s.family, Ok(()))
}

/// Under the current time, an absent first file is checked, then created, and
/// not touched again: a new file already carries the current time. With that
/// one file, the run then ends successfully.
pub proof fn absent_file_is_created(
    s: Session,
    t1: Session,
    a1: Action,
    o2: Result<(), IoFailure>,
    t2: Session,
    a2: Action,
    t3: Session,
    a3: Action,
)
    requires
        fresh_with_legal_first(s),
        !s.flags.bin,
        !s.flags.no_create,
        !s.explicit,
        o2 is Err && o2->Err_0 is NotFound,
        entered(s, t1, a1),
        stepped(t1, o2, t2, a2),
        stepped(t2, Ok(()), t3, a3),
    ensures
        a1 == Action::Probe(s.files@[0]),
        a2 == Action::Create(s.files@[0]),
        s.files.len() == 1 ==> a3 == Action::Finish(Ok(())) && t3.phase == Phase::Done,
        !(a3 matches Action::SetTimes(_, _, _)),
{
}

/// With no-create, an absent first file ends the run with the notice: no
/// other file is taken up and nothing is created.
pub proof fn absent_file_without_create_halts(
    s: Session,
    t1: Session,
    a1: Action,
    o2: Result<(), IoFailure>,
    t2: Session,
    a2: Action,
)
    requires
        fresh_with_legal_first(s),
        !s.flags.bin,
        s.flags.no_create,
        o2 is Err && o2->Err_0 is NotFound,
        entered(s, t1, a1),
        stepped(t1, o2, t2, a2),
    ensures
        a1 == Action::Probe(s.files@[0]),
        a2 == Action::Notice,
        t2.phase == Phase::Done,
        t2.pos == 0,
{
}

/// With only the access time asked for, an existing first file gets the
/// access time of the pair and keeps its modification time.
pub proof fn access_only_keeps_modification(
    s: Session,
    t1: Session,
    a1: Action,
    t2: Session,
    a2: Action,
)
    requires
        fresh_with_legal_first(s),
        !s.flags.bin,
        s.flags.access_only,
        !s.flags.modification_only,
        entered(s, t1, a1),
        stepped(t1, Ok(()), t2, a2),
    ensures
        a1 == Action::Probe(s.files@[0]),
        a2 == Action::SetTimes(s.files@[0], Some(s.pair.access), None),
{
}

/// In delete mode only the first file is removed; whether it was there or
/// not, the run then ends successfully and no later file is taken up.
pub proof fn delete_mode_is_single_shot(
    s: Session,
    t1: Session,
    a1: Action,
    o2: Result<(), IoFailure>,
    t2: Session,
    a2: Action,
)
    requires
        fresh_with_legal_first(s),
        s.flags.bin,
        removal_done(o2),
        entered(s, t1, a1),
        stepped(t1, o2, t2, a2),
    ensures
        a1 == Action::Remove(s.files@[0]),
        a2 == Action::Finish(Ok(())),
        t2.phase == Phase::Done,
        t2.pos == 0,
{
}

impl Session {
    /// A fresh session over the files of `poke`, with the times already
    /// resolved, that validates names under the rules of `family`.
    pub fn for_family(poke: Poke, pair: TimestampPair, family: Family) -> (s: Session)
        ensures
            s.files == poke.files,
            s.flags == poke.spec_flags(),
            s.explicit == poke.has_explicit_source(),
            s.pair == pair,
            s.family == family,
            s.pos == 0,
            s.phase == Phase::Start,
            s.wf(),
    {
        let flags = poke.flags();
        let explicit = poke.date.is_some() || poke.reference_file.is_some();
        Session { files: poke.files, flags, explicit, pair, family, pos: 0, phase: Phase::Start }
    }

    /// A fresh session that validates names under the rules of the host
    /// platform's family.
    pub fn new(poke: Poke, pair: TimestampPair) -> (s: Session)
        ensures
            s.files == poke.files,
            s.flags == poke.spec_flags(),
            s.explicit == poke.has_explicit_source(),
            s.pair == pair,
            s.pos == 0,
            s.phase == Phase::Start,
            s.wf(),
    {
        Session::for_family(poke, pair, host_family())
    }

    pub fn is_done(&self) -> (r: bool)
        ensures
            r == (self.phase == Phase::Done),
    {
        self.phase == Phase::Done
    }

    fn enter(&mut self) -> (a: Action)
        requires
            old(self).pos <= old(self).files.len(),
        ensures
            entered(*old(self), *final(self), a),
            final(self).wf(),
    {
        if self.pos >= self.files.len() {
            self.phase = Phase::Done;
            return Action::Finish(Ok(()));
        }
        let name = self.files[self.pos].clone();
        match file_name_is_legal_on(name.as_str(), self.family) {
            Err(e) => {
                self.phase = Phase::Done;
                Action::Finish(Err(e))
            },
            Ok(()) => {
                if self.flags.bin {
                    self.phase = Phase::Removing;
                    Action::Remove(name)
                } else {
                    self.phase = Phase::Checking;
                    Action::Probe(name)
                }
            },
        }
    }

    fn apply(&mut self) -> (a: Action)
        requires
            old(self).pos < old(self).files.len(),
        ensures
            applying(*old(self), *final(self), a),
            final(self).wf(),
    {
        let (write_access, write_modification) = time_writes(self.pair, self.flags);
        self.phase = Phase::Applying;
        Action::SetTimes(self.files[self.pos].clone(), write_access, write_modification)
    }

    fn halt(&mut self, f: IoFailure) -> (a: Action)
        requires
            old(self).wf(),
        ensures
            halted(*old(self), f, *final(self), a),
            final(self).wf(),
    {
        self.phase = Phase::Done;
        Action::Finish(Err(f.into_error()))
    }

    /// The first action of the run: take up the first file.
    pub fn begin(&mut self) -> (a: Action)
        requires
            old(self).wf(),
        ensures
            entered(*old(self), *final(self), a),
            final(self).wf(),
    {
        self.enter()
    }

    /// The next action, given the outcome of the last one.
    pub fn step(&mut self, outcome: Result<(), IoFailure>) -> (a: Action)
        requires
            old(self).wf(),
            old(self).phase != Phase::Start,
            old(self).phase != Phase::Done,
        ensures
            stepped(*old(self), outcome, *final(self), a),
            final(self).wf(),
    {
        match self.phase {
            Phase::Removing => match delete_file(outcome) {
                Ok(()) => {
                    self.phase = Phase::Done;
                    Action::Finish(Ok(()))
                },
                Err(e) => {
                    self.phase = Phase::Done;
                    Action::Finish(Err(e))
                },
            },
            Phase::Checking => match file_exists(outcome) {
                Ok(true) => self.apply(),
                Ok(false) => {
                    if self.flags.no_create {
                        self.phase = Phase::Done;
                        Action::Notice
                    } else {
                        self.phase = Phase::Creating;
                        Action::Create(self.files[self.pos].clone())
                    }
                },
                Err(e) => {
                    self.phase = Phase::Done;
                    Action::Finish(Err(e))
                },
            },
            Phase::Creating => match outcome {
                Ok(()) => {
                    if self.explicit {
                        self.apply()
                    } else {
                        self.pos = self.pos + 1;
                        self.enter()
                    }
                },
                Err(f) => self.halt(f),
            },
            _ => match outcome {
                Ok(()) => {
                    self.pos = self.pos + 1;
                    self.enter()
                },
                Err(f) => self.halt(f),
            },
        }
    }
}

} // verus!
