//! The decisions of the host-side driver that runs the guest as a child process.
//!
//! The driver is a state machine: the code that owns the child's pipes performs each
//! `Action` and hands back what it observed as an `Event`. The phases run in a fixed order:
//! the whole source is fed to the child and its input is closed before any of its output is
//! read, which is what keeps the two sides from waiting on each other.
use vstd::prelude::*;

verus! {

/// Where the driver stands.
#[derive(Debug, Clone, Copy, PartialEq, Eq, Structural)]
pub enum Phase {
    /// Forwarding the source file to the child's input.
    Feeding,
    /// Copying the child's output to the destination.
    Collecting,
    /// Reading the child's diagnostic stream.
    Draining,
    /// Waiting for the child to exit.
    Waiting,
    /// The run is over.
    Done,
}

/// How the child ended.
#[derive(Debug, Clone, Copy, PartialEq, Eq, Structural)]
pub struct ChildExit {
    /// Whether the child reported success.
    pub success: bool,
    /// The child's exit code, where it has one.
    pub code: Option<i32>,
}

/// What the driver observed.
#[derive(Debug, Clone, PartialEq, Eq)]
pub enum Event {
    /// The next chunk of the stream that the last action named; empty at its end.
    Chunk(Vec<u8>),
    /// The child exited.
    Exited(ChildExit),
}

/// How a run ends.
#[derive(Debug, Clone, PartialEq, Eq)]
pub struct Report {
    /// The driver's own exit code.
    pub exit_code: i32,
    /// How the child ended.
    pub child: ChildExit,
    /// Everything the child wrote to its diagnostic stream.
    pub diagnostics: Vec<u8>,
}

/// What the driver asks for next.
#[derive(Debug, Clone, PartialEq, Eq)]
pub enum Action {
    /// Write these bytes to the child's input, then read the next chunk of the source file.
    FeedChild(Vec<u8>),
    /// Close the child's input, then read the first chunk of its output.
    CloseChildInput,
    /// Write these bytes to the destination, then read the next chunk of the child's output.
    StoreOutput(Vec<u8>),
    /// Read the next chunk of the child's diagnostic stream.
    ReadDiagnostics,
    /// Wait for the child to exit.
    AwaitExit,
    /// Print the report where it asks for it and end with its exit code.
    Finish(Report),
}

/// The host driver's state.
pub struct Driver {
    /// The current phase.
    pub phase: Phase,
    /// What the child has written to its diagnostic stream so far.
    pub diagnostics: Vec<u8>,
    /// Everything the child has written to its output so far.
    pub received: Ghost<Seq<u8>>,
    /// Everything the driver has handed out to be stored at the destination so far.
    pub stored: Ghost<Seq<u8>>,
}

/// The driver's exit code for a child that ended as `child` said: 0 on success, 1 otherwise.
pub open spec fn exit_code_for(child: ChildExit) -> i32 {
    if child.success {
        0
    } else {
        1
    }
}

impl Driver {
    /// A driver about to feed the child; the caller reads the first chunk of the source file.
    pub fn new() -> (r: Driver)
        ensures
            r.phase == Phase::Feeding,
            r.diagnostics@.len() == 0,
            r.wf(),
            r.received@.len() == 0,
    {
        Driver {
            phase: Phase::Feeding,
            diagnostics: Vec::new(),
            received: Ghost(Seq::empty()),
            stored: Ghost(Seq::empty()),
        }
    }

    /// What has been handed out for the destination is, byte for byte and in order, what the
    /// child has written to its output: nothing dropped, repeated or cut short.
    pub open spec fn wf(&self) -> bool {
        self.stored@ == self.received@
    }

    /// The driver can take `e` in its current phase: a chunk while a stream is read, the
    /// exit while it waits, nothing once done.
    pub open spec fn accepts_spec(&self, e: &Event) -> bool {
        match self.phase {
            Phase::Waiting => e is Exited,
            Phase::Done => false,
            _ => e is Chunk,
        }
    }

    /// Whether the driver can take `e` now.
    pub fn accepts(&self, e: &Event) -> (r: bool)
        ensures
            r == self.accepts_spec(e),
    {
        match self.phase {
            Phase::Waiting => matches!(e, Event::Exited(_)),
            Phase::Done => false,
            _ => matches!(e, Event::Chunk(_)),
        }
    }

    /// Takes the next observation and says what to do.
    ///
    /// Source chunks are forwarded to the child unchanged until the source ends, which
    /// closes the child's input. Only then is the child's output read, and each of its
    /// chunks is stored unchanged until it ends. The diagnostic stream is then read to its
    /// end and kept whole, and the driver waits for the child. A child that failed ends the
    /// run with exit code 1, one that succeeded with 0; either way the report carries
    /// everything the child wrote to its diagnostic stream.
    pub fn step(&mut self, e: Event) -> (a: Action)
        requires
            old(self).accepts_spec(&e),
            old(self).wf(),
        ensures
            final(self).wf(),
            a is StoreOutput ==> final(self).stored@ == old(self).stored@ + a->StoreOutput_0@,
            !(a is StoreOutput) ==> final(self).stored@ == old(self).stored@,
            old(self).phase == Phase::Collecting && e is Chunk ==> final(self).received@ == old(
                self,
            ).received@ + e->Chunk_0@,
            !(old(self).phase == Phase::Collecting && e is Chunk) ==> final(self).received@ == old(
                self,
            ).received@,
            match (old(self).phase, e) {
                (Phase::Feeding, Event::Chunk(c)) => if c@.len() == 0 {
                    final(self).phase == Phase::Collecting && a == Action::CloseChildInput
                        && final(self).diagnostics@ == old(self).diagnostics@
                } else {
                    final(self).phase == Phase::Feeding && a == Action::FeedChild(c)
                        && final(self).diagnostics@ == old(self).diagnostics@
                },
                (Phase::Collecting, Event::Chunk(c)) => if c@.len() == 0 {
                    final(self).phase == Phase::Draining && a == Action::ReadDiagnostics
                        && final(self).diagnostics@ == old(self).diagnostics@
                } else {
                    final(self).phase == Phase::Collecting && a == Action::StoreOutput(c)
                        && final(self).diagnostics@ == old(self).diagnostics@
                },
                (Phase::Draining, Event::Chunk(c)) => if c@.len() == 0 {
                    final(self).phase == Phase::Waiting && a == Action::AwaitExit
                        && final(self).diagnostics@ == old(self).diagnostics@
                } else {
                    final(self).phase == Phase::Draining && a == Action::ReadDiagnostics
                        && final(self).diagnostics@ == old(self).diagnostics@ + c@
                },
                (Phase::Waiting, Event::Exited(x)) => final(self).phase == Phase::Done && (a matches Action::Finish(r)
                    && r.exit_code == exit_code_for(x) && r.child == x && r.diagnostics@
                    == old(self).diagnostics@),
                _ => false,
            },
    {
        match e {
            Event::Chunk(c) => {
                if self.phase == Phase::Feeding {
                    if c.len() == 0 {
                        self.phase = Phase::Collecting;
                        Action::CloseChildInput
                    } else {
                        Action::FeedChild(c)
                    }
                } else if self.phase == Phase::Collecting {
                    proof {
                        assert(c@.len() == 0 ==> self.received@ + c@ =~= self.received@);
                    }
                    if c.len() == 0 {
                        self.phase = Phase::Draining;
                        Action::ReadDiagnostics
                    } else {
                        proof {
                            self.received@ = self.received@ + c@;
                            self.stored@ = self.stored@ + c@;
                        }
                        Action::StoreOutput(c)
                    }
                } else {
                    if c.len() == 0 {
                        self.phase = Phase::Waiting;
                    } else {
                        let mut i: usize = 0;
                        let ghost start = self.diagnostics@;
                        while i < c.len()
                            invariant
                                i <= c@.len(),
                                self.phase == old(self).phase,
                                self.received@ == old(self).received@,
                                self.stored@ == old(self).stored@,
                                self.diagnostics@ == start + c@.subrange(0, i as int),
                            decreases c@.len() - i,
                        {
                            self.diagnostics.push(c[i]);
                            i = i + 1;
                            assert(self.diagnostics@ =~= start + c@.subrange(0, i as int));
                        }
                        assert(c@.subrange(0, c@.len() as int) =~= c@);
                    }
                    if c.len() == 0 {
                        Action::AwaitExit
                    } else {
                        Action::ReadDiagnostics
                    }
                }
            },
            Event::Exited(x) => {
                self.phase = Phase::Done;
                let mut diagnostics: Vec<u8> = Vec::new();
                std::mem::swap(&mut diagnostics, &mut self.diagnostics);
                let exit_code: i32 = if x.success {
                    0
                } else {
                    1
                };
                Action::Finish(Report { exit_code, child: x, diagnostics })
            },
        }
    }
}

} // verus!
