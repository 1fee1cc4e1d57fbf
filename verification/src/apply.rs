//! The applier: the single-writer, sequential-apply engine.
//!
//! Submissions may arrive from many callers; each is assigned a unique
//! identifier, registered with the notifier, and placed at the tail of
//! one FIFO queue. Exactly one serial loop takes commands from the head
//! of that queue, hands them one at a time to the state machine, and
//! publishes each result through the notifier. The loop's one mandatory
//! invariant: at most one command is being applied at any instant, and
//! commands are applied in arrival order at the queue.
//!
//! This type is the loop's state, driven one step at a time: the serial
//! task calls [`Applier::step`] for each unit of work, and the
//! transport's submission and shutdown paths call [`Applier::submit`],
//! [`Applier::abandon`] and [`Applier::stop`]. Timeouts bound only the
//! caller's wait, never the work: an abandoned submission is still
//! applied, and its unobserved resolution is swallowed, not surfaced.

use tokio::sync::oneshot;
use vstd::prelude::*;
use vstd::string::StringExecFns;

use crate::echo;
use crate::errors::EngineError;
use crate::id;
use crate::notify;

verus! {

/// The envelope a caller submits: the engine never inspects its
/// contents, it only carries them from submission to the state machine.
#[derive(Debug)]
pub struct Request {
    /// The one demo command kind the engine currently dispatches.
    pub echo_request: Option<echo::Request>,
}

impl Request {
    /// Builds an empty envelope, to be filled by the transport.
    pub fn new() -> (r: Request)
        ensures
            r.echo_request is None,
    {
        Request { echo_request: None }
    }
}

/// Where the serial loop stands in its life cycle. No transition ever
/// leaves `Stopped`.
#[derive(Debug, Clone, Copy, PartialEq, Eq, Structural)]
pub enum ApplierState {
    /// Accepting new submissions and processing the queue.
    Running,
    /// A stop was requested: no new work is taken, in-flight work is
    /// being finished.
    Draining,
    /// The loop has exited; submissions are rejected outright.
    Stopped,
}

/// What one turn of the serial loop did.
#[derive(Debug)]
pub enum StepOutcome {
    /// The command at the head of the queue was applied. `delivered`
    /// tells whether a waiting caller observed the value; a resolution
    /// nobody was left to observe is swallowed here, never surfaced.
    Applied { id: u64, value: String, delivered: bool },
    /// The head of the queue held an empty envelope: nothing to apply,
    /// nothing resolved. Its caller, if any, simply times out.
    Skipped { id: u64 },
    /// The queue was empty; the loop keeps running.
    Idle,
    /// The loop acknowledged a stop, or had already exited.
    Exited,
}

/// The value delivered for an executed command: the state machine's
/// success string as it stands, or its domain error folded into the
/// result payload — callers distinguish the two by inspecting it.
pub open spec fn encoded_result(r: Result<Seq<char>, Seq<char>>) -> Seq<char> {
    match r {
        Ok(s) => s,
        Err(e) => "failed "@ + e,
    }
}

/// The value the loop delivers for one envelope, if any: an empty
/// envelope resolves nothing.
pub open spec fn delivered_value(req: Request) -> Option<Seq<char>> {
    match req.echo_request {
        Some(e) => Some(encoded_result(echo::apply_result(e.kind@, e.message@))),
        None => None,
    }
}

/// The sequential-apply engine's state: the identifier generator, the
/// notifier table, the demo state machine, and the FIFO command queue,
/// together with the record of commands the loop has already taken.
pub struct Applier {
    /// Where the serial loop stands.
    pub state: ApplierState,
    /// Mints one unique identifier per submission.
    pub generator: id::Generator,
    /// One single-use response slot per in-flight submission.
    pub notifier: notify::Notifier,
    /// The state machine, mutated only by the serial loop.
    pub manager: echo::Manager,
    /// Commands accepted but not yet taken by the loop, oldest first.
    pub queue: Vec<(u64, Request)>,
    /// The commands the loop has taken from the queue, in the order it
    /// took them: the engine's observable apply history.
    pub processed: Ghost<Seq<(u64, Request)>>,
}

impl Applier {
    /// Every command ever accepted, in arrival order: first those already
    /// taken by the loop, then those still queued. Submissions append to
    /// it; steps of the loop leave it unchanged.
    pub open spec fn history(self) -> Seq<(u64, Request)> {
        self.processed@ + self.queue@
    }

    /// Builds a running engine for the instance identified by
    /// `member_id`, its identifier counter seeded from `start_ms`, with
    /// nothing pending and nothing queued.
    pub fn new(member_id: u64, start_ms: u64) -> (a: Applier)
        ensures
            a.state is Running,
            a.generator.prefix == member_id << 48,
            a.generator.suffix == id::seed_of(start_ms),
            a.notifier.requests@ == Map::<u64, oneshot::Sender<String>>::empty(),
            a.queue@ == Seq::<(u64, Request)>::empty(),
            a.processed@ == Seq::<(u64, Request)>::empty(),
    {
        Applier {
            state: ApplierState::Running,
            generator: id::Generator::new(member_id, start_ms),
            notifier: notify::Notifier::new(),
            manager: echo::Manager::new(),
            queue: Vec::new(),
            processed: Ghost(Seq::empty()),
        }
    }

    /// Accepts one submission: assigns it the next identifier, registers
    /// its response slot, and places it at the tail of the queue, handing
    /// back the identifier and the receiving half the caller waits on.
    ///
    /// Fails fast with `EnqueueFailed`, changing nothing, once a stop has
    /// been requested — a submission is either rejected before anything
    /// is registered or fully enqueued, so a registration can never be
    /// orphaned. Fails with `DuplicateId` if the minted identifier is
    /// somehow already pending, which a fresh generator never produces.
    pub fn submit(&mut self, req: Request) -> (r: Result<
        (u64, oneshot::Receiver<String>),
        EngineError,
    >)
        ensures
            !(old(self).state is Running) ==> {
                &&& r matches Err(e) && e == EngineError::EnqueueFailed
                &&& *final(self) == *old(self)
            },
            old(self).state is Running ==> ({
                let minted = id::id_of(old(self).generator.prefix, old(self).generator.suffix);
                &&& final(self).state is Running
                &&& final(self).generator.prefix == old(self).generator.prefix
                &&& final(self).generator.suffix == id::bumped(old(self).generator.suffix)
                &&& final(self).processed == old(self).processed
                &&& (old(self).notifier.requests@.contains_key(minted) ==> {
                    &&& r matches Err(e) && e == EngineError::DuplicateId
                    &&& final(self).queue@ == old(self).queue@
                    &&& final(self).notifier.requests@ == old(self).notifier.requests@
                })
                &&& (!old(self).notifier.requests@.contains_key(minted) ==> {
                    &&& r matches Ok(p) && p.0 == minted
                    &&& final(self).queue@ == old(self).queue@.push((minted, req))
                    &&& final(self).history() == old(self).history().push((minted, req))
                    &&& final(self).notifier.pending() == old(self).notifier.pending().insert(
                        minted,
                    )
                    &&& (forall|j: u64|
                        j != minted && old(self).notifier.requests@.contains_key(j)
                            ==> final(self).notifier.requests@.contains_key(j)
                            && final(self).notifier.requests@[j] == old(
                            self,
                        ).notifier.requests@[j])
                })
            }),
    {
        if !(self.state == ApplierState::Running) {
            return Err(EngineError::EnqueueFailed);
        }
        let req_id = self.generator.next();
        let request_rx = match self.notifier.register(req_id) {
            Ok(rx) => rx,
            Err(e) => {
                return Err(e);
            },
        };
        self.queue.push((req_id, req));
        Ok((req_id, request_rx))
    }

    /// One turn of the serial loop.
    ///
    /// Running with work queued: takes exactly the head of the queue —
    /// never any later command — applies it, and resolves its identifier
    /// with precisely the value the state machine returned, the domain
    /// error case folded into the payload. A resolution that finds no
    /// pending entry, its caller having timed out and abandoned it, is
    /// reported as undelivered and swallowed; it never halts the loop.
    /// Running with an empty queue: does nothing. Draining: takes no new
    /// work and exits, leaving queued-but-unconsumed commands
    /// uncancelled. Stopped: stays stopped.
    pub fn step(&mut self) -> (out: StepOutcome)
        ensures
            old(self).state is Running && old(self).queue@.len() > 0 ==> ({
                let (cid, creq) = old(self).queue@[0];
                &&& final(self).state is Running
                &&& final(self).queue@ == old(self).queue@.drop_first()
                &&& final(self).generator == old(self).generator
                &&& final(self).processed@ == old(self).processed@.push(old(self).queue@[0])
                &&& final(self).history() == old(self).history()
                &&& (creq.echo_request is Some ==> {
                    &&& (out matches StepOutcome::Applied { id, value, delivered } && id == cid
                        && Some(value@) == delivered_value(creq) && (delivered ==> old(
                        self,
                    ).notifier.requests@.contains_key(cid)) && (!old(
                        self,
                    ).notifier.requests@.contains_key(cid) ==> !delivered))
                    &&& (old(self).notifier.requests@.contains_key(cid)
                        ==> final(self).notifier.requests@ == old(self).notifier.requests@.remove(
                        cid,
                    ))
                    &&& (!old(self).notifier.requests@.contains_key(cid)
                        ==> final(self).notifier.requests@ == old(self).notifier.requests@)
                })
                &&& (creq.echo_request is None ==> {
                    &&& (out matches StepOutcome::Skipped { id } && id == cid)
                    &&& final(self).notifier.requests@ == old(self).notifier.requests@
                })
            }),
            old(self).state is Running && old(self).queue@.len() == 0 ==> {
                &&& out is Idle
                &&& *final(self) == *old(self)
            },
            old(self).state is Draining ==> {
                &&& out is Exited
                &&& final(self).state is Stopped
                &&& final(self).queue@ == old(self).queue@
                &&& final(self).notifier.requests@ == old(self).notifier.requests@
                &&& final(self).generator == old(self).generator
                &&& final(self).processed == old(self).processed
            },
            old(self).state is Stopped ==> {
                &&& out is Exited
                &&& *final(self) == *old(self)
            },
    {
        match self.state {
            ApplierState::Draining => {
                self.state = ApplierState::Stopped;
                StepOutcome::Exited
            },
            ApplierState::Stopped => StepOutcome::Exited,
            ApplierState::Running => {
                if self.queue.len() == 0 {
                    return StepOutcome::Idle;
                }
                let (req_id, req) = self.queue.remove(0);
                proof {
                    assert(self.queue@ =~= old(self).queue@.drop_first());
                }
                self.processed = Ghost(self.processed@.push((req_id, req)));
                proof {
                    lemma_take_head_keeps_history(
                        old(self).processed@,
                        old(self).queue@,
                    );
                }
                match req.echo_request {
                    Some(echo_req) => {
                        let applied = self.manager.apply(&echo_req);
                        let value = match applied {
                            Ok(s) => s,
                            Err(e) => String::from_str("failed ").concat(e.as_str()),
                        };
                        let delivered = match self.notifier.trigger(req_id, value.clone()) {
                            Ok(()) => true,
                            Err(_) => false,
                        };
                        StepOutcome::Applied { id: req_id, value, delivered }
                    },
                    None => StepOutcome::Skipped { id: req_id },
                }
            },
        }
    }

    /// Requests a stop: a running loop moves to `Draining` and takes no
    /// further queue items; a draining or stopped loop is left as it is.
    /// Nothing else is touched.
    pub fn request_stop(&mut self)
        ensures
            final(self).state == (if old(self).state is Running {
                ApplierState::Draining
            } else {
                old(self).state
            }),
            final(self).queue@ == old(self).queue@,
            final(self).notifier.requests@ == old(self).notifier.requests@,
            final(self).generator == old(self).generator,
            final(self).processed == old(self).processed,
    {
        if self.state == ApplierState::Running {
            self.state = ApplierState::Draining;
        }
    }

    /// Stops the engine: signals the loop and sees it exit, from any
    /// starting state and safely more than once. Afterwards the loop is
    /// `Stopped` and every further submission fails fast. Queued-but-
    /// unconsumed commands are not cancelled and pending entries are not
    /// resolved: callers still waiting simply time out.
    pub fn stop(&mut self)
        ensures
            final(self).state is Stopped,
            final(self).queue@ == old(self).queue@,
            final(self).notifier.requests@ == old(self).notifier.requests@,
            final(self).generator == old(self).generator,
            final(self).processed == old(self).processed,
    {
        self.request_stop();
        self.step();
    }

    /// A caller whose wait timed out abandons its slot: the pending entry
    /// for `id`, if any, is dropped unresolved, and nothing else changes —
    /// the command itself stays scheduled and is still applied. Returns
    /// whether an entry was there.
    pub fn abandon(&mut self, id: u64) -> (was_pending: bool)
        ensures
            was_pending == old(self).notifier.requests@.contains_key(id),
            final(self).notifier.requests@ == old(self).notifier.requests@.remove(id),
            final(self).state == old(self).state,
            final(self).queue@ == old(self).queue@,
            final(self).generator == old(self).generator,
            final(self).processed == old(self).processed,
    {
        self.notifier.abandon(id)
    }
}

/// Ordering is kept: taking the head of the queue and appending it to the
/// processed record leaves the engine's history — commands already taken,
/// followed by commands still queued — exactly as it was. The loop
/// therefore applies commands in precisely the order they entered the
/// queue.
pub proof fn lemma_take_head_keeps_history(
    processed: Seq<(u64, Request)>,
    queue: Seq<(u64, Request)>,
)
    requires
        queue.len() > 0,
    ensures
        processed.push(queue[0]) + queue.drop_first() == processed + queue,
{
    assert(processed.push(queue[0]) + queue.drop_first() =~= processed + queue);
}

} // verus!
