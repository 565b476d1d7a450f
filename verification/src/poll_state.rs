use vstd::prelude::*;

verus! {

/// The state a script shares with the driver that steps it: the input handed
/// in for the next step, whether a context is lent to the script for the
/// current step, and whether the script waits for input.
pub struct Shared<Input> {
    pub input: Option<Input>,
    pub ctx_set: bool,
    pub waiting: bool,
}

impl<Input> Shared<Input> {
    /// No input, no context, not waiting.
    pub fn new() -> (r: Shared<Input>)
        ensures
            r.input is None,
            !r.ctx_set,
            !r.waiting,
    {
        Shared { input: None, ctx_set: false, waiting: false }
    }

    /// Marks whether the script waits for input.
    pub fn set_waiting(&mut self, val: bool)
        ensures
            final(self).waiting == val,
            final(self).ctx_set == old(self).ctx_set,
            final(self).input == old(self).input,
            *final(self) == shared_after(*old(self), SharedOp::SetWaiting(val)),
    {
        self.waiting = val;
    }

    /// Whether the script waits for input.
    pub fn is_waiting(&self) -> (r: bool)
        ensures
            r == self.waiting,
    {
        self.waiting
    }

    /// Whether no context is lent to the script.
    pub fn is_empty_ctx(&self) -> (r: bool)
        ensures
            r == !self.ctx_set,
    {
        !self.ctx_set
    }

    /// Lends a context to the script.
    pub fn set_ctx(&mut self)
        ensures
            final(self).ctx_set,
            final(self).waiting == old(self).waiting,
            final(self).input == old(self).input,
            *final(self) == shared_after(*old(self), SharedOp::SetCtx),
    {
        self.ctx_set = true;
    }

    /// Takes the lent context back.
    pub fn clr_ctx(&mut self)
        ensures
            !final(self).ctx_set,
            final(self).waiting == old(self).waiting,
            final(self).input == old(self).input,
            *final(self) == shared_after(*old(self), SharedOp::ClrCtx),
    {
        self.ctx_set = false;
    }

    /// Hands in the input for the next step, replacing any input not taken.
    pub fn set_input(&mut self, input: Option<Input>)
        ensures
            final(self).input == input,
            final(self).ctx_set == old(self).ctx_set,
            final(self).waiting == old(self).waiting,
            *final(self) == shared_after(*old(self), SharedOp::SetInput(input)),
    {
        self.input = input;
    }

    /// Takes the input handed in, if any: the script's wait for input ends
    /// exactly when this gives a value.
    pub fn take_input(&mut self) -> (r: Option<Input>)
        ensures
            r == old(self).input,
            final(self).input is None,
            final(self).ctx_set == old(self).ctx_set,
            final(self).waiting == old(self).waiting,
            *final(self) == shared_after(*old(self), SharedOp::TakeInput),
    {
        let mut taken = None;
        std::mem::swap(&mut taken, &mut self.input);
        taken
    }
}

/// What polling the script once gave.
pub enum PollOutcome<E> {
    /// The script ran to its end with this result.
    Ready(Result<(), E>),
    /// The script stopped before its end.
    Pending,
}

/// Why stepping a script failed.
#[derive(Debug)]
pub enum StepError<E> {
    /// The script had already finished.
    AlreadyFinished,
    /// A context was still lent from an earlier step.
    ContextNotEmpty,
    /// The script stopped without waiting for input.
    NotYielding,
    /// The script ended with an error.
    Script(E),
}

/// The state machine that steps a script: each transition hands in an input,
/// lends the context, polls the script once, and takes the context back.
pub struct StateHandle<Input> {
    pub finished: bool,
    pub state: Shared<Input>,
}

impl<Input> StateHandle<Input> {
    /// A script that has not run yet.
    pub fn new() -> (r: StateHandle<Input>)
        ensures
            !r.finished,
            r.state.input is None,
            !r.state.ctx_set,
            !r.state.waiting,
    {
        StateHandle { finished: false, state: Shared::new() }
    }

    /// Whether the script has run to its end.
    pub fn is_finished(&self) -> (r: bool)
        ensures
            r == self.finished,
    {
        self.finished
    }

    /// Starts a transition: hands in the input and, when the script may be
    /// polled, lends it the context. A finished script, or one whose context
    /// from an earlier step was not taken back, is not polled.
    pub fn begin_transition(&mut self, input: Option<Input>) -> (r: Result<(), StepError<()>>)
        ensures
            final(self).state.input == input,
            final(self).finished == old(self).finished,
            final(self).state.waiting == old(self).state.waiting,
            old(self).finished ==> r matches Err(StepError::AlreadyFinished),
            !old(self).finished && old(self).state.ctx_set ==> r matches Err(
                StepError::ContextNotEmpty,
            ),
            !old(self).finished && !old(self).state.ctx_set ==> r is Ok && final(self).state.ctx_set,
            r is Err ==> final(self).state.ctx_set == old(self).state.ctx_set,
            *final(self) == after_begin(*old(self), input),
    {
        self.state.set_input(input);
        if self.finished {
            return Err(StepError::AlreadyFinished);
        }
        if !self.state.is_empty_ctx() {
            return Err(StepError::ContextNotEmpty);
        }
        self.state.set_ctx();
        Ok(())
    }

    /// Ends a transition with what polling the script gave: the context is taken
    /// back; a script that ran to its end is finished and its result is the
    /// step's; a script that stopped is fine only while it waits for input.
    pub fn end_poll<E>(&mut self, outcome: PollOutcome<E>) -> (r: Result<(), StepError<E>>)
        ensures
            *final(self) == after_poll(*old(self), outcome is Ready),
            !final(self).state.ctx_set,
            final(self).state.waiting == old(self).state.waiting,
            final(self).state.input == old(self).state.input,
            match outcome {
                PollOutcome::Ready(res) => final(self).finished && match res {
                    Ok(()) => r is Ok,
                    Err(e) => r matches Err(StepError::Script(e2)) && e2 == e,
                },
                PollOutcome::Pending => final(self).finished == old(self).finished && (
                old(self).state.waiting ==> r is Ok) && (!old(self).state.waiting ==> r matches Err(
                    StepError::NotYielding,
                )),
            },
    {
        self.state.clr_ctx();
        match outcome {
            PollOutcome::Ready(res) => {
                self.finished = true;
                match res {
                    Ok(()) => Ok(()),
                    Err(e) => Err(StepError::Script(e)),
                }
            },
            PollOutcome::Pending => {
                if self.state.is_waiting() {
                    Ok(())
                } else {
                    Err(StepError::NotYielding)
                }
            },
        }
    }
}

/// A step of the driver: the start of a transition with an input, or the end
/// of a poll, which either saw the script run to its end or not.
pub enum Step<Input> {
    Begin(Option<Input>),
    EndPoll(bool),
}

/// The handle after a transition starts: the input is handed in, and the
/// context is lent unless the script had finished (a lent context stays
/// lent).
pub open spec fn after_begin<Input>(h: StateHandle<Input>, input: Option<Input>) -> StateHandle<
    Input,
> {
    StateHandle {
        finished: h.finished,
        state: Shared {
            input,
            ctx_set: if h.finished {
                h.state.ctx_set
            } else {
                true
            },
            waiting: h.state.waiting,
        },
    }
}

/// The handle after a poll ends: the context is taken back, and the script
/// is finished if it was or if this poll saw it run to its end.
pub open spec fn after_poll<Input>(h: StateHandle<Input>, ready: bool) -> StateHandle<Input> {
    StateHandle {
        finished: h.finished || ready,
        state: Shared { input: h.state.input, ctx_set: false, waiting: h.state.waiting },
    }
}

/// The handle after one step.
pub open spec fn after_step<Input>(h: StateHandle<Input>, step: Step<Input>) -> StateHandle<Input> {
    match step {
        Step::Begin(input) => after_begin(h, input),
        Step::EndPoll(ready) => after_poll(h, ready),
    }
}

/// The handle after a sequence of steps.
pub open spec fn after_steps<Input>(h: StateHandle<Input>, steps: Seq<Step<Input>>) -> StateHandle<
    Input,
>
    decreases steps.len(),
{
    if steps.len() == 0 {
        h
    } else {
        after_step(after_steps(h, steps.drop_last()), steps.last())
    }
}

/// Whether some step ends a poll that saw the script run to its end.
pub open spec fn saw_ready<Input>(steps: Seq<Step<Input>>) -> bool {
    exists|i: int| 0 <= i < steps.len() && #[trigger] steps[i] == Step::<Input>::EndPoll(true)
}

/// A script is finished after any steps exactly when it was finished before
/// or one of the steps saw it run to its end; so once finished it stays
/// finished, and a new script is unfinished until a poll sees it end.
pub proof fn lemma_finished_iff_ready_seen<Input>(h: StateHandle<Input>, steps: Seq<Step<Input>>)
    ensures
        after_steps(h, steps).finished == (h.finished || saw_ready(steps)),
    decreases steps.len(),
{
    if steps.len() > 0 {
        let prev = steps.drop_last();
        lemma_finished_iff_ready_seen(h, prev);
        if saw_ready(prev) {
            let i = choose|i: int| 0 <= i < prev.len() && #[trigger] prev[i] == Step::<Input>::EndPoll(true);
            assert(steps[i] == Step::<Input>::EndPoll(true));
        }
        if saw_ready(steps) {
            let i = choose|i: int| 0 <= i < steps.len() && #[trigger] steps[i] == Step::<Input>::EndPoll(true);
            if i < steps.len() - 1 {
                assert(prev[i] == Step::<Input>::EndPoll(true));
            }
        }
    }
}

/// Whether the script waits for input changes by no step of the driver: only
/// `Shared::set_waiting` changes it.
pub proof fn lemma_steps_keep_waiting<Input>(h: StateHandle<Input>, steps: Seq<Step<Input>>)
    ensures
        after_steps(h, steps).state.waiting == h.state.waiting,
    decreases steps.len(),
{
    if steps.len() > 0 {
        lemma_steps_keep_waiting(h, steps.drop_last());
    }
}

/// An operation on the state a script shares with its driver.
pub enum SharedOp<Input> {
    SetWaiting(bool),
    SetCtx,
    ClrCtx,
    SetInput(Option<Input>),
    TakeInput,
}

/// The shared state after one operation.
pub open spec fn shared_after<Input>(s: Shared<Input>, op: SharedOp<Input>) -> Shared<Input> {
    match op {
        SharedOp::SetWaiting(v) => Shared { input: s.input, ctx_set: s.ctx_set, waiting: v },
        SharedOp::SetCtx => Shared { input: s.input, ctx_set: true, waiting: s.waiting },
        SharedOp::ClrCtx => Shared { input: s.input, ctx_set: false, waiting: s.waiting },
        SharedOp::SetInput(i) => Shared { input: i, ctx_set: s.ctx_set, waiting: s.waiting },
        SharedOp::TakeInput => Shared { input: None, ctx_set: s.ctx_set, waiting: s.waiting },
    }
}

/// The shared state after a sequence of operations.
pub open spec fn shared_after_ops<Input>(s: Shared<Input>, ops: Seq<SharedOp<Input>>) -> Shared<
    Input,
>
    decreases ops.len(),
{
    if ops.len() == 0 {
        s
    } else {
        shared_after(shared_after_ops(s, ops.drop_last()), ops.last())
    }
}

/// The value the last `SetWaiting` among `ops` stored, or `initial` where
/// there is none.
pub open spec fn last_waiting<Input>(ops: Seq<SharedOp<Input>>, initial: bool) -> bool
    decreases ops.len(),
{
    if ops.len() == 0 {
        initial
    } else {
        match ops.last() {
            SharedOp::SetWaiting(v) => v,
            _ => last_waiting(ops.drop_last(), initial),
        }
    }
}

/// Whether the script waits for input is, after any operations on the
/// shared state, what the last `set_waiting` stored, or what it was before
/// where none did: no other operation changes it.
pub proof fn lemma_waiting_is_last_set<Input>(s: Shared<Input>, ops: Seq<SharedOp<Input>>)
    ensures
        shared_after_ops(s, ops).waiting == last_waiting(ops, s.waiting),
    decreases ops.len(),
{
    if ops.len() > 0 {
        lemma_waiting_is_last_set(s, ops.drop_last());
    }
}

} // verus!
