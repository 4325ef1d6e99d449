use crate::command::Command;
use crate::command::CommandView;
use crate::command::UiEvent;
use crate::command::UiEventView;
use crate::error::PipelineError;
use crate::error::PipelineErrorView;
use vstd::prelude::*;
use vstd::string::StringExecFns;

verus! {

/// What the coordinator is doing.
#[derive(Clone, Copy, Debug, PartialEq, Eq, Structural)]
pub enum State {
    Idle,
    Indexing,
    Querying,
}

/// What a running pipeline reports back.
#[derive(Clone, Debug, PartialEq, Eq)]
pub enum RunSignal {
    /// Indexing has moved on.
    Progress,
    /// The next fragment of an answer.
    AnswerChunk(String),
    /// The run came to its end.
    Completed,
    /// The run ended early.
    Failed(PipelineError),
    /// The run was seen to stop after a cancellation, or was terminated.
    Stopped,
}

/// The mathematical content of a [`RunSignal`].
pub enum RunSignalView {
    Progress,
    AnswerChunk(Seq<char>),
    Completed,
    Failed(PipelineErrorView),
    Stopped,
}

impl View for RunSignal {
    type V = RunSignalView;

    open spec fn view(&self) -> RunSignalView {
        match self {
            RunSignal::Progress => RunSignalView::Progress,
            RunSignal::AnswerChunk(text) => RunSignalView::AnswerChunk(text@),
            RunSignal::Completed => RunSignalView::Completed,
            RunSignal::Failed(error) => RunSignalView::Failed(error@),
            RunSignal::Stopped => RunSignalView::Stopped,
        }
    }
}

impl RunSignalView {
    /// Whether the signal is the last of its run.
    pub open spec fn terminal(self) -> bool {
        self is Completed || self is Failed || self is Stopped
    }
}

/// One thing that happens to the coordinator: a command from the user
/// interface, or a signal from the run with the given number.
#[derive(Clone, Debug, PartialEq, Eq)]
pub enum Input {
    Command(Command),
    Run { run: u64, signal: RunSignal },
}

/// The mathematical content of an [`Input`].
pub enum InputView {
    Command(CommandView),
    Run { run: u64, signal: RunSignalView },
}

impl View for Input {
    type V = InputView;

    open spec fn view(&self) -> InputView {
        match self {
            Input::Command(command) => InputView::Command(command@),
            Input::Run { run, signal } => InputView::Run { run: *run, signal: signal@ },
        }
    }
}

impl DeepView for Input {
    type V = InputView;

    open spec fn deep_view(&self) -> InputView {
        self@
    }
}

/// What the caller has to carry out after a step.
#[derive(Clone, Debug, PartialEq, Eq)]
pub enum Action {
    Nothing,
    /// Start the indexing pipeline as the run of this number.
    RunIndexing { run: u64 },
    /// Start the query pipeline on the question as the run of this number.
    RunQuery { run: u64, question: String },
    /// Ask the run of this number to stop.
    CancelRun { run: u64 },
}

/// The mathematical content of an [`Action`].
pub enum ActionView {
    Nothing,
    RunIndexing { run: u64 },
    RunQuery { run: u64, question: Seq<char> },
    CancelRun { run: u64 },
}

impl View for Action {
    type V = ActionView;

    open spec fn view(&self) -> ActionView {
        match self {
            Action::Nothing => ActionView::Nothing,
            Action::RunIndexing { run } => ActionView::RunIndexing { run: *run },
            Action::RunQuery { run, question } => ActionView::RunQuery {
                run: *run,
                question: question@,
            },
            Action::CancelRun { run } => ActionView::CancelRun { run: *run },
        }
    }
}

impl ActionView {
    /// Whether the action starts a pipeline.
    pub open spec fn starts_run(self) -> bool {
        self is RunIndexing || self is RunQuery
    }
}

/// The answer to one input: what to do, and what to tell the user interface.
#[derive(Clone, Debug, PartialEq, Eq)]
pub struct Reaction {
    pub action: Action,
    pub event: Option<UiEvent>,
}

/// The mathematical content of a [`Reaction`].
pub struct ReactionView {
    pub action: ActionView,
    pub event: Option<UiEventView>,
}

impl View for Reaction {
    type V = ReactionView;

    open spec fn view(&self) -> ReactionView {
        ReactionView { action: self.action@, event: self.event.deep_view() }
    }
}

impl DeepView for Reaction {
    type V = ReactionView;

    open spec fn deep_view(&self) -> ReactionView {
        self@
    }
}

impl ReactionView {
    /// The reaction that does nothing and says nothing.
    pub open spec fn silent() -> ReactionView {
        ReactionView { action: ActionView::Nothing, event: None }
    }
}

/// The coordinator as a mathematical value.
pub struct Machine {
    pub state: State,
    /// The number of the latest run that was started.
    pub run: u64,
    /// Whether the run in flight has been asked to stop.
    pub cancelling: bool,
}

/// The text that rejects a command because of the operation in flight.
pub open spec fn conflict_text(state: State) -> Seq<char> {
    match state {
        State::Querying => "a query is already in progress"@,
        _ => "indexing is already in progress"@,
    }
}

/// The text that reports a run that ran to its end without an answer to
/// show.
pub open spec fn completed_text() -> Seq<char> {
    "indexing completed"@
}

/// The text that reports a run that stopped on request.
pub open spec fn stopped_text(state: State) -> Seq<char> {
    match state {
        State::Querying => "query cancelled"@,
        _ => "indexing cancelled"@,
    }
}

/// The number of the run after the run `run`. Numbers wrap around.
pub open spec fn next_run(run: u64) -> u64 {
    if run == u64::MAX {
        0
    } else {
        (run + 1) as u64
    }
}

impl Machine {
    /// The coordinator before its first input.
    pub open spec fn initial() -> Machine {
        Machine { state: State::Idle, run: 0, cancelling: false }
    }

    /// Only a run in flight can be asked to stop.
    pub open spec fn wf(self) -> bool {
        self.cancelling ==> self.state != State::Idle
    }

    /// The same coordinator with nothing in flight.
    pub open spec fn at_rest(self) -> Machine {
        Machine { state: State::Idle, run: self.run, cancelling: false }
    }

    /// The rejection of a command that would start a second run.
    pub open spec fn rejection(self) -> ReactionView {
        ReactionView {
            action: ActionView::Nothing,
            event: Some(UiEventView::Error(conflict_text(self.state))),
        }
    }

    /// The step on a command.
    pub open spec fn on_command(self, command: CommandView) -> (Machine, ReactionView) {
        match command {
            CommandView::StartIndexing => if self.state == State::Idle {
                let run = next_run(self.run);
                (
                    Machine { state: State::Indexing, run, cancelling: false },
                    ReactionView { action: ActionView::RunIndexing { run }, event: None },
                )
            } else {
                (self, self.rejection())
            },
            CommandView::SubmitQuery(question) => if self.state == State::Idle {
                let run = next_run(self.run);
                (
                    Machine { state: State::Querying, run, cancelling: false },
                    ReactionView { action: ActionView::RunQuery { run, question }, event: None },
                )
            } else {
                (self, self.rejection())
            },
            CommandView::Cancel => if self.state == State::Idle || self.cancelling {
                (self, ReactionView::silent())
            } else {
                (
                    Machine { state: self.state, run: self.run, cancelling: true },
                    ReactionView { action: ActionView::CancelRun { run: self.run }, event: None },
                )
            },
        }
    }

    /// The step on a signal of the run in flight.
    pub open spec fn on_signal(self, signal: RunSignalView) -> (Machine, ReactionView) {
        match signal {
            RunSignalView::Progress => (
                self,
                ReactionView {
                    action: ActionView::Nothing,
                    event: if self.state == State::Indexing {
                        Some(UiEventView::IndexingProgress)
                    } else {
                        None
                    },
                },
            ),
            RunSignalView::AnswerChunk(text) => (
                self,
                ReactionView {
                    action: ActionView::Nothing,
                    event: if self.state == State::Querying {
                        Some(UiEventView::QueryAnswerChunk(text))
                    } else {
                        None
                    },
                },
            ),
            RunSignalView::Completed => (
                self.at_rest(),
                ReactionView {
                    action: ActionView::Nothing,
                    event: Some(
                        if self.state == State::Querying {
                            UiEventView::QueryComplete
                        } else {
                            UiEventView::Info(completed_text())
                        },
                    ),
                },
            ),
            RunSignalView::Failed(error) => (
                self.at_rest(),
                ReactionView {
                    action: ActionView::Nothing,
                    event: Some(UiEventView::Error(error.message())),
                },
            ),
            RunSignalView::Stopped => (
                self.at_rest(),
                ReactionView {
                    action: ActionView::Nothing,
                    event: Some(UiEventView::Info(stopped_text(self.state))),
                },
            ),
        }
    }

    /// The step on any input. A signal counts only while a run is in
    /// flight and only if it carries that run's number; every other signal
    /// is stale and changes nothing.
    pub open spec fn step(self, input: InputView) -> (Machine, ReactionView) {
        match input {
            InputView::Command(command) => self.on_command(command),
            InputView::Run { run, signal } => if self.state == State::Idle || run != self.run {
                (self, ReactionView::silent())
            } else {
                self.on_signal(signal)
            },
        }
    }

    /// The coordinator after a sequence of inputs, taken in their order.
    pub open spec fn after(self, inputs: Seq<InputView>) -> Machine
        decreases inputs.len(),
    {
        if inputs.len() == 0 {
            self
        } else {
            self.after(inputs.drop_last()).step(inputs.last()).0
        }
    }

    /// The reactions to a sequence of inputs: each is the step on its input
    /// from the coordinator that the inputs before it have left.
    pub open spec fn reactions(self, inputs: Seq<InputView>) -> Seq<ReactionView> {
        Seq::new(inputs.len(), |i: int| self.after(inputs.take(i)).step(inputs[i]).1)
    }
}

/// The state machine that serializes pipeline runs. It decides; the caller
/// carries out each [`Action`] and hands back what the run reports.
#[derive(Debug)]
pub struct Coordinator {
    state: State,
    run: u64,
    cancelling: bool,
}

impl View for Coordinator {
    type V = Machine;

    closed spec fn view(&self) -> Machine {
        Machine { state: self.state, run: self.run, cancelling: self.cancelling }
    }
}

impl Coordinator {
    #[verifier::type_invariant]
    spec fn consistent(self) -> bool {
        self.cancelling ==> self.state != State::Idle
    }

    /// A coordinator at rest that has started no run yet.
    pub fn new() -> (coordinator: Coordinator)
        ensures
            coordinator@ == Machine::initial(),
    {
        Coordinator { state: State::Idle, run: 0, cancelling: false }
    }

    /// A coordinator at rest whose latest run had the given number.
    pub fn at_rest_after(run: u64) -> (coordinator: Coordinator)
        ensures
            coordinator@ == (Machine { state: State::Idle, run, cancelling: false }),
    {
        Coordinator { state: State::Idle, run, cancelling: false }
    }

    pub fn state(&self) -> (state: State)
        ensures
            state == self@.state,
    {
        self.state
    }

    /// The number of the latest run that was started.
    pub fn run(&self) -> (run: u64)
        ensures
            run == self@.run,
    {
        self.run
    }

    /// Whether the run in flight has been asked to stop.
    pub fn is_cancelling(&self) -> (cancelling: bool)
        ensures
            cancelling == self@.cancelling,
            self@.wf(),
    {
        proof {
            use_type_invariant(self);
        }
        self.cancelling
    }

    fn reject(&self) -> (reaction: Reaction)
        ensures
            reaction@ == self@.rejection(),
    {
        let text = match self.state {
            State::Querying => String::from_str("a query is already in progress"),
            _ => String::from_str("indexing is already in progress"),
        };
        Reaction { action: Action::Nothing, event: Some(UiEvent::Error(text)) }
    }

    fn start(&mut self, state: State) -> (run: u64)
        requires
            old(self)@.state == State::Idle,
            state != State::Idle,
        ensures
            run == next_run(old(self)@.run),
            final(self)@ == (Machine { state, run, cancelling: false }),
    {
        let run = if self.run == u64::MAX {
            0
        } else {
            self.run + 1
        };
        *self = Coordinator { state, run, cancelling: false };
        run
    }

    fn rest(&mut self)
        ensures
            final(self)@ == old(self)@.at_rest(),
    {
        *self = Coordinator { state: State::Idle, run: self.run, cancelling: false };
    }

    /// Takes one command.
    pub fn handle_command(&mut self, command: Command) -> (reaction: Reaction)
        ensures
            (final(self)@, reaction@) == old(self)@.on_command(command@),
    {
        match command {
            Command::StartIndexing => {
                if self.state == State::Idle {
                    let run = self.start(State::Indexing);
                    Reaction { action: Action::RunIndexing { run }, event: None }
                } else {
                    self.reject()
                }
            },
            Command::SubmitQuery(question) => {
                if self.state == State::Idle {
                    let run = self.start(State::Querying);
                    Reaction { action: Action::RunQuery { run, question }, event: None }
                } else {
                    self.reject()
                }
            },
            Command::Cancel => {
                if self.state == State::Idle || self.cancelling {
                    Reaction { action: Action::Nothing, event: None }
                } else {
                    *self = Coordinator { state: self.state, run: self.run, cancelling: true };
                    Reaction { action: Action::CancelRun { run: self.run }, event: None }
                }
            },
        }
    }

    /// Takes one signal of the run in flight.
    fn handle_signal(&mut self, signal: RunSignal) -> (reaction: Reaction)
        ensures
            (final(self)@, reaction@) == old(self)@.on_signal(signal@),
    {
        match signal {
            RunSignal::Progress => {
                let event = if self.state == State::Indexing {
                    Some(UiEvent::IndexingProgress)
                } else {
                    None
                };
                Reaction { action: Action::Nothing, event }
            },
            RunSignal::AnswerChunk(text) => {
                let event = if self.state == State::Querying {
                    Some(UiEvent::QueryAnswerChunk(text))
                } else {
                    None
                };
                Reaction { action: Action::Nothing, event }
            },
            RunSignal::Completed => {
                let event = if self.state == State::Querying {
                    UiEvent::QueryComplete
                } else {
                    UiEvent::Info(String::from_str("indexing completed"))
                };
                self.rest();
                Reaction { action: Action::Nothing, event: Some(event) }
            },
            RunSignal::Failed(error) => {
                let text = error.describe();
                self.rest();
                Reaction { action: Action::Nothing, event: Some(UiEvent::Error(text)) }
            },
            RunSignal::Stopped => {
                let text = match self.state {
                    State::Querying => String::from_str("query cancelled"),
                    _ => String::from_str("indexing cancelled"),
                };
                self.rest();
                Reaction { action: Action::Nothing, event: Some(UiEvent::Info(text)) }
            },
        }
    }

    /// Takes one input and says what follows from it.
    pub fn handle(&mut self, input: Input) -> (reaction: Reaction)
        ensures
            (final(self)@, reaction@) == old(self)@.step(input@),
    {
        match input {
            Input::Command(command) => self.handle_command(command),
            Input::Run { run, signal } => {
                if self.state == State::Idle || run != self.run {
                    Reaction { action: Action::Nothing, event: None }
                } else {
                    self.handle_signal(signal)
                }
            },
        }
    }

    /// Takes a sequence of inputs in their order and gives the reactions
    /// in the same order.
    pub fn handle_all(&mut self, inputs: Vec<Input>) -> (reactions: Vec<Reaction>)
        ensures
            final(self)@ == old(self)@.after(inputs.deep_view()),
            reactions.deep_view() == old(self)@.reactions(inputs.deep_view()),
    {
        let ghost start = self@;
        let ghost all = inputs.deep_view();
        let mut reactions: Vec<Reaction> = Vec::new();
        for input in it: inputs
            invariant
                it.seq().len() == all.len(),
                forall|k: int| 0 <= k < all.len() ==> it.seq()[k]@ == all[k],
                self@ == start.after(all.take(it.index() as int)),
                reactions.len() == it.index(),
                forall|k: int|
                    0 <= k < reactions.len() ==> reactions[k]@ == start.after(all.take(k)).step(
                        all[k],
                    ).1,
        {
            let ghost i = it.index() as int;
            proof {
                assert(all.take(i + 1).drop_last() == all.take(i));
            }
            let reaction = self.handle(input);
            reactions.push(reaction);
        }
        proof {
            assert(all.take(all.len() as int) == all);
        }
        reactions
    }
}

/// A command that would start a run while another is in flight is
/// rejected: the coordinator stays as it is, starts nothing, and answers
/// with an error that names the operation in flight.
pub proof fn law_start_while_busy_is_rejected(machine: Machine, command: CommandView)
    requires
        machine.state != State::Idle,
        command is StartIndexing || command is SubmitQuery,
    ensures
        machine.step(InputView::Command(command)).0 == machine,
        machine.step(InputView::Command(command)).1.action == ActionView::Nothing,
        machine.step(InputView::Command(command)).1.event == Some(
            UiEventView::Error(conflict_text(machine.state)),
        ),
{
}

/// While indexing, a command to start indexing leaves the coordinator
/// indexing, starts no second run, and yields an error event.
pub proof fn law_indexing_is_not_started_twice(machine: Machine)
    requires
        machine.state == State::Indexing,
    ensures
        machine.step(InputView::Command(CommandView::StartIndexing)).0.state == State::Indexing,
        machine.step(InputView::Command(CommandView::StartIndexing)).0 == machine,
        !machine.step(InputView::Command(CommandView::StartIndexing)).1.action.starts_run(),
        machine.step(InputView::Command(CommandView::StartIndexing)).1.event == Some(
            UiEventView::Error("indexing is already in progress"@),
        ),
{
}

/// A cancellation with nothing in flight yields no event and no action, and
/// leaves the coordinator as it is.
pub proof fn law_cancel_at_rest_changes_nothing(machine: Machine)
    requires
        machine.state == State::Idle,
    ensures
        machine.step(InputView::Command(CommandView::Cancel)) == (machine, ReactionView::silent()),
{
}

/// The first cancellation of a run asks that run to stop and leaves it in
/// flight; a further one asks nothing more.
pub proof fn law_cancel_is_requested_once(machine: Machine)
    requires
        machine.state != State::Idle,
        !machine.cancelling,
    ensures
        ({
            let (requested, reaction) = machine.step(InputView::Command(CommandView::Cancel));
            &&& requested.state == machine.state
            &&& requested.run == machine.run
            &&& requested.cancelling
            &&& reaction == (ReactionView {
                action: ActionView::CancelRun { run: machine.run },
                event: None,
            })
            &&& requested.step(InputView::Command(CommandView::Cancel)) == (
                requested,
                ReactionView::silent(),
            )
        }),
{
}

/// A run starts only from rest, only on a command, and under the number
/// that follows the latest; the coordinator is then busy with it.
pub proof fn law_runs_start_from_rest(machine: Machine, input: InputView)
    requires
        machine.step(input).1.action.starts_run(),
    ensures
        machine.state == State::Idle,
        input is Command,
        machine.step(input).0.state != State::Idle,
        machine.step(input).0.run == next_run(machine.run),
        !machine.step(input).0.cancelling,
        machine.step(input).1.event is None,
        machine.step(input).1.action matches ActionView::RunIndexing { run } ==> run == next_run(
            machine.run,
        ) && machine.step(input).0.state == State::Indexing,
        machine.step(input).1.action matches ActionView::RunQuery { run, .. } ==> run == next_run(
            machine.run,
        ) && machine.step(input).0.state == State::Querying,
{
}

/// The last signal of the run in flight brings the coordinator to rest and
/// yields exactly one event, which closes the run: an error for a failure.
pub proof fn law_terminal_signal_brings_rest(machine: Machine, signal: RunSignalView)
    requires
        machine.state != State::Idle,
        signal.terminal(),
    ensures
        ({
            let (next, reaction) = machine.step(InputView::Run { run: machine.run, signal });
            &&& next == machine.at_rest()
            &&& reaction.action == ActionView::Nothing
            &&& reaction.event matches Some(event)
            &&& event.terminal()
            &&& signal matches RunSignalView::Failed(error) ==> event == UiEventView::Error(
                error.message(),
            )
        }),
{
}

/// A signal that is not the last of its run leaves the coordinator as it
/// is.
pub proof fn law_progress_keeps_run_in_flight(machine: Machine, run: u64, signal: RunSignalView)
    requires
        !signal.terminal(),
    ensures
        machine.step(InputView::Run { run, signal }).0 == machine,
        machine.step(InputView::Run { run, signal }).1.action == ActionView::Nothing,
{
}

/// A signal of another run than the one in flight, or one that arrives at
/// rest, is dropped: no event, no action, no change.
pub proof fn law_stale_signal_changes_nothing(machine: Machine, run: u64, signal: RunSignalView)
    requires
        machine.state == State::Idle || run != machine.run,
    ensures
        machine.step(InputView::Run { run, signal }) == (machine, ReactionView::silent()),
{
}

/// The coordinator is consistent before its first input, no step breaks
/// its consistency, and no step but a start changes the run number.
pub proof fn law_step_keeps_consistency(machine: Machine, input: InputView)
    requires
        machine.wf(),
    ensures
        machine.step(input).0.wf(),
        machine.step(input).0.run == machine.run || machine.step(input).1.action.starts_run(),
        Machine::initial().wf(),
{
}

/// Whether an input is the last signal of the run of a number.
pub open spec fn ends_run(input: InputView, run: u64) -> bool {
    input matches InputView::Run { run: number, signal } && number == run && signal.terminal()
}

/// Whatever inputs arrive in whatever order, the coordinator stays
/// consistent.
pub proof fn law_every_reachable_state_is_consistent(inputs: Seq<InputView>)
    ensures
        Machine::initial().after(inputs).wf(),
    decreases inputs.len(),
{
    if inputs.len() > 0 {
        law_every_reachable_state_is_consistent(inputs.drop_last());
        law_step_keeps_consistency(Machine::initial().after(inputs.drop_last()), inputs.last());
    }
}

/// Runs never overlap: between two inputs that each start a run, the
/// last signal of the first of the two runs has arrived.
pub proof fn law_runs_never_overlap(start: Machine, inputs: Seq<InputView>, i: int, j: int)
    requires
        0 <= i < j < inputs.len(),
        start.reactions(inputs)[i].action.starts_run(),
        start.reactions(inputs)[j].action.starts_run(),
    ensures
        exists|k: int|
            i < k < j && ends_run(#[trigger] inputs[k], start.after(inputs.take(i + 1)).run),
{
    let run = start.after(inputs.take(i + 1)).run;
    if forall|k: int| i < k < j ==> !ends_run(#[trigger] inputs[k], run) {
        lemma_run_stays_in_flight(start, inputs, i, j);
        law_runs_start_from_rest(start.after(inputs.take(j)), inputs[j]);
    }
}

/// A run that was started stays in flight, under its number, for as long
/// as its last signal has not arrived.
proof fn lemma_run_stays_in_flight(start: Machine, inputs: Seq<InputView>, i: int, t: int)
    requires
        0 <= i < t <= inputs.len(),
        start.reactions(inputs)[i].action.starts_run(),
        forall|k: int|
            i < k < t ==> !ends_run(#[trigger] inputs[k], start.after(inputs.take(i + 1)).run),
    ensures
        start.after(inputs.take(t)).state != State::Idle,
        start.after(inputs.take(t)).run == start.after(inputs.take(i + 1)).run,
    decreases t - i,
{
    assert(inputs.take(t).drop_last() == inputs.take(t - 1));
    if t == i + 1 {
        law_runs_start_from_rest(start.after(inputs.take(i)), inputs[i]);
    } else {
        lemma_run_stays_in_flight(start, inputs, i, t - 1);
    }
}

} // verus!
