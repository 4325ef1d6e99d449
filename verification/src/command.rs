use vstd::prelude::*;

verus! {

/// What the user interface asks of the coordinator.
#[derive(Clone, Debug, PartialEq, Eq)]
pub enum Command {
    StartIndexing,
    SubmitQuery(String),
    Cancel,
}

/// The mathematical content of a [`Command`].
pub enum CommandView {
    StartIndexing,
    SubmitQuery(Seq<char>),
    Cancel,
}

impl View for Command {
    type V = CommandView;

    open spec fn view(&self) -> CommandView {
        match self {
            Command::StartIndexing => CommandView::StartIndexing,
            Command::SubmitQuery(question) => CommandView::SubmitQuery(question@),
            Command::Cancel => CommandView::Cancel,
        }
    }
}

/// What the coordinator tells the user interface.
#[derive(Clone, Debug, PartialEq, Eq)]
pub enum UiEvent {
    Info(String),
    Error(String),
    IndexingProgress,
    QueryAnswerChunk(String),
    QueryComplete,
}

/// The mathematical content of a [`UiEvent`].
pub enum UiEventView {
    Info(Seq<char>),
    Error(Seq<char>),
    IndexingProgress,
    QueryAnswerChunk(Seq<char>),
    QueryComplete,
}

impl View for UiEvent {
    type V = UiEventView;

    open spec fn view(&self) -> UiEventView {
        match self {
            UiEvent::Info(text) => UiEventView::Info(text@),
            UiEvent::Error(text) => UiEventView::Error(text@),
            UiEvent::IndexingProgress => UiEventView::IndexingProgress,
            UiEvent::QueryAnswerChunk(text) => UiEventView::QueryAnswerChunk(text@),
            UiEvent::QueryComplete => UiEventView::QueryComplete,
        }
    }
}

impl DeepView for UiEvent {
    type V = UiEventView;

    open spec fn deep_view(&self) -> UiEventView {
        self@
    }
}

impl UiEventView {
    /// Whether the event closes a run: after it the coordinator is idle.
    pub open spec fn terminal(self) -> bool {
        self is Info || self is Error || self is QueryComplete
    }
}

} // verus!
