use vstd::prelude::*;

verus! {

/// A window that the handoff addresses, by its registry label.
#[derive(Clone, Copy, Debug, PartialEq, Eq, Structural)]
pub enum WindowLabel {
    Splashscreen,
    Main,
}

impl WindowLabel {
    pub open spec fn spec_name(self) -> Seq<char> {
        match self {
            WindowLabel::Splashscreen => "splashscreen"@,
            WindowLabel::Main => "main"@,
        }
    }

    /// The label under which the registry knows this window.
    pub fn name(&self) -> (r: &'static str)
        ensures
            r@ == self.spec_name(),
    {
        match self {
            WindowLabel::Splashscreen => "splashscreen",
            WindowLabel::Main => "main",
        }
    }
}

/// The two labels name different windows.
pub proof fn lemma_labels_distinct()
    ensures
        WindowLabel::Splashscreen.spec_name() != WindowLabel::Main.spec_name(),
{
    reveal_strlit("splashscreen");
    reveal_strlit("main");
    assert(WindowLabel::Splashscreen.spec_name().len() != WindowLabel::Main.spec_name().len());
}

/// Why an operation did not complete.
#[derive(Clone, Copy, Debug, PartialEq, Eq, Structural)]
pub enum HandoffError {
    /// The registry holds no window under this label.
    WindowNotFound(WindowLabel),
    /// Closing or showing this window was reported as failed.
    OperationFailed(WindowLabel),
}

/// The operations that the frontend can invoke.
#[derive(Clone, Copy, Debug, PartialEq, Eq, Structural)]
pub enum Operation {
    /// Close the splash window, then show the main window.
    CloseSplashAndShowMain,
    /// Show the main window only.
    ShowMainWindow,
}

/// One request to the window registry.
#[derive(Clone, Copy, Debug, PartialEq, Eq, Structural)]
pub enum Step {
    /// Look the window up; it succeeds when the window exists.
    Resolve(WindowLabel),
    /// Close the window, which leaves the registry.
    Close(WindowLabel),
    /// Make the window visible.
    Show(WindowLabel),
}

impl Step {
    pub open spec fn spec_label(self) -> WindowLabel {
        match self {
            Step::Resolve(l) => l,
            Step::Close(l) => l,
            Step::Show(l) => l,
        }
    }

    /// The error that a failure of this step stands for.
    pub open spec fn failure(self) -> HandoffError {
        match self {
            Step::Resolve(l) => HandoffError::WindowNotFound(l),
            Step::Close(l) => HandoffError::OperationFailed(l),
            Step::Show(l) => HandoffError::OperationFailed(l),
        }
    }

    pub fn label(&self) -> (r: WindowLabel)
        ensures
            r == self.spec_label(),
    {
        match self {
            Step::Resolve(l) => *l,
            Step::Close(l) => *l,
            Step::Show(l) => *l,
        }
    }

    pub fn error(&self) -> (r: HandoffError)
        ensures
            r == self.failure(),
    {
        match self {
            Step::Resolve(l) => HandoffError::WindowNotFound(*l),
            Step::Close(l) => HandoffError::OperationFailed(*l),
            Step::Show(l) => HandoffError::OperationFailed(*l),
        }
    }
}

/// The steps of an operation, in order. Every window is resolved before any
/// window is changed, so a missing window leaves the registry untouched.
pub open spec fn plan(op: Operation) -> Seq<Step> {
    match op {
        Operation::CloseSplashAndShowMain => seq![
            Step::Resolve(WindowLabel::Splashscreen),
            Step::Resolve(WindowLabel::Main),
            Step::Close(WindowLabel::Splashscreen),
            Step::Show(WindowLabel::Main),
        ],
        Operation::ShowMainWindow => seq![
            Step::Resolve(WindowLabel::Main),
            Step::Show(WindowLabel::Main),
        ],
    }
}

/// Progress of one operation: which of its steps have succeeded so far.
/// The caller performs `current()` against the registry and reports the
/// outcome with `record`, until `record` hands back the operation's result.
#[derive(Clone, Copy, Debug, PartialEq, Eq, Structural)]
pub struct Handoff {
    operation: Operation,
    completed: usize,
}

impl Handoff {
    pub closed spec fn spec_operation(self) -> Operation {
        self.operation
    }

    /// How many steps of the plan have succeeded.
    pub closed spec fn spec_completed(self) -> nat {
        self.completed as nat
    }

    pub open spec fn wf(self) -> bool {
        self.spec_completed() < plan(self.spec_operation()).len()
    }

    pub open spec fn spec_current(self) -> Step {
        plan(self.spec_operation())[self.spec_completed() as int]
    }

    /// A handoff of `operation` with no step done yet.
    pub fn new(operation: Operation) -> (r: Handoff)
        ensures
            r.spec_operation() == operation,
            r.spec_completed() == 0,
            r.wf(),
    {
        Handoff { operation, completed: 0 }
    }

    pub fn operation(&self) -> (r: Operation)
        ensures
            r == self.spec_operation(),
    {
        self.operation
    }

    /// The step to perform next.
    pub fn current(&self) -> (r: Step)
        requires
            self.wf(),
        ensures
            r == self.spec_current(),
    {
        match self.operation {
            Operation::CloseSplashAndShowMain => {
                if self.completed == 0 {
                    Step::Resolve(WindowLabel::Splashscreen)
                } else if self.completed == 1 {
                    Step::Resolve(WindowLabel::Main)
                } else if self.completed == 2 {
                    Step::Close(WindowLabel::Splashscreen)
                } else {
                    Step::Show(WindowLabel::Main)
                }
            },
            Operation::ShowMainWindow => {
                if self.completed == 0 {
                    Step::Resolve(WindowLabel::Main)
                } else {
                    Step::Show(WindowLabel::Main)
                }
            },
        }
    }

    /// Takes the outcome of the current step. A failed step ends the
    /// operation with its error; the last step succeeding ends it with
    /// success; otherwise the handoff moves on to the next step and `None`
    /// comes back.
    pub fn record(&mut self, succeeded: bool) -> (r: Option<Result<(), HandoffError>>)
        requires
            old(self).wf(),
        ensures
            final(self).spec_operation() == old(self).spec_operation(),
            !succeeded ==> r == Some(Err::<(), HandoffError>(old(self).spec_current().failure()))
                && *final(self) == *old(self),
            succeeded && old(self).spec_completed() + 1 == plan(old(self).spec_operation()).len()
                ==> r == Some(Ok::<(), HandoffError>(())) && *final(self) == *old(self),
            succeeded && old(self).spec_completed() + 1 < plan(old(self).spec_operation()).len()
                ==> r == None::<Result<(), HandoffError>> && final(self).spec_completed()
                == old(self).spec_completed() + 1,
            r is None ==> final(self).wf(),
    {
        if !succeeded {
            let step = self.current();
            return Some(Err(step.error()));
        }
        let len: usize = match self.operation {
            Operation::CloseSplashAndShowMain => 4,
            Operation::ShowMainWindow => 2,
        };
        if self.completed + 1 == len {
            Some(Ok(()))
        } else {
            self.completed = self.completed + 1;
            None
        }
    }
}

} // verus!
