//! The mathematical model of an error and of its cause, and what the
//! operations of the crate mean on it.

use vstd::prelude::*;
use crate::kind::ErrorKind;

verus! {

/// What an error is: its kind, its context if it has one, and its cause if
/// it has one.
pub struct ErrorModel {
    pub kind: ErrorKind,
    pub context: Option<Seq<char>>,
    pub cause: Option<Box<CauseModel>>,
}

/// What a cause is: an error of this crate, or the text that some other error
/// displays together with that error's own cause.
pub enum CauseModel {
    Cargo(ErrorModel),
    Other { message: Seq<char>, cause: Option<Box<CauseModel>> },
}

impl ErrorModel {
    /// The error of the given kind that has neither context nor cause.
    pub open spec fn bare(kind: ErrorKind) -> ErrorModel {
        ErrorModel { kind, context: None, cause: None }
    }

    /// This error with its context replaced by `text`.
    pub open spec fn with_context(self, text: Seq<char>) -> ErrorModel {
        ErrorModel { context: Some(text), ..self }
    }

    /// This error with its cause replaced by `cause`.
    pub open spec fn with_cause(self, cause: CauseModel) -> ErrorModel {
        ErrorModel { cause: Some(Box::new(cause)), ..self }
    }

    /// The first line of the rendered text.
    pub open spec fn headline(self) -> Seq<char> {
        "Cargo command failed: "@ + self.kind.label_text() + "\n"@
    }

    /// The line that shows the context, or nothing where there is none.
    pub open spec fn context_line(self) -> Seq<char> {
        match self.context {
            Some(text) => text + "\n"@,
            None => Seq::empty(),
        }
    }

    /// The line that shows the cause, or nothing where there is none.
    pub open spec fn cause_line(self) -> Seq<char>
        decreases self, 0int,
    {
        match self.cause {
            Some(cause) => "Cause: "@ + cause.rendered() + "\n"@,
            None => Seq::empty(),
        }
    }

    /// The text that the error displays: the headline, then the context line,
    /// then the cause line.
    pub open spec fn rendered(self) -> Seq<char>
        decreases self, 1int,
    {
        self.headline() + self.context_line() + self.cause_line()
    }

    /// The errors beneath this one, nearest first: its cause, the cause of
    /// that cause, and so on down to the one that has no cause.
    pub open spec fn causes(self) -> Seq<CauseModel>
        decreases self,
    {
        match self.cause {
            Some(cause) => cause.chain(),
            None => Seq::empty(),
        }
    }
}

impl CauseModel {
    /// The text that the cause displays.
    pub open spec fn rendered(self) -> Seq<char>
        decreases self,
    {
        match self {
            CauseModel::Cargo(error) => error.rendered(),
            CauseModel::Other { message, .. } => message,
        }
    }

    /// The cause of this cause, if it has one.
    pub open spec fn cause(self) -> Option<CauseModel> {
        match self {
            CauseModel::Cargo(error) => match error.cause {
                Some(cause) => Some(*cause),
                None => None,
            },
            CauseModel::Other { cause, .. } => match cause {
                Some(cause) => Some(*cause),
                None => None,
            },
        }
    }

    /// This cause followed by the errors beneath it, nearest first.
    pub open spec fn chain(self) -> Seq<CauseModel>
        decreases self,
    {
        match self.cause() {
            Some(cause) => seq![self] + cause.chain(),
            None => seq![self],
        }
    }
}

} // verus!
