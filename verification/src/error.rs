//! The error value and the causes it can own.

use vstd::prelude::*;
use vstd::string::StringExecFns;
use crate::kind::ErrorKind;
use crate::model::{CauseModel, ErrorModel};

verus! {

/// A failed cargo command: the kind of failure, an optional line of context
/// and an optional cause, which the error owns.
#[derive(Debug)]
pub struct CargoError {
    kind: ErrorKind,
    context: Option<String>,
    cause: Option<Box<Cause>>,
}

/// The error beneath another error.
#[derive(Debug)]
pub enum Cause {
    /// An error of this crate.
    Cargo(CargoError),
    /// Any other error, kept as the text it displays and its own cause.
    Other { message: String, cause: Option<Box<Cause>> },
}

/// The result of an operation that fails with a [`CargoError`].
pub type CargoResult<T> = Result<T, CargoError>;

impl CargoError {
    /// The model of this error.
    pub closed spec fn model(self) -> ErrorModel
        decreases self,
    {
        ErrorModel {
            kind: self.kind,
            context: match self.context {
                Some(text) => Some(text@),
                None => None,
            },
            cause: match self.cause {
                Some(cause) => Some(Box::new(cause.model())),
                None => None,
            },
        }
    }
}

impl Cause {
    /// The model of this cause.
    pub open spec fn model(self) -> CauseModel
        decreases self,
    {
        match self {
            Cause::Cargo(error) => CauseModel::Cargo(error.model()),
            Cause::Other { message, cause } => CauseModel::Other {
                message: message@,
                cause: match cause {
                    Some(cause) => Some(Box::new(cause.model())),
                    None => None,
                },
            },
        }
    }
}

impl View for CargoError {
    type V = ErrorModel;

    open spec fn view(&self) -> ErrorModel {
        self.model()
    }
}

impl View for Cause {
    type V = CauseModel;

    open spec fn view(&self) -> CauseModel {
        self.model()
    }
}

impl CargoError {
    /// Makes an error of the given kind, without context and without cause.
    pub fn new(kind: ErrorKind) -> (error: Self)
        ensures
            error@ == ErrorModel::bare(kind),
    {
        Self { kind, context: None, cause: None }
    }

    /// Replaces the context by the text that `context` converts into. Which
    /// text that is, the conversion of `S` decides; [`CargoError::with_context`]
    /// takes the text itself.
    pub fn set_context<S>(self, context: S) -> (error: Self) where S: Into<String>
        ensures
            exists|text: String|
                call_ensures(S::into, (context,), text) && error@ == self@.with_context(text@),
            error@.context is Some,
            error@.kind == self@.kind,
            error@.cause == self@.cause,
    {
        let text: String = context.into();
        self.with_context(text)
    }

    /// Replaces the context by `text`.
    pub fn with_context(self, text: String) -> (error: Self)
        ensures
            error@ == self@.with_context(text@),
    {
        let mut error = self;
        error.context = Some(text);
        error
    }

    /// Replaces the cause by `cause`, which the error then owns.
    pub fn set_cause(self, cause: Cause) -> (error: Self)
        ensures
            error@ == self@.with_cause(cause@),
    {
        let mut error = self;
        error.cause = Some(Box::new(cause));
        error
    }

    /// Returns the kind of failure.
    pub fn kind(&self) -> (kind: ErrorKind)
        ensures
            kind == self@.kind,
    {
        self.kind
    }

    /// Returns the context, if one was set.
    pub fn context(&self) -> (context: Option<&str>)
        ensures
            context matches Some(text) ==> self@.context == Some(text@),
            context is None ==> self@.context is None,
    {
        match &self.context {
            Some(text) => Some(text.as_str()),
            None => None,
        }
    }

    /// Returns the cause, if one was set.
    pub fn cause(&self) -> (cause: Option<&Cause>)
        ensures
            cause matches Some(inner) ==> self@.cause == Some(Box::new(inner@)),
            cause is None ==> self@.cause is None,
    {
        match &self.cause {
            Some(inner) => Some(&**inner),
            None => None,
        }
    }

    /// Returns the short description, which is the same for every error.
    pub fn description(&self) -> (text: &'static str)
        ensures
            text@ == "Cargo command failed."@,
    {
        "Cargo command failed."
    }

    /// Renders the error: the headline, then the context on a line of its
    /// own, then the cause on a line of its own.
    pub fn to_string(&self) -> (text: String)
        ensures
            text@ == self@.rendered(),
        decreases self,
    {
        let mut text = String::from_str("Cargo command failed: ");
        text.append(self.kind.label());
        text.append("\n");
        match &self.context {
            Some(context) => {
                text.append(context.as_str());
                text.append("\n");
            },
            None => {},
        }
        match &self.cause {
            Some(cause) => {
                let inner = cause.to_string();
                text.append("Cause: ");
                text.append(inner.as_str());
                text.append("\n");
            },
            None => {},
        }
        text
    }

    /// Walks down the chain of causes and returns them, nearest first. The
    /// walk ends at the first link that has no cause.
    pub fn causes(&self) -> (links: Vec<&Cause>)
        ensures
            links@.len() == self@.causes().len(),
            forall|i: int| 0 <= i < links@.len() ==> (#[trigger] links@[i])@ == self@.causes()[i],
    {
        let mut links: Vec<&Cause> = Vec::new();
        let mut next = self.cause();
        loop
            invariant
                models(links@) + tail_of(next) == self@.causes(),
            ensures
                models(links@) == self@.causes(),
            decreases tail_of(next).len(),
        {
            match next {
                Some(link) => {
                    let ghost visited = links@;
                    links.push(link);
                    next = link.cause();
                    assert(models(links@) + tail_of(next) == models(visited) + tail_of(Some(link)));
                },
                None => {
                    assert(models(links@) + tail_of(next) == models(links@));
                    break;
                },
            }
        }
        links
    }
}

/// The models of the links that a walk has visited, in the order of the walk.
spec fn models(links: Seq<&Cause>) -> Seq<CauseModel> {
    links.map_values(|link: &Cause| link@)
}

/// The models of the links that a walk still has to visit when `next` is the
/// next one.
spec fn tail_of(next: Option<&Cause>) -> Seq<CauseModel> {
    match next {
        Some(link) => link@.chain(),
        None => Seq::empty(),
    }
}

impl Cause {
    /// Returns the cause of this cause, if it has one.
    pub fn cause(&self) -> (cause: Option<&Cause>)
        ensures
            cause matches Some(inner) ==> self@.cause() == Some(inner@),
            cause is None ==> self@.cause() is None,
    {
        match self {
            Cause::Cargo(error) => error.cause(),
            Cause::Other { cause, .. } => match cause {
                Some(inner) => Some(&**inner),
                None => None,
            },
        }
    }

    /// Renders the cause: an error of this crate as it renders itself, any
    /// other error as the text it was given.
    pub fn to_string(&self) -> (text: String)
        ensures
            text@ == self@.rendered(),
        decreases self,
    {
        match self {
            Cause::Cargo(error) => error.to_string(),
            Cause::Other { message, .. } => message.clone(),
        }
    }
}

} // verus!
