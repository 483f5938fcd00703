//! What holds of every error, stated over the models and proved from their
//! definitions.

use vstd::prelude::*;
use crate::kind::ErrorKind;
use crate::model::{CauseModel, ErrorModel};

verus! {

/// A new error has the kind it was made with, and neither context nor cause.
pub proof fn law_new_keeps_kind(kind: ErrorKind)
    ensures
        ErrorModel::bare(kind).kind == kind,
        ErrorModel::bare(kind).context is None,
        ErrorModel::bare(kind).cause is None,
{
}

/// Setting a context or a cause leaves the kind as it was.
pub proof fn law_kind_is_kept(error: ErrorModel, text: Seq<char>, cause: CauseModel)
    ensures
        error.with_context(text).kind == error.kind,
        error.with_cause(cause).kind == error.kind,
{
}

/// Setting the context and setting the cause do not disturb each other.
pub proof fn law_context_and_cause_are_independent(
    error: ErrorModel,
    text: Seq<char>,
    cause: CauseModel,
)
    ensures
        error.with_context(text).cause == error.cause,
        error.with_cause(cause).context == error.context,
        error.with_context(text).with_cause(cause) == error.with_cause(cause).with_context(text),
{
}

/// A context that is set twice is the second one: the first leaves no trace
/// in the error, and the rendered text shows the second alone.
pub proof fn law_last_context_wins(error: ErrorModel, first: Seq<char>, second: Seq<char>)
    ensures
        error.with_context(first).with_context(second) == error.with_context(second),
        error.with_context(first).with_context(second).rendered() == error.headline() + (second
            + "\n"@) + error.cause_line(),
{
}

/// A cause that is set twice is the second one: the first leaves no trace in
/// the error, and the rendered text shows the second alone.
pub proof fn law_last_cause_wins(error: ErrorModel, first: CauseModel, second: CauseModel)
    ensures
        error.with_cause(first).with_cause(second) == error.with_cause(second),
        error.with_cause(first).with_cause(second).rendered() == error.headline()
            + error.context_line() + ("Cause: "@ + second.rendered() + "\n"@),
{
}

/// No label holds a line break.
pub proof fn law_label_is_one_line(kind: ErrorKind)
    ensures
        forall|i: int| 0 <= i < kind.label_text().len() ==> kind.label_text()[i] != '\n',
{
    reveal_strlit("Spawning the cargo subommand failed.");
    reveal_strlit("The cargo subcommand returned an error.");
    reveal_strlit("Parsing the cargo subcommand's output failed.");
}

/// An error without context and without cause renders as exactly one line:
/// the fixed opening, the label of its kind and a line break, which is the
/// only one in the text.
pub proof fn law_bare_error_is_one_line(error: ErrorModel)
    requires
        error.context is None,
        error.cause is None,
    ensures
        error.rendered() == "Cargo command failed: "@ + error.kind.label_text() + "\n"@,
        error.rendered().len() > 0,
        error.rendered().last() == '\n',
        forall|i: int| 0 <= i < error.rendered().len() - 1 ==> error.rendered()[i] != '\n',
{
    law_label_is_one_line(error.kind);
    reveal_strlit("Cargo command failed: ");
    reveal_strlit("\n");
    assert(error.rendered() =~= error.headline());
}

/// The rendered text of every error ends with a line break.
pub proof fn law_rendered_ends_with_line_break(error: ErrorModel)
    ensures
        error.rendered().len() > 0,
        error.rendered().last() == '\n',
{
    reveal_strlit("\n");
}

/// The context, where there is one, is the second line of the rendered text
/// and ends with a line break.
pub proof fn law_context_is_second_line(error: ErrorModel, text: Seq<char>)
    requires
        error.cause is None,
    ensures
        error.with_context(text).rendered() == "Cargo command failed: "@
            + error.kind.label_text() + "\n"@ + text + "\n"@,
{
    let shown = error.with_context(text);
    assert(shown.rendered() =~= shown.headline() + shown.context_line());
    assert(shown.headline() + (text + "\n"@) =~= shown.headline() + text + "\n"@);
}

/// The cause, where there is one, is the end of the rendered text: the word
/// `Cause`, a colon, a space, the text of the cause and a line break.
pub proof fn law_cause_is_last_line(error: ErrorModel, cause: CauseModel)
    ensures
        error.with_cause(cause).rendered() == error.headline() + error.context_line() + "Cause: "@
            + cause.rendered() + "\n"@,
{
    let shown = error.with_cause(cause);
    let line = "Cause: "@ + cause.rendered() + "\n"@;
    assert(shown.cause_line() == line);
    assert(shown.headline() + shown.context_line() + line =~= error.headline()
        + error.context_line() + "Cause: "@ + cause.rendered() + "\n"@);
}

/// The causes of an error are its cause followed by the causes of that
/// cause.
pub proof fn law_causes_follow_the_cause(error: ErrorModel, cause: CauseModel)
    ensures
        error.with_cause(cause).causes() == cause.chain(),
        cause.chain().len() >= 1,
        cause.chain()[0] == cause,
{
}

/// An error without a cause has no causes.
pub proof fn law_no_cause_no_causes(error: ErrorModel)
    requires
        error.cause is None,
    ensures
        error.causes() == Seq::<CauseModel>::empty(),
{
}

/// A walk from an error whose cause is an error without a cause visits that
/// cause and ends there.
pub proof fn law_walk_ends_at_causeless_link(outer: ErrorModel, inner: ErrorModel)
    requires
        inner.cause is None,
    ensures
        outer.with_cause(CauseModel::Cargo(inner)).causes() == seq![CauseModel::Cargo(inner)],
{
}

/// Every walk ends: the last link of a chain has no cause, and each link
/// before it has the next link as its cause.
pub proof fn law_chain_is_linked(cause: CauseModel)
    ensures
        cause.chain().len() >= 1,
        cause.chain().last().cause() is None,
        forall|i: int|
            0 <= i < cause.chain().len() - 1 ==> (#[trigger] cause.chain()[i]).cause() == Some(
                cause.chain()[i + 1],
            ),
    decreases cause,
{
    match cause.cause() {
        Some(next) => {
            law_chain_is_linked(next);
            let rest = next.chain();
            assert(cause.chain() == seq![cause] + rest);
            assert forall|i: int| 0 <= i < cause.chain().len() - 1 implies (
            #[trigger] cause.chain()[i]).cause() == Some(cause.chain()[i + 1]) by {
                if i > 0 {
                    assert(cause.chain()[i] == rest[i - 1]);
                    assert(cause.chain()[i + 1] == rest[i]);
                }
            }
        },
        None => {},
    }
}

} // verus!
