//! The routine as source text of the host language.

use crate::config::{GeneratorConfig, GeneratorConfigView, Mode, Outcome, OutcomeView};
use crate::destructure::{BindingPattern, BindingPatternView};
use crate::dispatch::{Branch, BranchView, Routine, RoutineView};
use crate::model::texts;
use vstd::prelude::*;
use vstd::string::*;

verus! {

/// The items in order, with the separator between each two.
pub open spec fn join(items: Seq<Seq<char>>, separator: Seq<char>) -> Seq<char>
    decreases items.len(),
{
    if items.len() == 0 {
        Seq::empty()
    } else if items.len() == 1 {
        items[0]
    } else {
        join(items.drop_last(), separator) + separator + items.last()
    }
}

/// The pattern of a branch: the variant's path, then the bindings in round
/// brackets or in braces.
pub open spec fn pattern_text(union_name: Seq<char>, branch: BranchView) -> Seq<char> {
    union_name + "::"@ + branch.variant + match branch.pattern {
        BindingPatternView::Bare => Seq::empty(),
        BindingPatternView::Positional(names) => "("@ + join(names, ", "@) + ")"@,
        BindingPatternView::Named(names) => " { "@ + join(names, ", "@) + " }"@,
    }
}

/// The call of a branch: the handler's method on the arguments, awaited.
pub open spec fn call_text(branch: BranchView) -> Seq<char> {
    "api."@ + branch.method + "("@ + join(branch.arguments, ", "@) + ").await"@
}

/// A branch as one line of the selection.
///
/// In typed return mode the call's value is the branch's value. In error
/// bridging mode a failure of the call leaves the routine at once, as the
/// routine's own failure.
pub open spec fn branch_text(union_name: Seq<char>, mode: Mode, branch: BranchView) -> Seq<char> {
    "            "@ + pattern_text(union_name, branch) + " => "@ + match mode {
        Mode::TypedReturn => call_text(branch) + ",\n"@,
        Mode::ErrorBridging => "{ "@ + call_text(branch) + "?; }\n"@,
    }
}

/// The lines of the branches, in order.
pub open spec fn branches_text(
    union_name: Seq<char>,
    mode: Mode,
    branches: Seq<BranchView>,
) -> Seq<char>
    decreases branches.len(),
{
    if branches.len() == 0 {
        Seq::empty()
    } else {
        branches_text(union_name, mode, branches.drop_last()) + branch_text(
            union_name,
            mode,
            branches.last(),
        )
    }
}

/// The bound on the handler's type: the interface, and in typed return mode
/// leave to be unsized, so that a handler behind a trait object is accepted.
pub open spec fn bound_text(config: GeneratorConfigView) -> Seq<char> {
    match config.outcome {
        OutcomeView::Bridged { .. } => config.target_interface,
        OutcomeView::Typed { .. } => config.target_interface + " + ?Sized"@,
    }
}

/// The type that the routine returns.
pub open spec fn outcome_text(outcome: OutcomeView) -> Seq<char> {
    match outcome {
        OutcomeView::Bridged { error_type } => "Result<(), "@ + error_type + ">"@,
        OutcomeView::Typed { return_type: Some(name) } => name,
        OutcomeView::Typed { return_type: None } => "()"@,
    }
}

/// What follows the selection: in error bridging mode the routine's success.
pub open spec fn closing_text(outcome: OutcomeView) -> Seq<char> {
    match outcome {
        OutcomeView::Bridged { .. } => "        Ok(())\n"@,
        OutcomeView::Typed { .. } => Seq::empty(),
    }
}

/// The opening of the routine: the `impl` of the union and the signature of
/// `forward_to`, which takes the event by value and the handler by mutable
/// reference.
pub open spec fn opening_text(routine: RoutineView) -> Seq<char> {
    "impl "@ + routine.union_name + " {\n    pub async fn forward_to<T: "@ + bound_text(
        routine.config,
    ) + ">(self, api: &mut T) -> "@ + outcome_text(routine.config.outcome) + " {\n"@
}

/// The routine as source text: its opening, the selection over the event
/// with one line for each branch, and what follows the selection.
pub open spec fn routine_text(routine: RoutineView) -> Seq<char> {
    opening_text(routine) + "        match self {\n"@ + branches_text(
        routine.union_name,
        routine.config.outcome.mode(),
        routine.branches,
    ) + "        }\n"@ + closing_text(routine.config.outcome) + "    }\n}\n"@
}

fn join_texts(items: &Vec<String>, separator: &str) -> (text: String)
    ensures
        text@ == join(texts(items@), separator@),
{
    let mut text = String::new();
    let ghost all = texts(items@);
    let mut i: usize = 0;
    while i < items.len()
        invariant
            i <= items@.len(),
            all == texts(items@),
            text@ == join(all.take(i as int), separator@),
        decreases items@.len() - i,
    {
        assert(all.take(i + 1).drop_last() =~= all.take(i as int));
        if i > 0 {
            text.append(separator);
        }
        text.append(items[i].as_str());
        i += 1;
    }
    assert(all.take(items@.len() as int) =~= all);
    text
}

impl Branch {
    fn pattern_text(&self, union_name: &str) -> (text: String)
        ensures
            text@ == pattern_text(union_name@, self@),
    {
        let mut text = String::from_str(union_name);
        text.append("::");
        text.append(self.variant.as_str());
        match &self.pattern {
            BindingPattern::Bare => {},
            BindingPattern::Positional(names) => {
                let bound = join_texts(names, ", ");
                let mut list = String::from_str("(");
                list.append(bound.as_str());
                list.append(")");
                text.append(list.as_str());
            },
            BindingPattern::Named(names) => {
                let bound = join_texts(names, ", ");
                let mut list = String::from_str(" { ");
                list.append(bound.as_str());
                list.append(" }");
                text.append(list.as_str());
            },
        }
        text
    }

    fn call_text(&self) -> (text: String)
        ensures
            text@ == call_text(self@),
    {
        let arguments = join_texts(&self.arguments, ", ");
        let mut text = String::from_str("api.");
        text.append(self.method.as_str());
        text.append("(");
        text.append(arguments.as_str());
        text.append(").await");
        text
    }

    /// The branch as one line of the selection of a routine bound to the
    /// union of the given name.
    pub fn emit(&self, union_name: &str, mode: Mode) -> (text: String)
        ensures
            text@ == branch_text(union_name@, mode, self@),
    {
        let pattern = self.pattern_text(union_name);
        let call = self.call_text();
        let mut text = String::from_str("            ");
        text.append(pattern.as_str());
        text.append(" => ");
        match mode {
            Mode::TypedReturn => {
                let mut rest = call;
                rest.append(",\n");
                text.append(rest.as_str());
            },
            Mode::ErrorBridging => {
                let mut rest = String::from_str("{ ");
                rest.append(call.as_str());
                rest.append("?; }\n");
                text.append(rest.as_str());
            },
        }
        text
    }
}

impl Outcome {
    fn type_text(&self) -> (text: String)
        ensures
            text@ == outcome_text(self@),
    {
        match self {
            Outcome::Bridged { error_type } => {
                let mut text = String::from_str("Result<(), ");
                text.append(error_type.as_str());
                text.append(">");
                text
            },
            Outcome::Typed { return_type: Some(name) } => name.clone(),
            Outcome::Typed { return_type: None } => String::from_str("()"),
        }
    }

    fn closing_text(&self) -> (text: &'static str)
        ensures
            text@ == closing_text(self@),
    {
        match self {
            Outcome::Bridged { .. } => "        Ok(())\n",
            Outcome::Typed { .. } => {
                proof {
                    reveal_strlit("");
                }
                ""
            },
        }
    }
}

impl GeneratorConfig {
    fn bound_text(&self) -> (text: String)
        ensures
            text@ == bound_text(self@),
    {
        let mut text = self.target_interface.clone();
        match &self.outcome {
            Outcome::Bridged { .. } => {},
            Outcome::Typed { .. } => {
                text.append(" + ?Sized");
            },
        }
        text
    }
}

impl Routine {
    fn branches_text(&self) -> (text: String)
        ensures
            text@ == branches_text(self@.union_name, self@.config.outcome.mode(), self@.branches),
    {
        let mode = self.config.outcome.mode();
        let ghost all = self@.branches;
        let mut text = String::new();
        let mut i: usize = 0;
        while i < self.branches.len()
            invariant
                i <= self.branches@.len(),
                all == self@.branches,
                mode == self@.config.outcome.mode(),
                text@ == branches_text(self@.union_name, mode, all.take(i as int)),
            decreases self.branches@.len() - i,
        {
            assert(all.take(i + 1).drop_last() =~= all.take(i as int));
            let line = self.branches[i].emit(self.union_name.as_str(), mode);
            text.append(line.as_str());
            i += 1;
        }
        assert(all.take(self.branches@.len() as int) =~= all);
        text
    }

    fn opening_text(&self) -> (text: String)
        ensures
            text@ == opening_text(self@),
    {
        let bound = self.config.bound_text();
        let outcome = self.config.outcome.type_text();
        let mut text = String::from_str("impl ");
        text.append(self.union_name.as_str());
        text.append(" {\n    pub async fn forward_to<T: ");
        text.append(bound.as_str());
        text.append(">(self, api: &mut T) -> ");
        text.append(outcome.as_str());
        text.append(" {\n");
        text
    }

    /// Writes the routine out as source text.
    pub fn emit(&self) -> (text: String)
        ensures
            text@ == routine_text(self@),
    {
        let branches = self.branches_text();
        let mut text = self.opening_text();
        text.append("        match self {\n");
        text.append(branches.as_str());
        text.append("        }\n");
        text.append(self.config.outcome.closing_text());
        text.append("    }\n}\n");
        text
    }
}

} // verus!
