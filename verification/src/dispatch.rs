//! Synthesis of the dispatch routine: one branch for each variant of the
//! union, each forwarding the variant's fields to the handler method named
//! after the variant.

use crate::config::{GeneratorConfig, GeneratorConfigView};
use crate::destructure::{
    binding_names, destructure, pattern_of, BindingPattern, BindingPatternView,
};
use crate::model::{texts, UnionDefinition, UnionDefinitionView, Variant, VariantView};
use crate::naming::{snake_case, to_snake_case};
use vstd::prelude::*;

verus! {

/// One branch of the routine: it selects the instances of one variant, binds
/// their fields and forwards them to one handler method.
#[derive(Debug, Clone, PartialEq, Eq)]
pub struct Branch {
    /// The variant whose instances the branch selects.
    pub variant: String,
    /// The pattern that binds the variant's fields.
    pub pattern: BindingPattern,
    /// The handler method that the branch calls.
    pub method: String,
    /// The arguments of the call, in order.
    pub arguments: Vec<String>,
}

pub struct BranchView {
    pub variant: Seq<char>,
    pub pattern: BindingPatternView,
    pub method: Seq<char>,
    pub arguments: Seq<Seq<char>>,
}

impl View for Branch {
    type V = BranchView;

    open spec fn view(&self) -> BranchView {
        BranchView {
            variant: self.variant@,
            pattern: self.pattern@,
            method: self.method@,
            arguments: texts(self.arguments@),
        }
    }
}

impl BranchView {
    /// Whether the branch is the one taken for an instance of the variant
    /// with the given name.
    pub open spec fn selects(self, variant: Seq<char>) -> bool {
        self.variant == variant
    }
}

/// The routine that dispatches the instances of a union: a selection over
/// the union's variants, without a fallback branch.
#[derive(Debug, Clone, PartialEq, Eq)]
pub struct Routine {
    /// The union that the routine is bound to.
    pub union_name: String,
    /// The handler interface and what the routine returns.
    pub config: GeneratorConfig,
    /// The branches of the selection, in the order of the variants.
    pub branches: Vec<Branch>,
}

pub struct RoutineView {
    pub union_name: Seq<char>,
    pub config: GeneratorConfigView,
    pub branches: Seq<BranchView>,
}

impl View for Routine {
    type V = RoutineView;

    open spec fn view(&self) -> RoutineView {
        RoutineView {
            union_name: self.union_name@,
            config: self.config@,
            branches: self.branches@.map_values(|b: Branch| b@),
        }
    }
}

/// The branch for a variant: it selects the variant, binds each field once
/// in declaration order, and calls the method whose name is the variant's in
/// snake case with the bound names as arguments, in the same order.
pub open spec fn branch_of(variant: VariantView) -> BranchView {
    BranchView {
        variant: variant.name,
        pattern: pattern_of(variant.shape),
        method: snake_case(variant.name),
        arguments: binding_names(variant.shape),
    }
}

/// The routine for a union under a configuration: the branches of the
/// union's variants, in declaration order.
pub open spec fn routine_of(
    definition: UnionDefinitionView,
    config: GeneratorConfigView,
) -> RoutineView {
    RoutineView {
        union_name: definition.name,
        config,
        branches: definition.variants.map_values(|v: VariantView| branch_of(v)),
    }
}

/// Synthesizes the branch for a variant.
pub fn synthesize_branch(variant: &Variant) -> (branch: Branch)
    ensures
        branch@ == branch_of(variant@),
{
    let parts = destructure(&variant.shape);
    Branch {
        variant: variant.name.clone(),
        pattern: parts.pattern,
        method: to_snake_case(variant.name.as_str()),
        arguments: parts.arguments,
    }
}

/// Synthesizes the routine for a union under a configuration.
///
/// The routine has one branch for each variant, in declaration order, and
/// no other branch.
pub fn synthesize(definition: &UnionDefinition, config: GeneratorConfig) -> (routine: Routine)
    ensures
        routine@ == routine_of(definition@, config@),
        routine@.branches.len() == definition@.variants.len(),
{
    let mut branches: Vec<Branch> = Vec::new();
    let mut i: usize = 0;
    while i < definition.variants.len()
        invariant
            i <= definition.variants@.len(),
            branches@.len() == i,
            forall|k: int| 0 <= k < i ==> (#[trigger] branches@[k])@ == branch_of(
                definition.variants@[k]@,
            ),
        decreases definition.variants@.len() - i,
    {
        branches.push(synthesize_branch(&definition.variants[i]));
        i += 1;
    }
    let routine = Routine { union_name: definition.name.clone(), config, branches };
    assert(routine@.branches =~= routine_of(definition@, config@).branches);
    routine
}

} // verus!
