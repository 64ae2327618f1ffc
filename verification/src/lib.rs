//! Generation of a dispatch routine for a tagged union.
//!
//! The host puts the generator on the declaration of a tagged union and
//! names, in annotations, the interface of the handler and the type that the
//! routine returns. The generator gives back one routine, bound to the
//! union, that routes each variant to the handler method whose name is the
//! variant's name in snake case, with the variant's fields as arguments in
//! declaration order.

pub mod config;
pub mod destructure;
pub mod dispatch;
pub mod emit;
pub mod error;
pub mod laws;
pub mod model;
pub mod naming;
pub mod reading;

use crate::config::{
    config_from, config_given, has_list, lookup, or_compound, read_settings, text_result,
    type_setting, Mode, Setting,
};
use crate::dispatch::{routine_of, synthesize, Routine, RoutineView};
use crate::emit::routine_text;
use crate::error::{GenerationError, GenerationErrorView, TARGET_INTERFACE};
use crate::model::{Declaration, DeclarationView};
use crate::reading::{PathArgument, PathArgumentView};
use vstd::prelude::*;

verus! {

/// The view of a routine or a failure.
pub open spec fn routine_result(r: Result<Routine, GenerationError>) -> Result<
    RoutineView,
    GenerationErrorView,
> {
    match r {
        Ok(routine) => Ok(routine@),
        Err(e) => Err(e@),
    }
}

/// What generation gives for a declaration in a mode, given what reading the
/// argument list of the interface annotation gave and what reading that of
/// the mode's type annotation gave.
///
/// A declaration that is no tagged union is rejected outright, whatever its
/// annotations. For a tagged union the configuration is resolved, and where
/// that succeeds the routine is the one for the union under it.
pub open spec fn generated_given(
    input: DeclarationView,
    mode: Mode,
    interface_read: PathArgumentView,
    type_read: PathArgumentView,
) -> Result<RoutineView, GenerationErrorView> {
    match input {
        DeclarationView::TaggedUnion { annotations, definition } => match config_given(
            annotations,
            mode,
            interface_read,
            type_read,
        ) {
            Ok(config) => Ok(routine_of(definition, config)),
            Err(e) => Err(e),
        },
        DeclarationView::Record { name } => Err(GenerationErrorView::NotATaggedUnion { name }),
        DeclarationView::UntaggedUnion { name } => Err(
            GenerationErrorView::NotATaggedUnion { name },
        ),
    }
}

/// The text of what `generated_given` gives.
pub open spec fn emitted_given(
    input: DeclarationView,
    mode: Mode,
    interface_read: PathArgumentView,
    type_read: PathArgumentView,
) -> Result<Seq<char>, GenerationErrorView> {
    match generated_given(input, mode, interface_read, type_read) {
        Ok(routine) => Ok(routine_text(routine)),
        Err(e) => Err(e),
    }
}

/// Whether a declaration is a tagged union on which no annotation names the
/// handler interface.
pub open spec fn lacks_target_interface(input: DeclarationView) -> bool {
    input matches DeclarationView::TaggedUnion { annotations, .. } && lookup(
        annotations,
        TARGET_INTERFACE@,
    ) is None
}

/// Decides what generation gives for a declaration in a mode, given what
/// reading the argument list of the interface annotation gave and what
/// reading that of the mode's type annotation gave.
///
/// A declaration that is no tagged union is rejected outright. For a tagged
/// union the configuration is decided from the readings, and where that
/// succeeds the routine has one branch for each variant of the union, in
/// declaration order.
pub fn generate_from(
    input: &Declaration,
    mode: Mode,
    interface_read: PathArgument,
    type_read: PathArgument,
) -> (r: Result<Routine, GenerationError>)
    ensures
        routine_result(r) == generated_given(input@, mode, interface_read@, type_read@),
{
    match input {
        Declaration::TaggedUnion { annotations, definition } => {
            match config_from(annotations.as_slice(), mode, interface_read, type_read) {
                Ok(config) => Ok(synthesize(definition, config)),
                Err(e) => Err(e),
            }
        },
        Declaration::Record { name } | Declaration::UntaggedUnion { name } => Err(
            GenerationError::NotATaggedUnion { name: name.clone() },
        ),
    }
}

/// Decides the source text that generation gives for a declaration in a
/// mode, given the two readings: the text of the routine that
/// `generate_from` gives, or its failure.
pub fn emit_from(
    input: &Declaration,
    mode: Mode,
    interface_read: PathArgument,
    type_read: PathArgument,
) -> (r: Result<String, GenerationError>)
    ensures
        text_result(r) == emitted_given(input@, mode, interface_read@, type_read@),
{
    match generate_from(input, mode, interface_read, type_read) {
        Ok(routine) => Ok(routine.emit()),
        Err(e) => Err(e),
    }
}

/// Whether a declaration is a tagged union on which the first annotation of
/// a setting has an argument list.
pub open spec fn has_listed(input: DeclarationView, setting: Setting) -> bool {
    input matches DeclarationView::TaggedUnion { annotations, .. } && has_list(
        annotations,
        setting,
    )
}

/// Reads the argument lists that generation for a declaration needs. On a
/// declaration that is no tagged union nothing is read; on a tagged union
/// the interface's list where it is there, and the type's list only where
/// it is there and the interface's list read as one identifier.
fn read_declaration(input: &Declaration, mode: Mode) -> (reads: (
    Option<PathArgument>,
    Option<PathArgument>,
))
    ensures
        reads.0 is Some <==> has_listed(input@, Setting::TargetInterface),
        reads.1 is Some <==> (reads.0 matches Some(PathArgument::Identifier(_)) && has_listed(
            input@,
            type_setting(mode),
        )),
{
    match input {
        Declaration::TaggedUnion { annotations, .. } => read_settings(
            annotations.as_slice(),
            mode,
        ),
        _ => (None, None),
    }
}

/// Generates the dispatch routine for a declaration.
///
/// Fails for a declaration that is no tagged union, and for annotations from
/// which no configuration can be resolved. Otherwise the argument lists of
/// the annotations are read as paths, and the result is what `generate_from`
/// gives for these readings.
pub fn generate(input: &Declaration, mode: Mode) -> (r: Result<Routine, GenerationError>)
    ensures
        exists|interface_read: PathArgumentView, type_read: PathArgumentView|
            routine_result(r) == generated_given(input@, mode, interface_read, type_read),
        !(input@ is TaggedUnion) ==> routine_result(r) == Err::<RoutineView, GenerationErrorView>(
            GenerationErrorView::NotATaggedUnion { name: input@.name() },
        ),
        lacks_target_interface(input@) ==> routine_result(r) == Err::<
            RoutineView,
            GenerationErrorView,
        >(GenerationErrorView::MissingTargetInterface),
        r is Ok ==> has_listed(input@, Setting::TargetInterface),
        r matches Ok(routine) ==> routine@.config.outcome.mode() == mode,
{
    let (interface_made, type_made) = read_declaration(input, mode);
    let interface_read = or_compound(interface_made);
    let type_read = or_compound(type_made);
    let ghost reads = (interface_read@, type_read@);
    let r = generate_from(input, mode, interface_read, type_read);
    assert(routine_result(r) == generated_given(input@, mode, reads.0, reads.1));
    r
}

/// Generates the dispatch routine for a declaration, as source text.
///
/// The text is an `impl` of the union with the one function `forward_to`. A
/// failure is final: no text is produced, and the host's compilation is
/// meant to fail with the failure's message. The argument lists of the
/// annotations are read as paths, and the result is what `emit_from` gives
/// for these readings.
pub fn derive_generate_forward_to(input: &Declaration, mode: Mode) -> (r: Result<
    String,
    GenerationError,
>)
    ensures
        exists|interface_read: PathArgumentView, type_read: PathArgumentView|
            text_result(r) == emitted_given(input@, mode, interface_read, type_read),
        !(input@ is TaggedUnion) ==> text_result(r) == Err::<Seq<char>, GenerationErrorView>(
            GenerationErrorView::NotATaggedUnion { name: input@.name() },
        ),
        lacks_target_interface(input@) ==> text_result(r) == Err::<Seq<char>, GenerationErrorView>(
            GenerationErrorView::MissingTargetInterface,
        ),
        r is Ok ==> has_listed(input@, Setting::TargetInterface),
{
    let (interface_made, type_made) = read_declaration(input, mode);
    let interface_read = or_compound(interface_made);
    let type_read = or_compound(type_made);
    let ghost reads = (interface_read@, type_read@);
    let r = emit_from(input, mode, interface_read, type_read);
    assert(text_result(r) == emitted_given(input@, mode, reads.0, reads.1));
    r
}

} // verus!
