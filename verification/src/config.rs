//! Resolving the generator's configuration from the annotations on a
//! declaration.
//!
//! The argument list of an annotation is read as a path of the host
//! language, which is not this crate's work. The contracts here say what is
//! resolved for each outcome of that reading.

use crate::error::{GenerationError, GenerationErrorView, ERROR_TYPE, RETURN_TYPE, TARGET_INTERFACE};
use crate::model::{
    annotation_views, Annotation, AnnotationArguments, AnnotationArgumentsView, AnnotationView,
};
use crate::reading::{read_path, PathArgument, PathArgumentView};
use vstd::prelude::*;
use vstd::string::*;

verus! {

/// The arguments of the first annotation that has the given name.
pub open spec fn lookup(annotations: Seq<AnnotationView>, name: Seq<char>) -> Option<
    AnnotationArgumentsView,
>
    decreases annotations.len(),
{
    if annotations.len() == 0 {
        None
    } else if annotations.first().name == name {
        Some(annotations.first().arguments)
    } else {
        lookup(annotations.drop_first(), name)
    }
}

/// Finds the first annotation that has the given name and returns its
/// arguments. Annotations after it are not looked at.
pub fn find_arguments<'a>(annotations: &'a [Annotation], name: &str) -> (found: Option<
    &'a AnnotationArguments,
>)
    ensures
        match found {
            Some(arguments) => lookup(annotation_views(annotations@), name@) == Some(arguments@),
            None => lookup(annotation_views(annotations@), name@) is None,
        },
{
    let wanted = String::from_str(name);
    let ghost all = annotation_views(annotations@);
    let mut i: usize = 0;
    assert(all.skip(0) =~= all);
    while i < annotations.len()
        invariant
            i <= annotations@.len(),
            all == annotation_views(annotations@),
            wanted@ == name@,
            lookup(all, name@) == lookup(all.skip(i as int), name@),
        decreases annotations@.len() - i,
    {
        proof {
            assert(all.skip(i as int).drop_first() =~= all.skip(i + 1));
        }
        if annotations[i].name == wanted {
            return Some(&annotations[i].arguments);
        }
        i += 1;
    }
    None
}

/// One of the settings that annotations give.
#[derive(Debug, Clone, Copy, PartialEq, Eq)]
pub enum Setting {
    /// The handler interface.
    TargetInterface,
    /// The type of the value that the routine returns.
    ReturnType,
    /// The type of the failure that the routine bridges.
    ErrorType,
}

impl Setting {
    /// The name of the annotation that gives the setting.
    pub open spec fn annotation_name(self) -> Seq<char> {
        match self {
            Setting::TargetInterface => TARGET_INTERFACE@,
            Setting::ReturnType => RETURN_TYPE@,
            Setting::ErrorType => ERROR_TYPE@,
        }
    }

    /// The failure for a path that is more than one identifier.
    pub open spec fn not_identifier(self, path: Seq<char>) -> GenerationErrorView {
        match self {
            Setting::TargetInterface => GenerationErrorView::InterfaceNotIdentifier { path },
            Setting::ReturnType => GenerationErrorView::ReturnTypeNotIdentifier { path },
            Setting::ErrorType => GenerationErrorView::ErrorTypeNotIdentifier { path },
        }
    }

    /// The name of the annotation that gives the setting.
    pub fn annotation(self) -> (name: &'static str)
        ensures
            name@ == self.annotation_name(),
    {
        match self {
            Setting::TargetInterface => TARGET_INTERFACE,
            Setting::ReturnType => RETURN_TYPE,
            Setting::ErrorType => ERROR_TYPE,
        }
    }
}

/// The complaint about an annotation that is its name alone.
pub open spec fn arguments_expected(annotation: Seq<char>) -> Seq<char> {
    "expected attribute arguments in parentheses: #["@ + annotation + "(...)]"@
}

/// The complaint about an annotation that assigns a value.
pub open spec fn parentheses_expected(annotation: Seq<char>) -> Seq<char> {
    "expected parentheses: #["@ + annotation + "(...)]"@
}

/// The text of an annotation's argument list, or the failure for an
/// annotation that has none.
pub open spec fn listed_text_of(setting: Setting, arguments: AnnotationArgumentsView) -> Result<
    Seq<char>,
    GenerationErrorView,
> {
    match arguments {
        AnnotationArgumentsView::Listed(text) => Ok(text),
        AnnotationArgumentsView::Absent => Err(
            GenerationErrorView::MalformedAnnotation {
                annotation: setting.annotation_name(),
                detail: arguments_expected(setting.annotation_name()),
            },
        ),
        AnnotationArgumentsView::Assigned => Err(
            GenerationErrorView::MalformedAnnotation {
                annotation: setting.annotation_name(),
                detail: parentheses_expected(setting.annotation_name()),
            },
        ),
    }
}

/// The identifier that a setting takes from an argument list, given what
/// reading the list as a path gave; `text` is the list as written.
pub open spec fn identifier_of(setting: Setting, text: Seq<char>, read: PathArgumentView) -> Result<
    Seq<char>,
    GenerationErrorView,
> {
    match read {
        PathArgumentView::Identifier(name) => Ok(name),
        PathArgumentView::Compound => Err(setting.not_identifier(text)),
        PathArgumentView::Unparsable(detail) => Err(
            GenerationErrorView::MalformedAnnotation {
                annotation: setting.annotation_name(),
                detail,
            },
        ),
    }
}

/// The identifier that a setting takes from an annotation's arguments, given
/// what reading the argument list as a path gave.
pub open spec fn setting_of(
    setting: Setting,
    arguments: AnnotationArgumentsView,
    read: PathArgumentView,
) -> Result<Seq<char>, GenerationErrorView> {
    match listed_text_of(setting, arguments) {
        Ok(text) => identifier_of(setting, text, read),
        Err(e) => Err(e),
    }
}

/// The view of a text or a failure.
pub open spec fn text_result(r: Result<String, GenerationError>) -> Result<
    Seq<char>,
    GenerationErrorView,
> {
    match r {
        Ok(text) => Ok(text@),
        Err(e) => Err(e@),
    }
}

/// The view of an optional text.
pub open spec fn optional_text(o: Option<String>) -> Option<Seq<char>> {
    match o {
        Some(text) => Some(text@),
        None => None,
    }
}

/// The view of an optional text or a failure.
pub open spec fn optional_text_result(r: Result<Option<String>, GenerationError>) -> Result<
    Option<Seq<char>>,
    GenerationErrorView,
> {
    match r {
        Ok(o) => Ok(optional_text(o)),
        Err(e) => Err(e@),
    }
}

/// Takes the text of an annotation's argument list. An annotation that is
/// its name alone, or that assigns a value, is malformed.
pub fn listed_text<'a>(setting: Setting, arguments: &'a AnnotationArguments) -> (r: Result<
    &'a String,
    GenerationError,
>)
    ensures
        match r {
            Ok(text) => listed_text_of(setting, arguments@) == Ok::<
                Seq<char>,
                GenerationErrorView,
            >(text@),
            Err(e) => listed_text_of(setting, arguments@) == Err::<
                Seq<char>,
                GenerationErrorView,
            >(e@),
        },
{
    match arguments {
        AnnotationArguments::Listed(text) => Ok(text),
        AnnotationArguments::Absent => {
            let mut detail = String::from_str("expected attribute arguments in parentheses: #[");
            detail.append(setting.annotation());
            detail.append("(...)]");
            Err(
                GenerationError::MalformedAnnotation {
                    annotation: String::from_str(setting.annotation()),
                    detail,
                },
            )
        },
        AnnotationArguments::Assigned => {
            let mut detail = String::from_str("expected parentheses: #[");
            detail.append(setting.annotation());
            detail.append("(...)]");
            Err(
                GenerationError::MalformedAnnotation {
                    annotation: String::from_str(setting.annotation()),
                    detail,
                },
            )
        },
    }
}

impl PathArgument {
    /// Decides what a setting takes from an argument list that was read as a
    /// path; `text` is the list as written.
    ///
    /// A single identifier is the setting's value. A longer path is rejected
    /// with the path as the offending text, and a list that is no path with
    /// the parser's complaint.
    pub fn into_identifier(self, setting: Setting, text: &str) -> (r: Result<
        String,
        GenerationError,
    >)
        ensures
            text_result(r) == identifier_of(setting, text@, self@),
    {
        match self {
            PathArgument::Identifier(name) => Ok(name),
            PathArgument::Compound => {
                let path = String::from_str(text);
                match setting {
                    Setting::TargetInterface => Err(GenerationError::InterfaceNotIdentifier { path }),
                    Setting::ReturnType => Err(GenerationError::ReturnTypeNotIdentifier { path }),
                    Setting::ErrorType => Err(GenerationError::ErrorTypeNotIdentifier { path }),
                }
            },
            PathArgument::Unparsable(detail) => Err(
                GenerationError::MalformedAnnotation {
                    annotation: String::from_str(setting.annotation()),
                    detail,
                },
            ),
        }
    }
}

/// Decides what a setting takes from the arguments of its annotation, given
/// what reading the argument list as a path gave.
fn setting_from(setting: Setting, arguments: &AnnotationArguments, read: PathArgument) -> (r:
    Result<String, GenerationError>)
    ensures
        text_result(r) == setting_of(setting, arguments@, read@),
{
    match listed_text(setting, arguments) {
        Ok(text) => read.into_identifier(setting, text.as_str()),
        Err(e) => Err(e),
    }
}

/// Whether the first annotation of a setting is there and has an argument
/// list, so that there is something to read.
pub open spec fn has_list(annotations: Seq<AnnotationView>, setting: Setting) -> bool {
    lookup(annotations, setting.annotation_name()) matches Some(
        AnnotationArgumentsView::Listed(_),
    )
}

/// Reads the argument list of a setting's annotation as a path. A reading is
/// made exactly where the first annotation of the setting has a list.
fn read_list(annotations: &[Annotation], setting: Setting) -> (read: Option<
    PathArgument,
>)
    ensures
        read is Some <==> has_list(annotation_views(annotations@), setting),
{
    match find_arguments(annotations, setting.annotation()) {
        Some(AnnotationArguments::Listed(text)) => Some(read_path(text.as_str())),
        _ => None,
    }
}

/// The reading to hand on: the one that was made, and where none was made a
/// compound path, which stands for a reading that nothing looks at.
pub(crate) fn or_compound(read: Option<PathArgument>) -> (r: PathArgument)
    ensures
        match read {
            Some(made) => r == made,
            None => r == PathArgument::Compound,
        },
{
    match read {
        Some(made) => made,
        None => PathArgument::Compound,
    }
}

/// The handler interface that the annotations name, given what reading the
/// argument list of the interface annotation gave.
pub open spec fn trait_name_given(annotations: Seq<AnnotationView>, read: PathArgumentView) -> Result<
    Seq<char>,
    GenerationErrorView,
> {
    match lookup(annotations, TARGET_INTERFACE@) {
        None => Err(GenerationErrorView::MissingTargetInterface),
        Some(arguments) => setting_of(Setting::TargetInterface, arguments, read),
    }
}

/// The return type that the annotations name, if they name one, given what
/// reading the argument list of the return type annotation gave.
pub open spec fn return_type_given(annotations: Seq<AnnotationView>, read: PathArgumentView) -> Result<
    Option<Seq<char>>,
    GenerationErrorView,
> {
    match lookup(annotations, RETURN_TYPE@) {
        None => Ok(None),
        Some(arguments) => match setting_of(Setting::ReturnType, arguments, read) {
            Ok(name) => Ok(Some(name)),
            Err(e) => Err(e),
        },
    }
}

/// The failure type that the annotations name, given what reading the
/// argument list of the failure type annotation gave.
pub open spec fn error_type_given(annotations: Seq<AnnotationView>, read: PathArgumentView) -> Result<
    Seq<char>,
    GenerationErrorView,
> {
    match lookup(annotations, ERROR_TYPE@) {
        None => Err(GenerationErrorView::MissingErrorType),
        Some(arguments) => setting_of(Setting::ErrorType, arguments, read),
    }
}

/// Decides the name of the handler interface, given what reading the
/// argument list of the interface annotation gave.
///
/// The first `forward_to_trait` annotation decides. Without one the
/// interface is missing, which is a failure: there is no default.
pub fn trait_name_from(annotations: &[Annotation], read: PathArgument) -> (r: Result<
    String,
    GenerationError,
>)
    ensures
        text_result(r) == trait_name_given(annotation_views(annotations@), read@),
{
    match find_arguments(annotations, TARGET_INTERFACE) {
        None => Err(GenerationError::MissingTargetInterface),
        Some(arguments) => setting_from(Setting::TargetInterface, arguments, read),
    }
}

/// Decides the return type, given what reading the argument list of the
/// return type annotation gave.
///
/// The first `trait_returned_type` annotation decides. Without one there is
/// no return type, which is no failure: the routine then returns no value.
pub fn return_type_from(annotations: &[Annotation], read: PathArgument) -> (r: Result<
    Option<String>,
    GenerationError,
>)
    ensures
        optional_text_result(r) == return_type_given(annotation_views(annotations@), read@),
{
    match find_arguments(annotations, RETURN_TYPE) {
        None => Ok(None),
        Some(arguments) => match setting_from(Setting::ReturnType, arguments, read) {
            Ok(name) => Ok(Some(name)),
            Err(e) => Err(e),
        },
    }
}

/// Decides the failure type, given what reading the argument list of the
/// failure type annotation gave.
///
/// The first `trait_error_type` annotation decides. Without one the failure
/// type is missing, which is a failure: there is no default.
pub fn error_type_from(annotations: &[Annotation], read: PathArgument) -> (r: Result<
    String,
    GenerationError,
>)
    ensures
        text_result(r) == error_type_given(annotation_views(annotations@), read@),
{
    match find_arguments(annotations, ERROR_TYPE) {
        None => Err(GenerationError::MissingErrorType),
        Some(arguments) => setting_from(Setting::ErrorType, arguments, read),
    }
}

/// Reads the name of the handler interface from the annotations.
///
/// The argument list of the first `forward_to_trait` annotation is read as a
/// path, and the result is what `trait_name_from` gives for that reading.
pub fn get_trait_name(annotations: &[Annotation]) -> (r: Result<String, GenerationError>)
    ensures
        exists|read: PathArgumentView|
            text_result(r) == trait_name_given(annotation_views(annotations@), read),
        lookup(annotation_views(annotations@), TARGET_INTERFACE@) is None <==> text_result(r)
            == Err::<Seq<char>, GenerationErrorView>(GenerationErrorView::MissingTargetInterface),
        r is Ok ==> has_list(annotation_views(annotations@), Setting::TargetInterface),
{
    let read = or_compound(read_list(annotations, Setting::TargetInterface));
    let ghost made = read@;
    let r = trait_name_from(annotations, read);
    assert(text_result(r) == trait_name_given(annotation_views(annotations@), made));
    r
}

/// Reads the return type from the annotations.
///
/// The argument list of the first `trait_returned_type` annotation is read
/// as a path, and the result is what `return_type_from` gives for that
/// reading.
pub fn get_trait_return_type(annotations: &[Annotation]) -> (r: Result<
    Option<String>,
    GenerationError,
>)
    ensures
        exists|read: PathArgumentView|
            optional_text_result(r) == return_type_given(annotation_views(annotations@), read),
        lookup(annotation_views(annotations@), RETURN_TYPE@) is None <==> r matches Ok(None),
        r matches Ok(Some(_)) ==> has_list(annotation_views(annotations@), Setting::ReturnType),
{
    let read = or_compound(read_list(annotations, Setting::ReturnType));
    let ghost made = read@;
    let r = return_type_from(annotations, read);
    assert(optional_text_result(r) == return_type_given(annotation_views(annotations@), made));
    r
}

/// Reads the failure type from the annotations.
///
/// The argument list of the first `trait_error_type` annotation is read as a
/// path, and the result is what `error_type_from` gives for that reading.
pub fn get_trait_error_type(annotations: &[Annotation]) -> (r: Result<String, GenerationError>)
    ensures
        exists|read: PathArgumentView|
            text_result(r) == error_type_given(annotation_views(annotations@), read),
        lookup(annotation_views(annotations@), ERROR_TYPE@) is None <==> text_result(r) == Err::<
            Seq<char>,
            GenerationErrorView,
        >(GenerationErrorView::MissingErrorType),
        r is Ok ==> has_list(annotation_views(annotations@), Setting::ErrorType),
{
    let read = or_compound(read_list(annotations, Setting::ErrorType));
    let ghost made = read@;
    let r = error_type_from(annotations, read);
    assert(text_result(r) == error_type_given(annotation_views(annotations@), made));
    r
}

/// The two ways of generating a routine.
#[derive(Debug, Clone, Copy, PartialEq, Eq)]
pub enum Mode {
    /// Every handler method may fail; the routine hands a failure on as its
    /// own and otherwise succeeds with no value.
    ErrorBridging,
    /// The routine returns what the handler method returns.
    TypedReturn,
}

/// The setting that names the type of what the routine returns in a mode:
/// the failure type in error bridging mode, the return type in typed return
/// mode.
pub open spec fn type_setting(mode: Mode) -> Setting {
    match mode {
        Mode::ErrorBridging => Setting::ErrorType,
        Mode::TypedReturn => Setting::ReturnType,
    }
}

impl Mode {
    /// The setting that names the type of what the routine returns.
    pub fn type_setting(self) -> (setting: Setting)
        ensures
            setting == type_setting(self),
    {
        match self {
            Mode::ErrorBridging => Setting::ErrorType,
            Mode::TypedReturn => Setting::ReturnType,
        }
    }
}

/// What the routine returns.
#[derive(Debug, Clone, PartialEq, Eq)]
pub enum Outcome {
    /// Success without a value, or a failure of the given type.
    Bridged { error_type: String },
    /// A value of the given type; without a type, no value.
    Typed { return_type: Option<String> },
}

pub enum OutcomeView {
    Bridged { error_type: Seq<char> },
    Typed { return_type: Option<Seq<char>> },
}

impl View for Outcome {
    type V = OutcomeView;

    open spec fn view(&self) -> OutcomeView {
        match self {
            Outcome::Bridged { error_type } => OutcomeView::Bridged { error_type: error_type@ },
            Outcome::Typed { return_type } => OutcomeView::Typed {
                return_type: optional_text(*return_type),
            },
        }
    }
}

impl OutcomeView {
    /// The mode that the outcome belongs to.
    pub open spec fn mode(self) -> Mode {
        match self {
            OutcomeView::Bridged { .. } => Mode::ErrorBridging,
            OutcomeView::Typed { .. } => Mode::TypedReturn,
        }
    }
}

impl Outcome {
    /// The mode that the outcome belongs to.
    pub fn mode(&self) -> (mode: Mode)
        ensures
            mode == self@.mode(),
    {
        match self {
            Outcome::Bridged { .. } => Mode::ErrorBridging,
            Outcome::Typed { .. } => Mode::TypedReturn,
        }
    }
}

/// The generator's settings, as resolved from the annotations.
#[derive(Debug, Clone, PartialEq, Eq)]
pub struct GeneratorConfig {
    /// The handler interface.
    pub target_interface: String,
    /// What the routine returns.
    pub outcome: Outcome,
}

pub struct GeneratorConfigView {
    pub target_interface: Seq<char>,
    pub outcome: OutcomeView,
}

impl View for GeneratorConfig {
    type V = GeneratorConfigView;

    open spec fn view(&self) -> GeneratorConfigView {
        GeneratorConfigView { target_interface: self.target_interface@, outcome: self.outcome@ }
    }
}

/// The view of a configuration or a failure.
pub open spec fn config_result(r: Result<GeneratorConfig, GenerationError>) -> Result<
    GeneratorConfigView,
    GenerationErrorView,
> {
    match r {
        Ok(config) => Ok(config@),
        Err(e) => Err(e@),
    }
}

/// The configuration that the annotations give in a mode, given what reading
/// the argument list of the interface annotation gave and what reading that
/// of the mode's type annotation gave.
///
/// The interface is resolved first, so its failure comes before any of the
/// type annotation.
pub open spec fn config_given(
    annotations: Seq<AnnotationView>,
    mode: Mode,
    interface_read: PathArgumentView,
    type_read: PathArgumentView,
) -> Result<GeneratorConfigView, GenerationErrorView> {
    match trait_name_given(annotations, interface_read) {
        Err(e) => Err(e),
        Ok(target_interface) => match mode {
            Mode::ErrorBridging => match error_type_given(annotations, type_read) {
                Err(e) => Err(e),
                Ok(error_type) => Ok(
                    GeneratorConfigView {
                        target_interface,
                        outcome: OutcomeView::Bridged { error_type },
                    },
                ),
            },
            Mode::TypedReturn => match return_type_given(annotations, type_read) {
                Err(e) => Err(e),
                Ok(return_type) => Ok(
                    GeneratorConfigView {
                        target_interface,
                        outcome: OutcomeView::Typed { return_type },
                    },
                ),
            },
        },
    }
}

/// Decides the generator's configuration, given what reading the argument
/// list of the interface annotation gave and what reading that of the
/// mode's type annotation gave.
///
/// The handler interface is required in both modes and is resolved first.
/// In error bridging mode the failure type is required too; in typed return
/// mode the return type may be left out. The interface's identifier becomes
/// the handler interface, the type annotation's identifier the type of what
/// the routine returns.
pub fn config_from(
    annotations: &[Annotation],
    mode: Mode,
    interface_read: PathArgument,
    type_read: PathArgument,
) -> (r: Result<GeneratorConfig, GenerationError>)
    ensures
        config_result(r) == config_given(
            annotation_views(annotations@),
            mode,
            interface_read@,
            type_read@,
        ),
{
    let target_interface = match trait_name_from(annotations, interface_read) {
        Ok(name) => name,
        Err(e) => {
            return Err(e);
        },
    };
    match mode {
        Mode::ErrorBridging => match error_type_from(annotations, type_read) {
            Ok(error_type) => Ok(
                GeneratorConfig { target_interface, outcome: Outcome::Bridged { error_type } },
            ),
            Err(e) => Err(e),
        },
        Mode::TypedReturn => match return_type_from(annotations, type_read) {
            Ok(return_type) => Ok(
                GeneratorConfig { target_interface, outcome: Outcome::Typed { return_type } },
            ),
            Err(e) => Err(e),
        },
    }
}

/// Reads the argument lists that a configuration in a mode is resolved
/// from: that of the interface annotation, and that of the mode's type
/// annotation.
///
/// The interface's list is read where it is there. The type's list is read
/// only where it is there and the interface's list read as one identifier:
/// after a failure of the interface nothing more is read.
pub(crate) fn read_settings(annotations: &[Annotation], mode: Mode) -> (reads: (
    Option<PathArgument>,
    Option<PathArgument>,
))
    ensures
        reads.0 is Some <==> has_list(annotation_views(annotations@), Setting::TargetInterface),
        reads.1 is Some <==> (reads.0 matches Some(PathArgument::Identifier(_)) && has_list(
            annotation_views(annotations@),
            type_setting(mode),
        )),
{
    let interface_read = read_list(annotations, Setting::TargetInterface);
    let type_read = match &interface_read {
        Some(PathArgument::Identifier(_)) => read_list(annotations, mode.type_setting()),
        _ => None,
    };
    (interface_read, type_read)
}

/// Resolves the generator's configuration from the annotations on a
/// declaration.
///
/// The argument lists of the interface annotation and of the mode's type
/// annotation are read as paths, and the result is what `config_from` gives
/// for these readings.
pub fn resolve_config(annotations: &[Annotation], mode: Mode) -> (r: Result<
    GeneratorConfig,
    GenerationError,
>)
    ensures
        exists|interface_read: PathArgumentView, type_read: PathArgumentView|
            config_result(r) == config_given(
                annotation_views(annotations@),
                mode,
                interface_read,
                type_read,
            ),
        r matches Ok(config) ==> config@.outcome.mode() == mode,
        r is Ok ==> has_list(annotation_views(annotations@), Setting::TargetInterface),
        lookup(annotation_views(annotations@), TARGET_INTERFACE@) is None ==> config_result(r)
            == Err::<GeneratorConfigView, GenerationErrorView>(
            GenerationErrorView::MissingTargetInterface,
        ),
{
    let (interface_made, type_made) = read_settings(annotations, mode);
    let interface_read = or_compound(interface_made);
    let type_read = or_compound(type_made);
    let ghost reads = (interface_read@, type_read@);
    let r = config_from(annotations, mode, interface_read, type_read);
    assert(config_result(r) == config_given(
        annotation_views(annotations@),
        mode,
        reads.0,
        reads.1,
    ));
    r
}

} // verus!
