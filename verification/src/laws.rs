//! What holds of every routine that is generated.

use crate::config::{
    config_given, has_list, lookup, type_setting, GeneratorConfigView, Mode, OutcomeView, Setting,
};
use crate::destructure::{decimal, digit, placeholder};
use crate::dispatch::{branch_of, routine_of};
use crate::error::GenerationErrorView;
use crate::model::{
    AnnotationView, DeclarationView, ShapeView, UnionDefinitionView, VariantView,
};
use crate::reading::PathArgumentView;
use crate::naming::{ascii_lowercase, lower_case, snake_case, snake_piece, uppercase};
use crate::{generated_given, lacks_target_interface};
use vstd::prelude::*;

verus! {

/// The routine for a valid union with N variants has exactly N branches, and
/// for every variant exactly one of them is taken: the branch at the
/// variant's own position. So the branches exclude each other, and together
/// they cover the union.
pub proof fn branches_exclusive_and_exhaustive(
    definition: UnionDefinitionView,
    config: GeneratorConfigView,
)
    requires
        definition.valid(),
    ensures
        routine_of(definition, config).branches.len() == definition.variants.len(),
        forall|v: int, b: int|
            #![trigger definition.variants[v], routine_of(definition, config).branches[b]]
            0 <= v < definition.variants.len() && 0 <= b < definition.variants.len() ==> (
            routine_of(definition, config).branches[b].selects(definition.variants[v].name) <==> b
                == v),
{
}

/// The arguments of a branch are the variant's fields in declaration order,
/// none left out and none added: named fields under their names, positional
/// fields under the placeholders of their positions. The pattern binds the
/// same names in the same order.
pub proof fn arguments_follow_declaration(variant: VariantView)
    ensures
        branch_of(variant).arguments.len() == variant.shape.arity(),
        branch_of(variant).pattern.bound() == branch_of(variant).arguments,
        variant.shape matches ShapeView::NamedFields(fields) ==> forall|i: int|
            0 <= i < fields.len() ==> #[trigger] branch_of(variant).arguments[i] == fields[i].name,
        variant.shape matches ShapeView::PositionalFields(slots) ==> forall|i: int|
            0 <= i < slots.len() ==> #[trigger] branch_of(variant).arguments[i] == placeholder(
                i as nat,
            ),
{
}

/// Without an annotation that names the handler interface generation fails,
/// in either mode and whatever the other annotations hold: no routine is
/// produced.
pub proof fn missing_interface_fails(
    input: DeclarationView,
    mode: Mode,
    interface_read: PathArgumentView,
    type_read: PathArgumentView,
)
    requires
        lacks_target_interface(input),
    ensures
        generated_given(input, mode, interface_read, type_read) == Err::<
            crate::dispatch::RoutineView,
            GenerationErrorView,
        >(GenerationErrorView::MissingTargetInterface),
{
}

/// A name in upper camel case: it starts with an uppercase character and
/// holds no separator of its own.
pub open spec fn camel_case(name: Seq<char>) -> bool {
    &&& name.len() > 0
    &&& uppercase(name[0])
    &&& forall|i: int| 0 <= i < name.len() ==> name[i] != '_'
}

/// A name of ASCII characters only.
pub open spec fn ascii_name(name: Seq<char>) -> bool {
    forall|i: int| 0 <= i < name.len() ==> name[i] <= '\x7f'
}

/// Two ASCII characters of the same case with the same lower case are the
/// same.
proof fn lower_case_keeps_apart(c: char, d: char)
    requires
        c <= '\x7f',
        d <= '\x7f',
        uppercase(c) == uppercase(d),
        lower_case(c) == lower_case(d),
    ensures
        c == d,
{
    assert(lower_case(c)[0] == ascii_lowercase(c));
    assert(lower_case(d)[0] == ascii_lowercase(d));
}

/// ASCII lower case turns no other character into a separator.
proof fn lower_case_makes_no_separator(c: char)
    ensures
        ascii_lowercase(c) == '_' <==> c == '_',
{
}

/// How the snake case form of an ASCII name ends.
proof fn snake_case_ending(name: Seq<char>)
    requires
        name.len() > 0,
        ascii_name(name),
    ensures
        snake_case(name).len() >= name.len(),
        snake_case(name).last() == ascii_lowercase(name.last()),
        name.len() == 1 ==> snake_case(name).len() == 1,
        name.len() >= 2 && uppercase(name.last()) ==> snake_case(name)[snake_case(name).len()
            - 2] == '_',
        name.len() >= 2 && !uppercase(name.last()) ==> snake_case(name)[snake_case(name).len()
            - 2] == ascii_lowercase(name[name.len() - 2]),
    decreases name.len(),
{
    reveal_with_fuel(snake_case, 2);
    if name.len() >= 2 {
        snake_case_ending(name.drop_last());
    }
}

/// The snake case form tells ASCII names in upper camel case apart: two such
/// names with the same form are the same name.
pub proof fn snake_case_tells_apart(a: Seq<char>, b: Seq<char>)
    requires
        camel_case(a),
        camel_case(b),
        ascii_name(a),
        ascii_name(b),
        snake_case(a) == snake_case(b),
    ensures
        a == b,
    decreases a.len(),
{
    snake_case_ending(a);
    snake_case_ending(b);
    if a.len() == 1 || b.len() == 1 {
        // The form has one character, so both names have one.
        assert(a.len() == 1 && b.len() == 1);
        lower_case_keeps_apart(a[0], b[0]);
        assert(a =~= b);
    } else {
        // The last but one character of the form says whether the last
        // character of the name is uppercase, so the two names end alike.
        lower_case_makes_no_separator(a[a.len() - 2]);
        lower_case_makes_no_separator(b[b.len() - 2]);
        lower_case_keeps_apart(a.last(), b.last());
        // What stands before the last piece is the form of the rest.
        let piece = snake_piece(a.len() - 1, a.last());
        let x = snake_case(a.drop_last());
        let y = snake_case(b.drop_last());
        assert(x + piece == y + piece);
        assert(x =~= y) by {
            assert forall|i: int| 0 <= i < x.len() implies x[i] == y[i] by {
                assert(x[i] == (x + piece)[i]);
                assert(y[i] == (y + piece)[i]);
            }
        }
        snake_case_tells_apart(a.drop_last(), b.drop_last());
        assert(a =~= a.drop_last().push(a.last()));
        assert(b =~= b.drop_last().push(b.last()));
    }
}

/// In the routine for a valid union whose variants have ASCII names in upper
/// camel case, no two branches call the same method.
pub proof fn methods_differ(definition: UnionDefinitionView, config: GeneratorConfigView)
    requires
        definition.valid(),
        forall|i: int|
            0 <= i < definition.variants.len() ==> camel_case(
                #[trigger] definition.variants[i].name,
            ) && ascii_name(definition.variants[i].name),
    ensures
        forall|i: int, j: int|
            0 <= i < j < definition.variants.len() ==> #[trigger] routine_of(
                definition,
                config,
            ).branches[i].method != #[trigger] routine_of(definition, config).branches[j].method,
{
    assert forall|i: int, j: int| 0 <= i < j < definition.variants.len() implies #[trigger] routine_of(
        definition,
        config,
    ).branches[i].method != #[trigger] routine_of(definition, config).branches[j].method by {
        let a = definition.variants[i].name;
        let b = definition.variants[j].name;
        if snake_case(a) == snake_case(b) {
            snake_case_tells_apart(a, b);
        }
    }
}

/// How many characters of a name, the first left aside, are uppercase.
pub open spec fn capitals_after_first(name: Seq<char>) -> nat
    decreases name.len(),
{
    if name.len() <= 1 {
        0
    } else if uppercase(name.last()) {
        capitals_after_first(name.drop_last()) + 1
    } else {
        capitals_after_first(name.drop_last())
    }
}

/// The lower case of every character of a name, in order, without
/// separators.
pub open spec fn lowered(name: Seq<char>) -> Seq<char>
    decreases name.len(),
{
    if name.len() == 0 {
        Seq::empty()
    } else {
        lowered(name.drop_last()) + lower_case(name.last())
    }
}

/// Capitals are not grouped: the snake case form has the lower case of
/// every character of the name and one separator for each uppercase
/// character after the first character, however many of them stand in a
/// row.
pub proof fn one_separator_for_each_capital(name: Seq<char>)
    ensures
        snake_case(name).len() == lowered(name).len() + capitals_after_first(name),
    decreases name.len(),
{
    if name.len() > 0 {
        one_separator_for_each_capital(name.drop_last());
    }
}

/// Every character is put in lower case: the snake case form of an ASCII
/// name holds no uppercase character.
pub proof fn snake_case_has_no_capitals(name: Seq<char>)
    requires
        ascii_name(name),
    ensures
        forall|i: int|
            0 <= i < snake_case(name).len() ==> !uppercase(#[trigger] snake_case(name)[i]),
    decreases name.len(),
{
    if name.len() > 0 {
        snake_case_has_no_capitals(name.drop_last());
        let head = snake_case(name.drop_last());
        let piece = snake_piece(name.len() - 1, name.last());
        assert forall|i: int| 0 <= i < snake_case(name).len() implies !uppercase(
            #[trigger] snake_case(name)[i],
        ) by {
            if i < head.len() {
                assert(snake_case(name)[i] == head[i]);
            } else {
                assert(snake_case(name)[i] == piece[i - head.len()]);
            }
        }
    }
}

/// An ASCII name without an uppercase character is its own snake case form.
pub proof fn lower_case_name_is_unchanged(name: Seq<char>)
    requires
        ascii_name(name),
        forall|i: int| 0 <= i < name.len() ==> !uppercase(#[trigger] name[i]),
    ensures
        snake_case(name) == name,
    decreases name.len(),
{
    if name.len() > 0 {
        lower_case_name_is_unchanged(name.drop_last());
        assert(snake_case(name) =~= name.drop_last().push(name.last()));
        assert(name =~= name.drop_last().push(name.last()));
    } else {
        assert(snake_case(name) =~= name);
    }
}

/// Decimal notation tells numbers apart.
proof fn decimal_tells_apart(m: nat, n: nat)
    requires
        decimal(m) == decimal(n),
    ensures
        m == n,
    decreases m,
{
    decimal_is_not_empty(m / 10);
    decimal_is_not_empty(n / 10);
    if m < 10 || n < 10 {
        // One digit on one side, so one digit on the other.
        assert(m < 10 ==> decimal(m).len() == 1);
        assert(n < 10 ==> decimal(n).len() == 1);
        assert(m >= 10 ==> decimal(m).len() == decimal(m / 10).len() + 1);
        assert(n >= 10 ==> decimal(n).len() == decimal(n / 10).len() + 1);
        assert(m < 10 && n < 10);
        assert(decimal(m)[0] == digit(m));
        assert(decimal(n)[0] == digit(n));
    } else {
        assert(decimal(m).last() == digit(m % 10));
        assert(decimal(n).last() == digit(n % 10));
        assert(decimal(m).drop_last() =~= decimal(m / 10));
        assert(decimal(n).drop_last() =~= decimal(n / 10));
        decimal_tells_apart(m / 10, n / 10);
    }
}

proof fn decimal_is_not_empty(n: nat)
    ensures
        decimal(n).len() >= 1,
    decreases n,
{
    if n >= 10 {
        decimal_is_not_empty(n / 10);
    }
}

/// Placeholders of different positions differ, so the pattern of a variant
/// with positional fields binds no name twice.
pub proof fn placeholders_differ(i: nat, j: nat)
    requires
        i != j,
    ensures
        placeholder(i) != placeholder(j),
{
    if placeholder(i) == placeholder(j) {
        let prefix = "arg"@;
        let x = decimal(i);
        let y = decimal(j);
        assert(prefix + x == prefix + y);
        assert(x =~= y) by {
            assert forall|k: int| 0 <= k < x.len() implies x[k] == y[k] by {
                assert(x[k] == (prefix + x)[prefix.len() + k]);
                assert(y[k] == (prefix + y)[prefix.len() + k]);
            }
        }
        decimal_tells_apart(i, j);
    }
}

/// Among the annotations of one name the first decides: those after it are
/// not looked at.
pub proof fn first_annotation_decides(annotations: Seq<AnnotationView>, name: Seq<char>, i: int)
    requires
        0 <= i < annotations.len(),
        annotations[i].name == name,
        forall|j: int| 0 <= j < i ==> annotations[j].name != name,
    ensures
        lookup(annotations, name) == Some(annotations[i].arguments),
    decreases i,
{
    if i > 0 {
        let rest = annotations.drop_first();
        assert forall|j: int| 0 <= j < i - 1 implies rest[j].name != name by {
            assert(rest[j] == annotations[j + 1]);
        }
        first_annotation_decides(rest, name, i - 1);
    }
}

/// An annotation is found exactly where one of the name is there.
pub proof fn annotation_is_found_where_present(annotations: Seq<AnnotationView>, name: Seq<char>)
    ensures
        lookup(annotations, name) is Some <==> exists|i: int|
            0 <= i < annotations.len() && #[trigger] annotations[i].name == name,
    decreases annotations.len(),
{
    if annotations.len() > 0 {
        let rest = annotations.drop_first();
        annotation_is_found_where_present(rest, name);
        if annotations.first().name != name {
            if lookup(rest, name) is Some {
                let i = choose|i: int| 0 <= i < rest.len() && #[trigger] rest[i].name == name;
                assert(annotations[i + 1].name == name);
            }
            if exists|i: int| 0 <= i < annotations.len() && #[trigger] annotations[i].name == name {
                let i = choose|i: int|
                    0 <= i < annotations.len() && #[trigger] annotations[i].name == name;
                assert(rest[i - 1].name == name);
            }
        } else {
            assert(annotations[0].name == name);
        }
    }
}

/// Each identifier goes to its own setting: where both annotations have a
/// list and both lists were read as identifiers, the identifier of the
/// interface annotation is the handler interface, and the identifier of the
/// mode's type annotation is the type of what the routine returns.
pub proof fn identifiers_go_to_their_settings(
    annotations: Seq<AnnotationView>,
    mode: Mode,
    interface: Seq<char>,
    named_type: Seq<char>,
)
    requires
        has_list(annotations, Setting::TargetInterface),
        has_list(annotations, type_setting(mode)),
    ensures
        config_given(
            annotations,
            mode,
            PathArgumentView::Identifier(interface),
            PathArgumentView::Identifier(named_type),
        ) == Ok::<GeneratorConfigView, GenerationErrorView>(
            GeneratorConfigView {
                target_interface: interface,
                outcome: match mode {
                    Mode::ErrorBridging => OutcomeView::Bridged { error_type: named_type },
                    Mode::TypedReturn => OutcomeView::Typed { return_type: Some(named_type) },
                },
            },
        ),
{
}

/// In typed return mode the return type may be left out: where the
/// interface's list was read as an identifier and no annotation names a
/// return type, the configuration is resolved and the routine returns no
/// value, whatever else was read.
pub proof fn return_type_may_be_left_out(
    annotations: Seq<AnnotationView>,
    interface: Seq<char>,
    type_read: PathArgumentView,
)
    requires
        has_list(annotations, Setting::TargetInterface),
        lookup(annotations, Setting::ReturnType.annotation_name()) is None,
    ensures
        config_given(
            annotations,
            Mode::TypedReturn,
            PathArgumentView::Identifier(interface),
            type_read,
        ) == Ok::<GeneratorConfigView, GenerationErrorView>(
            GeneratorConfigView {
                target_interface: interface,
                outcome: OutcomeView::Typed { return_type: None },
            },
        ),
{
}

/// In error bridging mode the failure type may not be left out: where the
/// interface's list was read as an identifier and no annotation names a
/// failure type, resolution fails for want of it.
pub proof fn error_type_may_not_be_left_out(
    annotations: Seq<AnnotationView>,
    interface: Seq<char>,
    type_read: PathArgumentView,
)
    requires
        has_list(annotations, Setting::TargetInterface),
        lookup(annotations, Setting::ErrorType.annotation_name()) is None,
    ensures
        config_given(
            annotations,
            Mode::ErrorBridging,
            PathArgumentView::Identifier(interface),
            type_read,
        ) == Err::<GeneratorConfigView, GenerationErrorView>(GenerationErrorView::MissingErrorType),
{
}

} // verus!
