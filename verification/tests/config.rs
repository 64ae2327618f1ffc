use event_bridge::config::{
    config_from, error_type_from, find_arguments, get_trait_error_type, get_trait_name,
    get_trait_return_type, listed_text, resolve_config, return_type_from, trait_name_from,
    GeneratorConfig, Mode, Outcome, Setting,
};
use event_bridge::error::{GenerationError, ERROR_TYPE, RETURN_TYPE, TARGET_INTERFACE};
use event_bridge::model::{Annotation, AnnotationArguments};
use event_bridge::reading::PathArgument;

fn listed(name: &str, text: &str) -> Annotation {
    Annotation { name: name.to_string(), arguments: AnnotationArguments::Listed(text.to_string()) }
}

fn bare(name: &str) -> Annotation {
    Annotation { name: name.to_string(), arguments: AnnotationArguments::Absent }
}

fn assigned(name: &str) -> Annotation {
    Annotation { name: name.to_string(), arguments: AnnotationArguments::Assigned }
}

#[test]
fn annotation_names() {
    assert_eq!(TARGET_INTERFACE, "forward_to_trait");
    assert_eq!(RETURN_TYPE, "trait_returned_type");
    assert_eq!(ERROR_TYPE, "trait_error_type");
    assert_eq!(Setting::TargetInterface.annotation(), "forward_to_trait");
    assert_eq!(Setting::ReturnType.annotation(), "trait_returned_type");
    assert_eq!(Setting::ErrorType.annotation(), "trait_error_type");
}

#[test]
fn the_first_annotation_of_a_name_is_found() {
    let annotations = vec![
        listed("derive", "Debug"),
        listed("forward_to_trait", "First"),
        listed("forward_to_trait", "Second"),
    ];
    assert_eq!(
        find_arguments(&annotations, "forward_to_trait"),
        Some(&AnnotationArguments::Listed("First".to_string()))
    );
    assert_eq!(
        find_arguments(&annotations, "derive"),
        Some(&AnnotationArguments::Listed("Debug".to_string()))
    );
    assert_eq!(find_arguments(&annotations, "trait_returned_type"), None);
    assert_eq!(find_arguments(&vec![], "forward_to_trait"), None);
}

#[test]
fn a_qualified_annotation_name_does_not_match() {
    let annotations = vec![listed("event_bridge :: forward_to_trait", "Api")];
    assert_eq!(find_arguments(&annotations, "forward_to_trait"), None);
    assert_eq!(get_trait_name(&annotations), Err(GenerationError::MissingTargetInterface));
}

#[test]
fn listed_text_is_taken_as_written() {
    let arguments = AnnotationArguments::Listed("a :: b".to_string());
    assert_eq!(listed_text(Setting::TargetInterface, &arguments), Ok(&"a :: b".to_string()));
}

#[test]
fn an_annotation_without_arguments_is_malformed() {
    assert_eq!(
        listed_text(Setting::TargetInterface, &AnnotationArguments::Absent),
        Err(GenerationError::MalformedAnnotation {
            annotation: "forward_to_trait".to_string(),
            detail: "expected attribute arguments in parentheses: #[forward_to_trait(...)]"
                .to_string(),
        })
    );
    assert_eq!(
        listed_text(Setting::ReturnType, &AnnotationArguments::Assigned),
        Err(GenerationError::MalformedAnnotation {
            annotation: "trait_returned_type".to_string(),
            detail: "expected parentheses: #[trait_returned_type(...)]".to_string(),
        })
    );
    assert_eq!(
        listed_text(Setting::ErrorType, &AnnotationArguments::Absent),
        Err(GenerationError::MalformedAnnotation {
            annotation: "trait_error_type".to_string(),
            detail: "expected attribute arguments in parentheses: #[trait_error_type(...)]"
                .to_string(),
        })
    );
}

#[test]
fn a_single_identifier_is_the_value() {
    let read = PathArgument::Identifier("Api".to_string());
    assert_eq!(read.into_identifier(Setting::TargetInterface, "Api"), Ok("Api".to_string()));
}

#[test]
fn a_longer_path_is_rejected_with_the_path() {
    assert_eq!(
        PathArgument::Compound.into_identifier(Setting::TargetInterface, "a::Api"),
        Err(GenerationError::InterfaceNotIdentifier { path: "a::Api".to_string() })
    );
    assert_eq!(
        PathArgument::Compound.into_identifier(Setting::ReturnType, "Result<(), String>"),
        Err(GenerationError::ReturnTypeNotIdentifier { path: "Result<(), String>".to_string() })
    );
    assert_eq!(
        PathArgument::Compound.into_identifier(Setting::ErrorType, "std::io::Error"),
        Err(GenerationError::ErrorTypeNotIdentifier { path: "std::io::Error".to_string() })
    );
}

#[test]
fn what_is_no_path_is_rejected_with_the_parsers_complaint() {
    let read = PathArgument::Unparsable("expected identifier".to_string());
    assert_eq!(
        read.into_identifier(Setting::ReturnType, "1 + 2"),
        Err(GenerationError::MalformedAnnotation {
            annotation: "trait_returned_type".to_string(),
            detail: "expected identifier".to_string(),
        })
    );
}

#[test]
fn trait_name_is_read_from_its_annotation() {
    let annotations = vec![listed("forward_to_trait", "TestApiTrait")];
    assert_eq!(get_trait_name(&annotations), Ok("TestApiTrait".to_string()));
}

#[test]
fn trait_name_is_parsed_not_copied() {
    let annotations = vec![listed("forward_to_trait", "  TestApiTrait /* the handler */ ")];
    assert_eq!(get_trait_name(&annotations), Ok("TestApiTrait".to_string()));
}

#[test]
fn missing_trait_annotation_is_an_error() {
    assert_eq!(get_trait_name(&vec![]), Err(GenerationError::MissingTargetInterface));
    let others = vec![listed("trait_returned_type", "ReturnType"), listed("derive", "Debug")];
    assert_eq!(get_trait_name(&others), Err(GenerationError::MissingTargetInterface));
}

#[test]
fn qualified_trait_path_is_rejected() {
    let annotations = vec![listed("forward_to_trait", "api::TestApiTrait")];
    assert_eq!(
        get_trait_name(&annotations),
        Err(GenerationError::InterfaceNotIdentifier { path: "api::TestApiTrait".to_string() })
    );
    let annotations = vec![listed("forward_to_trait", "::TestApiTrait")];
    assert_eq!(
        get_trait_name(&annotations),
        Err(GenerationError::InterfaceNotIdentifier { path: "::TestApiTrait".to_string() })
    );
}

#[test]
fn generic_trait_path_is_rejected() {
    let annotations = vec![listed("forward_to_trait", "Handler<u8>")];
    assert_eq!(
        get_trait_name(&annotations),
        Err(GenerationError::InterfaceNotIdentifier { path: "Handler<u8>".to_string() })
    );
}

#[test]
fn trait_annotation_that_is_no_path_is_malformed() {
    for text in ["1 + 2", "", "\"Api\"", "Api Other", "Api,"] {
        let annotations = vec![listed("forward_to_trait", text)];
        match get_trait_name(&annotations) {
            Err(GenerationError::MalformedAnnotation { annotation, detail }) => {
                assert_eq!(annotation, "forward_to_trait");
                assert!(!detail.is_empty());
            }
            other => panic!("{:?} gave {:?}", text, other),
        }
    }
}

#[test]
fn trait_annotation_without_arguments_is_malformed() {
    assert_eq!(
        get_trait_name(&vec![bare("forward_to_trait")]),
        Err(GenerationError::MalformedAnnotation {
            annotation: "forward_to_trait".to_string(),
            detail: "expected attribute arguments in parentheses: #[forward_to_trait(...)]"
                .to_string(),
        })
    );
    assert_eq!(
        get_trait_name(&vec![assigned("forward_to_trait")]),
        Err(GenerationError::MalformedAnnotation {
            annotation: "forward_to_trait".to_string(),
            detail: "expected parentheses: #[forward_to_trait(...)]".to_string(),
        })
    );
}

#[test]
fn only_the_first_trait_annotation_counts() {
    let annotations =
        vec![listed("forward_to_trait", "a::b"), listed("forward_to_trait", "Fine")];
    assert_eq!(
        get_trait_name(&annotations),
        Err(GenerationError::InterfaceNotIdentifier { path: "a::b".to_string() })
    );
    let annotations =
        vec![listed("forward_to_trait", "Fine"), listed("forward_to_trait", "a::b")];
    assert_eq!(get_trait_name(&annotations), Ok("Fine".to_string()));
}

#[test]
fn return_type_is_optional() {
    assert_eq!(get_trait_return_type(&vec![]), Ok(None));
    let annotations = vec![listed("forward_to_trait", "TestApiTrait")];
    assert_eq!(get_trait_return_type(&annotations), Ok(None));
}

#[test]
fn return_type_is_read_from_its_annotation() {
    let annotations =
        vec![listed("forward_to_trait", "TestApiTrait"), listed("trait_returned_type", "ReturnType")];
    assert_eq!(get_trait_return_type(&annotations), Ok(Some("ReturnType".to_string())));
}

#[test]
fn return_type_that_is_no_identifier_is_rejected() {
    let annotations = vec![listed("trait_returned_type", "Result<(), String>")];
    assert_eq!(
        get_trait_return_type(&annotations),
        Err(GenerationError::ReturnTypeNotIdentifier { path: "Result<(), String>".to_string() })
    );
    let annotations = vec![listed("trait_returned_type", "()")];
    match get_trait_return_type(&annotations) {
        Err(GenerationError::MalformedAnnotation { annotation, .. }) => {
            assert_eq!(annotation, "trait_returned_type")
        }
        other => panic!("{:?}", other),
    }
    assert_eq!(
        get_trait_return_type(&vec![bare("trait_returned_type")]),
        Err(GenerationError::MalformedAnnotation {
            annotation: "trait_returned_type".to_string(),
            detail: "expected attribute arguments in parentheses: #[trait_returned_type(...)]"
                .to_string(),
        })
    );
}

#[test]
fn error_type_is_required() {
    assert_eq!(get_trait_error_type(&vec![]), Err(GenerationError::MissingErrorType));
    let annotations = vec![listed("trait_error_type", "String")];
    assert_eq!(get_trait_error_type(&annotations), Ok("String".to_string()));
    let annotations = vec![listed("trait_error_type", "std::io::Error")];
    assert_eq!(
        get_trait_error_type(&annotations),
        Err(GenerationError::ErrorTypeNotIdentifier { path: "std::io::Error".to_string() })
    );
}

#[test]
fn typed_return_configuration() {
    let annotations =
        vec![listed("forward_to_trait", "TestApiTrait"), listed("trait_returned_type", "ReturnType")];
    assert_eq!(
        resolve_config(&annotations, Mode::TypedReturn),
        Ok(GeneratorConfig {
            target_interface: "TestApiTrait".to_string(),
            outcome: Outcome::Typed { return_type: Some("ReturnType".to_string()) },
        })
    );
    let annotations = vec![listed("forward_to_trait", "TestApiTraitNoReturnType")];
    assert_eq!(
        resolve_config(&annotations, Mode::TypedReturn),
        Ok(GeneratorConfig {
            target_interface: "TestApiTraitNoReturnType".to_string(),
            outcome: Outcome::Typed { return_type: None },
        })
    );
}

#[test]
fn error_bridging_configuration() {
    let annotations = vec![listed("trait_error_type", "String"), listed("forward_to_trait", "Api")];
    assert_eq!(
        resolve_config(&annotations, Mode::ErrorBridging),
        Ok(GeneratorConfig {
            target_interface: "Api".to_string(),
            outcome: Outcome::Bridged { error_type: "String".to_string() },
        })
    );
    let annotations = vec![listed("forward_to_trait", "Api")];
    assert_eq!(
        resolve_config(&annotations, Mode::ErrorBridging),
        Err(GenerationError::MissingErrorType)
    );
}

#[test]
fn each_mode_reads_its_own_type_annotation() {
    let annotations = vec![
        listed("forward_to_trait", "Api"),
        listed("trait_returned_type", "a::b"),
        listed("trait_error_type", "E"),
    ];
    assert_eq!(
        resolve_config(&annotations, Mode::ErrorBridging),
        Ok(GeneratorConfig {
            target_interface: "Api".to_string(),
            outcome: Outcome::Bridged { error_type: "E".to_string() },
        })
    );
    assert_eq!(
        resolve_config(&annotations, Mode::TypedReturn),
        Err(GenerationError::ReturnTypeNotIdentifier { path: "a::b".to_string() })
    );
}

#[test]
fn the_interface_is_resolved_before_the_type() {
    let annotations = vec![listed("trait_returned_type", "a::b")];
    assert_eq!(
        resolve_config(&annotations, Mode::TypedReturn),
        Err(GenerationError::MissingTargetInterface)
    );
    assert_eq!(
        resolve_config(&vec![], Mode::ErrorBridging),
        Err(GenerationError::MissingTargetInterface)
    );
    let annotations = vec![listed("forward_to_trait", "x::y"), listed("trait_returned_type", "a::b")];
    assert_eq!(
        resolve_config(&annotations, Mode::TypedReturn),
        Err(GenerationError::InterfaceNotIdentifier { path: "x::y".to_string() })
    );
}

#[test]
fn messages() {
    assert_eq!(
        GenerationError::NotATaggedUnion { name: "S".to_string() }.message(),
        "EventBridge can only be used on enums"
    );
    assert_eq!(
        GenerationError::MissingTargetInterface.message(),
        "Missing #[forward_to_trait(TraitName)] attribute"
    );
    assert_eq!(
        GenerationError::MissingErrorType.message(),
        "Missing #[trait_error_type(ErrorType)] attribute"
    );
    assert_eq!(
        GenerationError::InterfaceNotIdentifier { path: "a::b".to_string() }.message(),
        "Trait path must be a single identifier"
    );
    assert_eq!(
        GenerationError::ReturnTypeNotIdentifier { path: "a::b".to_string() }.message(),
        "Return type must be a single identifier"
    );
    assert_eq!(
        GenerationError::ErrorTypeNotIdentifier { path: "a::b".to_string() }.message(),
        "Error type must be a single identifier"
    );
    assert_eq!(
        GenerationError::MalformedAnnotation {
            annotation: "forward_to_trait".to_string(),
            detail: "expected identifier".to_string(),
        }
        .message(),
        "expected identifier"
    );
}

/// What `syn` says when the arguments of the first attribute of a
/// declaration are asked for.
fn parser_complaint(declaration: &str) -> String {
    let input = syn::parse_str::<syn::DeriveInput>(declaration).unwrap();
    match input.attrs[0].parse_args::<syn::Path>() {
        Ok(_) => panic!("{} has arguments", declaration),
        Err(error) => error.to_string(),
    }
}

#[test]
fn complaints_about_a_missing_list_are_the_parsers_own() {
    let settings = [
        (Setting::TargetInterface, "forward_to_trait"),
        (Setting::ReturnType, "trait_returned_type"),
        (Setting::ErrorType, "trait_error_type"),
    ];
    for (setting, name) in settings {
        assert_eq!(
            listed_text(setting, &AnnotationArguments::Absent),
            Err(GenerationError::MalformedAnnotation {
                annotation: name.to_string(),
                detail: parser_complaint(&format!("#[{}] enum E {{}}", name)),
            })
        );
        assert_eq!(
            listed_text(setting, &AnnotationArguments::Assigned),
            Err(GenerationError::MalformedAnnotation {
                annotation: name.to_string(),
                detail: parser_complaint(&format!("#[{} = T] enum E {{}}", name)),
            })
        );
    }
}

#[test]
fn trait_annotation_without_a_list_fails_as_the_parser_does() {
    assert_eq!(
        get_trait_name(&vec![bare("forward_to_trait")]).unwrap_err().message(),
        parser_complaint("#[forward_to_trait] enum E {}")
    );
    assert_eq!(
        get_trait_name(&vec![assigned("forward_to_trait")]).unwrap_err().message(),
        parser_complaint("#[forward_to_trait = T] enum E {}")
    );
}

#[test]
fn a_listed_argument_reads_as_the_parser_reads_the_attribute() {
    for text in ["TestApiTrait", "api::TestApiTrait", "Handler<u8>", "1 + 2", ""] {
        let declaration = format!("#[forward_to_trait({})] enum E {{}}", text);
        let input = syn::parse_str::<syn::DeriveInput>(&declaration).unwrap();
        let parsed = input.attrs[0].parse_args::<syn::Path>();
        let read = get_trait_name(&vec![listed("forward_to_trait", text)]);
        match parsed {
            Ok(path) => match path.get_ident() {
                Some(ident) => assert_eq!(read, Ok(ident.to_string())),
                None => assert_eq!(
                    read,
                    Err(GenerationError::InterfaceNotIdentifier { path: text.to_string() })
                ),
            },
            Err(error) => assert_eq!(
                read,
                Err(GenerationError::MalformedAnnotation {
                    annotation: "forward_to_trait".to_string(),
                    detail: error.to_string(),
                })
            ),
        }
    }
}

fn identifier(name: &str) -> PathArgument {
    PathArgument::Identifier(name.to_string())
}

fn unparsable(detail: &str) -> PathArgument {
    PathArgument::Unparsable(detail.to_string())
}

#[test]
fn the_mode_names_its_type_setting() {
    assert_eq!(Mode::TypedReturn.type_setting(), Setting::ReturnType);
    assert_eq!(Mode::ErrorBridging.type_setting(), Setting::ErrorType);
}

#[test]
fn trait_name_for_each_reading() {
    let annotations = vec![listed("forward_to_trait", "a::b")];
    assert_eq!(trait_name_from(&annotations, identifier("Api")), Ok("Api".to_string()));
    assert_eq!(
        trait_name_from(&annotations, PathArgument::Compound),
        Err(GenerationError::InterfaceNotIdentifier { path: "a::b".to_string() })
    );
    assert_eq!(
        trait_name_from(&annotations, unparsable("no path")),
        Err(GenerationError::MalformedAnnotation {
            annotation: "forward_to_trait".to_string(),
            detail: "no path".to_string(),
        })
    );
    assert_eq!(
        trait_name_from(&vec![], identifier("Api")),
        Err(GenerationError::MissingTargetInterface)
    );
    assert_eq!(
        trait_name_from(&vec![bare("forward_to_trait")], identifier("Api")),
        Err(GenerationError::MalformedAnnotation {
            annotation: "forward_to_trait".to_string(),
            detail: "expected attribute arguments in parentheses: #[forward_to_trait(...)]"
                .to_string(),
        })
    );
}

#[test]
fn return_type_for_each_reading() {
    let annotations = vec![listed("trait_returned_type", "R")];
    assert_eq!(return_type_from(&annotations, identifier("R")), Ok(Some("R".to_string())));
    assert_eq!(
        return_type_from(&annotations, PathArgument::Compound),
        Err(GenerationError::ReturnTypeNotIdentifier { path: "R".to_string() })
    );
    assert_eq!(return_type_from(&vec![], identifier("R")), Ok(None));
    assert_eq!(return_type_from(&vec![], unparsable("no path")), Ok(None));
}

#[test]
fn error_type_for_each_reading() {
    let annotations = vec![listed("trait_error_type", "x::E")];
    assert_eq!(error_type_from(&annotations, identifier("E")), Ok("E".to_string()));
    assert_eq!(
        error_type_from(&annotations, PathArgument::Compound),
        Err(GenerationError::ErrorTypeNotIdentifier { path: "x::E".to_string() })
    );
    assert_eq!(error_type_from(&vec![], identifier("E")), Err(GenerationError::MissingErrorType));
}

#[test]
fn each_identifier_goes_to_its_own_setting() {
    let annotations = vec![
        listed("trait_returned_type", "ReturnType"),
        listed("forward_to_trait", "TestApiTrait"),
        listed("trait_error_type", "Failure"),
    ];
    assert_eq!(
        config_from(&annotations, Mode::TypedReturn, identifier("TestApiTrait"), identifier("ReturnType")),
        Ok(GeneratorConfig {
            target_interface: "TestApiTrait".to_string(),
            outcome: Outcome::Typed { return_type: Some("ReturnType".to_string()) },
        })
    );
    assert_eq!(
        config_from(&annotations, Mode::ErrorBridging, identifier("TestApiTrait"), identifier("Failure")),
        Ok(GeneratorConfig {
            target_interface: "TestApiTrait".to_string(),
            outcome: Outcome::Bridged { error_type: "Failure".to_string() },
        })
    );
    assert_eq!(
        resolve_config(&annotations, Mode::TypedReturn),
        config_from(&annotations, Mode::TypedReturn, identifier("TestApiTrait"), identifier("ReturnType"))
    );
    assert_eq!(
        resolve_config(&annotations, Mode::ErrorBridging),
        config_from(&annotations, Mode::ErrorBridging, identifier("TestApiTrait"), identifier("Failure"))
    );
}

#[test]
fn a_configuration_is_owed_where_the_interface_reads_as_an_identifier() {
    let annotations = vec![listed("forward_to_trait", "Api")];
    assert_eq!(
        config_from(&annotations, Mode::TypedReturn, identifier("Api"), PathArgument::Compound),
        Ok(GeneratorConfig {
            target_interface: "Api".to_string(),
            outcome: Outcome::Typed { return_type: None },
        })
    );
    assert_eq!(
        config_from(&annotations, Mode::ErrorBridging, identifier("Api"), identifier("E")),
        Err(GenerationError::MissingErrorType)
    );
}

#[test]
fn a_failure_of_the_interface_comes_before_one_of_the_type() {
    let annotations = vec![listed("forward_to_trait", "a::b"), listed("trait_returned_type", "c::d")];
    assert_eq!(
        config_from(&annotations, Mode::TypedReturn, PathArgument::Compound, PathArgument::Compound),
        Err(GenerationError::InterfaceNotIdentifier { path: "a::b".to_string() })
    );
    assert_eq!(
        config_from(&annotations, Mode::TypedReturn, identifier("Api"), PathArgument::Compound),
        Err(GenerationError::ReturnTypeNotIdentifier { path: "c::d".to_string() })
    );
    assert_eq!(
        config_from(&annotations, Mode::ErrorBridging, unparsable("first"), unparsable("second")),
        Err(GenerationError::MalformedAnnotation {
            annotation: "forward_to_trait".to_string(),
            detail: "first".to_string(),
        })
    );
    assert_eq!(
        config_from(
            &vec![listed("forward_to_trait", "Api"), listed("trait_error_type", "E")],
            Mode::ErrorBridging,
            identifier("Api"),
            unparsable("second")
        ),
        Err(GenerationError::MalformedAnnotation {
            annotation: "trait_error_type".to_string(),
            detail: "second".to_string(),
        })
    );
}
