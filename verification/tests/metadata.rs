use pharia_skill::packaging::{
    skill, FnArg, GenericArgument, ItemFn, Path, PathArguments, PathSegment, ReturnType, Type,
    TypeKind,
};
use schemars::gen::SchemaGenerator;
use schemars::schema::RootSchema;
use schemars::JsonSchema;

fn schema_for<T: JsonSchema>() -> RootSchema {
    SchemaGenerator::default().into_root_schema_for::<T>()
}

fn encoded<T: JsonSchema>() -> Vec<u8> {
    serde_json::to_vec(&schema_for::<T>()).unwrap()
}

fn other(source: &str) -> Type {
    Type {
        source: source.to_owned(),
        kind: TypeKind::Other,
    }
}

fn generic(segments: &[&str], argument: Type) -> Type {
    let source = format!("{}<{}>", segments.join("::"), argument.source);
    let (last, first) = segments.split_last().unwrap();
    let mut path: Vec<PathSegment> = first
        .iter()
        .map(|ident| PathSegment {
            ident: (*ident).to_owned(),
            arguments: PathArguments::Absent,
        })
        .collect();
    path.push(PathSegment {
        ident: (*last).to_owned(),
        arguments: PathArguments::AngleBracketed(vec![GenericArgument::Type(argument)]),
    });
    Type {
        source,
        kind: TypeKind::Path(Path {
            leading_colon: false,
            segments: path,
        }),
    }
}

fn string() -> Type {
    Type {
        source: "String".to_owned(),
        kind: TypeKind::Path(Path {
            leading_colon: false,
            segments: vec![PathSegment {
                ident: "String".to_owned(),
                arguments: PathArguments::Absent,
            }],
        }),
    }
}

/// `fn can_compile(csi: &impl Csi, input: Vec<&str>) -> Vec<String>`
fn can_compile() -> ItemFn {
    ItemFn {
        attrs: Vec::new(),
        ident: "can_compile".to_owned(),
        inputs: vec![
            FnArg::Typed(other("&impl Csi")),
            FnArg::Typed(generic(&["Vec"], other("&str"))),
        ],
        output: ReturnType::Type(generic(&["Vec"], string())),
    }
}

/// `fn can_compile_with_result(_csi: &impl Csi, _input: &str) -> anyhow::Result<Vec<String>>`
fn can_compile_with_result() -> ItemFn {
    ItemFn {
        attrs: Vec::new(),
        ident: "can_compile_with_result".to_owned(),
        inputs: vec![
            FnArg::Typed(other("&impl Csi")),
            FnArg::Typed(other("&str")),
        ],
        output: ReturnType::Type(generic(&["anyhow", "Result"], generic(&["Vec"], string()))),
    }
}

#[test]
fn default_output_metadata() {
    let func = can_compile();
    let skill = skill(&func).unwrap();
    assert_eq!(skill.input_type.source, "Vec<&str>");
    assert_eq!(skill.output_type.source, "Vec<String>");
    let metadata = skill.metadata(encoded::<Vec<&str>>(), encoded::<Vec<String>>());

    let input_schema = serde_json::from_slice::<RootSchema>(&metadata.input_schema).unwrap();
    let output_schema = serde_json::from_slice::<RootSchema>(&metadata.output_schema).unwrap();

    assert_eq!(input_schema, schema_for::<Vec<&str>>());
    assert_eq!(output_schema, schema_for::<Vec<String>>());
    assert_eq!(metadata.description, None);
    assert!(jsonschema::meta::is_valid(
        &serde_json::to_value(input_schema).unwrap()
    ));
    assert!(jsonschema::meta::is_valid(
        &serde_json::to_value(output_schema).unwrap()
    ));
}

#[test]
fn serializable_io_metadata() {
    let func = can_compile_with_result();
    let skill = skill(&func).unwrap();
    assert_eq!(skill.input_type.source, "&str");
    assert_eq!(skill.output_type.source, "Vec<String>");
    let metadata = skill.metadata(encoded::<&str>(), encoded::<Vec<String>>());

    let input_schema = serde_json::from_slice::<RootSchema>(&metadata.input_schema).unwrap();
    let output_schema = serde_json::from_slice::<RootSchema>(&metadata.output_schema).unwrap();

    assert_eq!(input_schema, schema_for::<&str>());
    assert_eq!(output_schema, schema_for::<Vec<String>>());
    assert_eq!(metadata.description, None);
    assert!(jsonschema::meta::is_valid(
        &serde_json::to_value(input_schema).unwrap()
    ));
    assert!(jsonschema::meta::is_valid(
        &serde_json::to_value(output_schema).unwrap()
    ));
}
