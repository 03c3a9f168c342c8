use epserde::derive::attrs::{parse_epserde_attrs, EpserdeKey, NestedItem};
use epserde::derive::classify::{has_repl_param, push_conflict_idents, ClassifyContext, FieldClassification};
use epserde::derive::input::{check_derive_input, DataShape, DeriveShape, FieldKey, FieldShape, GenericParam, VariantShape};
use epserde::derive::syntax::{collect_repl_param_occs, collect_seq_forced_deep_params, GenericArgument, PathArguments, PathSegment, TypeSyntax};

fn name(s: &str) -> TypeSyntax {
    TypeSyntax::Path {
        qself: false,
        leading_colon: false,
        segments: vec![PathSegment { ident: s.to_string(), arguments: PathArguments::Empty }],
    }
}

fn generic(s: &str, args: Vec<TypeSyntax>) -> TypeSyntax {
    TypeSyntax::Path {
        qself: false,
        leading_colon: false,
        segments: vec![PathSegment {
            ident: s.to_string(),
            arguments: PathArguments::AngleBracketed(args.into_iter().map(GenericArgument::Type).collect()),
        }],
    }
}

fn strings(v: &[&str]) -> Vec<String> {
    v.iter().map(|s| s.to_string()).collect()
}

fn sorted(mut v: Vec<String>) -> Vec<String> {
    v.sort();
    v.dedup();
    v
}

fn repl(ty: &TypeSyntax, params: &[&str]) -> Vec<String> {
    let mut out = Vec::new();
    collect_repl_param_occs(ty, &strings(params), &mut out, false);
    sorted(out)
}

fn seq(ty: &TypeSyntax, params: &[&str]) -> Vec<String> {
    let mut out = Vec::new();
    collect_seq_forced_deep_params(ty, &strings(params), &mut out, false);
    sorted(out)
}

#[test]
fn test_replaceable_parameters() {
    assert_eq!(repl(&name("T"), &["T", "U"]), strings(&["T"]));
    assert_eq!(repl(&generic("Vec", vec![name("T")]), &["T", "U"]), strings(&["T"]));
    let tuple = TypeSyntax::Tuple(vec![name("T"), TypeSyntax::Array(Box::new(name("U")))]);
    assert_eq!(repl(&tuple, &["T", "U"]), strings(&["T", "U"]));
    // Inside PhantomData nothing counts.
    assert_eq!(repl(&generic("PhantomData", vec![name("T")]), &["T"]), Vec::<String>::new());
    // A projection T::Assoc is not a bare parameter.
    let projection = TypeSyntax::Path {
        qself: false,
        leading_colon: false,
        segments: vec![
            PathSegment { ident: "T".to_string(), arguments: PathArguments::Empty },
            PathSegment { ident: "Assoc".to_string(), arguments: PathArguments::Empty },
        ],
    };
    assert_eq!(repl(&projection, &["T"]), Vec::<String>::new());
    // A name that is not a parameter, and references, are not looked into.
    assert_eq!(repl(&name("usize"), &["T"]), Vec::<String>::new());
    assert_eq!(repl(&TypeSyntax::Reference(Box::new(name("T"))), &["T"]), Vec::<String>::new());
    assert!(has_repl_param(&generic("Option", vec![name("T")]), &strings(&["T"])));
    assert!(!has_repl_param(&name("u32"), &strings(&["T"])));
}

#[test]
fn test_sequence_parameters_are_forced_deep() {
    assert_eq!(seq(&generic("Vec", vec![name("T")]), &["T"]), strings(&["T"]));
    assert_eq!(seq(&TypeSyntax::Slice(Box::new(name("T"))), &["T"]), strings(&["T"]));
    assert_eq!(seq(&TypeSyntax::Array(Box::new(name("T"))), &["T"]), strings(&["T"]));
    assert_eq!(seq(&generic("Box", vec![TypeSyntax::Slice(Box::new(name("U")))]), &["T", "U"]), strings(&["U"]));
    assert_eq!(seq(&generic("Vec", vec![generic("Vec", vec![name("T")])]), &["T"]), strings(&["T"]));
    assert_eq!(seq(&generic("Option", vec![name("T")]), &["T"]), Vec::<String>::new());
    assert_eq!(seq(&name("T"), &["T"]), Vec::<String>::new());
    assert_eq!(seq(&generic("PhantomData", vec![generic("Vec", vec![name("T")])]), &["T"]), Vec::<String>::new());
    assert_eq!(seq(&TypeSyntax::Reference(Box::new(TypeSyntax::Slice(Box::new(name("T"))))), &["T"]), strings(&["T"]));
}

#[test]
fn test_attribute_grammar() {
    let c = strings(&["C"]);
    let zero = vec![EpserdeKey::Path("zero_copy".to_string())];
    let a = parse_epserde_attrs("Point", &c, &zero).unwrap();
    assert!(a.is_repr_c && a.is_zero_copy && !a.is_deep_copy);
    assert_eq!(
        parse_epserde_attrs("Point", &Vec::new(), &zero).err().unwrap(),
        "Type Point is declared as zero-copy, but it is not repr(C)"
    );
    let both = vec![EpserdeKey::Path("zero_copy".to_string()), EpserdeKey::Path("deep_copy".to_string())];
    assert_eq!(
        parse_epserde_attrs("Point", &c, &both).err().unwrap(),
        "Type Point is declared as both zero-copy and deep-copy"
    );
    // Without repr(C), the repr error comes first.
    assert_eq!(
        parse_epserde_attrs("Point", &Vec::new(), &both).err().unwrap(),
        "Type Point is declared as zero-copy, but it is not repr(C)"
    );
    let unknown = vec![EpserdeKey::Path("zero_copy".to_string()), EpserdeKey::Path("fast".to_string())];
    assert_eq!(
        parse_epserde_attrs("Point", &Vec::new(), &unknown).err().unwrap(),
        "expected \"zero_copy\", \"deep_copy\", \"bound\", \"full_copy\", or \"phantom\""
    );
    let bare_list = vec![EpserdeKey::Path("full_copy".to_string())];
    assert_eq!(
        parse_epserde_attrs("Point", &Vec::new(), &bare_list).err().unwrap(),
        "\"full_copy\" is a type-level attribute and requires a parenthesized list of type parameters, e.g. #[epserde(full_copy(T))]"
    );
    let keys = vec![
        EpserdeKey::List(
            "bound".to_string(),
            vec![
                NestedItem::NameValue("deser".to_string(), "T: Copy".to_string()),
                NestedItem::NameValue("ser".to_string(), "U: Copy".to_string()),
            ],
        ),
        EpserdeKey::List("full_copy".to_string(), vec![NestedItem::Path("T".to_string())]),
        EpserdeKey::List("phantom".to_string(), vec![NestedItem::Path("U".to_string()), NestedItem::Path("V".to_string())]),
    ];
    let a = parse_epserde_attrs("S", &Vec::new(), &keys).unwrap();
    assert_eq!(a.deser_bounds, strings(&["T: Copy"]));
    assert_eq!(a.ser_bounds, strings(&["U: Copy"]));
    assert_eq!(a.full_copy_params, strings(&["T"]));
    assert_eq!(a.phantom_params, strings(&["U", "V"]));
    let bad_bound = vec![EpserdeKey::List("bound".to_string(), vec![NestedItem::NameValue("both".to_string(), "x".to_string())])];
    assert_eq!(parse_epserde_attrs("S", &Vec::new(), &bad_bound).err().unwrap(), "expected `deser` or `ser`");
    let bad_list = vec![EpserdeKey::List("phantom".to_string(), vec![NestedItem::Other("a :: b".to_string())])];
    assert_eq!(parse_epserde_attrs("S", &Vec::new(), &bad_list).err().unwrap(), "expected a type-parameter identifier");
}

fn shape(generics: Vec<GenericParam>, keys: Vec<EpserdeKey>, repr: &[&str], data: DataShape) -> DeriveShape {
    DeriveShape {
        ident: "S".to_string(),
        has_where_clause: false,
        generics,
        repr_hints: strings(repr),
        keys,
        data,
    }
}

fn field(ty: TypeSyntax, keys: &[(&str, bool)]) -> FieldShape {
    FieldShape { ty, keys: keys.iter().map(|(n, l)| FieldKey { name: n.to_string(), has_list: *l }).collect() }
}

#[test]
fn test_derive_input_checks() {
    let t = || GenericParam::Type("T".to_string());
    let ok = shape(vec![t(), GenericParam::Const("N".to_string())], Vec::new(), &[], DataShape::Struct(vec![field(name("T"), &[])]));
    let ctx = check_derive_input(&ok).unwrap();
    assert_eq!(ctx.type_const_params, strings(&["T", "N"]));
    assert_eq!(ctx.const_params, strings(&["N"]));
    assert_eq!(ctx.repl_params, strings(&["T"]));

    let mut w = shape(vec![t()], Vec::new(), &[], DataShape::Struct(Vec::new()));
    w.has_where_clause = true;
    assert_eq!(
        check_derive_input(&w).err().unwrap(),
        "The derive macros do not support where clauses on the original type"
    );
    let lt = shape(vec![GenericParam::Lifetime("a".to_string())], Vec::new(), &[], DataShape::Struct(Vec::new()));
    assert_eq!(check_derive_input(&lt).err().unwrap(), "Lifetime generics are not supported");

    let zero = vec![EpserdeKey::Path("zero_copy".to_string())];
    let marked = shape(Vec::new(), zero, &["C"], DataShape::Struct(vec![field(name("u32"), &[("force_full_copy", false)])]));
    assert_eq!(
        check_derive_input(&marked).err().unwrap(),
        "\"force_full_copy\" cannot appear inside a zero-copy type"
    );
    let args = shape(vec![t()], Vec::new(), &[], DataShape::Struct(vec![field(name("T"), &[("force_full_copy", true)])]));
    assert_eq!(
        check_derive_input(&args).err().unwrap(),
        "\"force_full_copy\" is a field-level marker and takes no arguments; use #[epserde(force_full_copy)]"
    );
    let other = shape(vec![t()], Vec::new(), &[], DataShape::Struct(vec![field(name("T"), &[("skip", false)])]));
    assert_eq!(check_derive_input(&other).err().unwrap(), "expected \"force_full_copy\"");
    let variant = shape(
        Vec::new(),
        Vec::new(),
        &[],
        DataShape::Enum(vec![VariantShape { has_epserde_attr: true, fields: Vec::new() }]),
    );
    assert!(check_derive_input(&variant).err().unwrap().starts_with("#[epserde(...)] attributes are not supported on enum variants"));

    let list = |attr: &str, ids: &[&str]| {
        EpserdeKey::List(attr.to_string(), ids.iter().map(|i| NestedItem::Path(i.to_string())).collect())
    };
    let not_param = shape(vec![t()], vec![list("full_copy", &["X"])], &[], DataShape::Struct(Vec::new()));
    assert_eq!(check_derive_input(&not_param).err().unwrap(), "`X` is not a type parameter of `S`");
    let konst = shape(vec![t(), GenericParam::Const("N".to_string())], vec![list("phantom", &["N"])], &[], DataShape::Struct(Vec::new()));
    assert_eq!(check_derive_input(&konst).err().unwrap(), "phantom expects a type parameter, but `N` is a const parameter");
    let both = shape(vec![t()], vec![list("full_copy", &["T"]), list("phantom", &["T"])], &[], DataShape::Struct(Vec::new()));
    assert_eq!(
        check_derive_input(&both).err().unwrap(),
        "`T` cannot be listed both in phantom(...) and full_copy(...)"
    );
    let on_zero = shape(vec![t()], vec![EpserdeKey::Path("zero_copy".to_string()), list("full_copy", &["T"])], &["C"], DataShape::Struct(Vec::new()));
    assert_eq!(
        check_derive_input(&on_zero).err().unwrap(),
        "full_copy(...) cannot be used on a zero-copy type, as its deserialization type is a reference"
    );
    let union = shape(vec![t()], Vec::new(), &[], DataShape::Union);
    assert_eq!(check_derive_input(&union).err().unwrap(), "Union types are not supported");

    let phantom = shape(
        vec![t(), GenericParam::Type("U".to_string())],
        vec![list("phantom", &["T"]), list("full_copy", &["U"])],
        &[],
        DataShape::Struct(Vec::new()),
    );
    let ctx = check_derive_input(&phantom).unwrap();
    assert_eq!(ctx.repl_params, strings(&["U"]));
    assert_eq!(ctx.forced_params, strings(&["U"]));
}

#[test]
fn test_field_classification() {
    let ctx = ClassifyContext { repl_params: strings(&["T", "U"]), forced_params: strings(&["U"]) };
    let mut c = FieldClassification::new();
    // An unmarked field holding T is ε-copy; T in a vector must be deep-copy.
    assert_eq!(c.classify_field(&ctx, 0, &generic("Vec", vec![name("T")]), false), (false, false));
    // A field with no parameter is full-copy.
    assert_eq!(c.classify_field(&ctx, 1, &name("u64"), false), (true, false));
    // A marker on a field with no parameter has no effect.
    assert_eq!(c.classify_field(&ctx, 2, &name("u64"), true), (true, true));
    // A field holding only the pinned U is full-copy.
    assert_eq!(c.classify_field(&ctx, 3, &name("U"), false), (true, false));
    // An ε-copy field holding the pinned U too is checked for consistency.
    let pair = TypeSyntax::Tuple(vec![name("T"), name("U")]);
    assert_eq!(c.classify_field(&ctx, 4, &pair, false), (false, false));
    // A marked field puts its parameters among the full-copy ones.
    assert_eq!(c.classify_field(&ctx, 5, &name("T"), true), (true, false));
    assert_eq!(sorted(c.eps_params.clone()), strings(&["T"]));
    assert_eq!(sorted(c.full_params.clone()), strings(&["T", "U"]));
    assert_eq!(sorted(c.deser_inner_params.clone()), strings(&["T", "U"]));
    assert_eq!(sorted(c.seq_deep_params.clone()), strings(&["T"]));
    assert_eq!(c.full_copy_check_fields, vec![4]);
    let mut conflicts = Vec::new();
    push_conflict_idents(&c.eps_params, &c.full_params, &mut conflicts);
    assert_eq!(sorted(conflicts), strings(&["T"]));
}
