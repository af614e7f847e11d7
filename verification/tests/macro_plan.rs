use hitbox::macro_plan::{
    arg_wrappers, field_keys, fn_path, generated_names, has_generics, has_skipped_fields, key_name,
    needs_synthetic_lifetime, offload_lifetime, validate_skip_list, ArgWrapper, AttrValue,
    Container, ContainerAttr, ContainerError, FieldSpec, OffloadLifetime,
};
use hitbox::macro_plan::{
    key_extract_plan, plan_cached, CachedError, KeyExtractPlan, parse_cached_attrs, plan_cached_fn, AttrArg, AttrErrorKind, AttrLit, CachedFnError, ParamShape,
    SkipItem,
};

fn attr(path: &str, value: Option<AttrValue>) -> ContainerAttr {
    ContainerAttr { path: path.to_owned(), value }
}

fn int_lit(s: &str) -> Option<AttrValue> {
    Some(AttrValue::Int(s.to_owned()))
}

fn names(v: &[&str]) -> Vec<String> {
    v.iter().map(|s| s.to_string()).collect()
}

#[test]
fn container_attributes_are_read() {
    let c = Container::from_attrs(&[
        attr("cache_ttl", int_lit("60")),
        attr("cache_stale_ttl", int_lit("30")),
        attr("cache_version", int_lit("2")),
    ])
    .unwrap();
    assert_eq!(c.cache_ttl, Some(60));
    assert_eq!(c.cache_stale_ttl, Some(30));
    assert_eq!(c.cache_version, Some(2));
    let empty = Container::from_attrs(&[]).unwrap();
    assert_eq!(empty, Container { cache_ttl: None, cache_stale_ttl: None, cache_version: None });
    let later_wins = Container::from_attrs(&[attr("cache_ttl", int_lit("1")), attr("cache_ttl", int_lit("2"))]).unwrap();
    assert_eq!(later_wins.cache_ttl, Some(2));
}

#[test]
fn container_errors() {
    assert_eq!(
        Container::from_attrs(&[attr("cache_ttl", Some(AttrValue::Other))]),
        Err(ContainerError::NotU32 { attr: "cache_ttl".to_owned() })
    );
    assert_eq!(
        Container::from_attrs(&[attr("cache_version", int_lit("99999999999"))]),
        Err(ContainerError::OutOfRange { attr: "cache_version".to_owned() })
    );
    assert_eq!(
        Container::from_attrs(&[attr("cache_size", int_lit("1"))]),
        Err(ContainerError::Unknown { path: "cache_size".to_owned() })
    );
    assert_eq!(
        Container::from_attrs(&[attr("cache_ttl", None)]),
        Err(ContainerError::Unknown { path: "cache_ttl".to_owned() })
    );
}

#[test]
fn skip_list_must_name_parameters() {
    let params = names(&["a", "b", "c"]);
    assert!(validate_skip_list(&params, &names(&["b"])).is_ok());
    assert!(validate_skip_list(&params, &names(&[])).is_ok());
    let err = validate_skip_list(&params, &names(&["b", "z", "y"])).unwrap_err();
    assert_eq!(err.unknown, "z");
    assert_eq!(err.available, "a, b, c");
}

#[test]
fn arguments_are_wrapped_by_the_skip_list() {
    let w = arg_wrappers(&names(&["a", "b"]), &names(&["b"]));
    assert_eq!(w.len(), 2);
    assert!(matches!(&w[0], ArgWrapper::Included(n) if n == "a"));
    assert!(matches!(&w[1], ArgWrapper::Skipped));
}

#[test]
fn lifetimes_of_the_offloaded_future() {
    assert_eq!(offload_lifetime(0), OffloadLifetime::Static);
    assert_eq!(offload_lifetime(1), OffloadLifetime::Single);
    assert_eq!(offload_lifetime(2), OffloadLifetime::Synthetic);
    assert!(!needs_synthetic_lifetime(1));
    assert!(needs_synthetic_lifetime(3));
    assert!(has_generics(0, 1));
    assert!(!has_generics(0, 0));
}

#[test]
fn generated_item_names() {
    let n = generated_names("my_fn");
    assert_eq!(n.impl_name, "__my_fn_impl");
    assert_eq!(n.call_name, "MyFnCall");
    assert_eq!(n.cached_call_name, "MyFnCallCached");
    assert_eq!(n.execute_name, "__execute_cached_my_fn");
    assert_eq!(n.upstream_name, "__MyFnUpstream");
    assert_eq!(n.cache_future_name, "__MyFnCacheFuture");
    assert_eq!(fn_path(&None, "my_fn"), "my_fn");
    assert_eq!(fn_path(&Some("crate::x".to_owned()), "my_fn"), "crate::x");
}

#[test]
fn field_key_names() {
    let fields = vec![
        FieldSpec { ident: Some("id".to_owned()), name: None, skip: false },
        FieldSpec { ident: Some("secret".to_owned()), name: None, skip: true },
        FieldSpec { ident: Some("org".to_owned()), name: Some("organization".to_owned()), skip: false },
        FieldSpec { ident: None, name: None, skip: false },
    ];
    assert_eq!(key_name(&fields[0], 0), "id");
    assert_eq!(key_name(&fields[2], 2), "organization");
    assert_eq!(key_name(&fields[3], 3), "3");
    let keys = field_keys(&fields);
    let got: Vec<(usize, String)> = keys.iter().map(|k| (k.index, k.key.clone())).collect();
    assert_eq!(
        got,
        vec![(0, "id".to_owned()), (2, "organization".to_owned()), (3, "3".to_owned())]
    );
    assert!(has_skipped_fields(&vec![false, true]));
    assert!(!has_skipped_fields(&vec![false, false]));
}

#[test]
fn cached_function_plans() {
    let named = |n: &str| ParamShape::Named(n.to_owned());

    let plan = plan_cached_fn(
        "get_user",
        true,
        &vec![named("id"), named("db")],
        true,
        1,
        0,
        &names(&["db"]),
    )
    .unwrap();
    assert_eq!(plan.names.call_name, "GetUserCall");
    assert_eq!(plan.params, names(&["id", "db"]));
    assert!(matches!(&plan.wrappers[0], ArgWrapper::Included(n) if n == "id"));
    assert!(matches!(plan.wrappers[1], ArgWrapper::Skipped));
    assert_eq!(plan.offload, OffloadLifetime::Single);
    assert!(plan.generic);

    assert!(matches!(
        plan_cached_fn("m", true, &vec![ParamShape::Receiver, named("x")], true, 0, 0, &vec![]),
        Err(CachedFnError::SelfReceiver)
    ));
    assert!(matches!(
        plan_cached_fn("f", true, &vec![named("x"), ParamShape::Pattern], false, 0, 0, &vec![]),
        Err(CachedFnError::NotIdentifier)
    ));
    assert!(matches!(
        plan_cached_fn("f", true, &vec![named("x")], false, 0, 0, &names(&["zzz"])),
        Err(CachedFnError::NoReturnType)
    ));
    match plan_cached_fn("f", true, &vec![named("x")], true, 0, 0, &names(&["zzz"])) {
        Err(CachedFnError::UnknownSkip(e)) => {
            assert_eq!(e.unknown, "zzz");
            assert_eq!(e.available, "x");
        },
        _ => panic!("an unknown skip is refused"),
    }
    let zero = plan_cached_fn("zero", true, &vec![], true, 0, 0, &vec![]).unwrap();
    assert!(zero.params.is_empty());
    assert_eq!(zero.offload, OffloadLifetime::Static);
    assert!(!zero.generic);
}

#[test]
fn sync_fn() {
    let named = |n: &str| ParamShape::Named(n.to_owned());
    assert!(matches!(
        plan_cached_fn("not_async", false, &vec![named("x")], true, 0, 0, &vec![]),
        Err(CachedFnError::NotAsync)
    ));
    // The async check comes before every other.
    assert!(matches!(
        plan_cached_fn("m", false, &vec![ParamShape::Receiver], false, 0, 0, &names(&["z"])),
        Err(CachedFnError::NotAsync)
    ));
}

#[test]
fn skip_unknown_param() {
    let named = |n: &str| ParamShape::Named(n.to_owned());
    match plan_cached_fn("example", true, &vec![named("value")], true, 0, 0, &names(&["nonexistent"])) {
        Err(CachedFnError::UnknownSkip(e)) => {
            assert_eq!(
                format!(
                    "unknown parameter `{}` in skip list; available parameters: {}",
                    e.unknown, e.available
                ),
                "unknown parameter `nonexistent` in skip list; available parameters: value"
            );
        },
        _ => panic!("an unknown skip name is refused"),
    }
}

#[test]
fn self_method() {
    let named = |n: &str| ParamShape::Named(n.to_owned());
    assert!(matches!(
        plan_cached_fn("method", true, &vec![ParamShape::Receiver, named("x")], true, 0, 0, &vec![]),
        Err(CachedFnError::SelfReceiver)
    ));
}

#[test]
fn cached_attribute_arguments() {
    let nv = |n: &str, v: &str| AttrArg::NameValue { name: n.to_owned(), value: AttrLit::Str(v.to_owned()) };
    let list = |n: &str, items: &[&str]| AttrArg::List {
        name: n.to_owned(),
        items: items.iter().map(|i| SkipItem::Name(i.to_string())).collect(),
    };
    let a = parse_cached_attrs(&vec![nv("prefix", "users"), list("skip", &["db", "log"])]).unwrap();
    assert_eq!(a.prefix, Some("users".to_owned()));
    assert_eq!(a.skip, names(&["db", "log"]));
    let empty = parse_cached_attrs(&vec![]).unwrap();
    assert_eq!(empty.prefix, None);
    assert!(empty.skip.is_empty());

    let e = parse_cached_attrs(&vec![nv("prefix", "a"), nv("prefix", "b")]).unwrap_err();
    assert_eq!((e.kind, e.field.as_str()), (AttrErrorKind::DuplicateField, "prefix"));
    let e = parse_cached_attrs(&vec![nv("ttl", "a")]).unwrap_err();
    assert_eq!((e.kind, e.field.as_str()), (AttrErrorKind::UnknownField, "ttl"));
    let e = parse_cached_attrs(&vec![AttrArg::NameValue {
        name: "prefix".to_owned(),
        value: AttrLit::Other,
    }])
    .unwrap_err();
    assert_eq!((e.kind, e.field.as_str()), (AttrErrorKind::UnexpectedFormat, "prefix"));
    let e = parse_cached_attrs(&vec![AttrArg::List {
        name: "skip".to_owned(),
        items: vec![SkipItem::Other],
    }])
    .unwrap_err();
    assert_eq!((e.kind, e.field.as_str()), (AttrErrorKind::NotIdentifier, "skip"));
    let e = parse_cached_attrs(&vec![AttrArg::Word { name: "skip".to_owned() }]).unwrap_err();
    assert_eq!(e.kind, AttrErrorKind::UnexpectedFormat);
    let e = parse_cached_attrs(&vec![AttrArg::Literal]).unwrap_err();
    assert_eq!(e.kind, AttrErrorKind::UnexpectedLiteral);
}

#[test]
fn test_all_fields_skipped() {
    let fields = vec![FieldSpec { ident: Some("internal".to_owned()), name: None, skip: true }];
    match key_extract_plan("AllSkipped", &fields) {
        KeyExtractPlan::Whole(p) => {
            assert_eq!(p.key(), "AllSkipped");
            assert_eq!(p.value(), None);
        },
        KeyExtractPlan::Fields(_) => panic!("every field is skipped"),
    }
    let fields = vec![
        FieldSpec { ident: Some("query".to_owned()), name: None, skip: false },
        FieldSpec { ident: Some("request_id".to_owned()), name: None, skip: true },
    ];
    match key_extract_plan("SearchQuery", &fields) {
        KeyExtractPlan::Fields(keys) => {
            assert_eq!(keys.len(), 1);
            assert_eq!(keys[0].key, "query");
        },
        KeyExtractPlan::Whole(_) => panic!("one field takes part"),
    }
}

#[test]
fn attribute_then_signature() {
    let named = |n: &str| ParamShape::Named(n.to_owned());
    let skip = AttrArg::List { name: "skip".to_owned(), items: vec![SkipItem::Name("db".to_owned())] };
    let (attrs, plan) =
        plan_cached(&vec![skip.clone()], "load", true, &vec![named("id"), named("db")], true, 0, 0)
            .unwrap();
    assert_eq!(attrs.skip, names(&["db"]));
    assert_eq!(plan.params, names(&["id", "db"]));
    assert!(matches!(
        plan_cached(&vec![AttrArg::Literal], "load", false, &vec![], false, 0, 0),
        Err(CachedError::Attr(_))
    ));
    assert!(matches!(
        plan_cached(&vec![skip], "load", true, &vec![named("id")], true, 0, 0),
        Err(CachedError::Fn(CachedFnError::UnknownSkip(_)))
    ));
}

#[test]
fn attribute_then_signature_errors() {
    let named = |n: &str| ParamShape::Named(n.to_owned());
    let skip = |n: &str| AttrArg::List { name: "skip".to_owned(), items: vec![SkipItem::Name(n.to_owned())] };
    match plan_cached(&vec![skip("nonexistent")], "example", true, &vec![named("value")], true, 0, 0) {
        Err(CachedError::Fn(CachedFnError::UnknownSkip(e))) => {
            assert_eq!(e.unknown, "nonexistent");
            assert_eq!(e.available, "value");
        },
        _ => panic!("an unknown skip name is refused"),
    }
    assert!(matches!(
        plan_cached(&vec![], "method", true, &vec![ParamShape::Receiver, named("x")], true, 0, 0),
        Err(CachedError::Fn(CachedFnError::SelfReceiver))
    ));
    assert!(matches!(
        plan_cached(&vec![], "f", true, &vec![ParamShape::Pattern], true, 0, 0),
        Err(CachedError::Fn(CachedFnError::NotIdentifier))
    ));
    assert!(matches!(
        plan_cached(&vec![], "f", true, &vec![named("x")], false, 0, 0),
        Err(CachedError::Fn(CachedFnError::NoReturnType))
    ));
    assert!(matches!(
        plan_cached(&vec![], "f", false, &vec![named("x")], true, 0, 0),
        Err(CachedError::Fn(CachedFnError::NotAsync))
    ));
}
