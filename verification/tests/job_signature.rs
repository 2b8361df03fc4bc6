use swirl::job_signature::{
    analyze_signature, ParamShape, PathSegmentShape, PatternShape, SignatureError,
    SignatureShape, TypeShape,
};

fn sig(inputs: Vec<ParamShape>) -> SignatureShape {
    SignatureShape {
        is_const: false,
        is_unsafe: false,
        has_abi: false,
        has_generic_params: false,
        has_where_clause: false,
        inputs,
    }
}

fn env() -> ParamShape {
    ParamShape::Typed { pattern: PatternShape::SimpleIdent, ty: TypeShape::Reference { mutable: false } }
}

fn pool() -> ParamShape {
    ParamShape::Typed {
        pattern: PatternShape::SimpleIdent,
        ty: TypeShape::Path {
            last_segment: Some(PathSegmentShape { ident: "DieselPool".to_string(), has_arguments: false }),
        },
    }
}

fn string_arg() -> ParamShape {
    ParamShape::Typed {
        pattern: PatternShape::SimpleIdent,
        ty: TypeShape::Path {
            last_segment: Some(PathSegmentShape { ident: "String".to_string(), has_arguments: false }),
        },
    }
}

#[test]
fn sorts_env_pool_and_arguments() {
    let plan = analyze_signature(&sig(vec![env(), pool(), string_arg(), string_arg()])).unwrap();
    assert_eq!(plan.env_arg, Some(0));
    assert_eq!(plan.connection_arg, Some(1));
    assert_eq!(plan.normal_args, vec![2, 3]);
    let plan = analyze_signature(&sig(vec![string_arg(), env()])).unwrap();
    assert_eq!(plan.env_arg, Some(1));
    assert_eq!(plan.connection_arg, None);
    assert_eq!(plan.normal_args, vec![0]);
    let plan = analyze_signature(&sig(vec![])).unwrap();
    assert_eq!(plan.env_arg, None);
    assert!(plan.normal_args.is_empty());
}

#[test]
fn pool_with_generic_arguments_is_an_argument() {
    let p = ParamShape::Typed {
        pattern: PatternShape::SimpleIdent,
        ty: TypeShape::Path {
            last_segment: Some(PathSegmentShape { ident: "DieselPool".to_string(), has_arguments: true }),
        },
    };
    let plan = analyze_signature(&sig(vec![p])).unwrap();
    assert_eq!(plan.connection_arg, None);
    assert_eq!(plan.normal_args, vec![0]);
}

#[test]
fn refuses_function_kinds_in_order() {
    let mut s = sig(vec![]);
    s.has_where_clause = true;
    assert_eq!(analyze_signature(&s).err(), Some(SignatureError::WhereClause));
    s.has_generic_params = true;
    assert_eq!(analyze_signature(&s).err(), Some(SignatureError::GenericFn));
    s.has_abi = true;
    assert_eq!(analyze_signature(&s).err(), Some(SignatureError::AbiFn));
    s.is_unsafe = true;
    assert_eq!(analyze_signature(&s).err(), Some(SignatureError::UnsafeFn));
    s.is_const = true;
    let e = analyze_signature(&s).err().unwrap();
    assert_eq!(e, SignatureError::ConstFn);
    assert_eq!(e.message(), "#[swirl::background_job] cannot be used on const functions");
    assert_eq!(e.param_index(), None);
}

#[test]
fn refuses_bad_parameters() {
    let e = analyze_signature(&sig(vec![env(), ParamShape::Receiver])).err().unwrap();
    assert_eq!(e, SignatureError::TakesSelf(1));
    assert_eq!(e.message(), "Background jobs cannot take self");
    let pat = ParamShape::Typed { pattern: PatternShape::Other, ty: TypeShape::Other };
    assert_eq!(analyze_signature(&sig(vec![pat])).err(), Some(SignatureError::Pattern(0)));
    let mut_ref = ParamShape::Typed { pattern: PatternShape::SimpleIdent, ty: TypeShape::Reference { mutable: true } };
    let e = analyze_signature(&sig(vec![mut_ref])).err().unwrap();
    assert_eq!(e, SignatureError::MutReference(0));
    assert_eq!(e.message(), "Unexpected `mut`");
    let e = analyze_signature(&sig(vec![env(), string_arg(), env()])).err().unwrap();
    assert_eq!(e, SignatureError::DuplicateEnv(2));
    assert_eq!(e.message(), "Background job functions cannot take references as arguments");
    let e = analyze_signature(&sig(vec![pool(), pool()])).err().unwrap();
    assert_eq!(e, SignatureError::DuplicateConnection(1));
    assert_eq!(e.param_index(), Some(1));
    assert_eq!(e.message(), "Multiple database connection arguments in job function");
    assert_eq!(
        e.help().unwrap(),
        "To take a connection pool as an argument, define an argument of the type`swirl::DieselPool`"
    );
    assert_eq!(SignatureError::Pattern(0).help(), None);
}

#[test]
fn first_error_is_reported() {
    let e = analyze_signature(&sig(vec![ParamShape::Receiver, env(), env()])).err().unwrap();
    assert_eq!(e, SignatureError::TakesSelf(0));
}
