//! The checks that the `background_job` attribute makes on the function it
//! is put on, and how it sorts that function's parameters into the job's
//! environment, its database pool and its own arguments.
//!
//! The attribute's code reads the parsed function into a [`SignatureShape`]
//! (what the checks look at, nothing more), asks [`analyze_signature`] for a
//! plan or the first error, and writes the job's code from the plan.
use vstd::prelude::*;

verus! {

/// The last segment of a type's path.
pub struct PathSegmentShape {
    pub ident: String,
    /// The segment carries generic arguments, as in `Vec<u8>`.
    pub has_arguments: bool,
}

/// What the checks read of a parameter's type.
pub enum TypeShape {
    /// A reference, `&T` or `&mut T`.
    Reference { mutable: bool },
    /// A path such as `swirl::DieselPool`, with its last segment if any.
    Path { last_segment: Option<PathSegmentShape> },
    /// Any other type.
    Other,
}

/// What the checks read of a parameter's pattern.
pub enum PatternShape {
    /// A plain name, as in `x` or `mut x`.
    SimpleIdent,
    /// A name bound by reference or with a sub-pattern, as in `ref x`.
    Ident,
    /// Any other pattern.
    Other,
}

/// What the checks read of a parameter.
pub enum ParamShape {
    /// `self`, in any form.
    Receiver,
    /// A typed parameter.
    Typed { pattern: PatternShape, ty: TypeShape },
}

/// What the checks read of a function's signature.
pub struct SignatureShape {
    pub is_const: bool,
    pub is_unsafe: bool,
    pub has_abi: bool,
    pub has_generic_params: bool,
    pub has_where_clause: bool,
    pub inputs: Vec<ParamShape>,
}

/// Why the attribute refuses a function; the index is that of the parameter
/// that is refused.
#[derive(Debug, Clone, Copy, PartialEq, Eq, Structural)]
pub enum SignatureError {
    ConstFn,
    UnsafeFn,
    AbiFn,
    GenericFn,
    WhereClause,
    TakesSelf(usize),
    Pattern(usize),
    MutReference(usize),
    DuplicateEnv(usize),
    DuplicateConnection(usize),
    ConnectionNotIdent(usize),
}

/// What a parameter becomes.
#[derive(Debug, Clone, Copy, PartialEq, Eq, Structural)]
pub enum ArgKind {
    /// The shared environment, taken by reference.
    Env,
    /// The database connection pool.
    Connection,
    /// An argument stored with the job.
    Normal,
}

/// Where each parameter goes: indices into the function's parameters.
pub struct JobArgsPlan {
    pub env_arg: Option<usize>,
    pub connection_arg: Option<usize>,
    pub normal_args: Vec<usize>,
}

/// The plan as a mathematical value.
pub struct ArgsPlanView {
    pub env_arg: Option<usize>,
    pub connection_arg: Option<usize>,
    pub normal_args: Seq<usize>,
}

impl JobArgsPlan {
    pub open spec fn view(&self) -> ArgsPlanView {
        ArgsPlanView {
            env_arg: self.env_arg,
            connection_arg: self.connection_arg,
            normal_args: self.normal_args@,
        }
    }
}

/// The last segment of a path is `needle`, without generic arguments.
pub open spec fn path_ends_with_spec(last_segment: Option<PathSegmentShape>, needle: Seq<char>) -> bool {
    match last_segment {
        Some(seg) => !seg.has_arguments && seg.ident@ == needle,
        None => false,
    }
}

/// The type name by which a parameter asks for the connection pool.
pub open spec fn pool_type_name() -> Seq<char> {
    "DieselPool"@
}

/// What the parameter at index `i` becomes, by its pattern and type alone:
/// a shared reference is the environment, a path ending in `DieselPool` the
/// connection pool, anything else an argument.
pub open spec fn arg_kind_spec(i: usize, pattern: PatternShape, ty: TypeShape) -> Result<ArgKind, SignatureError> {
    match ty {
        TypeShape::Reference { mutable } => if mutable {
            Err(SignatureError::MutReference(i))
        } else {
            Ok(ArgKind::Env)
        },
        TypeShape::Path { last_segment } => if path_ends_with_spec(last_segment, pool_type_name()) {
            if pattern is Other {
                Err(SignatureError::ConnectionNotIdent(i))
            } else {
                Ok(ArgKind::Connection)
            }
        } else {
            Ok(ArgKind::Normal)
        },
        TypeShape::Other => Ok(ArgKind::Normal),
    }
}

/// The plan after the parameter at index `i` was added to plan `p`.
pub open spec fn param_step(p: ArgsPlanView, i: usize, param: ParamShape) -> Result<ArgsPlanView, SignatureError> {
    match param {
        ParamShape::Receiver => Err(SignatureError::TakesSelf(i)),
        ParamShape::Typed { pattern, ty } => if !(pattern is SimpleIdent) {
            Err(SignatureError::Pattern(i))
        } else {
            match arg_kind_spec(i, pattern, ty) {
                Err(e) => Err(e),
                Ok(ArgKind::Env) => if p.env_arg is Some {
                    Err(SignatureError::DuplicateEnv(i))
                } else {
                    Ok(ArgsPlanView { env_arg: Some(i), ..p })
                },
                Ok(ArgKind::Connection) => if p.connection_arg is Some {
                    Err(SignatureError::DuplicateConnection(i))
                } else {
                    Ok(ArgsPlanView { connection_arg: Some(i), ..p })
                },
                Ok(ArgKind::Normal) => Ok(ArgsPlanView { normal_args: p.normal_args.push(i), ..p }),
            }
        },
    }
}

/// The plan for the first `n` parameters, or the first error among them.
pub open spec fn plan_prefix(inputs: Seq<ParamShape>, n: nat) -> Result<ArgsPlanView, SignatureError>
    decreases n,
{
    if n == 0 {
        Ok(ArgsPlanView { env_arg: None, connection_arg: None, normal_args: Seq::empty() })
    } else {
        match plan_prefix(inputs, (n - 1) as nat) {
            Err(e) => Err(e),
            Ok(p) => param_step(p, (n - 1) as usize, inputs[n - 1]),
        }
    }
}

/// The plan for a whole signature: the function itself is checked first
/// (not `const`, not `unsafe`, no ABI, no generic parameters, no `where`
/// clause, in that order), then its parameters one by one.
pub open spec fn analyze_spec(sig: SignatureShape) -> Result<ArgsPlanView, SignatureError> {
    if sig.is_const {
        Err(SignatureError::ConstFn)
    } else if sig.is_unsafe {
        Err(SignatureError::UnsafeFn)
    } else if sig.has_abi {
        Err(SignatureError::AbiFn)
    } else if sig.has_generic_params {
        Err(SignatureError::GenericFn)
    } else if sig.has_where_clause {
        Err(SignatureError::WhereClause)
    } else {
        plan_prefix(sig.inputs@, sig.inputs@.len())
    }
}

/// Once a prefix of the parameters fails, every longer prefix fails the same way.
proof fn lemma_error_persists(inputs: Seq<ParamShape>, m: nat, n: nat, e: SignatureError)
    requires
        m <= n,
        plan_prefix(inputs, m) == Err::<ArgsPlanView, SignatureError>(e),
    ensures
        plan_prefix(inputs, n) == Err::<ArgsPlanView, SignatureError>(e),
    decreases n - m,
{
    if m < n {
        lemma_error_persists(inputs, m, (n - 1) as nat, e);
    }
}

/// Whether the last segment of a path is `needle`, without generic arguments.
pub fn path_ends_with(last_segment: &Option<PathSegmentShape>, needle: &str) -> (b: bool)
    ensures
        b == path_ends_with_spec(*last_segment, needle@),
        b == (*last_segment matches Some(seg) && !seg.has_arguments && seg.ident@ == needle@),
{
    match last_segment {
        Some(seg) => {
            if seg.has_arguments {
                false
            } else {
                let needle = needle.to_owned();
                seg.ident == needle
            }
        },
        None => false,
    }
}

/// Whether a path type names the connection pool.
pub fn is_connection_arg(last_segment: &Option<PathSegmentShape>) -> (b: bool)
    ensures
        b == path_ends_with_spec(*last_segment, pool_type_name()),
{
    path_ends_with(last_segment, "DieselPool")
}

/// What the parameter at index `i` becomes, by its pattern and type alone.
pub fn arg_kind(i: usize, pattern: &PatternShape, ty: &TypeShape) -> (r: Result<ArgKind, SignatureError>)
    ensures
        r == arg_kind_spec(i, *pattern, *ty),
{
    match ty {
        TypeShape::Reference { mutable } => {
            if *mutable {
                Err(SignatureError::MutReference(i))
            } else {
                Ok(ArgKind::Env)
            }
        },
        TypeShape::Path { last_segment } => {
            if is_connection_arg(last_segment) {
                match pattern {
                    PatternShape::Other => Err(SignatureError::ConnectionNotIdent(i)),
                    _ => Ok(ArgKind::Connection),
                }
            } else {
                Ok(ArgKind::Normal)
            }
        },
        TypeShape::Other => Ok(ArgKind::Normal),
    }
}

/// Checks a function for the `background_job` attribute and sorts its
/// parameters, or reports the first thing the attribute refuses.
pub fn analyze_signature(sig: &SignatureShape) -> (r: Result<JobArgsPlan, SignatureError>)
    ensures
        match r {
            Ok(plan) => analyze_spec(*sig) == Ok::<ArgsPlanView, SignatureError>(plan@),
            Err(e) => analyze_spec(*sig) == Err::<ArgsPlanView, SignatureError>(e),
        },
{
    if sig.is_const {
        return Err(SignatureError::ConstFn);
    }
    if sig.is_unsafe {
        return Err(SignatureError::UnsafeFn);
    }
    if sig.has_abi {
        return Err(SignatureError::AbiFn);
    }
    if sig.has_generic_params {
        return Err(SignatureError::GenericFn);
    }
    if sig.has_where_clause {
        return Err(SignatureError::WhereClause);
    }
    let ghost inputs = sig.inputs@;
    let mut plan = JobArgsPlan { env_arg: None, connection_arg: None, normal_args: Vec::new() };
    let mut i: usize = 0;
    while i < sig.inputs.len()
        invariant
            inputs == sig.inputs@,
            !sig.is_const && !sig.is_unsafe && !sig.has_abi,
            !sig.has_generic_params && !sig.has_where_clause,
            i <= inputs.len(),
            plan_prefix(inputs, i as nat) == Ok::<ArgsPlanView, SignatureError>(plan@),
        decreases inputs.len() - i,
    {
        let step: Result<(), SignatureError> = match &sig.inputs[i] {
            ParamShape::Receiver => Err(SignatureError::TakesSelf(i)),
            ParamShape::Typed { pattern, ty } => {
                match pattern {
                    PatternShape::SimpleIdent => {
                        match arg_kind(i, pattern, ty) {
                            Err(e) => Err(e),
                            Ok(ArgKind::Env) => {
                                if plan.env_arg.is_some() {
                                    Err(SignatureError::DuplicateEnv(i))
                                } else {
                                    plan.env_arg = Some(i);
                                    Ok(())
                                }
                            },
                            Ok(ArgKind::Connection) => {
                                if plan.connection_arg.is_some() {
                                    Err(SignatureError::DuplicateConnection(i))
                                } else {
                                    plan.connection_arg = Some(i);
                                    Ok(())
                                }
                            },
                            Ok(ArgKind::Normal) => {
                                plan.normal_args.push(i);
                                Ok(())
                            },
                        }
                    },
                    _ => Err(SignatureError::Pattern(i)),
                }
            },
        };
        match step {
            Err(e) => {
                proof {
                    assert(plan_prefix(inputs, (i + 1) as nat) == Err::<ArgsPlanView, SignatureError>(e));
                    lemma_error_persists(inputs, (i + 1) as nat, inputs.len(), e);
                }
                return Err(e);
            },
            Ok(()) => {
                assert(plan_prefix(inputs, (i + 1) as nat) == Ok::<ArgsPlanView, SignatureError>(plan@));
            },
        }
        i = i + 1;
    }
    Ok(plan)
}

/// The message under which the attribute reports an error.
pub open spec fn signature_error_text(e: SignatureError) -> Seq<char> {
    match e {
        SignatureError::ConstFn => "#[swirl::background_job] cannot be used on const functions"@,
        SignatureError::UnsafeFn => "#[swirl::background_job] cannot be used on unsafe functions"@,
        SignatureError::AbiFn => "#[swirl::background_job] cannot be used on functions with an abi"@,
        SignatureError::GenericFn => "#[swirl::background_job] cannot be used on generic functions"@,
        SignatureError::WhereClause => "#[swirl::background_job] cannot be used on functions with a where clause"@,
        SignatureError::TakesSelf(_) => "Background jobs cannot take self"@,
        SignatureError::Pattern(_) => "#[swirl::background_job] cannot yet handle patterns"@,
        SignatureError::MutReference(_) => "Unexpected `mut`"@,
        SignatureError::DuplicateEnv(_) => "Background job functions cannot take references as arguments"@,
        SignatureError::DuplicateConnection(_) => "Multiple database connection arguments in job function"@,
        SignatureError::ConnectionNotIdent(_) => "Expected an identifier for the DB connection parameter"@,
    }
}

/// The hint added to an error, if any.
pub open spec fn signature_error_help(e: SignatureError) -> Option<Seq<char>> {
    match e {
        SignatureError::DuplicateConnection(_) => Some(
            "To take a connection pool as an argument, define an argument of the type`swirl::DieselPool`"@,
        ),
        _ => None,
    }
}

impl SignatureError {
    /// The index of the refused parameter, for errors about one parameter.
    pub fn param_index(&self) -> (r: Option<usize>)
        ensures
            r == match *self {
                SignatureError::TakesSelf(i) => Some(i),
                SignatureError::Pattern(i) => Some(i),
                SignatureError::MutReference(i) => Some(i),
                SignatureError::DuplicateEnv(i) => Some(i),
                SignatureError::DuplicateConnection(i) => Some(i),
                SignatureError::ConnectionNotIdent(i) => Some(i),
                _ => None::<usize>,
            },
    {
        match *self {
            SignatureError::TakesSelf(i) => Some(i),
            SignatureError::Pattern(i) => Some(i),
            SignatureError::MutReference(i) => Some(i),
            SignatureError::DuplicateEnv(i) => Some(i),
            SignatureError::DuplicateConnection(i) => Some(i),
            SignatureError::ConnectionNotIdent(i) => Some(i),
            _ => None,
        }
    }

    /// The message under which this error is reported.
    pub fn message(&self) -> (s: String)
        ensures
            s@ == signature_error_text(*self),
    {
        match self {
            SignatureError::ConstFn => String::from_str("#[swirl::background_job] cannot be used on const functions"),
            SignatureError::UnsafeFn => String::from_str("#[swirl::background_job] cannot be used on unsafe functions"),
            SignatureError::AbiFn => String::from_str("#[swirl::background_job] cannot be used on functions with an abi"),
            SignatureError::GenericFn => String::from_str("#[swirl::background_job] cannot be used on generic functions"),
            SignatureError::WhereClause => String::from_str(
                "#[swirl::background_job] cannot be used on functions with a where clause",
            ),
            SignatureError::TakesSelf(_) => String::from_str("Background jobs cannot take self"),
            SignatureError::Pattern(_) => String::from_str("#[swirl::background_job] cannot yet handle patterns"),
            SignatureError::MutReference(_) => String::from_str("Unexpected `mut`"),
            SignatureError::DuplicateEnv(_) => String::from_str(
                "Background job functions cannot take references as arguments",
            ),
            SignatureError::DuplicateConnection(_) => String::from_str(
                "Multiple database connection arguments in job function",
            ),
            SignatureError::ConnectionNotIdent(_) => String::from_str(
                "Expected an identifier for the DB connection parameter",
            ),
        }
    }

    /// The hint added to this error, if any.
    pub fn help(&self) -> (s: Option<String>)
        ensures
            match signature_error_help(*self) {
                Some(t) => s matches Some(h) && h@ == t,
                None => s is None,
            },
    {
        match self {
            SignatureError::DuplicateConnection(_) => Some(String::from_str(
                "To take a connection pool as an argument, define an argument of the type`swirl::DieselPool`",
            )),
            _ => None,
        }
    }
}

/// The kind that the parameter at index `i` of `inputs` was sorted as.
pub open spec fn sorted_as(inputs: Seq<ParamShape>, i: usize, kind: ArgKind) -> bool {
    inputs[i as int] matches ParamShape::Typed { pattern, ty } && pattern is SimpleIdent
        && arg_kind_spec(i, pattern, ty) == Ok::<ArgKind, SignatureError>(kind)
}

/// A plan for the first `n` parameters of `inputs` places each of them
/// exactly once: as the environment, as the connection pool, or among the
/// arguments, in their order; and each went where its kind says.
pub open spec fn plan_places_each_param(inputs: Seq<ParamShape>, n: nat, p: ArgsPlanView) -> bool {
    &&& forall|i: usize|
        (i as int) < n ==> (p.env_arg == Some(i) || p.connection_arg == Some(i)
            || p.normal_args.contains(i))
    &&& p.env_arg matches Some(e) ==> (e as int) < n && sorted_as(inputs, e, ArgKind::Env)
        && !p.normal_args.contains(e) && p.connection_arg != Some(e)
    &&& p.connection_arg matches Some(c) ==> (c as int) < n && sorted_as(inputs, c, ArgKind::Connection)
        && !p.normal_args.contains(c)
    &&& forall|k: int|
        0 <= k < p.normal_args.len() ==> (p.normal_args[k] as int) < n && sorted_as(
            inputs,
            #[trigger] p.normal_args[k],
            ArgKind::Normal,
        )
    &&& forall|a: int, b: int|
        0 <= a < b < p.normal_args.len() ==> p.normal_args[a] < p.normal_args[b]
}

/// Every plan that the attribute accepts places each parameter exactly once,
/// so a job takes at most one environment and at most one connection pool,
/// and keeps its other arguments in order.
pub proof fn law_plan_places_each_param(inputs: Seq<ParamShape>, n: nat)
    requires
        n <= inputs.len(),
        n <= usize::MAX + 1,
        plan_prefix(inputs, n) is Ok,
    ensures
        plan_places_each_param(inputs, n, plan_prefix(inputs, n)->Ok_0),
    decreases n,
{
    if n > 0 {
        let m = (n - 1) as nat;
        law_plan_places_each_param(inputs, m);
        let p = plan_prefix(inputs, m)->Ok_0;
        let q = plan_prefix(inputs, n)->Ok_0;
        let i = m as usize;
        assert forall|j: usize| (j as int) < n implies (q.env_arg == Some(j) || q.connection_arg == Some(
            j,
        ) || q.normal_args.contains(j)) by {
            if (j as int) < m {
                if p.normal_args.contains(j) {
                    let k = choose|k: int| 0 <= k < p.normal_args.len() && p.normal_args[k] == j;
                    assert(q.normal_args[k] == j);
                }
            } else {
                if q.normal_args.len() > p.normal_args.len() {
                    assert(q.normal_args[q.normal_args.len() - 1] == j);
                }
            }
        }
        if q.normal_args.len() > p.normal_args.len() {
            assert(q.normal_args == p.normal_args.push(i));
            assert forall|k: int| 0 <= k < q.normal_args.len() implies (q.normal_args[k] as int) < n
                && sorted_as(inputs, #[trigger] q.normal_args[k], ArgKind::Normal) by {
                if k < p.normal_args.len() {
                    assert(q.normal_args[k] == p.normal_args[k]);
                }
            }
            if let Some(e) = q.env_arg {
                assert(!q.normal_args.contains(e)) by {
                    if q.normal_args.contains(e) {
                        let k = choose|k: int| 0 <= k < q.normal_args.len() && q.normal_args[k] == e;
                        if k < p.normal_args.len() {
                            assert(p.normal_args[k] == e);
                        }
                    }
                }
            }
            if let Some(c) = q.connection_arg {
                assert(!q.normal_args.contains(c)) by {
                    if q.normal_args.contains(c) {
                        let k = choose|k: int| 0 <= k < q.normal_args.len() && q.normal_args[k] == c;
                        if k < p.normal_args.len() {
                            assert(p.normal_args[k] == c);
                        }
                    }
                }
            }
        } else {
            assert(q.normal_args == p.normal_args);
            if let Some(e) = q.env_arg {
                if e == i {
                    assert(!p.normal_args.contains(i)) by {
                        if p.normal_args.contains(i) {
                            let k = choose|k: int| 0 <= k < p.normal_args.len() && p.normal_args[k] == i;
                        }
                    }
                }
            }
            if let Some(c) = q.connection_arg {
                if c == i {
                    assert(!p.normal_args.contains(i)) by {
                        if p.normal_args.contains(i) {
                            let k = choose|k: int| 0 <= k < p.normal_args.len() && p.normal_args[k] == i;
                        }
                    }
                }
            }
        }
    }
}

/// A parameter that asks for the shared environment: a plain name whose type
/// is a shared reference.
pub open spec fn names_env(p: ParamShape) -> bool {
    p matches ParamShape::Typed { pattern: PatternShape::SimpleIdent, ty: TypeShape::Reference { mutable: false } }
}

/// A parameter that asks for the connection pool: a plain name whose type is
/// a path whose last segment is exactly `DieselPool`, with no generic arguments.
pub open spec fn names_pool(p: ParamShape) -> bool {
    p matches ParamShape::Typed { pattern: PatternShape::SimpleIdent, ty: TypeShape::Path { last_segment: Some(seg) } }
        && seg.ident@ == "DieselPool"@ && !seg.has_arguments
}

/// A parameter the attribute can take at all: a plain name whose type is not
/// a mutable reference.
pub open spec fn acceptable_param(p: ParamShape) -> bool {
    p matches ParamShape::Typed { pattern: PatternShape::SimpleIdent, ty } && !(ty matches TypeShape::Reference {
        mutable: true,
    })
}

/// The first `n` parameters are all acceptable, and at most one of them asks
/// for the environment and at most one for the connection pool.
pub open spec fn params_acceptable(inputs: Seq<ParamShape>, n: nat) -> bool {
    &&& forall|i: int| 0 <= i < n ==> acceptable_param(#[trigger] inputs[i])
    &&& forall|i: int, j: int|
        0 <= i < j < n ==> !(names_env(#[trigger] inputs[i]) && names_env(#[trigger] inputs[j]))
    &&& forall|i: int, j: int|
        0 <= i < j < n ==> !(names_pool(#[trigger] inputs[i]) && names_pool(#[trigger] inputs[j]))
}

/// How one plainly named parameter is sorted, by its type: a shared
/// reference is the environment; a path whose last segment is exactly
/// `DieselPool` without generic arguments is the connection pool; a mutable
/// reference is refused; every other type (other paths, `Vec<T>`, arrays,
/// tuples, ...) is a stored argument.
pub proof fn law_param_kind_by_type(i: usize, ty: TypeShape)
    ensures
        arg_kind_spec(i, PatternShape::SimpleIdent, ty) == Ok::<ArgKind, SignatureError>(ArgKind::Env)
            <==> names_env(ParamShape::Typed { pattern: PatternShape::SimpleIdent, ty }),
        arg_kind_spec(i, PatternShape::SimpleIdent, ty) == Ok::<ArgKind, SignatureError>(ArgKind::Connection)
            <==> names_pool(ParamShape::Typed { pattern: PatternShape::SimpleIdent, ty }),
        arg_kind_spec(i, PatternShape::SimpleIdent, ty) is Err <==> (ty matches TypeShape::Reference {
            mutable: true,
        }),
        arg_kind_spec(i, PatternShape::SimpleIdent, ty) == Ok::<ArgKind, SignatureError>(ArgKind::Normal)
            <==> (acceptable_param(ParamShape::Typed { pattern: PatternShape::SimpleIdent, ty })
            && !names_env(ParamShape::Typed { pattern: PatternShape::SimpleIdent, ty })
            && !names_pool(ParamShape::Typed { pattern: PatternShape::SimpleIdent, ty })),
{
    reveal_strlit("DieselPool");
}

/// The parameters of a function are accepted exactly when each is a plain
/// name whose type is not a mutable reference, at most one asks for the
/// environment and at most one for the connection pool. Then the plan has an
/// environment exactly when some parameter asks for it, and likewise for the
/// pool.
pub proof fn law_accepted_params(inputs: Seq<ParamShape>, n: nat)
    requires
        n <= inputs.len(),
        n <= usize::MAX + 1,
    ensures
        plan_prefix(inputs, n) is Ok <==> params_acceptable(inputs, n),
        plan_prefix(inputs, n) is Ok ==> ((plan_prefix(inputs, n)->Ok_0.env_arg is Some <==> exists|i: int|
            0 <= i < n && names_env(#[trigger] inputs[i])) && (plan_prefix(inputs, n)->Ok_0.connection_arg is Some
            <==> exists|i: int| 0 <= i < n && names_pool(#[trigger] inputs[i]))),
    decreases n,
{
    reveal_strlit("DieselPool");
    if n > 0 {
        let m = (n - 1) as nat;
        law_accepted_params(inputs, m);
        let x = inputs[m as int];
        if let ParamShape::Typed { pattern, ty } = x {
            law_param_kind_by_type(m as usize, ty);
        }
        if params_acceptable(inputs, n) {
            assert(params_acceptable(inputs, m));
        }
        if params_acceptable(inputs, m) && plan_prefix(inputs, n) is Ok {
            let p = plan_prefix(inputs, m)->Ok_0;
            assert(acceptable_param(x));
            assert forall|i: int, j: int| 0 <= i < j < n implies !(names_env(#[trigger] inputs[i]) && names_env(
                #[trigger] inputs[j],
            )) by {
                if j == m && names_env(inputs[i]) && names_env(inputs[j]) {
                    assert(p.env_arg is Some);
                }
            }
            assert forall|i: int, j: int| 0 <= i < j < n implies !(names_pool(#[trigger] inputs[i]) && names_pool(
                #[trigger] inputs[j],
            )) by {
                if j == m && names_pool(inputs[i]) && names_pool(inputs[j]) {
                    assert(p.connection_arg is Some);
                }
            }
        }
        if plan_prefix(inputs, n) is Ok {
            let p = plan_prefix(inputs, m)->Ok_0;
            let q = plan_prefix(inputs, n)->Ok_0;
            if names_env(x) {
                assert(q.env_arg is Some);
            }
            if names_pool(x) {
                assert(q.connection_arg is Some);
            }
            if q.env_arg is Some && !names_env(x) {
                assert(p.env_arg is Some);
                let i = choose|i: int| 0 <= i < m && names_env(#[trigger] inputs[i]);
                assert(0 <= i < n && names_env(inputs[i]));
            }
            if q.connection_arg is Some && !names_pool(x) {
                assert(p.connection_arg is Some);
                let i = choose|i: int| 0 <= i < m && names_pool(#[trigger] inputs[i]);
                assert(0 <= i < n && names_pool(inputs[i]));
            }
            if exists|i: int| 0 <= i < n && names_env(#[trigger] inputs[i]) {
                let i = choose|i: int| 0 <= i < n && names_env(#[trigger] inputs[i]);
                if i < m {
                    assert(p.env_arg is Some);
                }
            }
            if exists|i: int| 0 <= i < n && names_pool(#[trigger] inputs[i]) {
                let i = choose|i: int| 0 <= i < n && names_pool(#[trigger] inputs[i]);
                if i < m {
                    assert(p.connection_arg is Some);
                }
            }
        }
        if params_acceptable(inputs, n) && !(plan_prefix(inputs, n) is Ok) {
            let p = plan_prefix(inputs, m)->Ok_0;
            assert(acceptable_param(x));
            if names_env(x) && p.env_arg is Some {
                let i = choose|i: int| 0 <= i < m && names_env(#[trigger] inputs[i]);
                assert(names_env(inputs[i]) && names_env(inputs[m as int]));
            }
            if names_pool(x) && p.connection_arg is Some {
                let i = choose|i: int| 0 <= i < m && names_pool(#[trigger] inputs[i]);
                assert(names_pool(inputs[i]) && names_pool(inputs[m as int]));
            }
        }
    }
}

/// A function is accepted exactly when it is not `const`, not `unsafe`, has
/// no ABI, no generic parameters and no `where` clause, and its parameters
/// are acceptable: plain names, no mutable references, at most one
/// environment and at most one connection pool.
pub proof fn law_accepted_functions(sig: SignatureShape)
    requires
        sig.inputs@.len() <= usize::MAX,
    ensures
        analyze_spec(sig) is Ok <==> (!sig.is_const && !sig.is_unsafe && !sig.has_abi
            && !sig.has_generic_params && !sig.has_where_clause && params_acceptable(
            sig.inputs@,
            sig.inputs@.len(),
        )),
{
    law_accepted_params(sig.inputs@, sig.inputs@.len());
}

} // verus!
