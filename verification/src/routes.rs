//! The route compiler: from a service endpoint of a resolved spec to the URL
//! pattern that matches its requests, its method, and the types bound to its
//! path variables, query, body and result.

use crate::ast::{
    clone_type_ident, components_view, opt_type_view, type_model, types_view, AtomType, ComponentModel, FieldDefPair,
    HttpMethod, ItemModel, PairModel, RouteModel, ServiceEndpoint, ServiceRouteComponent, Spec, SpecItem, TypeIdent, TypeModel,
};
use crate::error::{CompileError, CompileErrorModel};
use vstd::prelude::*;
use vstd::string::StringExecFns;

verus! {

/// The first entry of `s` that is not `None`.
pub open spec fn first_some<E>(s: Seq<Option<E>>) -> Option<E>
    decreases s.len(),
{
    if s.len() == 0 {
        None
    } else {
        match first_some(s.drop_last()) {
            Some(e) => Some(e),
            None => s.last(),
        }
    }
}

/// An entry with nothing but `None` before it is the first that is not `None`.
pub proof fn first_some_at<E>(s: Seq<Option<E>>, k: int)
    requires
        0 <= k < s.len(),
        forall|j: int| 0 <= j < k ==> s[j] is None,
        s[k] is Some,
    ensures
        first_some(s) == s[k],
    decreases s.len(),
{
    if k == s.len() - 1 {
        if k > 0 {
            first_some_none(s.drop_last());
        }
    } else {
        first_some_at(s.drop_last(), k);
    }
}

/// Where every entry is `None`, no first one is not.
pub proof fn first_some_none<E>(s: Seq<Option<E>>)
    requires
        forall|j: int| 0 <= j < s.len() ==> s[j] is None,
    ensures
        first_some(s) is None,
    decreases s.len(),
{
    if s.len() > 0 {
        first_some_none(s.drop_last());
    }
}

/// Whether an item defines a struct or an enum called `name`.
pub open spec fn defines(item: ItemModel, name: Seq<char>) -> bool {
    match item {
        ItemModel::StructDef { name: n, .. } => n == name,
        ItemModel::EnumDef { name: n, .. } => n == name,
        ItemModel::ServiceDef { .. } => false,
    }
}

/// Whether the spec defines a struct or an enum called `name`.
pub open spec fn type_defined(spec: Seq<ItemModel>, name: Seq<char>) -> bool {
    exists|i: int| 0 <= i < spec.len() && defines(#[trigger] spec[i], name)
}

/// Whether a type can key a map: only string-like atoms can.
pub open spec fn is_string_like(t: TypeModel) -> bool {
    t == TypeModel::BuiltIn(AtomType::Str) || t == TypeModel::BuiltIn(AtomType::Uuid) || t
        == TypeModel::BuiltIn(AtomType::Bytes)
}

/// The first thing wrong with a type, reading it left to right: a map key
/// that is not string-like, or a user-defined name that the spec lacks.
pub open spec fn type_defect(spec: Seq<ItemModel>, t: TypeModel) -> Option<CompileErrorModel>
    decreases t, 0nat,
{
    match t {
        TypeModel::BuiltIn(_) => None,
        TypeModel::List(e) => type_defect(spec, *e),
        TypeModel::Optional(e) => type_defect(spec, *e),
        TypeModel::Either(o, e) => match type_defect(spec, *o) {
            Some(d) => Some(d),
            None => type_defect(spec, *e),
        },
        TypeModel::Dict(k, v) => if !is_string_like(*k) {
            Some(CompileErrorModel::MapKeyNotStringLike)
        } else {
            type_defect(spec, *v)
        },
        TypeModel::Tuple(ts) => tuple_defect(spec, ts, ts.len()),
        TypeModel::UserDefined(n) => if type_defined(spec, n) {
            None
        } else {
            Some(CompileErrorModel::UnresolvedTypeReference(n))
        },
    }
}

/// The first defect among the first `n` element types of a tuple.
pub open spec fn tuple_defect(spec: Seq<ItemModel>, ts: Seq<TypeModel>, n: nat) -> Option<
    CompileErrorModel,
>
    decreases ts, n,
{
    if n == 0 || n > ts.len() {
        None
    } else {
        match tuple_defect(spec, ts, (n - 1) as nat) {
            Some(e) => Some(e),
            None => type_defect(spec, ts[n - 1]),
        }
    }
}

/// A defect among the first `k` elements is the first defect among more.
pub proof fn tuple_defect_stands(spec: Seq<ItemModel>, ts: Seq<TypeModel>, k: nat, n: nat)
    requires
        tuple_defect(spec, ts, k) is Some,
        k <= n <= ts.len(),
    ensures
        tuple_defect(spec, ts, n) == tuple_defect(spec, ts, k),
    decreases n,
{
    if k < n {
        tuple_defect_stands(spec, ts, k, (n - 1) as nat);
    }
}

/// Whether a variable called `name` stands among the first `k` components.
pub open spec fn variable_before(comps: Seq<ComponentModel>, k: int, name: Seq<char>) -> bool {
    exists|j: int|
        0 <= j < k && j < comps.len() && #[trigger] comps[j] is Variable
            && comps[j]->Variable_0.name == name
}

/// What is wrong with the component at `k`: a variable named like an earlier
/// one, or else the first defect of its type. A literal has no defect.
pub open spec fn component_defect(spec: Seq<ItemModel>, comps: Seq<ComponentModel>, k: int)
    -> Option<CompileErrorModel> {
    match comps[k] {
        ComponentModel::Literal(_) => None,
        ComponentModel::Variable(p) => if variable_before(comps, k, p.name) {
            Some(CompileErrorModel::DuplicateRouteVariable(p.name))
        } else {
            type_defect(spec, p.type_ident)
        },
    }
}

/// The defects of a route's components, one entry per component.
pub open spec fn component_defects(spec: Seq<ItemModel>, comps: Seq<ComponentModel>) -> Seq<
    Option<CompileErrorModel>,
> {
    Seq::new(comps.len(), |k: int| component_defect(spec, comps, k))
}

/// What is wrong with a query type: it must be user-defined, and defined.
pub open spec fn query_defect(spec: Seq<ItemModel>, q: Option<TypeModel>) -> Option<
    CompileErrorModel,
> {
    match q {
        None => None,
        Some(TypeModel::UserDefined(n)) => type_defect(spec, TypeModel::UserDefined(n)),
        Some(_) => Some(CompileErrorModel::QueryNotUserDefined),
    }
}

/// What is wrong with an optional body type.
pub open spec fn body_defect(spec: Seq<ItemModel>, b: Option<TypeModel>) -> Option<
    CompileErrorModel,
> {
    match b {
        None => None,
        Some(t) => type_defect(spec, t),
    }
}

/// The first thing wrong with a route: its components in order, then its
/// query, its body and its return type.
pub open spec fn route_defect(spec: Seq<ItemModel>, r: RouteModel) -> Option<CompileErrorModel> {
    match first_some(component_defects(spec, r.components)) {
        Some(e) => Some(e),
        None => match query_defect(spec, r.query) {
            Some(e) => Some(e),
            None => match body_defect(spec, r.body) {
                Some(e) => Some(e),
                None => type_defect(spec, r.ret),
            },
        },
    }
}

/// The pattern of one component: a slash, then the literal itself, or a
/// capture group named as the variable that takes one path segment.
pub open spec fn component_pattern(c: ComponentModel) -> Seq<char> {
    match c {
        ComponentModel::Literal(s) => "/"@ + s,
        ComponentModel::Variable(p) => "/(?P<"@ + p.name + ">"@ + "[^/]+"@ + ")"@,
    }
}

/// The patterns of the components, one after the other.
pub open spec fn components_pattern(comps: Seq<ComponentModel>) -> Seq<char>
    decreases comps.len(),
{
    if comps.len() == 0 {
        Seq::empty()
    } else {
        components_pattern(comps.drop_last()) + component_pattern(comps.last())
    }
}

/// The anchored URL pattern of a route, matched against the path that is left
/// behind the service's mount prefix.
pub open spec fn url_pattern(comps: Seq<ComponentModel>) -> Seq<char> {
    "^"@ + components_pattern(comps) + "$"@
}

/// The variables among the components, in declaration order.
pub open spec fn variables_of(comps: Seq<ComponentModel>) -> Seq<PairModel>
    decreases comps.len(),
{
    if comps.len() == 0 {
        Seq::empty()
    } else {
        match comps.last() {
            ComponentModel::Literal(_) => variables_of(comps.drop_last()),
            ComponentModel::Variable(p) => variables_of(comps.drop_last()).push(p),
        }
    }
}

/// The name of a component as it goes into the name of a handler: a literal
/// itself, a variable's name.
pub open spec fn component_name(c: ComponentModel) -> Seq<char> {
    match c {
        ComponentModel::Literal(s) => s,
        ComponentModel::Variable(p) => p.name,
    }
}

/// The names of the first `n` components, joined by underscores.
pub open spec fn name_stem(comps: Seq<ComponentModel>, n: nat) -> Seq<char>
    decreases n,
{
    if n == 0 || n > comps.len() {
        Seq::empty()
    } else if n == 1 {
        component_name(comps[0])
    } else {
        name_stem(comps, (n - 1) as nat) + "_"@ + component_name(comps[n - 1])
    }
}

/// The word for a method at the head of the name of a handler.
pub open spec fn method_word(m: HttpMethod) -> Seq<char> {
    match m {
        HttpMethod::Get => "get"@,
        HttpMethod::Post => "post"@,
        HttpMethod::Put => "put"@,
        HttpMethod::Patch => "patch"@,
        HttpMethod::Delete => "delete"@,
    }
}

/// A text in snake case, which is what
/// `inflector::cases::snakecase::to_snake_case` returns for it.
pub uninterp spec fn snake_case_of(text: Seq<char>) -> Seq<char>;

/// Calls `inflector::cases::snakecase::to_snake_case`, which rewrites a text
/// in snake case.
#[verifier::external_body]
fn to_snake_case(text: &str) -> (r: String)
    ensures
        r@ == snake_case_of(text@),
{
    inflector::cases::snakecase::to_snake_case(text)
}

/// The name of the handler of a route: the word for its method, an
/// underscore, and the names of its components in snake case.
pub open spec fn handler_name_model(r: RouteModel) -> Seq<char> {
    method_word(r.method) + "_"@ + snake_case_of(name_stem(r.components, r.components.len()))
}

/// A compiled route: what a dispatcher needs to match a request and bind its
/// parts.
#[derive(Debug, PartialEq, Eq)]
pub struct CompiledRoute {
    /// The HTTP method that the route answers.
    pub method: HttpMethod,
    /// The anchored pattern of the path behind the mount prefix.
    pub url_pattern: String,
    /// The name of the function that handles the route.
    pub handler_name: String,
    /// The path variables, in declaration order; each name is a capture group.
    pub variables: Vec<FieldDefPair>,
    /// The query type, decoded from a form-urlencoded query string.
    pub query: Option<TypeIdent>,
    /// The body type, decoded from JSON; absent for GET and DELETE.
    pub body: Option<TypeIdent>,
    /// The type of what the handler returns.
    pub ret: TypeIdent,
}

/// The mathematical value of a `CompiledRoute`.
pub struct CompiledRouteModel {
    pub method: HttpMethod,
    pub url_pattern: Seq<char>,
    pub handler_name: Seq<char>,
    pub variables: Seq<PairModel>,
    pub query: Option<TypeModel>,
    pub body: Option<TypeModel>,
    pub ret: TypeModel,
}

/// The values of a list of field pairs, in order.
pub open spec fn pairs_view(v: Seq<FieldDefPair>) -> Seq<PairModel> {
    Seq::new(v.len(), |i: int| v[i]@)
}

impl View for CompiledRoute {
    type V = CompiledRouteModel;

    open spec fn view(&self) -> CompiledRouteModel {
        CompiledRouteModel {
            method: self.method,
            url_pattern: self.url_pattern@,
            handler_name: self.handler_name@,
            variables: pairs_view(self.variables@),
            query: opt_type_view(self.query),
            body: opt_type_view(self.body),
            ret: self.ret@,
        }
    }
}

/// What a route compiles to.
pub open spec fn compile_model(r: RouteModel) -> CompiledRouteModel {
    CompiledRouteModel {
        method: r.method,
        url_pattern: url_pattern(r.components),
        handler_name: handler_name_model(r),
        variables: variables_of(r.components),
        query: r.query,
        body: r.body,
        ret: r.ret,
    }
}

/// Whether the spec defines a struct or an enum called `name`.
pub fn is_type_defined(spec: &Spec, name: &String) -> (r: bool)
    ensures
        r == type_defined(spec@, name@),
{
    let mut i: usize = 0;
    while i < spec.0.len()
        invariant
            i <= spec.0.len(),
            forall|j: int| 0 <= j < i ==> !defines(#[trigger] spec@[j], name@),
        decreases spec.0.len() - i,
    {
        assert(spec@[i as int] == spec.0[i as int]@);
        let found = match &spec.0[i] {
            SpecItem::StructDef(d) => d.name == *name,
            SpecItem::EnumDef(d) => d.name == *name,
            SpecItem::ServiceDef(_) => false,
        };
        if found {
            return true;
        }
        i += 1;
    }
    false
}

/// Checks a type against the spec: every user-defined name must be defined
/// and every map key string-like. Returns the first defect, reading the type
/// left to right.
pub fn check_type(spec: &Spec, t: &TypeIdent) -> (r: Result<(), CompileError>)
    ensures
        match type_defect(spec@, t@) {
            Some(e) => r is Err && r->Err_0@ == e,
            None => r is Ok,
        },
    decreases t,
{
    match t {
        TypeIdent::BuiltIn(_) => Ok(()),
        TypeIdent::List(e) => check_type(spec, e),
        TypeIdent::Option(e) => check_type(spec, e),
        TypeIdent::Result(o, e) => match check_type(spec, o) {
            Err(d) => Err(d),
            Ok(()) => check_type(spec, e),
        },
        TypeIdent::Mapping(k, v) => {
            let string_like = match &**k {
                TypeIdent::BuiltIn(AtomType::Str) => true,
                TypeIdent::BuiltIn(AtomType::Uuid) => true,
                TypeIdent::BuiltIn(AtomType::Bytes) => true,
                _ => false,
            };
            proof {
                reveal_with_fuel(type_model, 2);
            }
            if !string_like {
                Err(CompileError::MapKeyNotStringLike)
            } else {
                check_type(spec, v)
            }
        },
        TypeIdent::Tuple(d) => {
            assert(t@->Tuple_0 =~= types_view(d.0@));
            check_types(spec, &d.0)
        },
        TypeIdent::UserDefined(n) => if is_type_defined(spec, n) {
            Ok(())
        } else {
            Err(CompileError::UnresolvedTypeReference(n.clone()))
        },
    }
}

/// Checks a list of types in order, as the elements of a tuple are checked.
pub fn check_types(spec: &Spec, v: &Vec<TypeIdent>) -> (r: Result<(), CompileError>)
    ensures
        match tuple_defect(spec@, types_view(v@), v.len() as nat) {
            Some(e) => r is Err && r->Err_0@ == e,
            None => r is Ok,
        },
    decreases v,
{
    let ghost ts = types_view(v@);
    let mut i: usize = 0;
    while i < v.len()
        invariant
            i <= v.len(),
            ts == types_view(v@),
            tuple_defect(spec@, ts, i as nat) is None,
        decreases v.len() - i,
    {
        proof {
            vstd::std_specs::vec::axiom_vec_index_decreases(*v, i as int);
            assert(ts[i as int] == v[i as int]@);
        }
        match check_type(spec, &v[i]) {
            Err(e) => {
                proof {
                    tuple_defect_stands(spec@, ts, (i + 1) as nat, ts.len());
                }
                return Err(e);
            },
            Ok(()) => {},
        }
        i += 1;
    }
    Ok(())
}

/// Whether a variable called `name` stands among the first `k` components.
fn has_variable_before(comps: &Vec<ServiceRouteComponent>, k: usize, name: &String) -> (r: bool)
    requires
        k <= comps.len(),
    ensures
        r == variable_before(components_view(comps@), k as int, name@),
{
    let ghost cv = components_view(comps@);
    let mut j: usize = 0;
    while j < k
        invariant
            j <= k <= comps.len(),
            cv == components_view(comps@),
            forall|m: int|
                0 <= m < j ==> !(#[trigger] cv[m] is Variable && cv[m]->Variable_0.name == name@),
        decreases k - j,
    {
        assert(cv[j as int] == comps[j as int]@);
        match &comps[j] {
            ServiceRouteComponent::Variable(p) => {
                if p.name == *name {
                    return true;
                }
            },
            ServiceRouteComponent::Literal(_) => {},
        }
        j += 1;
    }
    false
}

/// Checks the components of a route: no two variables of one name, and every
/// variable of a sound type. Returns the first defect in declaration order.
pub fn check_components(spec: &Spec, comps: &Vec<ServiceRouteComponent>) -> (r: Result<
    (),
    CompileError,
>)
    ensures
        match first_some(component_defects(spec@, components_view(comps@))) {
            Some(e) => r is Err && r->Err_0@ == e,
            None => r is Ok,
        },
{
    let ghost cv = components_view(comps@);
    let ghost defects = component_defects(spec@, cv);
    let mut i: usize = 0;
    while i < comps.len()
        invariant
            i <= comps.len(),
            cv == components_view(comps@),
            defects == component_defects(spec@, cv),
            forall|j: int| 0 <= j < i ==> defects[j] is None,
        decreases comps.len() - i,
    {
        assert(cv[i as int] == comps[i as int]@);
        assert(defects[i as int] == component_defect(spec@, cv, i as int));
        match &comps[i] {
            ServiceRouteComponent::Literal(_) => {},
            ServiceRouteComponent::Variable(p) => {
                if has_variable_before(comps, i, &p.name) {
                    proof {
                        first_some_at(defects, i as int);
                    }
                    return Err(CompileError::DuplicateRouteVariable(p.name.clone()));
                }
                match check_type(spec, &p.type_ident) {
                    Err(e) => {
                        proof {
                            first_some_at(defects, i as int);
                        }
                        return Err(e);
                    },
                    Ok(()) => {},
                }
            },
        }
        i += 1;
    }
    proof {
        first_some_none(defects);
    }
    Ok(())
}

/// Checks the query type of a route: where there is one it must be a
/// user-defined type that the spec defines.
pub fn check_query(spec: &Spec, query: &Option<TypeIdent>) -> (r: Result<(), CompileError>)
    ensures
        match query_defect(spec@, opt_type_view(*query)) {
            Some(e) => r is Err && r->Err_0@ == e,
            None => r is Ok,
        },
{
    match query {
        None => Ok(()),
        Some(t) => match t {
            TypeIdent::UserDefined(_) => check_type(spec, t),
            _ => Err(CompileError::QueryNotUserDefined),
        },
    }
}

/// Builds the anchored URL pattern of a route from its components.
pub fn route_url_pattern(comps: &Vec<ServiceRouteComponent>) -> (r: String)
    ensures
        r@ == url_pattern(components_view(comps@)),
{
    let ghost cv = components_view(comps@);
    let mut pattern = String::from_str("^");
    let mut i: usize = 0;
    assert(cv.take(0) =~= Seq::<ComponentModel>::empty());
    assert(pattern@ =~= "^"@ + components_pattern(cv.take(0)));
    while i < comps.len()
        invariant
            i <= comps.len(),
            cv == components_view(comps@),
            pattern@ == "^"@ + components_pattern(cv.take(i as int)),
        decreases comps.len() - i,
    {
        let ghost before = pattern@;
        proof {
            assert(cv.take(i + 1).drop_last() =~= cv.take(i as int));
            assert(cv.take(i + 1).last() == comps[i as int]@);
        }
        match &comps[i] {
            ServiceRouteComponent::Literal(s) => {
                pattern.append("/");
                pattern.append(s.as_str());
                assert(pattern@ =~= before + component_pattern(comps[i as int]@));
            },
            ServiceRouteComponent::Variable(p) => {
                pattern.append("/(?P<");
                pattern.append(p.name.as_str());
                pattern.append(">");
                pattern.append("[^/]+");
                pattern.append(")");
                assert(pattern@ =~= before + component_pattern(comps[i as int]@));
            },
        }
        assert(pattern@ =~= "^"@ + components_pattern(cv.take(i + 1)));
        i += 1;
    }
    assert(cv.take(i as int) =~= cv);
    pattern.append("$");
    pattern
}

/// The variables of a route, in declaration order.
pub fn route_variables(comps: &Vec<ServiceRouteComponent>) -> (r: Vec<FieldDefPair>)
    ensures
        pairs_view(r@) == variables_of(components_view(comps@)),
{
    let ghost cv = components_view(comps@);
    let mut out: Vec<FieldDefPair> = Vec::new();
    let mut i: usize = 0;
    assert(cv.take(0) =~= Seq::<ComponentModel>::empty());
    assert(pairs_view(out@) =~= Seq::<PairModel>::empty());
    while i < comps.len()
        invariant
            i <= comps.len(),
            cv == components_view(comps@),
            pairs_view(out@) == variables_of(cv.take(i as int)),
        decreases comps.len() - i,
    {
        proof {
            assert(cv.take(i + 1).drop_last() =~= cv.take(i as int));
            assert(cv.take(i + 1).last() == comps[i as int]@);
        }
        match &comps[i] {
            ServiceRouteComponent::Literal(_) => {},
            ServiceRouteComponent::Variable(p) => {
                let ghost prev = pairs_view(out@);
                out.push(p.clone());
                assert(pairs_view(out@) =~= prev.push(p@));
            },
        }
        i += 1;
    }
    assert(cv.take(i as int) =~= cv);
    out
}

/// The names of the components of a route, joined by underscores.
pub fn route_name_stem(comps: &Vec<ServiceRouteComponent>) -> (r: String)
    ensures
        r@ == name_stem(components_view(comps@), comps.len() as nat),
{
    let ghost cv = components_view(comps@);
    let mut stem = String::new();
    let mut i: usize = 0;
    while i < comps.len()
        invariant
            i <= comps.len(),
            cv == components_view(comps@),
            stem@ == name_stem(cv, i as nat),
        decreases comps.len() - i,
    {
        let ghost before = stem@;
        assert(cv[i as int] == comps[i as int]@);
        if i > 0 {
            stem.append("_");
        }
        match &comps[i] {
            ServiceRouteComponent::Literal(s) => {
                stem.append(s.as_str());
            },
            ServiceRouteComponent::Variable(p) => {
                stem.append(p.name.as_str());
            },
        }
        proof {
            if i == 0 {
                assert(stem@ =~= component_name(cv[0]));
            } else {
                assert(stem@ =~= before + "_"@ + component_name(cv[i as int]));
            }
        }
        i += 1;
    }
    stem
}

/// The name of the handler of a route with a given method, given the names
/// of its components in snake case.
pub fn handler_name(method: HttpMethod, snake_stem: &str) -> (r: String)
    ensures
        r@ == method_word(method) + "_"@ + snake_stem@,
{
    let mut name = match method {
        HttpMethod::Get => String::from_str("get"),
        HttpMethod::Post => String::from_str("post"),
        HttpMethod::Put => String::from_str("put"),
        HttpMethod::Patch => String::from_str("patch"),
        HttpMethod::Delete => String::from_str("delete"),
    };
    name.append("_");
    name.append(snake_stem);
    name
}

/// Copies an optional type identifier.
fn clone_opt_type(t: &Option<TypeIdent>) -> (r: Option<TypeIdent>)
    ensures
        opt_type_view(r) == opt_type_view(*t),
{
    match t {
        Some(x) => Some(clone_type_ident(x)),
        None => None,
    }
}

/// Compiles one endpoint of a service against the spec that declares it.
///
/// Fails with the route's first defect: a variable named twice, a query type
/// that is not user-defined, a map keyed by a type that is not string-like,
/// or a user-defined type that the spec lacks. Otherwise returns the URL
/// pattern, the method and the bound types.
pub fn lower_service_route(spec: &Spec, endpoint: &ServiceEndpoint) -> (r: Result<
    CompiledRoute,
    CompileError,
>)
    ensures
        match route_defect(spec@, endpoint@.route) {
            Some(e) => r is Err && r->Err_0@ == e,
            None => r is Ok && r->Ok_0@ == compile_model(endpoint@.route),
        },
{
    let route = &endpoint.route;
    let comps = route.components();
    match check_components(spec, comps) {
        Err(e) => {
            return Err(e);
        },
        Ok(()) => {},
    }
    match check_query(spec, route.query()) {
        Err(e) => {
            return Err(e);
        },
        Ok(()) => {},
    }
    let body = match route.body() {
        None => None,
        Some(b) => {
            match check_type(spec, b) {
                Err(e) => {
                    return Err(e);
                },
                Ok(()) => {},
            }
            Some(clone_type_ident(b))
        },
    };
    match check_type(spec, route.return_type()) {
        Err(e) => {
            return Err(e);
        },
        Ok(()) => {},
    }
    let stem = route_name_stem(comps);
    let snake_stem = to_snake_case(stem.as_str());
    Ok(
        CompiledRoute {
            method: route.method(),
            url_pattern: route_url_pattern(comps),
            handler_name: handler_name(route.method(), snake_stem.as_str()),
            variables: route_variables(comps),
            query: clone_opt_type(route.query()),
            body,
            ret: clone_type_ident(route.return_type()),
        },
    )
}

impl Clone for CompiledRoute {
    fn clone(&self) -> (r: Self)
        ensures
            r@ == self@,
    {
        let mut variables: Vec<FieldDefPair> = Vec::new();
        let mut i: usize = 0;
        while i < self.variables.len()
            invariant
                i <= self.variables.len(),
                variables.len() == i,
                forall|j: int| 0 <= j < i ==> (#[trigger] variables[j])@ == self.variables[j]@,
            decreases self.variables.len() - i,
        {
            variables.push(self.variables[i].clone());
            i += 1;
        }
        assert(pairs_view(variables@) =~= pairs_view(self.variables@));
        CompiledRoute {
            method: self.method,
            url_pattern: self.url_pattern.clone(),
            handler_name: self.handler_name.clone(),
            variables,
            query: clone_opt_type(&self.query),
            body: clone_opt_type(&self.body),
            ret: clone_type_ident(&self.ret),
        }
    }
}

} // verus!
