//! The abstract syntax tree of a schema, with a mathematical view of each node.

use vstd::prelude::*;

verus! {

/// A spec node: the top-level item of a schema, an ordered list of definitions.
#[derive(Debug, PartialEq, Eq)]
pub struct Spec(pub Vec<SpecItem>);

/// A spec item node.
#[derive(Debug, PartialEq, Eq)]
pub enum SpecItem {
    /// `struct` definition.
    StructDef(StructDef),
    /// `enum` definition.
    EnumDef(EnumDef),
    /// `service` definition.
    ServiceDef(ServiceDef),
}

/// A struct definition.
#[derive(Debug, PartialEq, Eq)]
pub struct StructDef {
    /// Name of the struct.
    pub name: String,
    /// Fields of the struct.
    pub fields: StructFields,
    /// Documentation comment.
    pub doc_comment: Option<String>,
}

/// Container of struct fields.
#[derive(Debug, PartialEq, Eq)]
pub struct StructFields(pub Vec<FieldNode>);

/// Enum definition.
#[derive(Debug, PartialEq, Eq)]
pub struct EnumDef {
    /// Name of the `enum`.
    pub name: String,
    /// Container of variants.
    pub variants: Vec<VariantDef>,
    /// Documentation comment.
    pub doc_comment: Option<String>,
}

/// A variant definition.
#[derive(Debug, PartialEq, Eq)]
pub struct VariantDef {
    /// Name of the variant.
    pub name: String,
    /// Type of the variant.
    pub variant_type: VariantType,
    /// Documentation comment.
    pub doc_comment: Option<String>,
}

/// An (enum-)variant type.
#[derive(Debug, PartialEq, Eq)]
pub enum VariantType {
    /// Simple C-style variant.
    Simple,
    /// Tuple variant.
    Tuple(TupleDef),
    /// Struct variant.
    Struct(StructFields),
    /// Newtype variant.
    Newtype(TypeIdent),
}

/// A service definition: a named, ordered list of endpoints.
#[derive(Debug, PartialEq, Eq)]
pub struct ServiceDef {
    /// The service name.
    pub name: String,
    /// The doc comment of the service.
    pub doc_comment: Option<String>,
    /// The service endpoints.
    pub endpoints: Vec<ServiceEndpoint>,
}

/// An endpoint within a service definition.
#[derive(Debug, PartialEq, Eq)]
pub struct ServiceEndpoint {
    /// The doc comment of the endpoint.
    pub doc_comment: Option<String>,
    /// The route of the endpoint.
    pub route: ServiceRoute,
}

/// An endpoint's route, tagged by its HTTP method.
#[derive(Debug, PartialEq, Eq)]
pub enum ServiceRoute {
    /// A GET endpoint.
    Get { components: Vec<ServiceRouteComponent>, query: Option<TypeIdent>, ret: TypeIdent },
    /// A POST endpoint.
    Post {
        components: Vec<ServiceRouteComponent>,
        query: Option<TypeIdent>,
        body: TypeIdent,
        ret: TypeIdent,
    },
    /// A DELETE endpoint.
    Delete { components: Vec<ServiceRouteComponent>, query: Option<TypeIdent>, ret: TypeIdent },
    /// A PUT endpoint.
    Put {
        components: Vec<ServiceRouteComponent>,
        query: Option<TypeIdent>,
        body: TypeIdent,
        ret: TypeIdent,
    },
    /// A PATCH endpoint.
    Patch {
        components: Vec<ServiceRouteComponent>,
        query: Option<TypeIdent>,
        body: TypeIdent,
        ret: TypeIdent,
    },
}

/// A component of a route: a fixed path segment or a typed, named variable.
#[derive(Debug, PartialEq, Eq)]
pub enum ServiceRouteComponent {
    Literal(String),
    Variable(FieldDefPair),
}

/// A field node (field definition inside a struct).
#[derive(Debug, PartialEq, Eq)]
pub struct FieldNode {
    pub pair: FieldDefPair,
    /// Documentation comment.
    pub doc_comment: Option<String>,
}

/// A field name with its type.
#[derive(Debug, PartialEq, Eq)]
pub struct FieldDefPair {
    /// Name of the field.
    pub name: String,
    /// Type of the field.
    pub type_ident: TypeIdent,
}

/// A type identifier.
#[derive(Debug, PartialEq, Eq)]
pub enum TypeIdent {
    /// Built-in (atomic) type.
    BuiltIn(AtomType),
    /// `list[T]`
    List(Box<TypeIdent>),
    /// `option[T]`
    Option(Box<TypeIdent>),
    /// `result[T][E]`
    Result(Box<TypeIdent>, Box<TypeIdent>),
    /// `map[K][V]`
    Mapping(Box<TypeIdent>, Box<TypeIdent>),
    /// Tuple type.
    Tuple(TupleDef),
    /// Type defined in the schema.
    UserDefined(String),
}

/// An atomic type.
#[derive(Debug, Clone, Copy, PartialEq, Eq, Structural)]
pub enum AtomType {
    /// Empty type.
    Empty,
    /// String.
    Str,
    /// Signed 32-bit integer.
    I32,
    /// Unsigned 32-bit integer.
    U32,
    /// Unsigned 8-bit integer.
    U8,
    /// 64-bit IEEE floating-point number.
    F64,
    /// Boolean value.
    Bool,
    /// Timestamp in UTC time.
    DateTime,
    /// Date value.
    Date,
    /// Universally unique identifier.
    Uuid,
    /// Byte string.
    Bytes,
}

/// A tuple definition.
#[derive(Debug, PartialEq, Eq)]
pub struct TupleDef(pub Vec<TypeIdent>);

/// The mathematical value of a `TypeIdent`.
pub enum TypeModel {
    BuiltIn(AtomType),
    List(Box<TypeModel>),
    Optional(Box<TypeModel>),
    Either(Box<TypeModel>, Box<TypeModel>),
    Dict(Box<TypeModel>, Box<TypeModel>),
    Tuple(Seq<TypeModel>),
    UserDefined(Seq<char>),
}

/// The mathematical value of a `FieldDefPair`.
pub struct PairModel {
    pub name: Seq<char>,
    pub type_ident: TypeModel,
}

/// The mathematical value of a `FieldNode`.
pub struct FieldModel {
    pub pair: PairModel,
    pub doc_comment: Option<Seq<char>>,
}

/// The mathematical value of a `VariantType`.
pub enum VariantTypeModel {
    Simple,
    Tuple(Seq<TypeModel>),
    Struct(Seq<FieldModel>),
    Newtype(TypeModel),
}

/// The mathematical value of a `VariantDef`.
pub struct VariantModel {
    pub name: Seq<char>,
    pub variant_type: VariantTypeModel,
    pub doc_comment: Option<Seq<char>>,
}

/// The mathematical value of a `ServiceRouteComponent`.
pub enum ComponentModel {
    Literal(Seq<char>),
    Variable(PairModel),
}

/// The HTTP method of a route.
#[derive(Debug, Clone, Copy, PartialEq, Eq, Structural)]
pub enum HttpMethod {
    Get,
    Post,
    Put,
    Patch,
    Delete,
}

/// The mathematical value of a `ServiceRoute`.
pub struct RouteModel {
    pub method: HttpMethod,
    pub components: Seq<ComponentModel>,
    pub query: Option<TypeModel>,
    pub body: Option<TypeModel>,
    pub ret: TypeModel,
}

/// The mathematical value of a `ServiceEndpoint`.
pub struct EndpointModel {
    pub doc_comment: Option<Seq<char>>,
    pub route: RouteModel,
}

/// The mathematical value of a `SpecItem`.
pub enum ItemModel {
    StructDef { name: Seq<char>, fields: Seq<FieldModel>, doc_comment: Option<Seq<char>> },
    EnumDef { name: Seq<char>, variants: Seq<VariantModel>, doc_comment: Option<Seq<char>> },
    ServiceDef { name: Seq<char>, doc_comment: Option<Seq<char>>, endpoints: Seq<EndpointModel> },
}

/// The characters of an optional string.
pub open spec fn opt_string_view(s: Option<String>) -> Option<Seq<char>> {
    match s {
        Some(t) => Some(t@),
        None => None,
    }
}

/// The values of a list of type identifiers, in order.
pub open spec fn types_view(v: Seq<TypeIdent>) -> Seq<TypeModel> {
    Seq::new(v.len(), |i: int| v[i]@)
}

/// The values of a list of field nodes, in order.
pub open spec fn fields_view(v: Seq<FieldNode>) -> Seq<FieldModel> {
    Seq::new(v.len(), |i: int| v[i]@)
}

/// The values of a list of variants, in order.
pub open spec fn variants_view(v: Seq<VariantDef>) -> Seq<VariantModel> {
    Seq::new(v.len(), |i: int| v[i]@)
}

/// The values of a list of route components, in order.
pub open spec fn components_view(v: Seq<ServiceRouteComponent>) -> Seq<ComponentModel> {
    Seq::new(v.len(), |i: int| v[i]@)
}

/// The values of a list of endpoints, in order.
pub open spec fn endpoints_view(v: Seq<ServiceEndpoint>) -> Seq<EndpointModel> {
    Seq::new(v.len(), |i: int| v[i]@)
}

/// The values of a list of spec items, in order.
pub open spec fn items_view(v: Seq<SpecItem>) -> Seq<ItemModel> {
    Seq::new(v.len(), |i: int| v[i]@)
}

/// The mathematical value of a type identifier.
pub open spec fn type_model(t: TypeIdent) -> TypeModel
    decreases t,
{
    match t {
        TypeIdent::BuiltIn(a) => TypeModel::BuiltIn(a),
        TypeIdent::List(e) => TypeModel::List(Box::new(type_model(*e))),
        TypeIdent::Option(e) => TypeModel::Optional(Box::new(type_model(*e))),
        TypeIdent::Result(o, e) => TypeModel::Either(
            Box::new(type_model(*o)),
            Box::new(type_model(*e)),
        ),
        TypeIdent::Mapping(k, v) => TypeModel::Dict(
            Box::new(type_model(*k)),
            Box::new(type_model(*v)),
        ),
        TypeIdent::Tuple(d) => TypeModel::Tuple(
            Seq::new(
                d.0.len() as nat,
                |i: int|
                    if 0 <= i < d.0.len() {
                        type_model(d.0[i])
                    } else {
                        TypeModel::BuiltIn(AtomType::Empty)
                    },
            ),
        ),
        TypeIdent::UserDefined(s) => TypeModel::UserDefined(s@),
    }
}

impl View for TypeIdent {
    type V = TypeModel;

    open spec fn view(&self) -> TypeModel {
        type_model(*self)
    }
}

impl View for TupleDef {
    type V = Seq<TypeModel>;

    open spec fn view(&self) -> Seq<TypeModel> {
        types_view(self.0@)
    }
}

impl View for FieldDefPair {
    type V = PairModel;

    open spec fn view(&self) -> PairModel {
        PairModel { name: self.name@, type_ident: self.type_ident@ }
    }
}

impl View for FieldNode {
    type V = FieldModel;

    open spec fn view(&self) -> FieldModel {
        FieldModel { pair: self.pair@, doc_comment: opt_string_view(self.doc_comment) }
    }
}

impl View for StructFields {
    type V = Seq<FieldModel>;

    open spec fn view(&self) -> Seq<FieldModel> {
        fields_view(self.0@)
    }
}

impl View for VariantType {
    type V = VariantTypeModel;

    open spec fn view(&self) -> VariantTypeModel {
        match self {
            VariantType::Simple => VariantTypeModel::Simple,
            VariantType::Tuple(t) => VariantTypeModel::Tuple(t@),
            VariantType::Struct(f) => VariantTypeModel::Struct(f@),
            VariantType::Newtype(t) => VariantTypeModel::Newtype(t@),
        }
    }
}

impl View for VariantDef {
    type V = VariantModel;

    open spec fn view(&self) -> VariantModel {
        VariantModel {
            name: self.name@,
            variant_type: self.variant_type@,
            doc_comment: opt_string_view(self.doc_comment),
        }
    }
}

impl View for ServiceRouteComponent {
    type V = ComponentModel;

    open spec fn view(&self) -> ComponentModel {
        match self {
            ServiceRouteComponent::Literal(s) => ComponentModel::Literal(s@),
            ServiceRouteComponent::Variable(p) => ComponentModel::Variable(p@),
        }
    }
}

/// The value of an optional type identifier.
pub open spec fn opt_type_view(t: Option<TypeIdent>) -> Option<TypeModel> {
    match t {
        Some(t) => Some(t@),
        None => None,
    }
}

impl View for ServiceRoute {
    type V = RouteModel;

    open spec fn view(&self) -> RouteModel {
        match self {
            ServiceRoute::Get { components, query, ret } => RouteModel {
                method: HttpMethod::Get,
                components: components_view(components@),
                query: opt_type_view(*query),
                body: None,
                ret: ret@,
            },
            ServiceRoute::Delete { components, query, ret } => RouteModel {
                method: HttpMethod::Delete,
                components: components_view(components@),
                query: opt_type_view(*query),
                body: None,
                ret: ret@,
            },
            ServiceRoute::Post { components, query, body, ret } => RouteModel {
                method: HttpMethod::Post,
                components: components_view(components@),
                query: opt_type_view(*query),
                body: Some(body@),
                ret: ret@,
            },
            ServiceRoute::Put { components, query, body, ret } => RouteModel {
                method: HttpMethod::Put,
                components: components_view(components@),
                query: opt_type_view(*query),
                body: Some(body@),
                ret: ret@,
            },
            ServiceRoute::Patch { components, query, body, ret } => RouteModel {
                method: HttpMethod::Patch,
                components: components_view(components@),
                query: opt_type_view(*query),
                body: Some(body@),
                ret: ret@,
            },
        }
    }
}

impl View for ServiceEndpoint {
    type V = EndpointModel;

    open spec fn view(&self) -> EndpointModel {
        EndpointModel { doc_comment: opt_string_view(self.doc_comment), route: self.route@ }
    }
}

impl View for SpecItem {
    type V = ItemModel;

    open spec fn view(&self) -> ItemModel {
        match self {
            SpecItem::StructDef(d) => ItemModel::StructDef {
                name: d.name@,
                fields: d.fields@,
                doc_comment: opt_string_view(d.doc_comment),
            },
            SpecItem::EnumDef(d) => ItemModel::EnumDef {
                name: d.name@,
                variants: variants_view(d.variants@),
                doc_comment: opt_string_view(d.doc_comment),
            },
            SpecItem::ServiceDef(d) => ItemModel::ServiceDef {
                name: d.name@,
                doc_comment: opt_string_view(d.doc_comment),
                endpoints: endpoints_view(d.endpoints@),
            },
        }
    }
}

impl View for Spec {
    type V = Seq<ItemModel>;

    open spec fn view(&self) -> Seq<ItemModel> {
        items_view(self.0@)
    }
}

/// Whether a field pair marks an embed: its name is the user-defined type
/// that it references.
pub open spec fn is_embed_model(p: PairModel) -> bool {
    p.type_ident == TypeModel::UserDefined(p.name)
}

/// The name of an HTTP method as it stands in a request line.
pub open spec fn method_name(m: HttpMethod) -> Seq<char> {
    match m {
        HttpMethod::Get => "GET"@,
        HttpMethod::Post => "POST"@,
        HttpMethod::Put => "PUT"@,
        HttpMethod::Patch => "PATCH"@,
        HttpMethod::Delete => "DELETE"@,
    }
}

/// Copies an optional string.
pub fn clone_opt_string(s: &Option<String>) -> (r: Option<String>)
    ensures
        opt_string_view(r) == opt_string_view(*s),
{
    match s {
        Some(t) => Some(t.clone()),
        None => None,
    }
}

/// Copies a type identifier, all the way down.
pub fn clone_type_ident(t: &TypeIdent) -> (r: TypeIdent)
    ensures
        r@ == t@,
    decreases t,
{
    match t {
        TypeIdent::BuiltIn(a) => TypeIdent::BuiltIn(*a),
        TypeIdent::List(e) => TypeIdent::List(Box::new(clone_type_ident(e))),
        TypeIdent::Option(e) => TypeIdent::Option(Box::new(clone_type_ident(e))),
        TypeIdent::Result(o, e) => TypeIdent::Result(
            Box::new(clone_type_ident(o)),
            Box::new(clone_type_ident(e)),
        ),
        TypeIdent::Mapping(k, v) => TypeIdent::Mapping(
            Box::new(clone_type_ident(k)),
            Box::new(clone_type_ident(v)),
        ),
        TypeIdent::Tuple(d) => {
            let mut out: Vec<TypeIdent> = Vec::new();
            let mut i: usize = 0;
            while i < d.0.len()
                invariant
                    i <= d.0.len(),
                    out.len() == i,
                    forall|j: int| 0 <= j < i ==> (#[trigger] out[j])@ == d.0[j]@,
                    *t is Tuple,
                    (*t)->Tuple_0 == *d,
                decreases d.0.len() - i,
            {
                proof {
                    vstd::std_specs::vec::axiom_vec_index_decreases(d.0, i as int);
                }
                let c = clone_type_ident(&d.0[i]);
                out.push(c);
                i += 1;
            }
            let r = TypeIdent::Tuple(TupleDef(out));
            assert(r@ == t@) by {
                assert(r@->Tuple_0 =~= t@->Tuple_0);
            }
            r
        },
        TypeIdent::UserDefined(s) => TypeIdent::UserDefined(s.clone()),
    }
}

impl Clone for TypeIdent {
    fn clone(&self) -> (r: Self)
        ensures
            r@ == self@,
    {
        clone_type_ident(self)
    }
}

impl Clone for TupleDef {
    fn clone(&self) -> (r: Self)
        ensures
            r@ == self@,
    {
        let mut out: Vec<TypeIdent> = Vec::new();
        let mut i: usize = 0;
        while i < self.0.len()
            invariant
                i <= self.0.len(),
                out.len() == i,
                forall|j: int| 0 <= j < i ==> (#[trigger] out[j])@ == self.0[j]@,
            decreases self.0.len() - i,
        {
            out.push(clone_type_ident(&self.0[i]));
            i += 1;
        }
        let r = TupleDef(out);
        assert(r@ =~= self@);
        r
    }
}

impl Clone for FieldDefPair {
    fn clone(&self) -> (r: Self)
        ensures
            r@ == self@,
    {
        FieldDefPair { name: self.name.clone(), type_ident: clone_type_ident(&self.type_ident) }
    }
}

impl Clone for FieldNode {
    fn clone(&self) -> (r: Self)
        ensures
            r@ == self@,
    {
        FieldNode { pair: self.pair.clone(), doc_comment: clone_opt_string(&self.doc_comment) }
    }
}

impl Spec {
    /// The items of the spec, in order.
    pub fn iter(&self) -> (r: &Vec<SpecItem>)
        ensures
            *r == self.0,
    {
        &self.0
    }
}

impl SpecItem {
    /// The service definition if `self` is a `ServiceDef`.
    pub fn service_def(&self) -> (r: Option<&ServiceDef>)
        ensures
            r == match self {
                SpecItem::ServiceDef(s) => Some(s),
                _ => None,
            },
    {
        match self {
            SpecItem::ServiceDef(s) => Some(s),
            _ => None,
        }
    }
}

impl StructFields {
    /// The contained fields, in order.
    pub fn iter(&self) -> (r: &Vec<FieldNode>)
        ensures
            *r == self.0,
    {
        &self.0
    }
}

impl VariantDef {
    /// Whether the variant is simple, that is, carries no payload.
    pub fn is_simple(&self) -> (r: bool)
        ensures
            r == (self@.variant_type is Simple),
    {
        match self.variant_type {
            VariantType::Simple => true,
            _ => false,
        }
    }
}

/// The variants of `v`, in order, that are simple (`simple` is true) or that
/// are not (`simple` is false).
pub open spec fn variants_of_kind(v: Seq<VariantDef>, simple: bool) -> Seq<VariantDef> {
    v.filter(|d: VariantDef| (d@.variant_type is Simple) == simple)
}

/// What a list of references refers to.
pub open spec fn variants_deref(v: Seq<&VariantDef>) -> Seq<VariantDef> {
    Seq::new(v.len(), |i: int| *v[i])
}

impl EnumDef {
    fn variants_by_kind(&self, simple: bool) -> (r: Vec<&VariantDef>)
        ensures
            variants_deref(r@) == variants_of_kind(self.variants@, simple),
    {
        let mut out: Vec<&VariantDef> = Vec::new();
        let mut i: usize = 0;
        while i < self.variants.len()
            invariant
                i <= self.variants.len(),
                variants_deref(out@) == variants_of_kind(self.variants@.take(i as int), simple),
            decreases self.variants.len() - i,
        {
            let v = &self.variants[i];
            proof {
                reveal(Seq::filter);
                assert(self.variants@.take(i + 1).drop_last() =~= self.variants@.take(i as int));
            }
            if v.is_simple() == simple {
                let ghost before = out@;
                out.push(v);
                assert(variants_deref(out@) =~= variants_deref(before).push(*v));
            }
            i += 1;
        }
        assert(self.variants@.take(i as int) =~= self.variants@);
        out
    }

    /// All complex variants, in order: those that are not simple.
    pub fn complex_variants(&self) -> (r: Vec<&VariantDef>)
        ensures
            variants_deref(r@) == variants_of_kind(self.variants@, false),
    {
        self.variants_by_kind(false)
    }

    /// All simple variants, in order: the C-style ones.
    pub fn simple_variants(&self) -> (r: Vec<&VariantDef>)
        ensures
            variants_deref(r@) == variants_of_kind(self.variants@, true),
    {
        self.variants_by_kind(true)
    }
}

impl VariantType {
    /// The struct fields if the variant type is `Struct`.
    pub fn struct_fields(&self) -> (r: Option<&StructFields>)
        ensures
            r == match self {
                VariantType::Struct(f) => Some(f),
                _ => None,
            },
    {
        match self {
            VariantType::Struct(f) => Some(f),
            _ => None,
        }
    }
}

impl VariantType {
    /// The struct fields, to be changed in place, if the variant type is
    /// `Struct`.
    pub fn struct_fields_mut(&mut self) -> (r: Option<&mut StructFields>)
        ensures
            r is Some == (*old(self) is Struct),
            r matches Some(f) ==> *f == (*old(self))->Struct_0 && *final(self)
                == VariantType::Struct(*final(f)),
            r is None ==> *final(self) == *old(self),
    {
        match self {
            VariantType::Struct(f) => Some(f),
            _ => None,
        }
    }
}

impl Spec {
    /// The items of the spec, to be changed in place.
    pub fn iter_mut(&mut self) -> (r: &mut Vec<SpecItem>)
        ensures
            *r == old(self).0,
            final(self).0 == *final(r),
    {
        &mut self.0
    }
}

impl ServiceRoute {
    /// The HTTP method that tags the route.
    pub fn method(&self) -> (r: HttpMethod)
        ensures
            r == self@.method,
    {
        match self {
            ServiceRoute::Get { .. } => HttpMethod::Get,
            ServiceRoute::Delete { .. } => HttpMethod::Delete,
            ServiceRoute::Post { .. } => HttpMethod::Post,
            ServiceRoute::Put { .. } => HttpMethod::Put,
            ServiceRoute::Patch { .. } => HttpMethod::Patch,
        }
    }

    /// The route components.
    pub fn components(&self) -> (r: &Vec<ServiceRouteComponent>)
        ensures
            components_view(r@) == self@.components,
    {
        match self {
            ServiceRoute::Get { components, .. } => components,
            ServiceRoute::Delete { components, .. } => components,
            ServiceRoute::Post { components, .. } => components,
            ServiceRoute::Put { components, .. } => components,
            ServiceRoute::Patch { components, .. } => components,
        }
    }

    /// The query type, if specified.
    pub fn query(&self) -> (r: &Option<TypeIdent>)
        ensures
            opt_type_view(*r) == self@.query,
    {
        match self {
            ServiceRoute::Get { query, .. } => query,
            ServiceRoute::Delete { query, .. } => query,
            ServiceRoute::Post { query, .. } => query,
            ServiceRoute::Put { query, .. } => query,
            ServiceRoute::Patch { query, .. } => query,
        }
    }

    /// The body type: present for POST, PUT and PATCH, absent for GET and DELETE.
    pub fn body(&self) -> (r: Option<&TypeIdent>)
        ensures
            r is Some == self@.body is Some,
            r matches Some(t) ==> Some(t@) == self@.body,
    {
        match self {
            ServiceRoute::Get { .. } => None,
            ServiceRoute::Delete { .. } => None,
            ServiceRoute::Post { body, .. } => Some(body),
            ServiceRoute::Put { body, .. } => Some(body),
            ServiceRoute::Patch { body, .. } => Some(body),
        }
    }

    /// The return type.
    pub fn return_type(&self) -> (r: &TypeIdent)
        ensures
            r@ == self@.ret,
    {
        match self {
            ServiceRoute::Get { ret, .. } => ret,
            ServiceRoute::Delete { ret, .. } => ret,
            ServiceRoute::Post { ret, .. } => ret,
            ServiceRoute::Put { ret, .. } => ret,
            ServiceRoute::Patch { ret, .. } => ret,
        }
    }

    /// The name of the route's HTTP method, in upper case.
    pub fn http_method_as_str(&self) -> (r: &'static str)
        ensures
            r@ == method_name(self@.method),
    {
        match self {
            ServiceRoute::Get { .. } => "GET",
            ServiceRoute::Delete { .. } => "DELETE",
            ServiceRoute::Post { .. } => "POST",
            ServiceRoute::Put { .. } => "PUT",
            ServiceRoute::Patch { .. } => "PATCH",
        }
    }
}

impl FieldDefPair {
    /// Whether the pair is an embed marker: its type is user-defined and
    /// named as the field itself.
    pub fn is_embed(&self) -> (r: bool)
        ensures
            r == is_embed_model(self@),
    {
        match &self.type_ident {
            TypeIdent::UserDefined(n) => self.name == *n,
            _ => false,
        }
    }
}

impl TypeIdent {
    /// The name of the type if it is user-defined.
    pub fn user_defined(&self) -> (r: Option<&String>)
        ensures
            r == match self {
                TypeIdent::UserDefined(s) => Some(s),
                _ => None,
            },
    {
        match self {
            TypeIdent::UserDefined(s) => Some(s),
            _ => None,
        }
    }
}

impl TupleDef {
    /// The tuple's element types, in order.
    pub fn elements(&self) -> (r: &Vec<TypeIdent>)
        ensures
            *r == self.0,
    {
        &self.0
    }

    /// The tuple's component types, in order.
    pub fn components(&self) -> (r: &Vec<TypeIdent>)
        ensures
            *r == self.0,
    {
        &self.0
    }
}

} // verus!
