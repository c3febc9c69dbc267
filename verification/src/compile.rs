//! Compilation of a whole resolved spec: its definitions are checked, and
//! every service is compiled into its routes.

use crate::ast::{
    endpoints_view, fields_view, variants_view, EndpointModel, FieldModel, FieldNode, ItemModel,
    ServiceEndpoint, Spec, SpecItem, VariantDef, VariantModel, VariantType, VariantTypeModel,
};
use crate::error::{CompileError, CompileErrorModel};
use crate::routes::{
    check_type, check_types, compile_model, first_some, first_some_at, first_some_none,
    lower_service_route, route_defect, tuple_defect, type_defect, CompiledRoute,
    CompiledRouteModel,
};
use vstd::prelude::*;

verus! {

/// The type defects of a field list, one entry per field.
pub open spec fn field_defects(spec: Seq<ItemModel>, fields: Seq<FieldModel>) -> Seq<
    Option<CompileErrorModel>,
> {
    Seq::new(fields.len(), |i: int| type_defect(spec, fields[i].pair.type_ident))
}

/// The first type defect in the payload of a variant.
pub open spec fn variant_defect(spec: Seq<ItemModel>, v: VariantModel) -> Option<
    CompileErrorModel,
> {
    match v.variant_type {
        VariantTypeModel::Simple => None,
        VariantTypeModel::Tuple(ts) => tuple_defect(spec, ts, ts.len()),
        VariantTypeModel::Struct(f) => first_some(field_defects(spec, f)),
        VariantTypeModel::Newtype(t) => type_defect(spec, t),
    }
}

/// The defects of the variants of an enum, one entry per variant.
pub open spec fn variant_defects(spec: Seq<ItemModel>, variants: Seq<VariantModel>) -> Seq<
    Option<CompileErrorModel>,
> {
    Seq::new(variants.len(), |i: int| variant_defect(spec, variants[i]))
}

/// The first type defect of a struct or an enum definition. A service has
/// none of this kind.
pub open spec fn definition_defect(spec: Seq<ItemModel>, item: ItemModel) -> Option<
    CompileErrorModel,
> {
    match item {
        ItemModel::StructDef { fields, .. } => first_some(field_defects(spec, fields)),
        ItemModel::EnumDef { variants, .. } => first_some(variant_defects(spec, variants)),
        ItemModel::ServiceDef { .. } => None,
    }
}

/// The defects of the definitions of a spec, one entry per item.
pub open spec fn definition_defects(spec: Seq<ItemModel>) -> Seq<Option<CompileErrorModel>> {
    Seq::new(spec.len(), |i: int| definition_defect(spec, spec[i]))
}

/// The defects of the endpoints of a service, one entry per endpoint.
pub open spec fn endpoint_defects(spec: Seq<ItemModel>, endpoints: Seq<EndpointModel>) -> Seq<
    Option<CompileErrorModel>,
> {
    Seq::new(endpoints.len(), |i: int| route_defect(spec, endpoints[i].route))
}

/// The first defect among the routes of a service. A definition has none of
/// this kind.
pub open spec fn service_defect(spec: Seq<ItemModel>, item: ItemModel) -> Option<
    CompileErrorModel,
> {
    match item {
        ItemModel::ServiceDef { endpoints, .. } => first_some(endpoint_defects(spec, endpoints)),
        _ => None,
    }
}

/// The defects of the services of a spec, one entry per item.
pub open spec fn service_defects(spec: Seq<ItemModel>) -> Seq<Option<CompileErrorModel>> {
    Seq::new(spec.len(), |i: int| service_defect(spec, spec[i]))
}

/// The first defect of a spec: those of its definitions come before those of
/// its services, each kind in the order of the items.
pub open spec fn spec_defect(spec: Seq<ItemModel>) -> Option<CompileErrorModel> {
    match first_some(definition_defects(spec)) {
        Some(e) => Some(e),
        None => first_some(service_defects(spec)),
    }
}

/// A compiled service: its name and its compiled routes, in declaration order.
#[derive(Debug, PartialEq, Eq)]
pub struct CompiledService {
    pub name: String,
    pub routes: Vec<CompiledRoute>,
}

/// The mathematical value of a `CompiledService`.
pub struct CompiledServiceModel {
    pub name: Seq<char>,
    pub routes: Seq<CompiledRouteModel>,
}

/// The values of a list of compiled routes, in order.
pub open spec fn routes_view(v: Seq<CompiledRoute>) -> Seq<CompiledRouteModel> {
    Seq::new(v.len(), |i: int| v[i]@)
}

/// The values of a list of compiled services, in order.
pub open spec fn services_view(v: Seq<CompiledService>) -> Seq<CompiledServiceModel> {
    Seq::new(v.len(), |i: int| v[i]@)
}

impl View for CompiledService {
    type V = CompiledServiceModel;

    open spec fn view(&self) -> CompiledServiceModel {
        CompiledServiceModel { name: self.name@, routes: routes_view(self.routes@) }
    }
}

/// What the endpoints of a service compile to, in order.
pub open spec fn compile_endpoints(endpoints: Seq<EndpointModel>) -> Seq<CompiledRouteModel> {
    Seq::new(endpoints.len(), |i: int| compile_model(endpoints[i].route))
}

/// What the services among `items` compile to, in the order of the items.
pub open spec fn compile_services(items: Seq<ItemModel>) -> Seq<CompiledServiceModel>
    decreases items.len(),
{
    if items.len() == 0 {
        Seq::empty()
    } else {
        match items.last() {
            ItemModel::ServiceDef { name, endpoints, .. } => compile_services(
                items.drop_last(),
            ).push(CompiledServiceModel { name, routes: compile_endpoints(endpoints) }),
            _ => compile_services(items.drop_last()),
        }
    }
}

/// Checks the field types of a field list, in order.
pub fn check_fields(spec: &Spec, fields: &Vec<FieldNode>) -> (r: Result<(), CompileError>)
    ensures
        match first_some(field_defects(spec@, fields_view(fields@))) {
            Some(e) => r is Err && r->Err_0@ == e,
            None => r is Ok,
        },
{
    let ghost defects = field_defects(spec@, fields_view(fields@));
    let mut i: usize = 0;
    while i < fields.len()
        invariant
            i <= fields.len(),
            defects == field_defects(spec@, fields_view(fields@)),
            forall|j: int| 0 <= j < i ==> defects[j] is None,
        decreases fields.len() - i,
    {
        assert(fields_view(fields@)[i as int] == fields[i as int]@);
        match check_type(spec, &fields[i].pair.type_ident) {
            Err(e) => {
                proof {
                    first_some_at(defects, i as int);
                }
                return Err(e);
            },
            Ok(()) => {},
        }
        i += 1;
    }
    proof {
        first_some_none(defects);
    }
    Ok(())
}

/// Checks the payload types of the variants of an enum, in order.
pub fn check_variants(spec: &Spec, variants: &Vec<VariantDef>) -> (r: Result<(), CompileError>)
    ensures
        match first_some(variant_defects(spec@, variants_view(variants@))) {
            Some(e) => r is Err && r->Err_0@ == e,
            None => r is Ok,
        },
{
    let ghost defects = variant_defects(spec@, variants_view(variants@));
    let mut i: usize = 0;
    while i < variants.len()
        invariant
            i <= variants.len(),
            defects == variant_defects(spec@, variants_view(variants@)),
            forall|j: int| 0 <= j < i ==> defects[j] is None,
        decreases variants.len() - i,
    {
        assert(variants_view(variants@)[i as int] == variants[i as int]@);
        let checked = match &variants[i].variant_type {
            VariantType::Simple => Ok(()),
            VariantType::Tuple(d) => check_types(spec, &d.0),
            VariantType::Struct(f) => check_fields(spec, &f.0),
            VariantType::Newtype(t) => check_type(spec, t),
        };
        match checked {
            Err(e) => {
                proof {
                    first_some_at(defects, i as int);
                }
                return Err(e);
            },
            Ok(()) => {},
        }
        i += 1;
    }
    proof {
        first_some_none(defects);
    }
    Ok(())
}

/// Checks every struct and enum definition of a spec: each type that a field
/// or a variant names must be sound. Returns the first defect.
pub fn check_definitions(spec: &Spec) -> (r: Result<(), CompileError>)
    ensures
        match first_some(definition_defects(spec@)) {
            Some(e) => r is Err && r->Err_0@ == e,
            None => r is Ok,
        },
{
    let ghost defects = definition_defects(spec@);
    let mut i: usize = 0;
    while i < spec.0.len()
        invariant
            i <= spec.0.len(),
            defects == definition_defects(spec@),
            forall|j: int| 0 <= j < i ==> defects[j] is None,
        decreases spec.0.len() - i,
    {
        assert(spec@[i as int] == spec.0[i as int]@);
        let checked = match &spec.0[i] {
            SpecItem::StructDef(d) => check_fields(spec, &d.fields.0),
            SpecItem::EnumDef(d) => check_variants(spec, &d.variants),
            SpecItem::ServiceDef(_) => Ok(()),
        };
        match checked {
            Err(e) => {
                proof {
                    first_some_at(defects, i as int);
                }
                return Err(e);
            },
            Ok(()) => {},
        }
        i += 1;
    }
    proof {
        first_some_none(defects);
    }
    Ok(())
}

/// Compiles the endpoints of one service, in order, up to the first defect.
pub fn lower_service(spec: &Spec, endpoints: &Vec<ServiceEndpoint>) -> (r: Result<
    Vec<CompiledRoute>,
    CompileError,
>)
    ensures
        match first_some(endpoint_defects(spec@, endpoints_view(endpoints@))) {
            Some(e) => r is Err && r->Err_0@ == e,
            None => r is Ok && routes_view(r->Ok_0@) == compile_endpoints(
                endpoints_view(endpoints@),
            ),
        },
{
    let ghost defects = endpoint_defects(spec@, endpoints_view(endpoints@));
    let mut out: Vec<CompiledRoute> = Vec::new();
    let mut i: usize = 0;
    while i < endpoints.len()
        invariant
            i <= endpoints.len(),
            defects == endpoint_defects(spec@, endpoints_view(endpoints@)),
            forall|j: int| 0 <= j < i ==> defects[j] is None,
            out.len() == i,
            forall|j: int| 0 <= j < i ==> (#[trigger] out[j])@ == compile_model(endpoints[j]@.route),
        decreases endpoints.len() - i,
    {
        assert(endpoints_view(endpoints@)[i as int] == endpoints[i as int]@);
        match lower_service_route(spec, &endpoints[i]) {
            Err(e) => {
                proof {
                    first_some_at(defects, i as int);
                }
                return Err(e);
            },
            Ok(route) => {
                out.push(route);
            },
        }
        i += 1;
    }
    proof {
        first_some_none(defects);
        assert(routes_view(out@) =~= compile_endpoints(endpoints_view(endpoints@)));
    }
    Ok(out)
}

/// Compiles a resolved spec: checks its struct and enum definitions, then
/// compiles every service, in the order of the items.
///
/// Fails with the first defect of the spec. On success the result holds one
/// compiled service per service definition, each with one compiled route per
/// endpoint.
pub fn lower_all_services(spec: &Spec) -> (r: Result<Vec<CompiledService>, CompileError>)
    ensures
        match spec_defect(spec@) {
            Some(e) => r is Err && r->Err_0@ == e,
            None => r is Ok && services_view(r->Ok_0@) == compile_services(spec@),
        },
{
    match check_definitions(spec) {
        Err(e) => {
            return Err(e);
        },
        Ok(()) => {},
    }
    let ghost all = spec@;
    let ghost defects = service_defects(all);
    let mut out: Vec<CompiledService> = Vec::new();
    let mut i: usize = 0;
    assert(all.take(0) =~= Seq::<ItemModel>::empty());
    assert(services_view(out@) =~= Seq::<CompiledServiceModel>::empty());
    while i < spec.0.len()
        invariant
            i <= spec.0.len(),
            all == spec@,
            defects == service_defects(all),
            first_some(definition_defects(all)) is None,
            forall|j: int| 0 <= j < i ==> defects[j] is None,
            services_view(out@) == compile_services(all.take(i as int)),
        decreases spec.0.len() - i,
    {
        proof {
            assert(all[i as int] == spec.0[i as int]@);
            assert(all.take(i + 1).drop_last() =~= all.take(i as int));
            assert(all.take(i + 1).last() == spec.0[i as int]@);
            assert(defects[i as int] == service_defect(all, all[i as int]));
        }
        match &spec.0[i] {
            SpecItem::ServiceDef(d) => {
                match lower_service(spec, &d.endpoints) {
                    Err(e) => {
                        proof {
                            first_some_at(defects, i as int);
                        }
                        return Err(e);
                    },
                    Ok(routes) => {
                        let ghost prev = services_view(out@);
                        let service = CompiledService { name: d.name.clone(), routes };
                        out.push(service);
                        assert(services_view(out@) =~= prev.push(service@));
                    },
                }
            },
            _ => {},
        }
        i += 1;
    }
    proof {
        first_some_none(defects);
        assert(all.take(i as int) =~= all);
    }
    Ok(out)
}

} // verus!
