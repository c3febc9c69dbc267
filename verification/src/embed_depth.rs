//! Embed chains of bounded depth always resolve.
//!
//! The depth of a field list is the length of the longest chain of embed
//! markers that starts in it: a list without markers has depth zero, and a
//! list has depth at most `d + 1` where each of its markers names a known
//! list of depth at most `d`. No list on an embed cycle has a depth.

use crate::ast::{is_embed_model, FieldModel, ItemModel, VariantModel, VariantTypeModel};
use crate::embed_laws::resolution_within_fewer_rounds_stands;
use crate::embeds::{
    expand_fields, expand_item, expand_items, expand_variants, lookup, lookup_item,
    lookup_variants, one_level, resolve_model, MAX_EMBED_DEPTH,
};
use vstd::prelude::*;

verus! {

/// Whether the embed chains that start in a field list are all known and at
/// most `d` markers long.
pub open spec fn depth_within(spec: Seq<ItemModel>, fields: Seq<FieldModel>, d: nat) -> bool
    decreases d,
{
    forall|i: int|
        0 <= i < fields.len() && is_embed_model((#[trigger] fields[i]).pair) ==> d > 0 && lookup(
            spec,
            fields[i].pair.name,
        ) is Some && depth_within(spec, lookup(spec, fields[i].pair.name)->Some_0, (d - 1) as nat)
}

/// Whether the field list of a variant, if it has one, is of depth at most
/// `d`.
pub open spec fn variant_within(spec: Seq<ItemModel>, v: VariantModel, d: nat) -> bool {
    match v.variant_type {
        VariantTypeModel::Struct(f) => depth_within(spec, f, d),
        _ => true,
    }
}

/// Whether every field list of an item is of depth at most `d`.
pub open spec fn item_within(spec: Seq<ItemModel>, item: ItemModel, d: nat) -> bool {
    match item {
        ItemModel::StructDef { fields, .. } => depth_within(spec, fields, d),
        ItemModel::EnumDef { variants, .. } => forall|i: int|
            0 <= i < variants.len() ==> variant_within(spec, #[trigger] variants[i], d),
        ItemModel::ServiceDef { .. } => true,
    }
}

/// Whether every field list of a spec is of depth at most `d`: the spec has
/// no embed cycle and no embed of an unknown struct, and no chain of embeds
/// in it is longer than `d`.
pub open spec fn spec_within(spec: Seq<ItemModel>, d: nat) -> bool {
    forall|i: int| 0 <= i < spec.len() ==> item_within(spec, #[trigger] spec[i], d)
}

/// What one level of expansion makes of a variant, where it goes through.
pub open spec fn expanded_variant(spec: Seq<ItemModel>, v: VariantModel) -> VariantModel {
    match v.variant_type {
        VariantTypeModel::Struct(f) => VariantModel {
            name: v.name,
            variant_type: VariantTypeModel::Struct(expand_fields(spec, f)->Ok_0.0),
            doc_comment: v.doc_comment,
        },
        _ => v,
    }
}

/// A part of a list of bounded depth is of that depth too.
proof fn prefix_is_within(spec: Seq<ItemModel>, fields: Seq<FieldModel>, d: nat)
    requires
        depth_within(spec, fields, d),
        fields.len() > 0,
    ensures
        depth_within(spec, fields.drop_last(), d),
{
    let p = fields.drop_last();
    assert forall|i: int| 0 <= i < p.len() && is_embed_model((#[trigger] p[i]).pair) implies d > 0
        && lookup(spec, p[i].pair.name) is Some && depth_within(
        spec,
        lookup(spec, p[i].pair.name)->Some_0,
        (d - 1) as nat,
    ) by {
        assert(p[i] == fields[i]);
    }
}

/// A list of depth at most `d` is of depth at most `d + 1`.
pub proof fn deeper_bound_holds(spec: Seq<ItemModel>, fields: Seq<FieldModel>, d: nat)
    requires
        depth_within(spec, fields, d),
    ensures
        depth_within(spec, fields, d + 1),
    decreases d,
{
    assert forall|i: int|
        0 <= i < fields.len() && is_embed_model((#[trigger] fields[i]).pair) implies lookup(
        spec,
        fields[i].pair.name,
    ) is Some && depth_within(spec, lookup(spec, fields[i].pair.name)->Some_0, d) by {
        deeper_bound_holds(spec, lookup(spec, fields[i].pair.name)->Some_0, (d - 1) as nat);
    }
}

/// Expansion of a list of bounded depth goes through; a list of depth zero
/// comes out unchanged and unflagged.
proof fn fields_expand(spec: Seq<ItemModel>, fields: Seq<FieldModel>, d: nat)
    requires
        depth_within(spec, fields, d),
    ensures
        expand_fields(spec, fields) is Ok,
        d == 0 ==> expand_fields(spec, fields) == Ok::<_, Seq<char>>((fields, false)),
    decreases fields.len(),
{
    if fields.len() == 0 {
        assert(fields =~= Seq::<FieldModel>::empty());
    } else {
        prefix_is_within(spec, fields, d);
        fields_expand(spec, fields.drop_last(), d);
        assert(fields[fields.len() - 1] == fields.last());
        assert(fields.drop_last().push(fields.last()) =~= fields);
    }
}

/// Expansion of variants of bounded depth goes through, variant by variant.
proof fn variants_expand(spec: Seq<ItemModel>, variants: Seq<VariantModel>, d: nat)
    requires
        forall|i: int| 0 <= i < variants.len() ==> variant_within(spec, #[trigger] variants[i], d),
    ensures
        expand_variants(spec, variants) is Ok,
        expand_variants(spec, variants)->Ok_0.0.len() == variants.len(),
        forall|i: int|
            0 <= i < variants.len() ==> (#[trigger] expand_variants(spec, variants)->Ok_0.0[i])
                == expanded_variant(spec, variants[i]),
        d == 0 ==> !expand_variants(spec, variants)->Ok_0.1,
    decreases variants.len(),
{
    if variants.len() > 0 {
        let p = variants.drop_last();
        assert forall|i: int| 0 <= i < p.len() implies variant_within(spec, #[trigger] p[i], d) by {
            assert(p[i] == variants[i]);
        }
        variants_expand(spec, p, d);
        let v = variants.last();
        assert(variant_within(spec, variants[variants.len() - 1], d));
        match v.variant_type {
            VariantTypeModel::Struct(f) => {
                fields_expand(spec, f, d);
            },
            _ => {},
        }
        let out = expand_variants(spec, variants)->Ok_0.0;
        let pout = expand_variants(spec, p)->Ok_0.0;
        assert(out == pout.push(expanded_variant(spec, v)));
        assert forall|i: int| 0 <= i < variants.len() implies (#[trigger] out[i])
            == expanded_variant(spec, variants[i]) by {
            if i < p.len() {
                assert(out[i] == pout[i]);
                assert(p[i] == variants[i]);
            }
        }
    }
}

/// Expansion of items of bounded depth goes through, item by item.
proof fn items_expand(spec: Seq<ItemModel>, items: Seq<ItemModel>, d: nat)
    requires
        forall|i: int| 0 <= i < items.len() ==> item_within(spec, #[trigger] items[i], d),
    ensures
        expand_items(spec, items) is Ok,
        expand_items(spec, items)->Ok_0.0.len() == items.len(),
        forall|i: int| 0 <= i < items.len() ==> expand_item(spec, #[trigger] items[i]) is Ok,
        forall|i: int|
            0 <= i < items.len() ==> (#[trigger] expand_items(spec, items)->Ok_0.0[i])
                == expand_item(spec, items[i])->Ok_0.0,
        d == 0 ==> !expand_items(spec, items)->Ok_0.1,
    decreases items.len(),
{
    if items.len() > 0 {
        let p = items.drop_last();
        assert forall|i: int| 0 <= i < p.len() implies item_within(spec, #[trigger] p[i], d) by {
            assert(p[i] == items[i]);
        }
        items_expand(spec, p, d);
        let it = items.last();
        assert(item_within(spec, items[items.len() - 1], d));
        match it {
            ItemModel::StructDef { fields, .. } => {
                fields_expand(spec, fields, d);
            },
            ItemModel::EnumDef { variants, .. } => {
                variants_expand(spec, variants, d);
            },
            ItemModel::ServiceDef { .. } => {},
        }
        let out = expand_items(spec, items)->Ok_0.0;
        let pout = expand_items(spec, p)->Ok_0.0;
        assert(out == pout.push(expand_item(spec, it)->Ok_0.0));
        assert forall|i: int| 0 <= i < items.len() implies expand_item(
            spec,
            #[trigger] items[i],
        ) is Ok by {
            if i < p.len() {
                assert(p[i] == items[i]);
            }
        }
        assert forall|i: int| 0 <= i < items.len() implies (#[trigger] out[i]) == expand_item(
            spec,
            items[i],
        )->Ok_0.0 by {
            if i < p.len() {
                assert(out[i] == pout[i]);
                assert(p[i] == items[i]);
            }
        }
    }
}

/// What is known under a name after a round is the expansion of what was
/// known under it before, among the variants of one enum.
proof fn lookup_follows_variants(
    spec: Seq<ItemModel>,
    enum_name: Seq<char>,
    variants: Seq<VariantModel>,
    name: Seq<char>,
)
    requires
        expand_variants(spec, variants) is Ok,
    ensures
        lookup_variants(enum_name, expand_variants(spec, variants)->Ok_0.0, name) == (
        match lookup_variants(enum_name, variants, name) {
            Some(l) => Some(expand_fields(spec, l)->Ok_0.0),
            None => None,
        }),
        lookup_variants(enum_name, variants, name) is Some ==> expand_fields(
            spec,
            lookup_variants(enum_name, variants, name)->Some_0,
        ) is Ok,
    decreases variants.len(),
{
    if variants.len() > 0 {
        let p = variants.drop_last();
        lookup_follows_variants(spec, enum_name, p, name);
        let out = expand_variants(spec, variants)->Ok_0.0;
        let pout = expand_variants(spec, p)->Ok_0.0;
        assert(out.drop_last() =~= pout);
    } else {
        assert(expand_variants(spec, variants)->Ok_0.0 =~= Seq::<VariantModel>::empty());
    }
}

/// What is known under a name after a round is the expansion of what was
/// known under it before.
proof fn lookup_follows_items(spec: Seq<ItemModel>, items: Seq<ItemModel>, name: Seq<char>)
    requires
        expand_items(spec, items) is Ok,
    ensures
        lookup(expand_items(spec, items)->Ok_0.0, name) == (match lookup(items, name) {
            Some(l) => Some(expand_fields(spec, l)->Ok_0.0),
            None => None,
        }),
        lookup(items, name) is Some ==> expand_fields(spec, lookup(items, name)->Some_0) is Ok,
    decreases items.len(),
{
    if items.len() > 0 {
        let p = items.drop_last();
        lookup_follows_items(spec, p, name);
        let out = expand_items(spec, items)->Ok_0.0;
        let pout = expand_items(spec, p)->Ok_0.0;
        assert(out.drop_last() =~= pout);
        match items.last() {
            ItemModel::EnumDef { name: n, variants, .. } => {
                lookup_follows_variants(spec, n, variants, name);
            },
            _ => {},
        }
        assert(lookup_item(out.last(), name) == (match lookup_item(items.last(), name) {
            Some(l) => Some(expand_fields(spec, l)->Ok_0.0),
            None => None,
        }));
    } else {
        assert(expand_items(spec, items)->Ok_0.0 =~= Seq::<ItemModel>::empty());
    }
}

/// A list keeps its depth through a round: what its markers name has only
/// become shallower.
proof fn depth_stays(spec: Seq<ItemModel>, next: Seq<ItemModel>, fields: Seq<FieldModel>, k: nat)
    requires
        one_level(spec) is Ok,
        next == one_level(spec)->Ok_0.0,
        depth_within(spec, fields, k),
    ensures
        depth_within(next, fields, k),
    decreases k, 0nat, 0nat,
{
    assert forall|i: int|
        0 <= i < fields.len() && is_embed_model((#[trigger] fields[i]).pair) implies k > 0
        && lookup(next, fields[i].pair.name) is Some && depth_within(
        next,
        lookup(next, fields[i].pair.name)->Some_0,
        (k - 1) as nat,
    ) by {
        let name = fields[i].pair.name;
        let target = lookup(spec, name)->Some_0;
        lookup_follows_items(spec, spec, name);
        depth_sinks(spec, next, target, (k - 1) as nat);
        if k - 1 > 0 {
            deeper_bound_holds(next, expand_fields(spec, target)->Ok_0.0, (k - 2) as nat);
        }
    }
}

/// One level of expansion takes one off the depth of a list.
proof fn depth_sinks(spec: Seq<ItemModel>, next: Seq<ItemModel>, fields: Seq<FieldModel>, d: nat)
    requires
        one_level(spec) is Ok,
        next == one_level(spec)->Ok_0.0,
        depth_within(spec, fields, d),
    ensures
        expand_fields(spec, fields) is Ok,
        depth_within(
            next,
            expand_fields(spec, fields)->Ok_0.0,
            if d > 0 {
                (d - 1) as nat
            } else {
                0
            },
        ),
    decreases d, 1nat, fields.len(),
{
    fields_expand(spec, fields, d);
    let e = expand_fields(spec, fields)->Ok_0.0;
    let target: nat = if d > 0 {
        (d - 1) as nat
    } else {
        0
    };
    if fields.len() == 0 {
    } else if d == 0 {
        assert(e == fields);
        assert forall|i: int| 0 <= i < e.len() implies !is_embed_model((#[trigger] e[i]).pair) by {
            assert(e[i] == fields[i]);
        }
    } else {
        let p = fields.drop_last();
        let f = fields.last();
        prefix_is_within(spec, fields, d);
        depth_sinks(spec, next, p, d);
        let ep = expand_fields(spec, p)->Ok_0.0;
        assert(fields[fields.len() - 1] == f);
        if is_embed_model(f.pair) {
            let l = lookup(spec, f.pair.name)->Some_0;
            depth_stays(spec, next, l, (d - 1) as nat);
            assert(e == ep + l);
            assert forall|i: int|
                0 <= i < e.len() && is_embed_model((#[trigger] e[i]).pair) implies target > 0
                && lookup(next, e[i].pair.name) is Some && depth_within(
                next,
                lookup(next, e[i].pair.name)->Some_0,
                (target - 1) as nat,
            ) by {
                if i < ep.len() {
                    assert(e[i] == ep[i]);
                } else {
                    assert(e[i] == l[i - ep.len()]);
                }
            }
        } else {
            assert(e == ep.push(f));
            assert forall|i: int|
                0 <= i < e.len() && is_embed_model((#[trigger] e[i]).pair) implies target > 0
                && lookup(next, e[i].pair.name) is Some && depth_within(
                next,
                lookup(next, e[i].pair.name)->Some_0,
                (target - 1) as nat,
            ) by {
                if i < ep.len() {
                    assert(e[i] == ep[i]);
                }
            }
        }
    }
}

/// A spec whose embed chains are at most `d` long resolves within `d + 1`
/// rounds.
pub proof fn bounded_depth_resolves(spec: Seq<ItemModel>, d: nat)
    requires
        spec_within(spec, d),
    ensures
        resolve_model(spec, d + 1) is Ok,
    decreases d,
{
    items_expand(spec, spec, d);
    let next = one_level(spec)->Ok_0.0;
    let changed = one_level(spec)->Ok_0.1;
    if changed {
        assert forall|i: int| 0 <= i < next.len() implies item_within(
            next,
            #[trigger] next[i],
            (d - 1) as nat,
        ) by {
            assert(item_within(spec, spec[i], d));
            assert(next[i] == expand_item(spec, spec[i])->Ok_0.0);
            match spec[i] {
                ItemModel::StructDef { fields, .. } => {
                    depth_sinks(spec, next, fields, d);
                },
                ItemModel::EnumDef { variants, .. } => {
                    variants_expand(spec, variants, d);
                    let out = expand_variants(spec, variants)->Ok_0.0;
                    assert forall|j: int| 0 <= j < out.len() implies variant_within(
                        next,
                        #[trigger] out[j],
                        (d - 1) as nat,
                    ) by {
                        assert(out[j] == expanded_variant(spec, variants[j]));
                        assert(variant_within(spec, variants[j], d));
                        match variants[j].variant_type {
                            VariantTypeModel::Struct(f) => {
                                depth_sinks(spec, next, f, d);
                            },
                            _ => {},
                        }
                    }
                },
                ItemModel::ServiceDef { .. } => {},
            }
        }
        bounded_depth_resolves(next, (d - 1) as nat);
    }
}

/// Embed termination: a spec without embed cycles, whose embeds all name
/// known structs, and whose embed chains are at most `MAX_EMBED_DEPTH` long,
/// resolves.
pub proof fn shallow_spec_resolves(spec: Seq<ItemModel>, d: nat)
    requires
        spec_within(spec, d),
        d <= MAX_EMBED_DEPTH,
    ensures
        resolve_model(spec, (MAX_EMBED_DEPTH + 1) as nat) is Ok,
{
    bounded_depth_resolves(spec, d);
    resolution_within_fewer_rounds_stands(spec, d + 1, (MAX_EMBED_DEPTH + 1) as nat);
}

} // verus!
