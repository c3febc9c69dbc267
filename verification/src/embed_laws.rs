//! What holds of embed resolution, whatever the spec.

use crate::ast::{is_embed_model, FieldModel, ItemModel, VariantModel, VariantTypeModel};
use crate::embeds::{
    expand_fields, expand_item, expand_items, expand_variants, one_level, resolve_model,
    resolve_residue,
};
use vstd::prelude::*;

verus! {

/// A field list in which one level of expansion finds no embed marker comes
/// out of it as it went in.
pub proof fn fields_without_embed_stay(spec: Seq<ItemModel>, fields: Seq<FieldModel>)
    requires
        expand_fields(spec, fields) is Ok,
        !expand_fields(spec, fields)->Ok_0.1,
    ensures
        expand_fields(spec, fields)->Ok_0.0 == fields,
    decreases fields.len(),
{
    if fields.len() == 0 {
        assert(fields =~= Seq::<FieldModel>::empty());
    } else {
        fields_without_embed_stay(spec, fields.drop_last());
        assert(fields.drop_last().push(fields.last()) =~= fields);
    }
}

/// Variants whose field lists hold no embed marker come out of one level of
/// expansion as they went in.
pub proof fn variants_without_embed_stay(spec: Seq<ItemModel>, variants: Seq<VariantModel>)
    requires
        expand_variants(spec, variants) is Ok,
        !expand_variants(spec, variants)->Ok_0.1,
    ensures
        expand_variants(spec, variants)->Ok_0.0 == variants,
    decreases variants.len(),
{
    if variants.len() == 0 {
        assert(variants =~= Seq::<VariantModel>::empty());
    } else {
        variants_without_embed_stay(spec, variants.drop_last());
        let v = variants.last();
        match v.variant_type {
            VariantTypeModel::Struct(f) => {
                fields_without_embed_stay(spec, f);
            },
            _ => {},
        }
        assert(variants.drop_last().push(variants.last()) =~= variants);
    }
}

/// Items that hold no embed marker come out of one level of expansion as they
/// went in.
pub proof fn items_without_embed_stay(spec: Seq<ItemModel>, items: Seq<ItemModel>)
    requires
        expand_items(spec, items) is Ok,
        !expand_items(spec, items)->Ok_0.1,
    ensures
        expand_items(spec, items)->Ok_0.0 == items,
    decreases items.len(),
{
    if items.len() == 0 {
        assert(items =~= Seq::<ItemModel>::empty());
    } else {
        items_without_embed_stay(spec, items.drop_last());
        match items.last() {
            ItemModel::StructDef { fields, .. } => {
                fields_without_embed_stay(spec, fields);
            },
            ItemModel::EnumDef { variants, .. } => {
                variants_without_embed_stay(spec, variants);
            },
            ItemModel::ServiceDef { .. } => {},
        }
        assert(expand_item(spec, items.last())->Ok_0.0 == items.last());
        assert(items.drop_last().push(items.last()) =~= items);
    }
}

/// A round that finds no embed marker changes nothing: the spec is a fixed
/// point of one-level expansion.
pub proof fn round_without_embed_is_identity(spec: Seq<ItemModel>)
    requires
        one_level(spec) is Ok,
        !one_level(spec)->Ok_0.1,
    ensures
        one_level(spec) == Ok::<_, Seq<char>>((spec, false)),
{
    items_without_embed_stay(spec, spec);
}

/// Where resolution succeeds, what it leaves is a fixed point: a further round
/// finds no embed marker in it and changes nothing.
pub proof fn resolved_spec_is_fixed_point(spec: Seq<ItemModel>, rounds: nat)
    requires
        resolve_model(spec, rounds) is Ok,
    ensures
        one_level(resolve_model(spec, rounds)->Ok_0) == Ok::<_, Seq<char>>(
            (resolve_model(spec, rounds)->Ok_0, false),
        ),
    decreases rounds,
{
    if rounds > 0 {
        let (next, changed) = one_level(spec)->Ok_0;
        if changed {
            resolved_spec_is_fixed_point(next, (rounds - 1) as nat);
        } else {
            round_without_embed_is_identity(spec);
        }
    }
}

/// A spec whose embeds resolve within `k` rounds resolves to the same within
/// any larger number of rounds: every spec whose embed chains the limit covers
/// reaches its fixed point.
pub proof fn resolution_within_fewer_rounds_stands(spec: Seq<ItemModel>, k: nat, n: nat)
    requires
        resolve_model(spec, k) is Ok,
        k <= n,
    ensures
        resolve_model(spec, n) == resolve_model(spec, k),
    decreases k,
{
    if k > 0 {
        let (next, changed) = one_level(spec)->Ok_0;
        if changed {
            resolution_within_fewer_rounds_stands(next, (k - 1) as nat, (n - 1) as nat);
        }
    }
}

/// Where resolution succeeds, what it leaves behind is what it returns.
pub proof fn residue_of_success_is_the_result(spec: Seq<ItemModel>, rounds: nat)
    requires
        resolve_model(spec, rounds) is Ok,
    ensures
        resolve_residue(spec, rounds) == resolve_model(spec, rounds)->Ok_0,
    decreases rounds,
{
    if rounds > 0 {
        let (next, changed) = one_level(spec)->Ok_0;
        if changed {
            residue_of_success_is_the_result(next, (rounds - 1) as nat);
        }
    }
}

/// Expansion splices in place: the expansion of two field lists, one after the
/// other, is the expansion of the first followed by that of the second, so the
/// fields around an embed marker keep their order. It fails on the first
/// unknown target, and finds a marker where either part holds one.
pub proof fn expansion_keeps_order(spec: Seq<ItemModel>, a: Seq<FieldModel>, b: Seq<FieldModel>)
    ensures
        expand_fields(spec, a + b) == match expand_fields(spec, a) {
            Err(n) => Err::<(Seq<FieldModel>, bool), Seq<char>>(n),
            Ok((x, c)) => match expand_fields(spec, b) {
                Err(n) => Err(n),
                Ok((y, d)) => Ok((x + y, c || d)),
            },
        },
    decreases b.len(),
{
    if b.len() == 0 {
        assert(a + b =~= a);
        if expand_fields(spec, a) is Ok {
            let x = expand_fields(spec, a)->Ok_0.0;
            assert(x + Seq::<FieldModel>::empty() =~= x);
        }
    } else {
        expansion_keeps_order(spec, a, b.drop_last());
        assert((a + b).drop_last() =~= a + b.drop_last());
        assert((a + b).last() == b.last());
        if expand_fields(spec, a) is Ok && expand_fields(spec, b) is Ok {
            let x = expand_fields(spec, a)->Ok_0.0;
            let y0 = expand_fields(spec, b.drop_last())->Ok_0.0;
            let y = expand_fields(spec, b)->Ok_0.0;
            assert(expand_fields(spec, a + b)->Ok_0.0 =~= x + y);
        }
    }
}

/// Whether no field of a list is an embed marker.
pub open spec fn marker_free_fields(fields: Seq<FieldModel>) -> bool {
    forall|i: int| 0 <= i < fields.len() ==> !is_embed_model((#[trigger] fields[i]).pair)
}

/// Whether no field list of an item holds an embed marker.
pub open spec fn marker_free_item(item: ItemModel) -> bool {
    match item {
        ItemModel::StructDef { fields, .. } => marker_free_fields(fields),
        ItemModel::EnumDef { variants, .. } => forall|i: int|
            0 <= i < variants.len() ==> match (#[trigger] variants[i]).variant_type {
                VariantTypeModel::Struct(f) => marker_free_fields(f),
                _ => true,
            },
        ItemModel::ServiceDef { .. } => true,
    }
}

/// Whether no field list of a spec holds an embed marker.
pub open spec fn marker_free(spec: Seq<ItemModel>) -> bool {
    forall|i: int| 0 <= i < spec.len() ==> marker_free_item(#[trigger] spec[i])
}

/// A field list in which expansion finds no embed marker holds none.
pub proof fn unflagged_fields_are_marker_free(spec: Seq<ItemModel>, fields: Seq<FieldModel>)
    requires
        expand_fields(spec, fields) is Ok,
        !expand_fields(spec, fields)->Ok_0.1,
    ensures
        marker_free_fields(fields),
    decreases fields.len(),
{
    if fields.len() > 0 {
        unflagged_fields_are_marker_free(spec, fields.drop_last());
        assert forall|i: int| 0 <= i < fields.len() implies !is_embed_model(
            (#[trigger] fields[i]).pair,
        ) by {
            if i < fields.len() - 1 {
                assert(fields[i] == fields.drop_last()[i]);
            }
        }
    }
}

/// Variants in which expansion finds no embed marker hold none.
pub proof fn unflagged_variants_are_marker_free(spec: Seq<ItemModel>, variants: Seq<VariantModel>)
    requires
        expand_variants(spec, variants) is Ok,
        !expand_variants(spec, variants)->Ok_0.1,
    ensures
        forall|i: int|
            0 <= i < variants.len() ==> match (#[trigger] variants[i]).variant_type {
                VariantTypeModel::Struct(f) => marker_free_fields(f),
                _ => true,
            },
    decreases variants.len(),
{
    if variants.len() > 0 {
        unflagged_variants_are_marker_free(spec, variants.drop_last());
        match variants.last().variant_type {
            VariantTypeModel::Struct(f) => {
                unflagged_fields_are_marker_free(spec, f);
            },
            _ => {},
        }
        assert forall|i: int| 0 <= i < variants.len() implies match (#[trigger] variants[i]).variant_type {
            VariantTypeModel::Struct(f) => marker_free_fields(f),
            _ => true,
        } by {
            if i < variants.len() - 1 {
                assert(variants[i] == variants.drop_last()[i]);
            }
        }
    }
}

/// Items in which expansion finds no embed marker hold none.
pub proof fn unflagged_items_are_marker_free(spec: Seq<ItemModel>, items: Seq<ItemModel>)
    requires
        expand_items(spec, items) is Ok,
        !expand_items(spec, items)->Ok_0.1,
    ensures
        marker_free(items),
    decreases items.len(),
{
    if items.len() > 0 {
        unflagged_items_are_marker_free(spec, items.drop_last());
        match items.last() {
            ItemModel::StructDef { fields, .. } => {
                unflagged_fields_are_marker_free(spec, fields);
            },
            ItemModel::EnumDef { variants, .. } => {
                unflagged_variants_are_marker_free(spec, variants);
            },
            ItemModel::ServiceDef { .. } => {},
        }
        assert forall|i: int| 0 <= i < items.len() implies marker_free_item(#[trigger] items[i]) by {
            if i < items.len() - 1 {
                assert(items[i] == items.drop_last()[i]);
            }
        }
    }
}

/// Where resolution succeeds, no embed marker is left: every one has given
/// way to the fields of its target.
pub proof fn resolved_spec_is_marker_free(spec: Seq<ItemModel>, rounds: nat)
    requires
        resolve_model(spec, rounds) is Ok,
    ensures
        marker_free(resolve_model(spec, rounds)->Ok_0),
{
    resolved_spec_is_fixed_point(spec, rounds);
    let s = resolve_model(spec, rounds)->Ok_0;
    unflagged_items_are_marker_free(s, s);
}

} // verus!
