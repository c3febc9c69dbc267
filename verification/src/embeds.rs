//! Embeds as a transformation of the syntax tree.
//!
//! A struct field that is an embed marker stands for the whole field list of
//! the struct it names. Resolution replaces markers by those lists, one level
//! per round, until a round finds no marker, or gives up after a fixed number
//! of rounds. No field-name collisions are looked for.

use crate::ast::{
    clone_opt_string, fields_view, is_embed_model, variants_view, EnumDef, FieldModel,
    FieldNode, ItemModel, Spec, SpecItem, StructDef, StructFields, VariantDef, VariantModel,
    VariantType, VariantTypeModel,
};
use crate::error::{CompileError, CompileErrorModel};
use vstd::prelude::*;
use vstd::string::*;

verus! {

/// The deepest chain of embeds that resolution follows.
pub const MAX_EMBED_DEPTH: usize = 10;

/// The key under which the anonymous struct of an enum variant is known.
pub open spec fn variant_key(enum_name: Seq<char>, variant: Seq<char>) -> Seq<char> {
    enum_name + "."@ + variant
}

/// The field list of the last struct-shaped variant whose key is `name`.
pub open spec fn lookup_variants(
    enum_name: Seq<char>,
    variants: Seq<VariantModel>,
    name: Seq<char>,
) -> Option<Seq<FieldModel>>
    decreases variants.len(),
{
    if variants.len() == 0 {
        None
    } else {
        let v = variants.last();
        if v.variant_type is Struct && variant_key(enum_name, v.name) == name {
            Some(v.variant_type->Struct_0)
        } else {
            lookup_variants(enum_name, variants.drop_last(), name)
        }
    }
}

/// The field list that one item contributes under `name`, if any.
pub open spec fn lookup_item(item: ItemModel, name: Seq<char>) -> Option<Seq<FieldModel>> {
    match item {
        ItemModel::StructDef { name: n, fields, .. } => if n == name {
            Some(fields)
        } else {
            None
        },
        ItemModel::EnumDef { name: n, variants, .. } => lookup_variants(n, variants, name),
        ItemModel::ServiceDef { .. } => None,
    }
}

/// The field list known under `name`: that of the last definition with that
/// name, a struct by its own name, a struct-shaped variant by its key.
pub open spec fn lookup(spec: Seq<ItemModel>, name: Seq<char>) -> Option<Seq<FieldModel>>
    decreases spec.len(),
{
    if spec.len() == 0 {
        None
    } else {
        match lookup_item(spec.last(), name) {
            Some(f) => Some(f),
            None => lookup(spec.drop_last(), name),
        }
    }
}

/// One level of expansion of a field list: each embed marker gives way to the
/// field list it names, every other field stays, all in their order. The flag
/// says whether a marker was found. An unknown target gives `Err` with the name
/// of the first such marker.
pub open spec fn expand_fields(spec: Seq<ItemModel>, fields: Seq<FieldModel>) -> Result<
    (Seq<FieldModel>, bool),
    Seq<char>,
>
    decreases fields.len(),
{
    if fields.len() == 0 {
        Ok((Seq::empty(), false))
    } else {
        match expand_fields(spec, fields.drop_last()) {
            Err(n) => Err(n),
            Ok((out, changed)) => {
                let f = fields.last();
                if is_embed_model(f.pair) {
                    match lookup(spec, f.pair.name) {
                        None => Err(f.pair.name),
                        Some(t) => Ok((out + t, true)),
                    }
                } else {
                    Ok((out.push(f), changed))
                }
            },
        }
    }
}

/// One level of expansion of the struct-shaped variants among `variants`.
pub open spec fn expand_variants(spec: Seq<ItemModel>, variants: Seq<VariantModel>) -> Result<
    (Seq<VariantModel>, bool),
    Seq<char>,
>
    decreases variants.len(),
{
    if variants.len() == 0 {
        Ok((Seq::empty(), false))
    } else {
        match expand_variants(spec, variants.drop_last()) {
            Err(n) => Err(n),
            Ok((out, changed)) => {
                let v = variants.last();
                match v.variant_type {
                    VariantTypeModel::Struct(f) => match expand_fields(spec, f) {
                        Err(n) => Err(n),
                        Ok((g, c)) => Ok(
                            (
                                out.push(
                                    VariantModel {
                                        name: v.name,
                                        variant_type: VariantTypeModel::Struct(g),
                                        doc_comment: v.doc_comment,
                                    },
                                ),
                                changed || c,
                            ),
                        ),
                    },
                    _ => Ok((out.push(v), changed)),
                }
            },
        }
    }
}

/// One level of expansion of one item.
pub open spec fn expand_item(spec: Seq<ItemModel>, item: ItemModel) -> Result<
    (ItemModel, bool),
    Seq<char>,
> {
    match item {
        ItemModel::StructDef { name, fields, doc_comment } => match expand_fields(spec, fields) {
            Err(n) => Err(n),
            Ok((g, c)) => Ok((ItemModel::StructDef { name, fields: g, doc_comment }, c)),
        },
        ItemModel::EnumDef { name, variants, doc_comment } => match expand_variants(
            spec,
            variants,
        ) {
            Err(n) => Err(n),
            Ok((w, c)) => Ok((ItemModel::EnumDef { name, variants: w, doc_comment }, c)),
        },
        ItemModel::ServiceDef { .. } => Ok((item, false)),
    }
}

/// One level of expansion of `items`, with targets looked up in `spec`.
pub open spec fn expand_items(spec: Seq<ItemModel>, items: Seq<ItemModel>) -> Result<
    (Seq<ItemModel>, bool),
    Seq<char>,
>
    decreases items.len(),
{
    if items.len() == 0 {
        Ok((Seq::empty(), false))
    } else {
        match expand_items(spec, items.drop_last()) {
            Err(n) => Err(n),
            Ok((out, changed)) => match expand_item(spec, items.last()) {
                Err(n) => Err(n),
                Ok((it, c)) => Ok((out.push(it), changed || c)),
            },
        }
    }
}

/// One round of resolution: every struct-shaped field list of the spec,
/// expanded by one level against the spec as it stood before the round.
pub open spec fn one_level(spec: Seq<ItemModel>) -> Result<(Seq<ItemModel>, bool), Seq<char>> {
    expand_items(spec, spec)
}

/// What resolution ends in after at most `rounds` rounds.
pub open spec fn resolve_model(spec: Seq<ItemModel>, rounds: nat) -> Result<
    Seq<ItemModel>,
    CompileErrorModel,
>
    decreases rounds,
{
    if rounds == 0 {
        Err(CompileErrorModel::EmbedDepthExceeded)
    } else {
        match one_level(spec) {
            Err(n) => Err(CompileErrorModel::UnresolvedEmbed(n)),
            Ok((next, changed)) => if changed {
                resolve_model(next, (rounds - 1) as nat)
            } else {
                Ok(next)
            },
        }
    }
}

/// What resolution leaves behind after at most `rounds` rounds, whether it
/// succeeds or not: the spec as the last round that went through left it.
pub open spec fn resolve_residue(spec: Seq<ItemModel>, rounds: nat) -> Seq<ItemModel>
    decreases rounds,
{
    if rounds == 0 {
        spec
    } else {
        match one_level(spec) {
            Err(_) => spec,
            Ok((next, changed)) => if changed {
                resolve_residue(next, (rounds - 1) as nat)
            } else {
                next
            },
        }
    }
}

/// An unknown target among the first `k` fields is the failure of the whole list.
proof fn lemma_expand_fields_prefix_err(spec: Seq<ItemModel>, fields: Seq<FieldModel>, k: int)
    requires
        0 <= k <= fields.len(),
        expand_fields(spec, fields.take(k)) is Err,
    ensures
        expand_fields(spec, fields) == expand_fields(spec, fields.take(k)),
    decreases fields.len(),
{
    if k == fields.len() {
        assert(fields.take(k) =~= fields);
    } else {
        assert(fields.drop_last().take(k) =~= fields.take(k));
        lemma_expand_fields_prefix_err(spec, fields.drop_last(), k);
    }
}

/// An unknown target among the first `k` variants is the failure of the whole list.
proof fn lemma_expand_variants_prefix_err(
    spec: Seq<ItemModel>,
    variants: Seq<VariantModel>,
    k: int,
)
    requires
        0 <= k <= variants.len(),
        expand_variants(spec, variants.take(k)) is Err,
    ensures
        expand_variants(spec, variants) == expand_variants(spec, variants.take(k)),
    decreases variants.len(),
{
    if k == variants.len() {
        assert(variants.take(k) =~= variants);
    } else {
        assert(variants.drop_last().take(k) =~= variants.take(k));
        lemma_expand_variants_prefix_err(spec, variants.drop_last(), k);
    }
}

/// An unknown target among the first `k` items is the failure of the whole list.
proof fn lemma_expand_items_prefix_err(spec: Seq<ItemModel>, items: Seq<ItemModel>, k: int)
    requires
        0 <= k <= items.len(),
        expand_items(spec, items.take(k)) is Err,
    ensures
        expand_items(spec, items) == expand_items(spec, items.take(k)),
    decreases items.len(),
{
    if k == items.len() {
        assert(items.take(k) =~= items);
    } else {
        assert(items.drop_last().take(k) =~= items.take(k));
        lemma_expand_items_prefix_err(spec, items.drop_last(), k);
    }
}

/// Whether `key` is `enum_name`, a dot and `variant`.
fn is_variant_key(enum_name: &String, variant: &String, key: &String) -> (r: bool)
    ensures
        r == (variant_key(enum_name@, variant@) == key@),
{
    let mut k = enum_name.clone();
    k.append(".");
    k.append(variant.as_str());
    k == *key
}

/// Looks a field list up among the variants of one enum.
fn lookup_in_variants<'a>(enum_name: &String, variants: &'a Vec<VariantDef>, name: &String) -> (r:
    Option<&'a Vec<FieldNode>>)
    ensures
        match lookup_variants(enum_name@, variants_view(variants@), name@) {
            Some(f) => r is Some && fields_view(r->Some_0@) == f,
            None => r is None,
        },
{
    let ghost all = variants_view(variants@);
    let mut i: usize = variants.len();
    assert(all.take(i as int) =~= all);
    while i > 0
        invariant
            i <= variants.len(),
            all == variants_view(variants@),
            lookup_variants(enum_name@, all, name@) == lookup_variants(
                enum_name@,
                all.take(i as int),
                name@,
            ),
        decreases i,
    {
        proof {
            assert(all.take(i as int).drop_last() =~= all.take(i - 1));
            assert(all.take(i as int).last() == variants[i - 1]@);
        }
        i -= 1;
        let v = &variants[i];
        match &v.variant_type {
            VariantType::Struct(f) => {
                if is_variant_key(enum_name, &v.name, name) {
                    return Some(&f.0);
                }
            },
            _ => {},
        }
    }
    assert(all.take(0) =~= Seq::<VariantModel>::empty());
    None
}

/// Looks up the field list that the spec knows under `name`.
pub fn lookup_fields<'a>(spec: &'a Spec, name: &String) -> (r: Option<&'a Vec<FieldNode>>)
    ensures
        match lookup(spec@, name@) {
            Some(f) => r is Some && fields_view(r->Some_0@) == f,
            None => r is None,
        },
{
    let ghost all = spec@;
    let mut i: usize = spec.0.len();
    assert(all.take(i as int) =~= all);
    while i > 0
        invariant
            i <= spec.0.len(),
            all == spec@,
            lookup(all, name@) == lookup(all.take(i as int), name@),
        decreases i,
    {
        proof {
            assert(all.take(i as int).drop_last() =~= all.take(i - 1));
            assert(all.take(i as int).last() == spec.0[i - 1]@);
        }
        i -= 1;
        match &spec.0[i] {
            SpecItem::StructDef(d) => {
                if d.name == *name {
                    return Some(&d.fields.0);
                }
            },
            SpecItem::EnumDef(d) => {
                match lookup_in_variants(&d.name, &d.variants, name) {
                    Some(f) => {
                        return Some(f);
                    },
                    None => {},
                }
            },
            SpecItem::ServiceDef(_) => {},
        }
    }
    assert(all.take(0) =~= Seq::<ItemModel>::empty());
    None
}

/// Expands one field list by one level.
fn expand_field_list(spec: &Spec, fields: &Vec<FieldNode>) -> (r: Result<
    (Vec<FieldNode>, bool),
    String,
>)
    ensures
        match expand_fields(spec@, fields_view(fields@)) {
            Ok((g, c)) => r is Ok && fields_view(r->Ok_0.0@) == g && r->Ok_0.1 == c,
            Err(n) => r is Err && r->Err_0@ == n,
        },
{
    let ghost all = fields_view(fields@);
    let mut out: Vec<FieldNode> = Vec::new();
    let mut changed = false;
    let mut i: usize = 0;
    assert(all.take(0) =~= Seq::<FieldModel>::empty());
    assert(fields_view(out@) =~= Seq::<FieldModel>::empty());
    while i < fields.len()
        invariant
            i <= fields.len(),
            all == fields_view(fields@),
            expand_fields(spec@, all.take(i as int)) == Ok::<_, Seq<char>>(
                (fields_view(out@), changed),
            ),
        decreases fields.len() - i,
    {
        let f = &fields[i];
        proof {
            assert(all.take(i + 1).drop_last() =~= all.take(i as int));
            assert(all.take(i + 1).last() == f@);
        }
        if f.pair.is_embed() {
            match lookup_fields(spec, &f.pair.name) {
                None => {
                    proof {
                        lemma_expand_fields_prefix_err(spec@, all, i + 1);
                    }
                    return Err(f.pair.name.clone());
                },
                Some(target) => {
                    let ghost before = fields_view(out@);
                    let mut j: usize = 0;
                    while j < target.len()
                        invariant
                            j <= target.len(),
                            fields_view(out@) == before + fields_view(target@).take(j as int),
                        decreases target.len() - j,
                    {
                        let ghost prev = fields_view(out@);
                        out.push(target[j].clone());
                        assert(fields_view(out@) =~= prev.push(target[j as int]@));
                        assert(fields_view(target@).take(j + 1) =~= fields_view(target@).take(
                            j as int,
                        ).push(target[j as int]@));
                        assert(fields_view(out@) =~= before + fields_view(target@).take(j + 1));
                        j += 1;
                    }
                    assert(fields_view(target@).take(j as int) =~= fields_view(target@));
                    changed = true;
                },
            }
        } else {
            let ghost prev = fields_view(out@);
            out.push(f.clone());
            assert(fields_view(out@) =~= prev.push(f@));
        }
        i += 1;
    }
    assert(all.take(i as int) =~= all);
    Ok((out, changed))
}

/// Copies a variant that has no struct payload.
fn clone_plain_variant(v: &VariantDef) -> (r: VariantDef)
    requires
        !(v@.variant_type is Struct),
    ensures
        r@ == v@,
{
    let variant_type = match &v.variant_type {
        VariantType::Simple => VariantType::Simple,
        VariantType::Tuple(t) => VariantType::Tuple(t.clone()),
        VariantType::Newtype(t) => VariantType::Newtype(t.clone()),
        VariantType::Struct(_) => VariantType::Simple,
    };
    VariantDef {
        name: v.name.clone(),
        variant_type,
        doc_comment: clone_opt_string(&v.doc_comment),
    }
}

/// Expands the struct-shaped variants of one enum by one level.
fn expand_variant_list(spec: &Spec, variants: &Vec<VariantDef>) -> (r: Result<
    (Vec<VariantDef>, bool),
    String,
>)
    ensures
        match expand_variants(spec@, variants_view(variants@)) {
            Ok((w, c)) => r is Ok && variants_view(r->Ok_0.0@) == w && r->Ok_0.1 == c,
            Err(n) => r is Err && r->Err_0@ == n,
        },
{
    let ghost all = variants_view(variants@);
    let mut out: Vec<VariantDef> = Vec::new();
    let mut changed = false;
    let mut i: usize = 0;
    assert(all.take(0) =~= Seq::<VariantModel>::empty());
    assert(variants_view(out@) =~= Seq::<VariantModel>::empty());
    while i < variants.len()
        invariant
            i <= variants.len(),
            all == variants_view(variants@),
            expand_variants(spec@, all.take(i as int)) == Ok::<_, Seq<char>>(
                (variants_view(out@), changed),
            ),
        decreases variants.len() - i,
    {
        let v = &variants[i];
        let ghost prev = variants_view(out@);
        proof {
            assert(all.take(i + 1).drop_last() =~= all.take(i as int));
            assert(all.take(i + 1).last() == v@);
        }
        match &v.variant_type {
            VariantType::Struct(f) => {
                match expand_field_list(spec, &f.0) {
                    Err(n) => {
                        proof {
                            lemma_expand_variants_prefix_err(spec@, all, i + 1);
                        }
                        return Err(n);
                    },
                    Ok((g, c)) => {
                        let w = VariantDef {
                            name: v.name.clone(),
                            variant_type: VariantType::Struct(StructFields(g)),
                            doc_comment: clone_opt_string(&v.doc_comment),
                        };
                        out.push(w);
                        assert(variants_view(out@) =~= prev.push(w@));
                        changed = changed || c;
                    },
                }
            },
            _ => {
                let w = clone_plain_variant(v);
                out.push(w);
                assert(variants_view(out@) =~= prev.push(v@));
            },
        }
        i += 1;
    }
    assert(all.take(i as int) =~= all);
    Ok((out, changed))
}

/// Expands one item by one level. `None` stands for an item that stays as it is.
fn expand_spec_item(spec: &Spec, item: &SpecItem) -> (r: Result<(Option<SpecItem>, bool), String>)
    ensures
        match expand_item(spec@, item@) {
            Ok((it, c)) => r is Ok && r->Ok_0.1 == c && match r->Ok_0.0 {
                Some(n) => n@ == it,
                None => item@ == it,
            },
            Err(n) => r is Err && r->Err_0@ == n,
        },
{
    match item {
        SpecItem::StructDef(d) => match expand_field_list(spec, &d.fields.0) {
            Err(n) => Err(n),
            Ok((g, c)) => Ok(
                (
                    Some(
                        SpecItem::StructDef(
                            StructDef {
                                name: d.name.clone(),
                                fields: StructFields(g),
                                doc_comment: clone_opt_string(&d.doc_comment),
                            },
                        ),
                    ),
                    c,
                ),
            ),
        },
        SpecItem::EnumDef(d) => match expand_variant_list(spec, &d.variants) {
            Err(n) => Err(n),
            Ok((w, c)) => Ok(
                (
                    Some(
                        SpecItem::EnumDef(
                            EnumDef {
                                name: d.name.clone(),
                                variants: w,
                                doc_comment: clone_opt_string(&d.doc_comment),
                            },
                        ),
                    ),
                    c,
                ),
            ),
        },
        SpecItem::ServiceDef(_) => Ok((None, false)),
    }
}

/// One round of resolution: replaces every embed marker of the spec by the
/// field list of the struct it names, as the spec held it before the round.
/// Returns whether a marker was found. On an unknown target the spec is left
/// as it was.
pub fn spec_resolve_embeds_one_level(spec: &mut Spec) -> (r: Result<bool, CompileError>)
    ensures
        match one_level(old(spec)@) {
            Ok((next, changed)) => r is Ok && r->Ok_0 == changed && final(spec)@ == next,
            Err(n) => {
                &&& r is Err
                &&& r->Err_0@ == CompileErrorModel::UnresolvedEmbed(n)
                &&& final(spec)@ == old(spec)@
            },
        },
{
    let ghost all = spec@;
    let ghost mut target: Seq<ItemModel> = Seq::empty();
    let n = spec.0.len();
    let mut replacements: Vec<Option<SpecItem>> = Vec::new();
    let mut changed = false;
    let mut i: usize = 0;
    assert(all.take(0) =~= Seq::<ItemModel>::empty());
    while i < n
        invariant
            i <= n,
            n == spec.0.len(),
            all == spec@,
            *spec == *old(spec),
            replacements.len() == i,
            target.len() == i,
            expand_items(all, all.take(i as int)) == Ok::<_, Seq<char>>((target, changed)),
            forall|j: int|
                0 <= j < i ==> match #[trigger] replacements[j] {
                    Some(it) => it@ == target[j],
                    None => all[j] == target[j],
                },
        decreases n - i,
    {
        proof {
            assert(all.take(i + 1).drop_last() =~= all.take(i as int));
            assert(all.take(i + 1).last() == spec.0[i as int]@);
        }
        match expand_spec_item(spec, &spec.0[i]) {
            Err(name) => {
                proof {
                    lemma_expand_items_prefix_err(all, all, i + 1);
                }
                return Err(CompileError::UnresolvedEmbed(name));
            },
            Ok((rep, c)) => {
                proof {
                    target = target.push(expand_item(all, all[i as int])->Ok_0.0);
                }
                replacements.push(rep);
                changed = changed || c;
            },
        }
        i += 1;
    }
    assert(all.take(n as int) =~= all);
    while i > 0
        invariant
            i <= n,
            n == spec.0.len(),
            replacements.len() == i,
            target.len() == n,
            all.len() == n,
            forall|j: int| i <= j < n ==> (#[trigger] spec.0[j])@ == target[j],
            forall|j: int| 0 <= j < i ==> (#[trigger] spec.0[j])@ == all[j],
            forall|j: int|
                0 <= j < i ==> match #[trigger] replacements[j] {
                    Some(it) => it@ == target[j],
                    None => all[j] == target[j],
                },
        decreases i,
    {
        i -= 1;
        match replacements.pop() {
            Some(Some(it)) => {
                spec.0.set(i, it);
            },
            _ => {},
        }
    }
    assert(spec@ =~= target);
    Ok(changed)
}

/// Resolves the embeds of a spec: rounds of one-level expansion until a round
/// finds no embed marker. Fails on an embed of an unknown struct, and when
/// markers are still found in round `MAX_EMBED_DEPTH + 1`, which an embed
/// cycle always brings about. On a failure the spec stays as the rounds
/// before it left it.
pub fn resolve_embeds(spec: &mut Spec) -> (r: Result<(), CompileError>)
    ensures
        match resolve_model(old(spec)@, (MAX_EMBED_DEPTH + 1) as nat) {
            Ok(s) => r is Ok && final(spec)@ == s,
            Err(e) => r is Err && r->Err_0@ == e,
        },
        final(spec)@ == resolve_residue(old(spec)@, (MAX_EMBED_DEPTH + 1) as nat),
{
    let mut round: usize = 0;
    while round <= MAX_EMBED_DEPTH
        invariant
            round <= MAX_EMBED_DEPTH + 1,
            resolve_model(old(spec)@, (MAX_EMBED_DEPTH + 1) as nat) == resolve_model(
                spec@,
                (MAX_EMBED_DEPTH + 1 - round) as nat,
            ),
            resolve_residue(old(spec)@, (MAX_EMBED_DEPTH + 1) as nat) == resolve_residue(
                spec@,
                (MAX_EMBED_DEPTH + 1 - round) as nat,
            ),
        decreases MAX_EMBED_DEPTH + 1 - round,
    {
        match spec_resolve_embeds_one_level(spec) {
            Err(e) => {
                return Err(e);
            },
            Ok(changed) => {
                if !changed {
                    return Ok(());
                }
            },
        }
        round += 1;
    }
    Err(CompileError::EmbedDepthExceeded)
}

} // verus!
