use vstd::prelude::*;
use crate::macros::types::{TypeModel, FilterError, ErrorSite, type_name_of, filter_view, get_type_name};
use crate::text::{string_chars, string_from_chars, push_str, clone_string, string_from_str};

verus! {

/// The fields of an enum variant.
pub enum VariantFields {
    /// A tuple variant, with the types of its fields.
    Unnamed(Vec<TypeModel>),
    /// A variant with named fields.
    Named,
    /// A variant without fields.
    Unit,
}

/// A variant of the enum a derive macro is applied to.
pub struct VariantInput {
    pub ident: String,
    pub fields: VariantFields,
}

/// The accepted variants of an enum: their names, the names of the types
/// they hold, and the names of the builders of those types.
pub struct Variants {
    pub variant_names: Vec<String>,
    pub variant_types_names: Vec<String>,
    pub variant_builder_names: Vec<String>,
}

/// Whether the first field type of every tuple variant that is a path has a segment.
pub open spec fn variant_paths_nonempty(vs: Seq<VariantInput>) -> bool {
    forall|i: int| 0 <= i < vs.len() ==> match (#[trigger] vs[i]).fields {
        VariantFields::Unnamed(tys) => tys@.len() > 0 ==> (tys@[0] matches TypeModel::Path(segs) ==> segs@.len() > 0),
        _ => true,
    }
}

/// The name of the type a variant holds, or the error.
pub open spec fn variant_result(v: VariantInput) -> Result<Seq<char>, (ErrorSite, Seq<char>)> {
    match v.fields {
        VariantFields::Unnamed(tys) => if tys@.len() > 0 {
            type_name_of(tys@[0])
        } else {
            Err((ErrorSite::Item, "Unnamed variant must contain exactly one field"@))
        },
        _ => Err((ErrorSite::Item, "This proc macro only supports tuple (unnamed) variants"@)),
    }
}

/// The (name, type name) of the accepted variants, in order.
pub open spec fn variant_entries(vs: Seq<VariantInput>) -> Seq<(Seq<char>, Seq<char>)>
    decreases vs.len(),
{
    if vs.len() == 0 {
        Seq::empty()
    } else {
        let prev = variant_entries(vs.drop_last());
        match variant_result(vs.last()) {
            Ok(name) => prev.push((vs.last().ident@, name)),
            Err(_) => prev,
        }
    }
}

/// The errors of the refused variants, with their positions, in order.
pub open spec fn variant_errors(vs: Seq<VariantInput>) -> Seq<(int, (ErrorSite, Seq<char>))>
    decreases vs.len(),
{
    if vs.len() == 0 {
        Seq::empty()
    } else {
        let prev = variant_errors(vs.drop_last());
        match variant_result(vs.last()) {
            Ok(_) => prev,
            Err(e) => prev.push((vs.len() - 1, e)),
        }
    }
}

/// Whether `r` holds exactly `es`.
pub open spec fn variants_match(r: Variants, es: Seq<(Seq<char>, Seq<char>)>) -> bool {
    &&& r.variant_names@.len() == es.len()
    &&& r.variant_types_names@.len() == es.len()
    &&& r.variant_builder_names@.len() == es.len()
    &&& forall|i: int| 0 <= i < es.len() ==> {
        &&& (#[trigger] r.variant_names@[i])@ == es[i].0
        &&& r.variant_types_names@[i]@ == es[i].1
        &&& r.variant_builder_names@[i]@ == es[i].1 + "Builder"@
    }
}

/// Abstract content of a list of variant errors.
pub open spec fn variant_errors_view(v: Seq<(usize, FilterError)>) -> Seq<(int, (ErrorSite, Seq<char>))> {
    v.map_values(|e: (usize, FilterError)| (e.0 as int, (e.1.site, e.1.message@)))
}

/// The name of the type a variant holds, or the error.
pub fn variant_type_name(v: &VariantInput) -> (r: Result<String, FilterError>)
    requires
        v.fields matches VariantFields::Unnamed(tys) ==> (tys@.len() > 0 ==> (tys@[0] matches TypeModel::Path(segs) ==> segs@.len() > 0)),
    ensures
        filter_view(r) == variant_result(*v),
{
    match &v.fields {
        VariantFields::Unnamed(tys) => {
            if tys.len() > 0 {
                get_type_name(&tys[0])
            } else {
                Err(FilterError { site: ErrorSite::Item, message: string_from_str("Unnamed variant must contain exactly one field") })
            }
        },
        _ => Err(FilterError { site: ErrorSite::Item, message: string_from_str("This proc macro only supports tuple (unnamed) variants") }),
    }
}

/// Extracts the variants of an enum: each must be a tuple variant whose
/// first field has a non-generic type. Refused variants give errors
/// (`None` when there is none).
pub fn extract_variants(data: &Vec<VariantInput>) -> (r: (Variants, Option<Vec<(usize, FilterError)>>))
    requires
        variant_paths_nonempty(data@),
    ensures
        variants_match(r.0, variant_entries(data@)),
        match r.1 {
            None => variant_errors(data@).len() == 0,
            Some(es) => variant_errors(data@).len() > 0 && variant_errors_view(es@) == variant_errors(data@),
        },
{
    let mut ret = Variants { variant_names: Vec::new(), variant_types_names: Vec::new(), variant_builder_names: Vec::new() };
    let mut errors: Vec<(usize, FilterError)> = Vec::new();
    let mut i: usize = 0;
    while i < data.len()
        invariant
            i <= data@.len(),
            variant_paths_nonempty(data@),
            variants_match(ret, variant_entries(data@.subrange(0, i as int))),
            variant_errors_view(errors@) == variant_errors(data@.subrange(0, i as int)),
        decreases data@.len() - i,
    {
        let ghost prev = data@.subrange(0, i as int);
        let ghost next = data@.subrange(0, i + 1);
        assert(next.drop_last() =~= prev);
        assert(next.last() == data@[i as int]);
        let v = &data[i];
        match variant_type_name(v) {
            Ok(name) => {
                let mut b = string_chars(&name);
                push_str(&mut b, "Builder");
                ret.variant_names.push(clone_string(&v.ident));
                ret.variant_types_names.push(name);
                ret.variant_builder_names.push(string_from_chars(&b));
            },
            Err(e) => {
                let ghost before = errors@;
                errors.push((i, e));
                assert(variant_errors_view(errors@) =~= variant_errors_view(before).push((i as int, (e.site, e.message@))));
            },
        }
        i = i + 1;
    }
    assert(data@.subrange(0, data@.len() as int) =~= data@);
    if errors.len() == 0 {
        (ret, None)
    } else {
        (ret, Some(errors))
    }
}

} // verus!
