use vstd::prelude::*;
use crate::macros::types::{
    TypeModel, FilterError, ErrorSite, first_ident_is, container_name_of, type_name_of, filter_view,
    get_type_name, get_vec_type_name, get_option_type_name, is_vec, is_option,
};
use crate::codegen::registry::strings_view;
use crate::text::{string_chars, string_from_chars, push_str, clone_string, string_from_str};

verus! {

/// How a struct field holds its nodes.
#[derive(PartialEq, Eq, Structural, Clone, Copy, Debug)]
pub enum FieldType {
    /// A plain type `T`.
    Normal,
    /// A `Vec<T>`.
    Vec,
    /// An `Option<T>`.
    Option,
}

/// A field of the struct a derive macro is applied to.
pub struct StructHelpers {
    /// Its name; `None` in a tuple struct.
    pub ident: Option<String>,
    /// Its type.
    pub ty: TypeModel,
}

/// The name of an accepted field.
pub struct FieldInfo {
    pub ident: String,
}

/// The accepted fields of a struct, grouped by how they hold their nodes:
/// for each group the field names, the names of their node types, and the
/// names of the builders of those types (the type name followed by `Builder`).
pub struct Fields {
    pub field_names: Vec<FieldInfo>,
    pub field_vec_names: Vec<FieldInfo>,
    pub field_option_names: Vec<FieldInfo>,
    pub field_types_names: Vec<String>,
    pub field_vec_types_names: Vec<String>,
    pub field_option_types_names: Vec<String>,
    pub field_builder_names: Vec<String>,
    pub field_vec_builder_names: Vec<String>,
    pub field_option_builder_names: Vec<String>,
}

/// One accepted field, as the builders visit it.
pub struct FieldEntry {
    pub kind: FieldType,
    pub ident: String,
    pub ty: String,
    pub builder: String,
}

/// Whether every path type of the list has a segment.
pub open spec fn paths_nonempty(fs: Seq<StructHelpers>) -> bool {
    forall|i: int| 0 <= i < fs.len() ==> ((#[trigger] fs[i]).ty matches TypeModel::Path(segs) ==> segs@.len() > 0)
}

/// How a field holds its nodes, and the name of its node type or the error.
pub open spec fn field_result(ty: TypeModel) -> (FieldType, Result<Seq<char>, (ErrorSite, Seq<char>)>) {
    if first_ident_is(ty, "Vec"@) {
        (FieldType::Vec, container_name_of(ty, "Vec"@))
    } else if first_ident_is(ty, "Option"@) {
        (FieldType::Option, container_name_of(ty, "Option"@))
    } else {
        (FieldType::Normal, type_name_of(ty))
    }
}

/// Whether every accepted field has a name.
pub open spec fn accepted_named(fs: Seq<StructHelpers>) -> bool {
    forall|i: int| 0 <= i < fs.len() ==> (field_result((#[trigger] fs[i]).ty).1 is Ok ==> fs[i].ident is Some)
}

/// The (name, type name) of the accepted fields of group `k`, in order.
pub open spec fn group_entries(fs: Seq<StructHelpers>, k: FieldType) -> Seq<(Seq<char>, Seq<char>)>
    decreases fs.len(),
{
    if fs.len() == 0 {
        Seq::empty()
    } else {
        let prev = group_entries(fs.drop_last(), k);
        let f = fs.last();
        let (fk, res) = field_result(f.ty);
        match res {
            Ok(name) => if fk == k { prev.push((f.ident->0@, name)) } else { prev },
            Err(_) => prev,
        }
    }
}

/// The errors of the refused fields, with their positions, in order.
pub open spec fn field_errors(fs: Seq<StructHelpers>) -> Seq<(int, (ErrorSite, Seq<char>))>
    decreases fs.len(),
{
    if fs.len() == 0 {
        Seq::empty()
    } else {
        let prev = field_errors(fs.drop_last());
        match field_result(fs.last().ty).1 {
            Ok(_) => prev,
            Err(e) => prev.push((fs.len() - 1, e)),
        }
    }
}

/// Whether a group of `Fields` holds exactly `es`.
pub open spec fn group_matches(infos: Seq<FieldInfo>, types: Seq<String>, builders: Seq<String>, es: Seq<(Seq<char>, Seq<char>)>) -> bool {
    &&& infos.len() == es.len()
    &&& types.len() == es.len()
    &&& builders.len() == es.len()
    &&& forall|i: int| 0 <= i < es.len() ==> {
        &&& (#[trigger] infos[i]).ident@ == es[i].0
        &&& types[i]@ == es[i].1
        &&& builders[i]@ == es[i].1 + "Builder"@
    }
}

/// Abstract content of a list of field errors.
pub open spec fn errors_view(v: Seq<(usize, FilterError)>) -> Seq<(int, (ErrorSite, Seq<char>))> {
    v.map_values(|e: (usize, FilterError)| (e.0 as int, (e.1.site, e.1.message@)))
}

/// Whether `r` holds the fields of `fs`, grouped.
pub open spec fn fields_of(r: Fields, fs: Seq<StructHelpers>) -> bool {
    &&& group_matches(r.field_names@, r.field_types_names@, r.field_builder_names@, group_entries(fs, FieldType::Normal))
    &&& group_matches(r.field_vec_names@, r.field_vec_types_names@, r.field_vec_builder_names@, group_entries(fs, FieldType::Vec))
    &&& group_matches(r.field_option_names@, r.field_option_types_names@, r.field_option_builder_names@, group_entries(fs, FieldType::Option))
}

/// The name of a builder: the type name followed by `Builder`.
fn builder_name(name: &String) -> (r: String)
    ensures
        r@ == name@ + "Builder"@,
{
    let mut v = string_chars(name);
    push_str(&mut v, "Builder");
    string_from_chars(&v)
}

/// How a field holds its nodes, and the name of its node type or the error.
pub fn classify_field(ty: &TypeModel) -> (r: (FieldType, Result<String, FilterError>))
    requires
        ty matches TypeModel::Path(segs) ==> segs@.len() > 0,
    ensures
        (r.0, filter_view(r.1)) == field_result(*ty),
{
    if is_vec(ty) {
        (FieldType::Vec, get_vec_type_name(ty))
    } else if is_option(ty) {
        (FieldType::Option, get_option_type_name(ty))
    } else {
        (FieldType::Normal, get_type_name(ty))
    }
}

/// Extracts the fields of a struct, grouped as plain fields, `Vec` fields
/// and `Option` fields, with the errors of the fields whose type is
/// refused (`None` when there is none).
pub fn extract_fields(data: &Vec<StructHelpers>) -> (r: (Fields, Option<Vec<(usize, FilterError)>>))
    requires
        paths_nonempty(data@),
        accepted_named(data@),
    ensures
        fields_of(r.0, data@),
        match r.1 {
            None => field_errors(data@).len() == 0,
            Some(es) => field_errors(data@).len() > 0 && errors_view(es@) == field_errors(data@),
        },
{
    let mut ret = Fields {
        field_names: Vec::new(),
        field_vec_names: Vec::new(),
        field_option_names: Vec::new(),
        field_types_names: Vec::new(),
        field_vec_types_names: Vec::new(),
        field_option_types_names: Vec::new(),
        field_builder_names: Vec::new(),
        field_vec_builder_names: Vec::new(),
        field_option_builder_names: Vec::new(),
    };
    let mut errors: Vec<(usize, FilterError)> = Vec::new();
    let mut i: usize = 0;
    while i < data.len()
        invariant
            i <= data@.len(),
            paths_nonempty(data@),
            accepted_named(data@),
            fields_of(ret, data@.subrange(0, i as int)),
            errors_view(errors@) == field_errors(data@.subrange(0, i as int)),
        decreases data@.len() - i,
    {
        let ghost prev = data@.subrange(0, i as int);
        let ghost next = data@.subrange(0, i + 1);
        assert(next.drop_last() =~= prev);
        assert(next.last() == data@[i as int]);
        let f = &data[i];
        assert(paths_nonempty(data@) ==> (f.ty matches TypeModel::Path(segs) ==> segs@.len() > 0));
        let (kind, res) = classify_field(&f.ty);
        match res {
            Ok(name) => {
                assert(f.ident is Some);
                let ident = match &f.ident {
                    Some(id) => clone_string(id),
                    None => string_from_str(""),
                };
                let b = builder_name(&name);
                match kind {
                    FieldType::Normal => {
                        ret.field_names.push(FieldInfo { ident });
                        ret.field_types_names.push(name);
                        ret.field_builder_names.push(b);
                    },
                    FieldType::Vec => {
                        ret.field_vec_names.push(FieldInfo { ident });
                        ret.field_vec_types_names.push(name);
                        ret.field_vec_builder_names.push(b);
                    },
                    FieldType::Option => {
                        ret.field_option_names.push(FieldInfo { ident });
                        ret.field_option_types_names.push(name);
                        ret.field_option_builder_names.push(b);
                    },
                }
                assert(field_errors(next) == field_errors(prev));
            },
            Err(e) => {
                let ghost before = errors@;
                errors.push((i, e));
                assert(errors_view(errors@) =~= errors_view(before).push((i as int, (e.site, e.message@))));
            },
        }
        i = i + 1;
    }
    assert(data@.subrange(0, data@.len() as int) =~= data@);
    if errors.len() == 0 {
        (ret, None)
    } else {
        (ret, Some(errors))
    }
}

impl Fields {
    /// Each group has as many names, types and builders.
    pub open spec fn wf(&self) -> bool {
        &&& self.field_names@.len() == self.field_types_names@.len()
        &&& self.field_names@.len() == self.field_builder_names@.len()
        &&& self.field_vec_names@.len() == self.field_vec_types_names@.len()
        &&& self.field_vec_names@.len() == self.field_vec_builder_names@.len()
        &&& self.field_option_names@.len() == self.field_option_types_names@.len()
        &&& self.field_option_names@.len() == self.field_option_builder_names@.len()
    }

    /// The names of all fields: plain, then `Vec`, then `Option` fields.
    pub fn get_field_names(&self) -> (r: Vec<String>)
        ensures
            strings_view(r@) == infos_view(self.field_names@) + infos_view(self.field_vec_names@) + infos_view(self.field_option_names@),
    {
        let mut r: Vec<String> = Vec::new();
        push_infos(&mut r, &self.field_names);
        push_infos(&mut r, &self.field_vec_names);
        push_infos(&mut r, &self.field_option_names);
        r
    }

    /// The type names of all fields: plain, then `Vec`, then `Option` fields.
    pub fn get_field_types(&self) -> (r: Vec<String>)
        ensures
            strings_view(r@) == strings_view(self.field_types_names@) + strings_view(self.field_vec_types_names@)
                + strings_view(self.field_option_types_names@),
    {
        let mut r: Vec<String> = Vec::new();
        push_strings(&mut r, &self.field_types_names);
        push_strings(&mut r, &self.field_vec_types_names);
        push_strings(&mut r, &self.field_option_types_names);
        r
    }

    /// The builder names of all fields: plain, then `Vec`, then `Option` fields.
    pub fn get_field_builder_names(&self) -> (r: Vec<String>)
        ensures
            strings_view(r@) == strings_view(self.field_builder_names@) + strings_view(self.field_vec_builder_names@)
                + strings_view(self.field_option_builder_names@),
    {
        let mut r: Vec<String> = Vec::new();
        push_strings(&mut r, &self.field_builder_names);
        push_strings(&mut r, &self.field_vec_builder_names);
        push_strings(&mut r, &self.field_option_builder_names);
        r
    }

    /// The fields in the order the builders visit them: plain fields, then
    /// `Option` fields, then `Vec` fields.
    pub fn entries(&self) -> (r: Vec<FieldEntry>)
        requires
            self.wf(),
        ensures
            entries_view(r@) == group_view(FieldType::Normal, self.field_names@, self.field_types_names@, self.field_builder_names@)
                + group_view(FieldType::Option, self.field_option_names@, self.field_option_types_names@, self.field_option_builder_names@)
                + group_view(FieldType::Vec, self.field_vec_names@, self.field_vec_types_names@, self.field_vec_builder_names@),
    {
        let mut r: Vec<FieldEntry> = Vec::new();
        push_group(&mut r, FieldType::Normal, &self.field_names, &self.field_types_names, &self.field_builder_names);
        push_group(&mut r, FieldType::Option, &self.field_option_names, &self.field_option_types_names, &self.field_option_builder_names);
        push_group(&mut r, FieldType::Vec, &self.field_vec_names, &self.field_vec_types_names, &self.field_vec_builder_names);
        r
    }
}

/// The names of a list of fields.
pub open spec fn infos_view(v: Seq<FieldInfo>) -> Seq<Seq<char>> {
    v.map_values(|f: FieldInfo| f.ident@)
}

/// Abstract content of a list of entries.
pub open spec fn entries_view(v: Seq<FieldEntry>) -> Seq<(FieldType, Seq<char>, Seq<char>, Seq<char>)> {
    v.map_values(|e: FieldEntry| (e.kind, e.ident@, e.ty@, e.builder@))
}

/// The entries of one group.
pub open spec fn group_view(k: FieldType, infos: Seq<FieldInfo>, types: Seq<String>, builders: Seq<String>) -> Seq<(FieldType, Seq<char>, Seq<char>, Seq<char>)> {
    Seq::new(infos.len(), |i: int| (k, infos[i].ident@, types[i]@, builders[i]@))
}

/// Appends the names of `v` to `r`.
fn push_infos(r: &mut Vec<String>, v: &Vec<FieldInfo>)
    ensures
        strings_view(final(r)@) == strings_view(old(r)@) + infos_view(v@),
{
    let ghost r0 = strings_view(r@);
    let mut i: usize = 0;
    while i < v.len()
        invariant
            i <= v@.len(),
            strings_view(r@) == r0 + infos_view(v@.subrange(0, i as int)),
        decreases v@.len() - i,
    {
        let ghost before = strings_view(r@);
        r.push(clone_string(&v[i].ident));
        assert(strings_view(r@) =~= before.push(v@[i as int].ident@));
        assert(infos_view(v@.subrange(0, i + 1)) =~= infos_view(v@.subrange(0, i as int)).push(v@[i as int].ident@));
        i = i + 1;
    }
    assert(v@.subrange(0, v@.len() as int) =~= v@);
}

/// Appends copies of `v` to `r`.
fn push_strings(r: &mut Vec<String>, v: &Vec<String>)
    ensures
        strings_view(final(r)@) == strings_view(old(r)@) + strings_view(v@),
{
    let ghost r0 = strings_view(r@);
    let mut i: usize = 0;
    while i < v.len()
        invariant
            i <= v@.len(),
            strings_view(r@) == r0 + strings_view(v@.subrange(0, i as int)),
        decreases v@.len() - i,
    {
        let ghost before = strings_view(r@);
        r.push(clone_string(&v[i]));
        assert(strings_view(r@) =~= before.push(v@[i as int]@));
        assert(strings_view(v@.subrange(0, i + 1)) =~= strings_view(v@.subrange(0, i as int)).push(v@[i as int]@));
        i = i + 1;
    }
    assert(v@.subrange(0, v@.len() as int) =~= v@);
}

/// Appends the entries of one group to `r`.
fn push_group(r: &mut Vec<FieldEntry>, k: FieldType, infos: &Vec<FieldInfo>, types: &Vec<String>, builders: &Vec<String>)
    requires
        infos@.len() == types@.len(),
        infos@.len() == builders@.len(),
    ensures
        entries_view(final(r)@) == entries_view(old(r)@) + group_view(k, infos@, types@, builders@),
{
    let ghost r0 = entries_view(r@);
    let mut i: usize = 0;
    while i < infos.len()
        invariant
            i <= infos@.len(),
            infos@.len() == types@.len(),
            infos@.len() == builders@.len(),
            entries_view(r@) =~= r0 + group_view(k, infos@.subrange(0, i as int), types@, builders@),
        decreases infos@.len() - i,
    {
        let ghost before = entries_view(r@);
        let e = FieldEntry {
            kind: k,
            ident: clone_string(&infos[i].ident),
            ty: clone_string(&types[i]),
            builder: clone_string(&builders[i]),
        };
        r.push(e);
        assert(entries_view(r@) =~= before.push((k, infos@[i as int].ident@, types@[i as int]@, builders@[i as int]@)));
        i = i + 1;
    }
    assert(infos@.subrange(0, infos@.len() as int) =~= infos@);
}

} // verus!
