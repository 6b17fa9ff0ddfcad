use vstd::prelude::*;
use crate::text::{str_chars, string_chars, string_from_chars, string_from_str, chars_eq_str, push_chars, push_str, clone_string};

verus! {

/// A Rust type as the derive macros read it.
pub enum TypeModel {
    /// A path such as `std::sync::Arc<T>`.
    Path(Vec<PathSegment>),
    /// Any other type (reference, tuple, slice, ...).
    Other,
}

/// One segment of a type path.
pub struct PathSegment {
    /// The identifier of the segment.
    pub ident: String,
    /// Its generic arguments.
    pub arguments: PathArgs,
}

/// The arguments of a path segment.
pub enum PathArgs {
    /// No arguments: `T`.
    Plain,
    /// Angle-bracketed arguments: `T<A, B>`.
    AngleBracketed(Vec<GenericArg>),
    /// Parenthesized arguments: `Fn(A) -> B`.
    Parenthesized,
}

/// One generic argument.
pub enum GenericArg {
    /// A type argument.
    Type(TypeModel),
    /// A lifetime, a constant or a binding.
    Other,
}

/// Where an error of the type filters points.
#[derive(PartialEq, Eq, Structural, Clone, Copy, Debug)]
pub enum ErrorSite {
    /// The type that was inspected.
    Type,
    /// The generic argument inside it.
    InnerType,
    /// The enclosing item (an enum variant).
    Item,
}

/// An error of the type filters: where it points, and its message.
pub struct FilterError {
    pub site: ErrorSite,
    pub message: String,
}

/// Abstract content of a filter result.
pub open spec fn filter_view(r: Result<String, FilterError>) -> Result<Seq<char>, (ErrorSite, Seq<char>)> {
    match r {
        Ok(s) => Ok(s@),
        Err(e) => Err((e.site, e.message@)),
    }
}

/// The last segment of a path type.
pub open spec fn last_segment(ty: TypeModel) -> Option<PathSegment> {
    match ty {
        TypeModel::Path(segs) => if segs@.len() > 0 { Some(segs@.last()) } else { None },
        TypeModel::Other => None,
    }
}

/// Whether `ty` is a path whose first segment is `name`.
pub open spec fn first_ident_is(ty: TypeModel, name: Seq<char>) -> bool {
    match ty {
        TypeModel::Path(segs) => segs@.len() > 0 && segs@[0].ident@ == name,
        TypeModel::Other => false,
    }
}

/// Name of a non-generic type: the identifier of the last segment of a
/// path without arguments.
pub open spec fn type_name_of(ty: TypeModel) -> Result<Seq<char>, (ErrorSite, Seq<char>)> {
    match ty {
        TypeModel::Path(segs) => {
            let last = segs@.last();
            match last.arguments {
                PathArgs::Plain => Ok(last.ident@),
                _ => Err((ErrorSite::Type, "Expected a non-generic type"@)),
            }
        },
        TypeModel::Other => Err((ErrorSite::Type, "Expected a type path"@)),
    }
}

/// Name of the non-generic type held by the container `expected<T>`.
pub open spec fn container_name_of(ty: TypeModel, expected: Seq<char>) -> Result<Seq<char>, (ErrorSite, Seq<char>)> {
    match ty {
        TypeModel::Path(segs) => {
            if segs@.len() == 0 {
                Err((ErrorSite::Type, "Expected a "@ + expected + "<T> type"@))
            } else {
                let seg = segs@[0];
                if seg.ident@ != expected {
                    Err((ErrorSite::Type, "Expected a "@ + expected + "<T> type"@))
                } else {
                    match seg.arguments {
                        PathArgs::AngleBracketed(args) => {
                            if args@.len() != 1 {
                                Err((ErrorSite::Type, "Expected exactly one generic type argument"@))
                            } else {
                                match args@[0] {
                                    GenericArg::Type(inner) => match inner {
                                        TypeModel::Path(isegs) => {
                                            if isegs@.len() == 0 {
                                                Err((ErrorSite::InnerType, "Unexpected structure in type path"@))
                                            } else {
                                                match isegs@.last().arguments {
                                                    PathArgs::Plain => Ok(isegs@.last().ident@),
                                                    _ => Err((
                                                        ErrorSite::InnerType,
                                                        "Generic types inside Vec<T> or Option<T> are not allowed"@,
                                                    )),
                                                }
                                            }
                                        },
                                        TypeModel::Other => Err((ErrorSite::InnerType, "Unsupported type inside Vec or Option"@)),
                                    },
                                    GenericArg::Other => Err((ErrorSite::Type, "Expected a type as the first generic argument"@)),
                                }
                            }
                        },
                        _ => Err((ErrorSite::Type, "Expected angle-bracketed arguments for "@ + expected)),
                    }
                }
            }
        },
        TypeModel::Other => Err((ErrorSite::Type, "Expected a type path for "@ + expected)),
    }
}

/// The message `prefix`, then `name`.
fn message2(prefix: &str, name: &str) -> (r: String)
    ensures
        r@ == prefix@ + name@,
{
    let mut v = str_chars(prefix);
    push_str(&mut v, name);
    string_from_chars(&v)
}

/// A filter error at `site` with `message`.
fn filter_error(site: ErrorSite, message: &str) -> (r: FilterError)
    ensures
        r.site == site,
        r.message@ == message@,
{
    FilterError { site, message: string_from_str(message) }
}

/// The message `prefix`, then `name`, then `suffix`.
fn message3(prefix: &str, name: &str, suffix: &str) -> (r: String)
    ensures
        r@ == prefix@ + name@ + suffix@,
{
    let mut v = str_chars(prefix);
    push_str(&mut v, name);
    push_str(&mut v, suffix);
    string_from_chars(&v)
}

/// Returns the name of a simple type `T`, ensuring it is not generic.
pub fn get_type_name(ty: &TypeModel) -> (r: Result<String, FilterError>)
    requires
        ty matches TypeModel::Path(segs) ==> segs@.len() > 0,
    ensures
        filter_view(r) == type_name_of(*ty),
{
    match ty {
        TypeModel::Path(segs) => {
            let last = &segs[segs.len() - 1];
            match &last.arguments {
                PathArgs::Plain => Ok(clone_string(&last.ident)),
                _ => Err(filter_error(ErrorSite::Type, "Expected a non-generic type")),
            }
        },
        TypeModel::Other => Err(filter_error(ErrorSite::Type, "Expected a type path")),
    }
}

/// Checks that a type is the container `expected_ident<T>` (such as `Vec`
/// or `Option`) and returns the name of `T`, which must not be generic.
pub fn check_generic_container(ty: &TypeModel, expected_ident: &str) -> (r: Result<String, FilterError>)
    ensures
        filter_view(r) == container_name_of(*ty, expected_ident@),
{
    match ty {
        TypeModel::Path(segs) => {
            if segs.len() == 0 {
                return Err(FilterError { site: ErrorSite::Type, message: message3("Expected a ", expected_ident, "<T> type") });
            }
            let seg = &segs[0];
            let id = string_chars(&seg.ident);
            if !chars_eq_str(&id, expected_ident) {
                return Err(FilterError { site: ErrorSite::Type, message: message3("Expected a ", expected_ident, "<T> type") });
            }
            match &seg.arguments {
                PathArgs::AngleBracketed(args) => {
                    if args.len() != 1 {
                        return Err(filter_error(ErrorSite::Type, "Expected exactly one generic type argument"));
                    }
                    match &args[0] {
                        GenericArg::Type(inner) => match inner {
                            TypeModel::Path(isegs) => {
                                if isegs.len() == 0 {
                                    Err(filter_error(ErrorSite::InnerType, "Unexpected structure in type path"))
                                } else {
                                    let last = &isegs[isegs.len() - 1];
                                    match &last.arguments {
                                        PathArgs::Plain => Ok(clone_string(&last.ident)),
                                        _ => Err(filter_error(
                                            ErrorSite::InnerType,
                                            "Generic types inside Vec<T> or Option<T> are not allowed",
                                        )),
                                    }
                                }
                            },
                            TypeModel::Other => Err(filter_error(ErrorSite::InnerType, "Unsupported type inside Vec or Option")),
                        },
                        GenericArg::Other => Err(filter_error(ErrorSite::Type, "Expected a type as the first generic argument")),
                    }
                },
                _ => Err(FilterError {
                    site: ErrorSite::Type,
                    message: message2("Expected angle-bracketed arguments for ", expected_ident),
                }),
            }
        },
        TypeModel::Other => Err(FilterError { site: ErrorSite::Type, message: message2("Expected a type path for ", expected_ident) }),
    }
}

/// Returns the name of the type inside a `Vec<T>`, if `T` is not generic.
pub fn get_vec_type_name(ty: &TypeModel) -> (r: Result<String, FilterError>)
    ensures
        filter_view(r) == container_name_of(*ty, "Vec"@),
{
    check_generic_container(ty, "Vec")
}

/// Returns the name of the type inside an `Option<T>`, if `T` is not generic.
pub fn get_option_type_name(ty: &TypeModel) -> (r: Result<String, FilterError>)
    ensures
        filter_view(r) == container_name_of(*ty, "Option"@),
{
    check_generic_container(ty, "Option")
}

/// Whether `ty` is a path whose first segment is `name`.
fn first_ident_eq(ty: &TypeModel, name: &str) -> (r: bool)
    ensures
        r == first_ident_is(*ty, name@),
{
    match ty {
        TypeModel::Path(segs) => {
            if segs.len() == 0 {
                false
            } else {
                let id = string_chars(&segs[0].ident);
                chars_eq_str(&id, name)
            }
        },
        TypeModel::Other => false,
    }
}

/// Whether a type is a `Vec`.
pub fn is_vec(ty: &TypeModel) -> (r: bool)
    ensures
        r == first_ident_is(*ty, "Vec"@),
{
    first_ident_eq(ty, "Vec")
}

/// Whether a type is an `Option`.
pub fn is_option(ty: &TypeModel) -> (r: bool)
    ensures
        r == first_ident_is(*ty, "Option"@),
{
    first_ident_eq(ty, "Option")
}

/// The type argument number `index` of the last segment of a path, if
/// there is one.
pub open spec fn inner_type_of(ty: TypeModel, index: int) -> Option<TypeModel> {
    match last_segment(ty) {
        Some(seg) => match seg.arguments {
            PathArgs::AngleBracketed(args) => {
                if 0 <= index < args@.len() {
                    match args@[index] {
                        GenericArg::Type(inner) => Some(inner),
                        GenericArg::Other => None,
                    }
                } else {
                    None
                }
            },
            _ => None,
        },
        None => None,
    }
}

/// The type argument number `index` of the last segment of a path, if
/// there is one.
pub fn get_inner_type(ty: &TypeModel, index: usize) -> (r: Option<&TypeModel>)
    ensures
        match r {
            Some(t) => inner_type_of(*ty, index as int) == Some(*t),
            None => inner_type_of(*ty, index as int) is None,
        },
{
    match ty {
        TypeModel::Path(segs) => {
            if segs.len() == 0 {
                return None;
            }
            match &segs[segs.len() - 1].arguments {
                PathArgs::AngleBracketed(args) => {
                    if index < args.len() {
                        match &args[index] {
                            GenericArg::Type(inner) => Some(inner),
                            GenericArg::Other => None,
                        }
                    } else {
                        None
                    }
                },
                _ => None,
            }
        },
        TypeModel::Other => None,
    }
}

/// The identifiers of a path, joined by `::`.
pub open spec fn join_idents(segs: Seq<PathSegment>) -> Seq<char>
    decreases segs.len(),
{
    if segs.len() == 0 {
        Seq::empty()
    } else if segs.len() == 1 {
        segs[0].ident@
    } else {
        join_idents(segs.drop_last()) + "::"@ + segs.last().ident@
    }
}

/// The wrappers that the raw name of a type looks through.
pub open spec fn is_wrapper(name: Seq<char>) -> bool {
    name == "Arc"@ || name == "RwLock"@ || name == "Vec"@ || name == "Option"@
}

/// Whether the raw name of `ty` is defined: `ty`, and every type it looks
/// through, is a path.
pub open spec fn raw_name_defined(ty: TypeModel) -> bool
    decreases ty,
{
    match ty {
        TypeModel::Path(segs) => {
            if is_wrapper(join_idents(segs@)) && segs@.len() > 0 {
                match segs@[segs@.len() - 1].arguments {
                    PathArgs::AngleBracketed(args) => {
                        if args@.len() > 0 {
                            match args@[0] {
                                GenericArg::Type(inner) => raw_name_defined(inner),
                                GenericArg::Other => true,
                            }
                        } else {
                            true
                        }
                    },
                    _ => true,
                }
            } else {
                true
            }
        },
        TypeModel::Other => false,
    }
}

/// The raw name of a type: its path, joined by `::`, looking through the
/// wrappers `Arc`, `RwLock`, `Vec` and `Option` to their first type argument.
pub open spec fn raw_type_name(ty: TypeModel) -> Seq<char>
    decreases ty,
{
    match ty {
        TypeModel::Path(segs) => {
            let name = join_idents(segs@);
            if is_wrapper(name) && segs@.len() > 0 {
                match segs@[segs@.len() - 1].arguments {
                    PathArgs::AngleBracketed(args) => {
                        if args@.len() > 0 {
                            match args@[0] {
                                GenericArg::Type(inner) => raw_type_name(inner),
                                GenericArg::Other => name,
                            }
                        } else {
                            name
                        }
                    },
                    _ => name,
                }
            } else {
                name
            }
        },
        TypeModel::Other => Seq::empty(),
    }
}

/// The identifiers of a path, joined by `::`.
fn join_path(segs: &Vec<PathSegment>) -> (r: Vec<char>)
    ensures
        r@ == join_idents(segs@),
{
    let mut r: Vec<char> = Vec::new();
    let mut i: usize = 0;
    while i < segs.len()
        invariant
            i <= segs@.len(),
            r@ == join_idents(segs@.subrange(0, i as int)),
        decreases segs@.len() - i,
    {
        proof {
            let next = segs@.subrange(0, i + 1);
            assert(next.drop_last() =~= segs@.subrange(0, i as int));
        }
        if i > 0 {
            push_str(&mut r, "::");
        }
        let id = string_chars(&segs[i].ident);
        push_chars(&mut r, &id);
        i = i + 1;
    }
    assert(segs@.subrange(0, segs@.len() as int) =~= segs@);
    r
}

/// Whether `name` is one of the wrappers `Arc`, `RwLock`, `Vec`, `Option`.
fn wrapper_name(name: &Vec<char>) -> (r: bool)
    ensures
        r == is_wrapper(name@),
{
    chars_eq_str(name, "Arc") || chars_eq_str(name, "RwLock") || chars_eq_str(name, "Vec") || chars_eq_str(name, "Option")
}

/// The raw name of a type: its path, looking through `Arc`, `RwLock`,
/// `Vec` and `Option`.
pub fn get_raw_type_name(ty: &TypeModel) -> (r: String)
    requires
        raw_name_defined(*ty),
    ensures
        r@ == raw_type_name(*ty),
    decreases ty,
{
    match ty {
        TypeModel::Path(segs) => {
            let name = join_path(segs);
            if wrapper_name(&name) && segs.len() > 0 {
                match &segs[segs.len() - 1].arguments {
                    PathArgs::AngleBracketed(args) => {
                        if args.len() > 0 {
                            match &args[0] {
                                GenericArg::Type(inner) => {
                                    return get_raw_type_name(inner);
                                },
                                GenericArg::Other => {},
                            }
                        }
                    },
                    _ => {},
                }
            }
            string_from_chars(&name)
        },
        TypeModel::Other => string_from_str(""),
    }
}

} // verus!
