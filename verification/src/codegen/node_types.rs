use vstd::prelude::*;

verus! {

/// A node type referenced by a field, a child list or a supertype.
pub struct TypeInfo {
    /// The tree-sitter kind.
    pub kind: String,
    /// Whether the node is named.
    pub named: bool,
}

/// How a field or a child list is held by the generated struct.
#[derive(PartialEq, Eq, Structural, Clone, Copy, Debug)]
pub enum Kind {
    /// Exactly one node.
    Base,
    /// Any number of nodes.
    Vec,
    /// At most one node.
    Option,
}

/// Description of a named field in `node-types.json`.
pub struct FieldInfo {
    /// `multiple` flag; absent means `false`.
    pub multiple: Option<bool>,
    /// `required` flag; absent means `false`.
    pub required: Option<bool>,
    /// The node types the field accepts.
    pub types: Vec<TypeInfo>,
}

/// Description of the unnamed children of a node in `node-types.json`.
pub struct ChildInfo {
    /// `multiple` flag; absent means `false`.
    pub multiple: Option<bool>,
    /// `required` flag; absent means `false`.
    pub required: Option<bool>,
    /// The node types the children may have.
    pub types: Vec<TypeInfo>,
}

/// One entry of `node-types.json`.
pub struct NodeType {
    /// The tree-sitter kind.
    pub kind: String,
    /// Whether the node is named.
    pub named: bool,
    /// The named fields, in the order of the file.
    pub fields: Option<Vec<(String, FieldInfo)>>,
    /// The unnamed children.
    pub children: Option<ChildInfo>,
    /// The subtypes of a supertype.
    pub subtypes: Option<Vec<TypeInfo>>,
}

/// The value of an optional flag, `false` when absent.
pub open spec fn flag(b: Option<bool>) -> bool {
    match b {
        Some(v) => v,
        None => false,
    }
}

/// Container kind of a named field.
pub open spec fn field_kind(required: bool, multiple: bool) -> Kind {
    if multiple {
        Kind::Vec
    } else if required {
        Kind::Base
    } else {
        Kind::Option
    }
}

/// Container kind of a child list.
pub open spec fn child_kind(required: bool, multiple: bool) -> Kind {
    if multiple {
        Kind::Vec
    } else if required {
        Kind::Option
    } else {
        Kind::Base
    }
}

/// The value of an optional flag, `false` when absent.
pub fn flag_value(b: Option<bool>) -> (r: bool)
    ensures
        r == flag(b),
{
    match b {
        Some(v) => v,
        None => false,
    }
}

impl FieldInfo {
    /// Container kind of this field.
    pub fn field_gen_type(&self) -> (r: Kind)
        ensures
            r == field_kind(flag(self.required), flag(self.multiple)),
    {
        let optional = flag_value(self.required);
        let multiple = flag_value(self.multiple);
        match (optional, multiple) {
            (true, true) => Kind::Vec,
            (false, true) => Kind::Vec,
            (true, false) => Kind::Base,
            (false, false) => Kind::Option,
        }
    }
}

impl ChildInfo {
    /// Container kind of this child list.
    pub fn child_gen_type(&self) -> (r: Kind)
        ensures
            r == child_kind(flag(self.required), flag(self.multiple)),
    {
        let optional = flag_value(self.required);
        let multiple = flag_value(self.multiple);
        match (optional, multiple) {
            (true, true) => Kind::Vec,
            (false, true) => Kind::Vec,
            (true, false) => Kind::Option,
            (false, false) => Kind::Base,
        }
    }
}

impl NodeType {
    /// A named node with fields becomes a struct.
    pub open spec fn spec_is_struct(&self) -> bool {
        self.named && self.fields is Some
    }

    /// A named node with subtypes that is not a supertype becomes an enum.
    pub open spec fn spec_is_enum(&self) -> bool {
        self.named && self.subtypes is Some && !self.spec_is_supertype()
    }

    /// An unnamed node without fields, subtypes or children is a token.
    pub open spec fn spec_is_token(&self) -> bool {
        &&& !self.named
        &&& match self.fields {
            None => true,
            Some(f) => f@.len() == 0,
        }
        &&& self.subtypes is None
        &&& self.children is None
    }

    /// A named node with only subtypes is a supertype.
    pub open spec fn spec_is_supertype(&self) -> bool {
        self.named && self.subtypes is Some && self.fields is None && self.children is None
    }

    /// Whether this node becomes a struct.
    pub fn is_struct(&self) -> (r: bool)
        ensures
            r == self.spec_is_struct(),
    {
        self.named && self.fields.is_some()
    }

    /// Whether this node becomes an enum.
    pub fn is_enum(&self) -> (r: bool)
        ensures
            r == self.spec_is_enum(),
    {
        self.named && self.subtypes.is_some() && !self.is_supertype()
    }

    /// Whether this node is a token.
    pub fn is_token(&self) -> (r: bool)
        ensures
            r == self.spec_is_token(),
    {
        let no_fields = match &self.fields {
            None => true,
            Some(f) => f.len() == 0,
        };
        !self.named && no_fields && self.subtypes.is_none() && self.children.is_none()
    }

    /// Whether this node is a supertype.
    pub fn is_supertype(&self) -> (r: bool)
        ensures
            r == self.spec_is_supertype(),
    {
        self.named && self.subtypes.is_some() && self.fields.is_none() && self.children.is_none()
    }
}

} // verus!
