use vstd::prelude::*;
use crate::codegen::node_types::{Kind, FieldInfo, ChildInfo, NodeType, flag, field_kind, child_kind};
use crate::codegen::names::{sanitized};
use crate::codegen::registry::{CodegenState, CodegenModel, base_step, types_view, id_lookup};
use crate::text::{string_chars, clone_string};

verus! {

/// How the generated struct holds one field or the child list.
pub enum FieldPlan {
    /// A named field.
    Field {
        /// Container kind.
        kind: Kind,
        /// The tree-sitter field name.
        field_name: String,
        /// The Rust identifier of the field.
        ident: String,
        /// The Rust type of the field's nodes.
        ty_name: String,
        /// The tree-sitter id of the field, if registered.
        field_id: Option<u16>,
    },
    /// The unnamed children.
    Children {
        /// Container kind.
        kind: Kind,
        /// The Rust type of the children.
        ty_name: String,
    },
}

/// Abstract content of a [`FieldPlan`].
pub enum FieldPlanModel {
    Field { kind: Kind, field_name: Seq<char>, ident: Seq<char>, ty_name: Seq<char>, field_id: Option<u16> },
    Children { kind: Kind, ty_name: Seq<char> },
}

impl View for FieldPlan {
    type V = FieldPlanModel;

    open spec fn view(&self) -> FieldPlanModel {
        match self {
            FieldPlan::Field { kind, field_name, ident, ty_name, field_id } => FieldPlanModel::Field {
                kind: *kind,
                field_name: field_name@,
                ident: ident@,
                ty_name: ty_name@,
                field_id: *field_id,
            },
            FieldPlan::Children { kind, ty_name } => FieldPlanModel::Children { kind: *kind, ty_name: ty_name@ },
        }
    }
}

/// Views of a list of field plans.
pub open spec fn field_plans_view(v: Seq<FieldPlan>) -> Seq<FieldPlanModel> {
    v.map_values(|p: FieldPlan| p@)
}

/// Kind and types of a named field.
pub open spec fn field_info_view(f: FieldInfo) -> (Kind, Seq<(Seq<char>, bool)>) {
    (field_kind(flag(f.required), flag(f.multiple)), types_view(f.types@))
}

/// Kind and types of a child list.
pub open spec fn child_info_view(c: ChildInfo) -> (Kind, Seq<(Seq<char>, bool)>) {
    (child_kind(flag(c.required), flag(c.multiple)), types_view(c.types@))
}

/// The plan of a named field, and the records naming its type adds.
pub open spec fn field_step(m: CodegenModel, name: Seq<char>, info: (Kind, Seq<(Seq<char>, bool)>)) -> (FieldPlanModel, CodegenModel) {
    let (ty_name, m2) = base_step(m, info.1);
    (FieldPlanModel::Field {
        kind: info.0,
        field_name: name,
        ident: sanitized(m.tokens, name),
        ty_name,
        field_id: id_lookup(m.field_ids, name),
    }, m2)
}

/// The plan of the child list, and the records naming its type adds.
pub open spec fn child_step(m: CodegenModel, info: (Kind, Seq<(Seq<char>, bool)>)) -> (FieldPlanModel, CodegenModel) {
    let (ty_name, m2) = base_step(m, info.1);
    (FieldPlanModel::Children { kind: info.0, ty_name }, m2)
}

/// The plans of the named fields, in order.
pub open spec fn fields_fold(m: CodegenModel, fs: Seq<(String, FieldInfo)>) -> (Seq<FieldPlanModel>, CodegenModel)
    decreases fs.len(),
{
    if fs.len() == 0 {
        (Seq::empty(), m)
    } else {
        let (ps, m1) = fields_fold(m, fs.drop_last());
        let (p, m2) = field_step(m1, fs.last().0@, field_info_view(fs.last().1));
        (ps.push(p), m2)
    }
}

/// The plans of all fields of a struct node: named fields, then the child list.
pub open spec fn struct_fields(m: CodegenModel, node: NodeType) -> (Seq<FieldPlanModel>, CodegenModel) {
    let (ps, m1) = match node.fields {
        Some(fs) => fields_fold(m, fs@),
        None => (Seq::empty(), m),
    };
    match node.children {
        Some(c) => {
            let (p, m2) = child_step(m1, child_info_view(c));
            (ps.push(p), m2)
        },
        None => (ps, m1),
    }
}

impl CodegenState {
    /// The plan of a named field.
    pub fn field_code_gen(&mut self, info: &FieldInfo, field_name: &String) -> (r: FieldPlan)
        requires
            old(self).wf(),
        ensures
            final(self).wf(),
            (r@, final(self)@) == field_step(old(self)@, field_name@, field_info_view(*info)),
    {
        let ident = self.tokens.sanitize(field_name.as_str());
        let name_chars = string_chars(field_name);
        let field_id = self.field_ids.get(&name_chars);
        let ty_name = self.base_ty_name(&info.types);
        let kind = info.field_gen_type();
        FieldPlan::Field { kind, field_name: clone_string(field_name), ident, ty_name, field_id }
    }

    /// The plan of the child list.
    pub fn child_code_gen(&mut self, info: &ChildInfo) -> (r: FieldPlan)
        requires
            old(self).wf(),
        ensures
            final(self).wf(),
            (r@, final(self)@) == child_step(old(self)@, child_info_view(*info)),
    {
        let ty_name = self.base_ty_name(&info.types);
        let kind = info.child_gen_type();
        FieldPlan::Children { kind, ty_name }
    }

    /// The plans of all fields of a struct node, in order.
    pub fn plan_struct_fields(&mut self, node: &NodeType) -> (r: Vec<FieldPlan>)
        requires
            old(self).wf(),
        ensures
            final(self).wf(),
            (field_plans_view(r@), final(self)@) == struct_fields(old(self)@, *node),
    {
        let mut plans: Vec<FieldPlan> = Vec::new();
        let ghost m0 = self@;
        match &node.fields {
            Some(fs) => {
                let mut i: usize = 0;
                while i < fs.len()
                    invariant
                        self.wf(),
                        i <= fs@.len(),
                        (field_plans_view(plans@), self@) == fields_fold(m0, fs@.subrange(0, i as int)),
                    decreases fs@.len() - i,
                {
                    proof {
                        let next = fs@.subrange(0, i + 1);
                        assert(next.drop_last() =~= fs@.subrange(0, i as int));
                        assert(next.last() == fs@[i as int]);
                    }
                    let p = self.field_code_gen(&fs[i].1, &fs[i].0);
                    let ghost before = plans@;
                    plans.push(p);
                    assert(field_plans_view(plans@) =~= field_plans_view(before).push(p@));
                    i = i + 1;
                }
                assert(fs@.subrange(0, fs@.len() as int) =~= fs@);
            },
            None => {
                assert(field_plans_view(plans@) =~= Seq::<FieldPlanModel>::empty());
            },
        }
        match &node.children {
            Some(c) => {
                let p = self.child_code_gen(c);
                let ghost before = plans@;
                plans.push(p);
                assert(field_plans_view(plans@) =~= field_plans_view(before).push(p@));
            },
            None => {},
        }
        plans
    }
}

} // verus!
