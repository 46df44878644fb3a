//! The part of a loaded module that the paranoid type checker consults: its
//! struct definitions, field handles, type signatures and constants, already
//! resolved to runtime types.
use vstd::prelude::*;

use crate::move_types::{
    clone_type, lemma_type_views, opt_view, opt_views, subst, subst_all, subst_vec, type_subst,
    type_views, MoveType, StructTag, StructTagView, TypeView,
};

verus! {

/// A non-generic struct definition.
pub struct StructDef {
    /// The struct's runtime type.
    pub struct_type: MoveType,
    /// The number of fields the definition records.
    pub field_count: u16,
    /// The types of the fields, in declaration order.
    pub fields: Vec<MoveType>,
}

/// An instantiation of a generic struct definition.
pub struct StructInstantiationDef {
    /// The generic struct.
    pub owner: StructTag,
    /// The type arguments, which may mention the function's type parameters.
    pub instantiation: Vec<MoveType>,
    /// The number of fields the definition records.
    pub field_count: u16,
    /// The field types of the generic struct, over its own type parameters.
    pub fields: Vec<MoveType>,
}

/// A field of a non-generic struct.
pub struct FieldHandle {
    /// The struct the field belongs to.
    pub owner_type: MoveType,
    /// The field's type.
    pub field_type: MoveType,
}

/// A field of an instantiated generic struct.
pub struct FieldInstantiation {
    /// The generic struct.
    pub owner: StructTag,
    /// The type arguments, which may mention the function's type parameters.
    pub instantiation: Vec<MoveType>,
    /// The field's type, over the struct's own type parameters.
    pub field_type: MoveType,
}

/// The tables of a loaded module, indexed as the bytecode indexes them.
pub struct Resolver {
    pub structs: Vec<StructDef>,
    pub struct_instantiations: Vec<StructInstantiationDef>,
    pub field_handles: Vec<FieldHandle>,
    pub field_instantiations: Vec<FieldInstantiation>,
    /// Single-type signatures, as used by the vector instructions.
    pub signatures: Vec<MoveType>,
    /// The type of each constant of the constant pool.
    pub constants: Vec<MoveType>,
}

pub open spec fn instantiated(tag: StructTagView, inst: Option<Seq<TypeView>>) -> Option<TypeView> {
    match inst {
        Some(xs) => Some(TypeView::StructInstantiation(tag, xs)),
        None => None,
    }
}

impl Resolver {
    pub open spec fn struct_type(&self, idx: u16) -> TypeView {
        self.structs@[idx as int].struct_type@
    }

    pub open spec fn struct_fields(&self, idx: u16) -> Seq<TypeView> {
        type_views(self.structs@[idx as int].fields@)
    }

    /// The instantiation's type arguments with `ty_args` substituted.
    pub open spec fn instantiation_args(&self, idx: u16, ty_args: Seq<TypeView>) -> Option<Seq<TypeView>> {
        subst_all(type_views(self.struct_instantiations@[idx as int].instantiation@), ty_args)
    }

    pub open spec fn generic_type(&self, idx: u16, ty_args: Seq<TypeView>) -> Option<TypeView> {
        instantiated(self.struct_instantiations@[idx as int].owner@, self.instantiation_args(idx, ty_args))
    }

    pub open spec fn generic_fields(&self, idx: u16, ty_args: Seq<TypeView>) -> Option<Seq<TypeView>> {
        match self.instantiation_args(idx, ty_args) {
            Some(inst) => subst_all(type_views(self.struct_instantiations@[idx as int].fields@), inst),
            None => None,
        }
    }

    pub open spec fn field_owner(&self, idx: u16) -> TypeView {
        self.field_handles@[idx as int].owner_type@
    }

    pub open spec fn field_type(&self, idx: u16) -> TypeView {
        self.field_handles@[idx as int].field_type@
    }

    pub open spec fn field_instantiation_args(&self, idx: u16, ty_args: Seq<TypeView>) -> Option<Seq<TypeView>> {
        subst_all(type_views(self.field_instantiations@[idx as int].instantiation@), ty_args)
    }

    pub open spec fn generic_field_owner(&self, idx: u16, ty_args: Seq<TypeView>) -> Option<TypeView> {
        instantiated(self.field_instantiations@[idx as int].owner@, self.field_instantiation_args(idx, ty_args))
    }

    pub open spec fn generic_field_type(&self, idx: u16, ty_args: Seq<TypeView>) -> Option<TypeView> {
        match self.field_instantiation_args(idx, ty_args) {
            Some(inst) => type_subst(self.field_instantiations@[idx as int].field_type@, inst),
            None => None,
        }
    }

    /// A single-type signature with `ty_args` substituted, left as it is
    /// when there are no type arguments.
    pub open spec fn single_type(&self, idx: u16, ty_args: Seq<TypeView>) -> Option<TypeView> {
        if ty_args.len() == 0 {
            Some(self.signatures@[idx as int]@)
        } else {
            type_subst(self.signatures@[idx as int]@, ty_args)
        }
    }

    pub open spec fn constant_type(&self, idx: u16) -> TypeView {
        self.constants@[idx as int]@
    }

    pub fn get_struct_type(&self, idx: u16) -> (r: MoveType)
        requires (idx as int) < self.structs@.len(),
        ensures r@ == self.struct_type(idx),
    {
        clone_type(&self.structs[idx as usize].struct_type)
    }

    pub fn get_struct_fields(&self, idx: u16) -> (r: &Vec<MoveType>)
        requires (idx as int) < self.structs@.len(),
        ensures type_views(r@) == self.struct_fields(idx),
    {
        &self.structs[idx as usize].fields
    }

    pub fn field_count(&self, idx: u16) -> (r: u16)
        requires (idx as int) < self.structs@.len(),
        ensures r == self.structs@[idx as int].field_count,
    {
        self.structs[idx as usize].field_count
    }

    pub fn field_instantiation_count(&self, idx: u16) -> (r: u16)
        requires (idx as int) < self.struct_instantiations@.len(),
        ensures r == self.struct_instantiations@[idx as int].field_count,
    {
        self.struct_instantiations[idx as usize].field_count
    }

    pub fn instantiate_generic_type(&self, idx: u16, ty_args: &Vec<MoveType>) -> (r: Option<MoveType>)
        requires (idx as int) < self.struct_instantiations@.len(),
        ensures opt_view(r) == self.generic_type(idx, type_views(ty_args@)),
    {
        let def = &self.struct_instantiations[idx as usize];
        match subst_vec(&def.instantiation, ty_args) {
            Some(xs) => Some(MoveType::StructInstantiation(def.owner.clone_tag(), xs)),
            None => None,
        }
    }

    pub fn instantiate_generic_struct_fields(&self, idx: u16, ty_args: &Vec<MoveType>) -> (r: Option<Vec<MoveType>>)
        requires (idx as int) < self.struct_instantiations@.len(),
        ensures opt_views(r) == self.generic_fields(idx, type_views(ty_args@)),
    {
        let def = &self.struct_instantiations[idx as usize];
        match subst_vec(&def.instantiation, ty_args) {
            Some(inst) => subst_vec(&def.fields, &inst),
            None => None,
        }
    }

    pub fn field_handle_to_struct(&self, idx: u16) -> (r: MoveType)
        requires (idx as int) < self.field_handles@.len(),
        ensures r@ == self.field_owner(idx),
    {
        clone_type(&self.field_handles[idx as usize].owner_type)
    }

    pub fn get_field_type(&self, idx: u16) -> (r: MoveType)
        requires (idx as int) < self.field_handles@.len(),
        ensures r@ == self.field_type(idx),
    {
        clone_type(&self.field_handles[idx as usize].field_type)
    }

    pub fn field_instantiation_to_struct(&self, idx: u16, ty_args: &Vec<MoveType>) -> (r: Option<MoveType>)
        requires (idx as int) < self.field_instantiations@.len(),
        ensures opt_view(r) == self.generic_field_owner(idx, type_views(ty_args@)),
    {
        let fi = &self.field_instantiations[idx as usize];
        match subst_vec(&fi.instantiation, ty_args) {
            Some(xs) => Some(MoveType::StructInstantiation(fi.owner.clone_tag(), xs)),
            None => None,
        }
    }

    pub fn instantiate_generic_field(&self, idx: u16, ty_args: &Vec<MoveType>) -> (r: Option<MoveType>)
        requires (idx as int) < self.field_instantiations@.len(),
        ensures opt_view(r) == self.generic_field_type(idx, type_views(ty_args@)),
    {
        let fi = &self.field_instantiations[idx as usize];
        match subst_vec(&fi.instantiation, ty_args) {
            Some(inst) => subst(&fi.field_type, &inst),
            None => None,
        }
    }

    pub fn instantiate_single_type(&self, idx: u16, ty_args: &Vec<MoveType>) -> (r: Option<MoveType>)
        requires (idx as int) < self.signatures@.len(),
        ensures opt_view(r) == self.single_type(idx, type_views(ty_args@)),
    {
        proof {
            lemma_type_views(ty_args@);
        }
        if ty_args.len() == 0 {
            Some(clone_type(&self.signatures[idx as usize]))
        } else {
            subst(&self.signatures[idx as usize], ty_args)
        }
    }

    pub fn constant_at(&self, idx: u16) -> (r: MoveType)
        requires (idx as int) < self.constants@.len(),
        ensures r@ == self.constant_type(idx),
    {
        clone_type(&self.constants[idx as usize])
    }
}

} // verus!
