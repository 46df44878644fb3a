//! Runtime types of the Move interpreter and their abilities, as the
//! paranoid type checker sees them.
//!
//! A struct type carries the abilities it was declared with and which of its
//! type parameters are phantom, so that the abilities of any runtime type are
//! a function of the type alone.
use vstd::prelude::*;

verus! {

/// One of the four Move abilities.
#[derive(Clone, Copy, Debug, PartialEq, Eq, Structural)]
pub enum Ability {
    Copy,
    Drop,
    Store,
    Key,
}

/// A set of abilities.
#[derive(Clone, Copy, Debug, PartialEq, Eq, Structural)]
pub struct AbilitySet {
    pub copy: bool,
    pub drop: bool,
    pub store: bool,
    pub key: bool,
}

pub open spec fn empty_abilities() -> AbilitySet {
    AbilitySet { copy: false, drop: false, store: false, key: false }
}

/// Abilities of the primitive types (booleans, integers, addresses).
pub open spec fn primitive_abilities() -> AbilitySet {
    AbilitySet { copy: true, drop: true, store: true, key: false }
}

/// Abilities of references.
pub open spec fn reference_abilities() -> AbilitySet {
    AbilitySet { copy: true, drop: true, store: false, key: false }
}

/// Abilities of `signer`.
pub open spec fn signer_abilities() -> AbilitySet {
    AbilitySet { copy: false, drop: true, store: false, key: false }
}

/// Abilities a vector can have at most.
pub open spec fn vector_abilities() -> AbilitySet {
    AbilitySet { copy: true, drop: true, store: true, key: false }
}

pub open spec fn spec_has(s: AbilitySet, a: Ability) -> bool {
    match a {
        Ability::Copy => s.copy,
        Ability::Drop => s.drop,
        Ability::Store => s.store,
        Ability::Key => s.key,
    }
}

pub open spec fn spec_intersect(a: AbilitySet, b: AbilitySet) -> AbilitySet {
    AbilitySet { copy: a.copy && b.copy, drop: a.drop && b.drop, store: a.store && b.store, key: a.key && b.key }
}

pub open spec fn spec_union(a: AbilitySet, b: AbilitySet) -> AbilitySet {
    AbilitySet { copy: a.copy || b.copy, drop: a.drop || b.drop, store: a.store || b.store, key: a.key || b.key }
}

pub open spec fn spec_is_subset(a: AbilitySet, b: AbilitySet) -> bool {
    (a.copy ==> b.copy) && (a.drop ==> b.drop) && (a.store ==> b.store) && (a.key ==> b.key)
}

/// The abilities that a type argument with abilities `s` lets a generic type keep:
/// copy, drop and store each require themselves, and key requires store.
pub open spec fn required_by(s: AbilitySet) -> AbilitySet {
    AbilitySet { copy: s.copy, drop: s.drop, store: s.store, key: s.store }
}

impl AbilitySet {
    pub fn empty() -> (r: AbilitySet)
        ensures r == empty_abilities(),
    {
        AbilitySet { copy: false, drop: false, store: false, key: false }
    }

    pub fn singleton(a: Ability) -> (r: AbilitySet)
        ensures
            forall|b: Ability| spec_has(r, b) <==> b == a,
    {
        match a {
            Ability::Copy => AbilitySet { copy: true, drop: false, store: false, key: false },
            Ability::Drop => AbilitySet { copy: false, drop: true, store: false, key: false },
            Ability::Store => AbilitySet { copy: false, drop: false, store: true, key: false },
            Ability::Key => AbilitySet { copy: false, drop: false, store: false, key: true },
        }
    }

    pub fn has_ability(&self, a: Ability) -> (r: bool)
        ensures r == spec_has(*self, a),
    {
        match a {
            Ability::Copy => self.copy,
            Ability::Drop => self.drop,
            Ability::Store => self.store,
            Ability::Key => self.key,
        }
    }

    pub fn has_copy(&self) -> (r: bool)
        ensures r == self.copy,
    {
        self.copy
    }

    pub fn has_drop(&self) -> (r: bool)
        ensures r == self.drop,
    {
        self.drop
    }

    pub fn has_store(&self) -> (r: bool)
        ensures r == self.store,
    {
        self.store
    }

    pub fn has_key(&self) -> (r: bool)
        ensures r == self.key,
    {
        self.key
    }

    pub fn remove(&self, a: Ability) -> (r: AbilitySet)
        ensures
            forall|b: Ability| spec_has(r, b) <==> (spec_has(*self, b) && b != a),
    {
        match a {
            Ability::Copy => AbilitySet { copy: false, ..*self },
            Ability::Drop => AbilitySet { drop: false, ..*self },
            Ability::Store => AbilitySet { store: false, ..*self },
            Ability::Key => AbilitySet { key: false, ..*self },
        }
    }

    pub fn union(&self, other: AbilitySet) -> (r: AbilitySet)
        ensures r == spec_union(*self, other),
    {
        AbilitySet {
            copy: self.copy || other.copy,
            drop: self.drop || other.drop,
            store: self.store || other.store,
            key: self.key || other.key,
        }
    }

    pub fn intersect(&self, other: AbilitySet) -> (r: AbilitySet)
        ensures r == spec_intersect(*self, other),
    {
        AbilitySet {
            copy: self.copy && other.copy,
            drop: self.drop && other.drop,
            store: self.store && other.store,
            key: self.key && other.key,
        }
    }

    pub fn is_subset(&self, other: AbilitySet) -> (r: bool)
        ensures r == spec_is_subset(*self, other),
    {
        (!self.copy || other.copy) && (!self.drop || other.drop) && (!self.store || other.store)
            && (!self.key || other.key)
    }
}

/// A struct as the loader knows it: its index in the loader's cache, its
/// declared abilities, and which of its type parameters are phantom.
#[derive(Debug)]
pub struct StructTag {
    pub index: u64,
    pub abilities: AbilitySet,
    pub phantom_params: Vec<bool>,
}

/// The mathematical form of a [`StructTag`].
pub struct StructTagView {
    pub index: u64,
    pub abilities: AbilitySet,
    pub phantom_params: Seq<bool>,
}

impl View for StructTag {
    type V = StructTagView;

    open spec fn view(&self) -> StructTagView {
        StructTagView { index: self.index, abilities: self.abilities, phantom_params: self.phantom_params@ }
    }
}

/// A runtime Move type.
#[derive(Debug)]
pub enum MoveType {
    Bool,
    U8,
    U16,
    U32,
    U64,
    U128,
    U256,
    Address,
    Signer,
    Vector(Box<MoveType>),
    Struct(StructTag),
    StructInstantiation(StructTag, Vec<MoveType>),
    Reference(Box<MoveType>),
    MutableReference(Box<MoveType>),
    TyParam(u16),
}

/// The mathematical form of a [`MoveType`].
pub enum TypeView {
    Bool,
    U8,
    U16,
    U32,
    U64,
    U128,
    U256,
    Address,
    Signer,
    Vector(Box<TypeView>),
    Struct(StructTagView),
    StructInstantiation(StructTagView, Seq<TypeView>),
    Reference(Box<TypeView>),
    MutableReference(Box<TypeView>),
    TyParam(u16),
}

pub open spec fn type_view(t: MoveType) -> TypeView
    decreases t,
{
    match t {
        MoveType::Bool => TypeView::Bool,
        MoveType::U8 => TypeView::U8,
        MoveType::U16 => TypeView::U16,
        MoveType::U32 => TypeView::U32,
        MoveType::U64 => TypeView::U64,
        MoveType::U128 => TypeView::U128,
        MoveType::U256 => TypeView::U256,
        MoveType::Address => TypeView::Address,
        MoveType::Signer => TypeView::Signer,
        MoveType::Vector(e) => TypeView::Vector(Box::new(type_view(*e))),
        MoveType::Struct(tag) => TypeView::Struct(tag@),
        MoveType::StructInstantiation(tag, args) => TypeView::StructInstantiation(tag@, type_views(args@)),
        MoveType::Reference(e) => TypeView::Reference(Box::new(type_view(*e))),
        MoveType::MutableReference(e) => TypeView::MutableReference(Box::new(type_view(*e))),
        MoveType::TyParam(i) => TypeView::TyParam(i),
    }
}

pub open spec fn type_views(s: Seq<MoveType>) -> Seq<TypeView>
    decreases s,
{
    if s.len() == 0 {
        Seq::empty()
    } else {
        type_views(s.drop_last()).push(type_view(s.last()))
    }
}

impl View for MoveType {
    type V = TypeView;

    open spec fn view(&self) -> TypeView {
        type_view(*self)
    }
}


pub proof fn lemma_type_views(s: Seq<MoveType>)
    ensures
        type_views(s).len() == s.len(),
        forall|i: int| 0 <= i < s.len() ==> #[trigger] type_views(s)[i] == type_view(s[i]),
    decreases s.len(),
{
    if s.len() > 0 {
        lemma_type_views(s.drop_last());
    }
}

pub proof fn lemma_type_views_push(s: Seq<MoveType>, t: MoveType)
    ensures
        type_views(s.push(t)) == type_views(s).push(type_view(t)),
{
    assert(s.push(t).drop_last() =~= s);
}

pub proof fn lemma_type_views_ext(a: Seq<MoveType>, b: Seq<MoveType>)
    requires
        a.len() == b.len(),
        forall|i: int| 0 <= i < a.len() ==> type_view(#[trigger] a[i]) == type_view(b[i]),
    ensures
        type_views(a) == type_views(b),
{
    lemma_type_views(a);
    lemma_type_views(b);
    assert(type_views(a) =~= type_views(b));
}

impl StructTag {
    pub fn clone_tag(&self) -> (r: StructTag)
        ensures r@ == self@,
    {
        let mut p: Vec<bool> = Vec::new();
        let mut i: usize = 0;
        while i < self.phantom_params.len()
            invariant
                i <= self.phantom_params.len(),
                p@ == self.phantom_params@.subrange(0, i as int),
            decreases self.phantom_params.len() - i,
        {
            p.push(self.phantom_params[i]);
            i = i + 1;
            proof {
                assert(p@ =~= self.phantom_params@.subrange(0, i as int));
            }
        }
        proof {
            assert(p@ =~= self.phantom_params@);
        }
        StructTag { index: self.index, abilities: self.abilities, phantom_params: p }
    }

    pub fn eq_tag(&self, other: &StructTag) -> (r: bool)
        ensures r == (self@ == other@),
    {
        if self.index != other.index || self.abilities != other.abilities
            || self.phantom_params.len() != other.phantom_params.len() {
            return false;
        }
        let mut i: usize = 0;
        while i < self.phantom_params.len()
            invariant
                i <= self.phantom_params.len(),
                self.phantom_params.len() == other.phantom_params.len(),
                forall|j: int| 0 <= j < i ==> self.phantom_params@[j] == other.phantom_params@[j],
            decreases self.phantom_params.len() - i,
        {
            if self.phantom_params[i] != other.phantom_params[i] {
                return false;
            }
            i = i + 1;
        }
        proof {
            assert(self.phantom_params@ =~= other.phantom_params@);
        }
        true
    }
}

pub fn clone_types(v: &Vec<MoveType>) -> (r: Vec<MoveType>)
    ensures type_views(r@) == type_views(v@),
    decreases v@,
{
    let mut r: Vec<MoveType> = Vec::new();
    let mut i: usize = 0;
    while i < v.len()
        invariant
            i <= v.len(),
            r@.len() == i,
            forall|j: int| 0 <= j < i ==> type_view(#[trigger] r@[j]) == type_view(v@[j]),
        decreases v.len() - i,
    {
        let t = clone_type(&v[i]);
        r.push(t);
        i = i + 1;
    }
    proof {
        lemma_type_views_ext(r@, v@);
    }
    r
}

pub fn clone_type(t: &MoveType) -> (r: MoveType)
    ensures r@ == t@,
    decreases t,
{
    match t {
        MoveType::Bool => MoveType::Bool,
        MoveType::U8 => MoveType::U8,
        MoveType::U16 => MoveType::U16,
        MoveType::U32 => MoveType::U32,
        MoveType::U64 => MoveType::U64,
        MoveType::U128 => MoveType::U128,
        MoveType::U256 => MoveType::U256,
        MoveType::Address => MoveType::Address,
        MoveType::Signer => MoveType::Signer,
        MoveType::Vector(e) => MoveType::Vector(Box::new(clone_type(e))),
        MoveType::Struct(tag) => MoveType::Struct(tag.clone_tag()),
        MoveType::StructInstantiation(tag, args) => {
            MoveType::StructInstantiation(tag.clone_tag(), clone_types(args))
        },
        MoveType::Reference(e) => MoveType::Reference(Box::new(clone_type(e))),
        MoveType::MutableReference(e) => MoveType::MutableReference(Box::new(clone_type(e))),
        MoveType::TyParam(i) => MoveType::TyParam(*i),
    }
}

pub fn eq_types(a: &Vec<MoveType>, b: &Vec<MoveType>) -> (r: bool)
    ensures r == (type_views(a@) == type_views(b@)),
    decreases a@,
{
    proof {
        lemma_type_views(a@);
        lemma_type_views(b@);
    }
    if a.len() != b.len() {
        return false;
    }
    let mut i: usize = 0;
    while i < a.len()
        invariant
            i <= a.len(),
            a.len() == b.len(),
            forall|j: int| 0 <= j < i ==> type_view(#[trigger] a@[j]) == type_view(b@[j]),
        decreases a.len() - i,
    {
        if !eq_type(&a[i], &b[i]) {
            proof {
                lemma_type_views(a@);
                lemma_type_views(b@);
                assert(type_views(a@)[i as int] != type_views(b@)[i as int]);
            }
            return false;
        }
        i = i + 1;
    }
    proof {
        lemma_type_views_ext(a@, b@);
    }
    true
}

/// Structural equality of two runtime types.
pub fn eq_type(a: &MoveType, b: &MoveType) -> (r: bool)
    ensures r == (a@ == b@),
    decreases a,
{
    match (a, b) {
        (MoveType::Bool, MoveType::Bool) => true,
        (MoveType::U8, MoveType::U8) => true,
        (MoveType::U16, MoveType::U16) => true,
        (MoveType::U32, MoveType::U32) => true,
        (MoveType::U64, MoveType::U64) => true,
        (MoveType::U128, MoveType::U128) => true,
        (MoveType::U256, MoveType::U256) => true,
        (MoveType::Address, MoveType::Address) => true,
        (MoveType::Signer, MoveType::Signer) => true,
        (MoveType::Vector(x), MoveType::Vector(y)) => eq_type(x, y),
        (MoveType::Struct(x), MoveType::Struct(y)) => x.eq_tag(y),
        (MoveType::StructInstantiation(x, xs), MoveType::StructInstantiation(y, ys)) => {
            x.eq_tag(y) && eq_types(xs, ys)
        },
        (MoveType::Reference(x), MoveType::Reference(y)) => eq_type(x, y),
        (MoveType::MutableReference(x), MoveType::MutableReference(y)) => eq_type(x, y),
        (MoveType::TyParam(i), MoveType::TyParam(j)) => *i == *j,
        _ => false,
    }
}


/// The abilities of a runtime type, or `None` where the loader reports an
/// invariant violation (a type parameter left in the type, or a struct
/// instantiated with a number of type arguments its declaration does not have).
///
/// The abilities of every type argument are computed; an argument in a
/// phantom position does not restrict the result.
pub open spec fn type_abilities(t: TypeView) -> Option<AbilitySet>
    decreases t,
{
    match t {
        TypeView::Signer => Some(signer_abilities()),
        TypeView::Reference(_) => Some(reference_abilities()),
        TypeView::MutableReference(_) => Some(reference_abilities()),
        TypeView::Vector(e) => match type_abilities(*e) {
            Some(a) => Some(spec_intersect(vector_abilities(), required_by(a))),
            None => None,
        },
        TypeView::Struct(tag) => Some(tag.abilities),
        TypeView::StructInstantiation(tag, args) => {
            if tag.phantom_params.len() == args.len() {
                instantiation_abilities(tag.abilities, tag.phantom_params, args)
            } else {
                None
            }
        },
        TypeView::TyParam(_) => None,
        _ => Some(primitive_abilities()),
    }
}

/// The abilities of a generic struct with declared abilities `declared`,
/// instantiated with `args`.
pub open spec fn instantiation_abilities(declared: AbilitySet, phantom: Seq<bool>, args: Seq<TypeView>) -> Option<AbilitySet>
    decreases args,
{
    if args.len() == 0 {
        Some(declared)
    } else {
        match (instantiation_abilities(declared, phantom.drop_last(), args.drop_last()), type_abilities(args.last())) {
            (Some(acc), Some(a)) => Some(if phantom.last() { acc } else { spec_intersect(acc, required_by(a)) }),
            _ => None,
        }
    }
}

pub open spec fn opt_view(o: Option<MoveType>) -> Option<TypeView> {
    match o {
        Some(t) => Some(t@),
        None => None,
    }
}

/// `t` with each type parameter `i` replaced by `ty_args[i]`; `None` where a
/// parameter has no argument.
pub open spec fn type_subst(t: TypeView, ty_args: Seq<TypeView>) -> Option<TypeView>
    decreases t,
{
    match t {
        TypeView::TyParam(i) => if (i as int) < ty_args.len() { Some(ty_args[i as int]) } else { None },
        TypeView::Vector(e) => match type_subst(*e, ty_args) {
            Some(x) => Some(TypeView::Vector(Box::new(x))),
            None => None,
        },
        TypeView::Reference(e) => match type_subst(*e, ty_args) {
            Some(x) => Some(TypeView::Reference(Box::new(x))),
            None => None,
        },
        TypeView::MutableReference(e) => match type_subst(*e, ty_args) {
            Some(x) => Some(TypeView::MutableReference(Box::new(x))),
            None => None,
        },
        TypeView::StructInstantiation(tag, args) => match subst_all(args, ty_args) {
            Some(xs) => Some(TypeView::StructInstantiation(tag, xs)),
            None => None,
        },
        _ => Some(t),
    }
}

/// Each of `args` substituted, or `None` if any substitution fails.
pub open spec fn subst_all(args: Seq<TypeView>, ty_args: Seq<TypeView>) -> Option<Seq<TypeView>>
    decreases args,
{
    if args.len() == 0 {
        Some(Seq::empty())
    } else {
        match (subst_all(args.drop_last(), ty_args), type_subst(args.last(), ty_args)) {
            (Some(xs), Some(x)) => Some(xs.push(x)),
            _ => None,
        }
    }
}

/// The abilities of a runtime type (see [`type_abilities`]).
pub fn abilities(t: &MoveType) -> (r: Option<AbilitySet>)
    ensures r == type_abilities(t@),
    decreases t,
{
    match t {
        MoveType::Signer => Some(AbilitySet { copy: false, drop: true, store: false, key: false }),
        MoveType::Reference(_) => Some(AbilitySet { copy: true, drop: true, store: false, key: false }),
        MoveType::MutableReference(_) => Some(AbilitySet { copy: true, drop: true, store: false, key: false }),
        MoveType::Vector(e) => match abilities(e) {
            Some(a) => {
                let vec_abilities = AbilitySet { copy: true, drop: true, store: true, key: false };
                let required = AbilitySet { copy: a.copy, drop: a.drop, store: a.store, key: a.store };
                Some(vec_abilities.intersect(required))
            },
            None => None,
        },
        MoveType::Struct(tag) => Some(tag.abilities),
        MoveType::StructInstantiation(tag, args) => {
            let ghost views = type_views(args@);
            proof {
                lemma_type_views(args@);
            }
            if tag.phantom_params.len() != args.len() {
                return None;
            }
            let mut acc = tag.abilities;
            let mut i: usize = 0;
            while i < args.len()
                invariant
                    i <= args.len(),
                    tag.phantom_params.len() == args.len(),
                    *t == MoveType::StructInstantiation(*tag, *args),
                    views == type_views(args@),
                    views.len() == args@.len(),
                    forall|j: int| 0 <= j < args@.len() ==> #[trigger] views[j] == type_view(args@[j]),
                    instantiation_abilities(tag.abilities, tag.phantom_params@.subrange(0, i as int), views.subrange(0, i as int)) == Some(acc),
                decreases args.len() - i,
            {
                proof {
                    assert(decreases_to!(*t => *args));
                    assert(decreases_to!(*args => args@));
                    assert(decreases_to!(args@ => args@[i as int]));
                }
                let a = abilities(&args[i]);
                proof {
                    let p1 = tag.phantom_params@.subrange(0, i + 1);
                    let v1 = views.subrange(0, i + 1);
                    assert(p1.drop_last() =~= tag.phantom_params@.subrange(0, i as int));
                    assert(v1.drop_last() =~= views.subrange(0, i as int));
                    assert(v1.last() == views[i as int]);
                    assert(p1.last() == tag.phantom_params@[i as int]);
                }
                match a {
                    None => {
                        proof {
                            let p1 = tag.phantom_params@.subrange(0, i + 1);
                            let v1 = views.subrange(0, i + 1);
                            assert(instantiation_abilities(tag.abilities, p1, v1) is None);
                            lemma_instantiation_prefix_none(tag.abilities, tag.phantom_params@, views, i as int + 1);
                            assert(tag.phantom_params@.subrange(0, args.len() as int) =~= tag.phantom_params@);
                            assert(views.subrange(0, args.len() as int) =~= views);
                        }
                        return None;
                    },
                    Some(arg_abilities) => {
                        if !tag.phantom_params[i] {
                            let required = AbilitySet {
                                copy: arg_abilities.copy,
                                drop: arg_abilities.drop,
                                store: arg_abilities.store,
                                key: arg_abilities.store,
                            };
                            acc = acc.intersect(required);
                        }
                    },
                }
                i = i + 1;
            }
            proof {
                assert(tag.phantom_params@.subrange(0, args.len() as int) =~= tag.phantom_params@);
                assert(views.subrange(0, args.len() as int) =~= views);
            }
            Some(acc)
        },
        MoveType::TyParam(_) => None,
        _ => Some(AbilitySet { copy: true, drop: true, store: true, key: false }),
    }
}

/// Once the abilities of a prefix of the type arguments cannot be computed,
/// those of no longer prefix can.
pub proof fn lemma_instantiation_prefix_none(declared: AbilitySet, phantom: Seq<bool>, args: Seq<TypeView>, k: int)
    requires
        0 <= k <= args.len(),
        phantom.len() == args.len(),
        instantiation_abilities(declared, phantom.subrange(0, k), args.subrange(0, k)) is None,
    ensures
        instantiation_abilities(declared, phantom.subrange(0, args.len() as int), args.subrange(0, args.len() as int)) is None,
    decreases args.len() - k,
{
    if k < args.len() {
        let p1 = phantom.subrange(0, k + 1);
        let v1 = args.subrange(0, k + 1);
        assert(p1.drop_last() =~= phantom.subrange(0, k));
        assert(v1.drop_last() =~= args.subrange(0, k));
        lemma_instantiation_prefix_none(declared, phantom, args, k + 1);
    }
}

/// Substitutes the type arguments `ty_args` for the type parameters of `t`
/// (see [`type_subst`]).
pub fn subst(t: &MoveType, ty_args: &Vec<MoveType>) -> (r: Option<MoveType>)
    ensures opt_view(r) == type_subst(t@, type_views(ty_args@)),
    decreases t,
{
    proof {
        lemma_type_views(ty_args@);
    }
    match t {
        MoveType::TyParam(i) => {
            if (*i as usize) < ty_args.len() {
                Some(clone_type(&ty_args[*i as usize]))
            } else {
                None
            }
        },
        MoveType::Vector(e) => match subst(e, ty_args) {
            Some(x) => Some(MoveType::Vector(Box::new(x))),
            None => None,
        },
        MoveType::Reference(e) => match subst(e, ty_args) {
            Some(x) => Some(MoveType::Reference(Box::new(x))),
            None => None,
        },
        MoveType::MutableReference(e) => match subst(e, ty_args) {
            Some(x) => Some(MoveType::MutableReference(Box::new(x))),
            None => None,
        },
        MoveType::StructInstantiation(tag, args) => {
            let ghost views = type_views(args@);
            let ghost tys = type_views(ty_args@);
            proof {
                lemma_type_views(args@);
            }
            let mut out: Vec<MoveType> = Vec::new();
            let mut i: usize = 0;
            while i < args.len()
                invariant
                    i <= args.len(),
                    *t == MoveType::StructInstantiation(*tag, *args),
                    views == type_views(args@),
                    tys == type_views(ty_args@),
                    views.len() == args@.len(),
                    forall|j: int| 0 <= j < args@.len() ==> #[trigger] views[j] == type_view(args@[j]),
                    subst_all(views.subrange(0, i as int), tys) == Some(type_views(out@)),
                decreases args.len() - i,
            {
                proof {
                    assert(decreases_to!(*t => *args));
                    assert(decreases_to!(*args => args@));
                    assert(decreases_to!(args@ => args@[i as int]));
                }
                let x = subst(&args[i], ty_args);
                proof {
                    let v1 = views.subrange(0, i + 1);
                    assert(v1.drop_last() =~= views.subrange(0, i as int));
                    assert(v1.last() == views[i as int]);
                }
                match x {
                    None => {
                        proof {
                            let v1 = views.subrange(0, i + 1);
                            assert(subst_all(v1, tys) is None);
                            lemma_subst_prefix_none(views, tys, i as int + 1);
                            assert(views.subrange(0, args.len() as int) =~= views);
                        }
                        return None;
                    },
                    Some(x) => {
                        proof {
                            lemma_type_views_push(out@, x);
                        }
                        out.push(x);
                    },
                }
                i = i + 1;
            }
            proof {
                assert(views.subrange(0, args.len() as int) =~= views);
            }
            Some(MoveType::StructInstantiation(tag.clone_tag(), out))
        },
        MoveType::Bool => Some(MoveType::Bool),
        MoveType::U8 => Some(MoveType::U8),
        MoveType::U16 => Some(MoveType::U16),
        MoveType::U32 => Some(MoveType::U32),
        MoveType::U64 => Some(MoveType::U64),
        MoveType::U128 => Some(MoveType::U128),
        MoveType::U256 => Some(MoveType::U256),
        MoveType::Address => Some(MoveType::Address),
        MoveType::Signer => Some(MoveType::Signer),
        MoveType::Struct(tag) => Some(MoveType::Struct(tag.clone_tag())),
    }
}

pub proof fn lemma_subst_prefix_none(args: Seq<TypeView>, ty_args: Seq<TypeView>, k: int)
    requires
        0 <= k <= args.len(),
        subst_all(args.subrange(0, k), ty_args) is None,
    ensures
        subst_all(args.subrange(0, args.len() as int), ty_args) is None,
    decreases args.len() - k,
{
    if k < args.len() {
        let v1 = args.subrange(0, k + 1);
        assert(v1.drop_last() =~= args.subrange(0, k));
        lemma_subst_prefix_none(args, ty_args, k + 1);
    }
}


pub open spec fn opt_views(o: Option<Vec<MoveType>>) -> Option<Seq<TypeView>> {
    match o {
        Some(v) => Some(type_views(v@)),
        None => None,
    }
}

/// Substitutes `ty_args` into each of `args` (see [`subst_all`]).
pub fn subst_vec(args: &Vec<MoveType>, ty_args: &Vec<MoveType>) -> (r: Option<Vec<MoveType>>)
    ensures opt_views(r) == subst_all(type_views(args@), type_views(ty_args@)),
{
    let ghost views = type_views(args@);
    let ghost tys = type_views(ty_args@);
    proof {
        lemma_type_views(args@);
    }
    let mut out: Vec<MoveType> = Vec::new();
    let mut i: usize = 0;
    while i < args.len()
        invariant
            i <= args.len(),
            views == type_views(args@),
            tys == type_views(ty_args@),
            views.len() == args@.len(),
            forall|j: int| 0 <= j < args@.len() ==> #[trigger] views[j] == type_view(args@[j]),
            subst_all(views.subrange(0, i as int), tys) == Some(type_views(out@)),
        decreases args.len() - i,
    {
        let x = subst(&args[i], ty_args);
        proof {
            let v1 = views.subrange(0, i + 1);
            assert(v1.drop_last() =~= views.subrange(0, i as int));
            assert(v1.last() == views[i as int]);
        }
        match x {
            None => {
                proof {
                    let v1 = views.subrange(0, i + 1);
                    assert(subst_all(v1, tys) is None);
                    lemma_subst_prefix_none(views, tys, i as int + 1);
                    assert(views.subrange(0, args.len() as int) =~= views);
                }
                return None;
            },
            Some(x) => {
                proof {
                    lemma_type_views_push(out@, x);
                }
                out.push(x);
            },
        }
        i = i + 1;
    }
    proof {
        assert(views.subrange(0, args.len() as int) =~= views);
    }
    Some(out)
}

/// Types that a constant may have: primitives and vectors of them.
pub open spec fn is_constant_type(t: TypeView) -> bool
    decreases t,
{
    match t {
        TypeView::Bool | TypeView::U8 | TypeView::U16 | TypeView::U32 | TypeView::U64
        | TypeView::U128 | TypeView::U256 | TypeView::Address => true,
        TypeView::Vector(e) => is_constant_type(*e),
        _ => false,
    }
}

pub fn check_constant_type(t: &MoveType) -> (r: bool)
    ensures r == is_constant_type(t@),
    decreases t,
{
    match t {
        MoveType::Bool | MoveType::U8 | MoveType::U16 | MoveType::U32 | MoveType::U64
        | MoveType::U128 | MoveType::U256 | MoveType::Address => true,
        MoveType::Vector(e) => check_constant_type(e),
        _ => false,
    }
}


/// A successful substitution keeps the number of types.
pub proof fn lemma_subst_all_len(args: Seq<TypeView>, ty_args: Seq<TypeView>)
    ensures
        subst_all(args, ty_args) matches Some(xs) ==> xs.len() == args.len(),
    decreases args.len(),
{
    if args.len() > 0 {
        lemma_subst_all_len(args.drop_last(), ty_args);
    }
}

} // verus!
