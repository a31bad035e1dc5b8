use vstd::prelude::*;

use crate::layout::{
    checked_fields_size, checked_tags_size, fields_size, fields_stack_size, layout_size, tags_size,
    tags_stack_size, Builtin, Layout, UnionLayout,
};

verus! {

broadcast use vstd::std_specs::vec::group_vec_axioms;

/// Address spaces a pointer type may live in.
#[derive(Copy, Clone, PartialEq, Eq, Structural, Debug)]
pub enum AddressSpace {
    Generic,
    Global,
    Shared,
    Const,
    Local,
}

/// Container structs that the module declares before any lowering; they are
/// known here by name only.
#[derive(Copy, Clone, PartialEq, Eq, Structural, Debug)]
pub enum OpaqueStruct {
    RocStr,
    RocList,
    RocDict,
}

/// A first-class type of the target backend.
#[derive(Debug)]
pub enum BasicType {
    Int { bits: u32 },
    Float { bits: u32 },
    Pointer { pointee: Box<AnyType>, address_space: AddressSpace },
    Struct { fields: Vec<BasicType>, packed: bool },
    Array { elem: Box<BasicType>, len: u32 },
    Vector { elem: Box<BasicType>, len: u32 },
    Opaque { name: OpaqueStruct },
}

/// What a pointer may point to: a first-class type or a function.
#[derive(Debug)]
pub enum AnyType {
    Basic(BasicType),
    Function(FunctionType),
}

/// A function signature of the target backend.
#[derive(Debug)]
pub struct FunctionType {
    pub ret: Box<BasicType>,
    pub params: Vec<BasicType>,
    pub variadic: bool,
}

/// A constant of the target backend.
#[derive(Debug)]
pub enum BasicValue {
    /// The all-zero value of a type.
    Zero(BasicType),
}

/// What lowering needs to know of the target.
pub struct Env {
    /// Width of a pointer, in bytes.
    pub ptr_bytes: u32,
}

impl OpaqueStruct {
    pub open spec fn spec_name(self) -> Seq<char> {
        match self {
            OpaqueStruct::RocStr => "str.RocStr"@,
            OpaqueStruct::RocList => "list.RocList"@,
            OpaqueStruct::RocDict => "dict.RocDict"@,
        }
    }

    /// The symbol under which the module declares this struct.
    pub fn name(&self) -> (r: &'static str)
        ensures
            r@ == self.spec_name(),
    {
        match self {
            OpaqueStruct::RocStr => "str.RocStr",
            OpaqueStruct::RocList => "list.RocList",
            OpaqueStruct::RocDict => "dict.RocDict",
        }
    }
}

/// Pointer widths that a target may have, in bytes.
pub open spec fn valid_ptr_bytes(p: u32) -> bool {
    p == 1 || p == 2 || p == 4 || p == 8
}

/// The type that a builtin lowers to.
pub open spec fn builtin_type(b: Builtin, p: nat) -> BasicType {
    match b {
        Builtin::Int128 => BasicType::Int { bits: 128 },
        Builtin::Int64 => BasicType::Int { bits: 64 },
        Builtin::Int32 => BasicType::Int { bits: 32 },
        Builtin::Int16 => BasicType::Int { bits: 16 },
        Builtin::Int8 => BasicType::Int { bits: 8 },
        Builtin::Int1 => BasicType::Int { bits: 1 },
        Builtin::Usize => BasicType::Int { bits: (8 * p) as u32 },
        Builtin::Float128 => BasicType::Float { bits: 128 },
        Builtin::Float64 => BasicType::Float { bits: 64 },
        Builtin::Float32 => BasicType::Float { bits: 32 },
        Builtin::Float16 => BasicType::Float { bits: 16 },
        Builtin::Dict(_, _) | Builtin::EmptyDict => BasicType::Opaque { name: OpaqueStruct::RocDict },
        Builtin::SetOf(_) | Builtin::EmptySet => BasicType::Opaque { name: OpaqueStruct::RocDict },
        Builtin::List(_) | Builtin::EmptyList => BasicType::Opaque { name: OpaqueStruct::RocList },
        Builtin::Str | Builtin::EmptyStr => BasicType::Opaque { name: OpaqueStruct::RocStr },
    }
}

/// The fields of the byte block that holds `size` bytes: whole 64-bit words,
/// then the remaining bytes if there are any.
pub open spec fn block_fields(size: nat) -> Seq<BasicType> {
    let words = BasicType::Array { elem: Box::new(BasicType::Int { bits: 64 }), len: (size / 8) as u32 };
    if size % 8 == 0 {
        seq![words]
    } else {
        seq![words, BasicType::Array { elem: Box::new(BasicType::Int { bits: 8 }), len: (size % 8) as u32 }]
    }
}

/// `t` is the unpacked byte block of `size` bytes.
pub open spec fn is_block(t: BasicType, size: nat) -> bool {
    t matches BasicType::Struct { fields, packed } && !packed && fields@ == block_fields(size)
}

/// The pointee of a generic-address-space pointer to a first-class type.
pub open spec fn pointee_of(t: BasicType) -> Option<BasicType> {
    match t {
        BasicType::Pointer { pointee, address_space } => match *pointee {
            AnyType::Basic(b) => if address_space == AddressSpace::Generic { Some(b) } else { None },
            _ => None,
        },
        _ => None,
    }
}

/// The result and parameter types of a generic-address-space pointer to a
/// function that is not variadic.
pub open spec fn fn_pointer_parts(t: BasicType) -> Option<(BasicType, Seq<BasicType>)> {
    match t {
        BasicType::Pointer { pointee, address_space } => match *pointee {
            AnyType::Function(f) => if address_space == AddressSpace::Generic && !f.variadic {
                Some((*f.ret, f.params@))
            } else {
                None
            },
            _ => None,
        },
        _ => None,
    }
}

/// `t` is what layout `l` lowers to on a target with pointers of `p` bytes.
pub open spec fn lowers_to(l: Layout, t: BasicType, p: nat) -> bool
    decreases l,
{
    match l {
        Layout::FunctionPointer(args, ret) => match fn_pointer_parts(t) {
            Some((rt, params)) => lowers_to(*ret, rt, p) && lowers_all(args@, params, p),
            None => false,
        },
        Layout::Closure(args, data, ret) => match t {
            BasicType::Struct { fields, packed } => {
                &&& !packed
                &&& fields@.len() == 2
                &&& lowers_to(*data, fields@[1], p)
                &&& match fn_pointer_parts(fields@[0]) {
                    Some((rt, params)) => {
                        &&& params.len() == args@.len() + 1
                        &&& lowers_to(*ret, rt, p)
                        &&& lowers_all(args@, params.drop_last(), p)
                        &&& lowers_to(*data, params.last(), p)
                    },
                    None => false,
                }
            },
            _ => false,
        },
        Layout::Pointer(inner) => match pointee_of(t) {
            Some(b) => lowers_to(*inner, b, p),
            None => false,
        },
        Layout::PhantomEmptyStruct => t matches BasicType::Struct { fields, packed } && !packed
            && fields@.len() == 0,
        Layout::Struct(fields) => match t {
            BasicType::Struct { fields: ts, packed } => !packed && lowers_all(fields@, ts@, p),
            _ => false,
        },
        Layout::Union(u) => match u {
            UnionLayout::NonRecursive(tags) => is_block(t, tags_size(tags@, p)),
            UnionLayout::Recursive(tags) => match pointee_of(t) {
                Some(b) => is_block(b, tags_size(tags@, p)),
                None => false,
            },
            UnionLayout::NullableWrapped { other_tags, .. } => match pointee_of(t) {
                Some(b) => is_block(b, tags_size(other_tags@, p)),
                None => false,
            },
            UnionLayout::NullableUnwrapped { other_fields, .. } => match pointee_of(t) {
                Some(b) => other_fields@.len() >= 1 && is_block(
                    b,
                    fields_size(other_fields@.subrange(1, other_fields@.len() as int), p),
                ),
                None => false,
            },
            UnionLayout::NonNullableUnwrapped(fields) => match pointee_of(t) {
                Some(b) => is_block(b, fields_size(fields@, p)),
                None => false,
            },
        },
        Layout::RecursivePointer => pointee_of(t) == Some(BasicType::Int { bits: 64 }),
        Layout::Builtin(b) => t == builtin_type(b, p),
    }
}

/// Each of `ls` lowers to the type at the same place in `ts`.
pub open spec fn lowers_all(ls: Seq<Layout>, ts: Seq<BasicType>, p: nat) -> bool
    decreases ls,
{
    &&& ls.len() == ts.len()
    &&& ls.len() > 0 ==> lowers_all(ls.drop_last(), ts.drop_last(), p) && lowers_to(ls.last(), ts.last(), p)
}

/// Every byte block that lowering `l` builds has a size that fits in a `u32`,
/// and a nullable unwrapped union has its discriminator slot.
pub open spec fn lowerable(l: Layout, p: nat) -> bool
    decreases l,
{
    match l {
        Layout::FunctionPointer(args, ret) => all_lowerable(args@, p) && lowerable(*ret, p),
        Layout::Closure(args, data, ret) => all_lowerable(args@, p) && lowerable(*data, p) && lowerable(*ret, p),
        Layout::Pointer(inner) => lowerable(*inner, p),
        Layout::Struct(fields) => all_lowerable(fields@, p),
        Layout::Union(u) => match u {
            UnionLayout::NonRecursive(tags) => tags_size(tags@, p) <= u32::MAX,
            UnionLayout::Recursive(tags) => tags_size(tags@, p) <= u32::MAX,
            UnionLayout::NullableWrapped { other_tags, .. } => tags_size(other_tags@, p) <= u32::MAX,
            UnionLayout::NullableUnwrapped { other_fields, .. } => other_fields@.len() >= 1
                && fields_size(other_fields@.subrange(1, other_fields@.len() as int), p) <= u32::MAX,
            UnionLayout::NonNullableUnwrapped(fields) => fields_size(fields@, p) <= u32::MAX,
        },
        _ => true,
    }
}

pub open spec fn all_lowerable(ls: Seq<Layout>, p: nat) -> bool
    decreases ls,
{
    ls.len() > 0 ==> all_lowerable(ls.drop_last(), p) && lowerable(ls.last(), p)
}

proof fn lemma_all_lowerable_index(ls: Seq<Layout>, i: int, p: nat)
    requires
        all_lowerable(ls, p),
        0 <= i < ls.len(),
    ensures
        lowerable(ls[i], p),
    decreases ls.len(),
{
    if i < ls.len() - 1 {
        lemma_all_lowerable_index(ls.drop_last(), i, p);
    }
}

/// A pointer to `bt` in the given address space.
pub fn get_ptr_type(bt: BasicType, address_space: AddressSpace) -> (r: BasicType)
    ensures
        r matches BasicType::Pointer { pointee, address_space: a } && *pointee == AnyType::Basic(bt)
            && a == address_space,
{
    BasicType::Pointer { pointee: Box::new(AnyType::Basic(bt)), address_space }
}

/// The non-variadic function type from `arg_types` to `bt`.
pub fn get_fn_type(bt: BasicType, arg_types: Vec<BasicType>) -> (r: FunctionType)
    ensures
        *r.ret == bt,
        r.params == arg_types,
        !r.variadic,
{
    FunctionType { ret: Box::new(bt), params: arg_types, variadic: false }
}

/// The array of `size` elements of type `bt`.
pub fn get_array_type(bt: BasicType, size: u32) -> (r: BasicType)
    ensures
        r matches BasicType::Array { elem, len } && *elem == bt && len == size,
{
    BasicType::Array { elem: Box::new(bt), len: size }
}

/// The all-zero constant of type `bt`.
pub fn as_const_zero(bt: BasicType) -> (r: BasicValue)
    ensures
        r == BasicValue::Zero(bt),
{
    BasicValue::Zero(bt)
}

/// The unsigned integer type as wide as a pointer of `ptr_bytes` bytes.
pub fn ptr_int(ptr_bytes: u32) -> (r: BasicType)
    requires
        valid_ptr_bytes(ptr_bytes),
    ensures
        r == (BasicType::Int { bits: (8 * ptr_bytes) as u32 }),
{
    match ptr_bytes {
        1 => BasicType::Int { bits: 8 },
        2 => BasicType::Int { bits: 16 },
        4 => BasicType::Int { bits: 32 },
        _ => BasicType::Int { bits: 64 },
    }
}

/// The declared struct that dictionaries and sets are stored in.
pub fn zig_dict_type() -> (r: BasicType)
    ensures
        r == (BasicType::Opaque { name: OpaqueStruct::RocDict }),
{
    BasicType::Opaque { name: OpaqueStruct::RocDict }
}

/// The declared struct that lists are stored in.
pub fn zig_list_type() -> (r: BasicType)
    ensures
        r == (BasicType::Opaque { name: OpaqueStruct::RocList }),
{
    BasicType::Opaque { name: OpaqueStruct::RocList }
}

/// The declared struct that strings are stored in.
pub fn zig_str_type() -> (r: BasicType)
    ensures
        r == (BasicType::Opaque { name: OpaqueStruct::RocStr }),
{
    BasicType::Opaque { name: OpaqueStruct::RocStr }
}

/// The type of a builtin.
pub fn basic_type_from_builtin(env: &Env, builtin: &Builtin) -> (r: BasicType)
    requires
        valid_ptr_bytes(env.ptr_bytes),
    ensures
        r == builtin_type(*builtin, env.ptr_bytes as nat),
{
    match builtin {
        Builtin::Int128 => BasicType::Int { bits: 128 },
        Builtin::Int64 => BasicType::Int { bits: 64 },
        Builtin::Int32 => BasicType::Int { bits: 32 },
        Builtin::Int16 => BasicType::Int { bits: 16 },
        Builtin::Int8 => BasicType::Int { bits: 8 },
        Builtin::Int1 => BasicType::Int { bits: 1 },
        Builtin::Usize => ptr_int(env.ptr_bytes),
        Builtin::Float128 => BasicType::Float { bits: 128 },
        Builtin::Float64 => BasicType::Float { bits: 64 },
        Builtin::Float32 => BasicType::Float { bits: 32 },
        Builtin::Float16 => BasicType::Float { bits: 16 },
        Builtin::Dict(_, _) | Builtin::EmptyDict => zig_dict_type(),
        Builtin::SetOf(_) | Builtin::EmptySet => zig_dict_type(),
        Builtin::List(_) | Builtin::EmptyList => zig_list_type(),
        Builtin::Str | Builtin::EmptyStr => zig_str_type(),
    }
}

/// The byte block of `union_size` bytes: as many 64-bit words as fit, then the
/// remaining bytes, so that the block is exactly that size.
fn block_of_memory_help(union_size: u32) -> (r: BasicType)
    ensures
        is_block(r, union_size as nat),
{
    let num_i64 = union_size / 8;
    let num_i8 = union_size % 8;
    let i64_array_type = get_array_type(BasicType::Int { bits: 64 }, num_i64);
    let mut fields: Vec<BasicType> = Vec::new();
    fields.push(i64_array_type);
    if num_i8 != 0 {
        let i8_array_type = get_array_type(BasicType::Int { bits: 8 }, num_i8);
        fields.push(i8_array_type);
    }
    proof {
        assert(fields@ =~= block_fields(union_size as nat));
    }
    BasicType::Struct { fields, packed: false }
}

/// The byte block that holds the largest of the tags.
pub fn block_of_memory_slices(layouts: &Vec<Vec<Layout>>, ptr_bytes: u32) -> (r: BasicType)
    requires
        tags_size(layouts@, ptr_bytes as nat) <= u32::MAX,
    ensures
        is_block(r, tags_size(layouts@, ptr_bytes as nat)),
{
    let union_size = tags_stack_size(layouts, ptr_bytes);
    block_of_memory_help(union_size)
}

/// The byte block that holds a value of `layout`.
pub fn block_of_memory(layout: &Layout, ptr_bytes: u32) -> (r: BasicType)
    requires
        layout_size(*layout, ptr_bytes as nat) <= u32::MAX,
    ensures
        is_block(r, layout_size(*layout, ptr_bytes as nat)),
{
    let union_size = layout.stack_size(ptr_bytes);
    block_of_memory_help(union_size)
}

/// Lowers each layout, in order.
fn basic_types_from_layouts(env: &Env, layouts: &Vec<Layout>) -> (r: Vec<BasicType>)
    requires
        valid_ptr_bytes(env.ptr_bytes),
        all_lowerable(layouts@, env.ptr_bytes as nat),
    ensures
        lowers_all(layouts@, r@, env.ptr_bytes as nat),
    decreases layouts, 1int,
{
    let ghost p = env.ptr_bytes as nat;
    let mut types: Vec<BasicType> = Vec::new();
    let mut i: usize = 0;
    proof {
        assert(layouts@.subrange(0, 0) =~= Seq::<Layout>::empty());
    }
    while i < layouts.len()
        invariant
            0 <= i <= layouts@.len(),
            lowers_all(layouts@.subrange(0, i as int), types@, p),
            all_lowerable(layouts@, p),
            valid_ptr_bytes(env.ptr_bytes),
            p == env.ptr_bytes as nat,
        decreases layouts@.len() - i,
    {
        proof {
            lemma_all_lowerable_index(layouts@, i as int, p);
            assert(decreases_to!(layouts => layouts[i as int]));
        }
        let t = basic_type_from_layout(env, &layouts[i]);
        let ghost before = types@;
        types.push(t);
        proof {
            let sub = layouts@.subrange(0, i + 1);
            assert(sub.drop_last() =~= layouts@.subrange(0, i as int));
            assert(types@.drop_last() =~= before);
        }
        i = i + 1;
    }
    proof {
        assert(layouts@.subrange(0, i as int) =~= layouts@);
    }
    types
}

/// A pointer to the function from `args` (and the closure data, if any) to `ret_layout`.
fn basic_type_from_function_layout(
    env: &Env,
    args: &Vec<Layout>,
    closure_type: Option<BasicType>,
    ret_layout: &Layout,
    Ghost(whole): Ghost<Layout>,
) -> (r: BasicType)
    requires
        valid_ptr_bytes(env.ptr_bytes),
        all_lowerable(args@, env.ptr_bytes as nat),
        lowerable(*ret_layout, env.ptr_bytes as nat),
        decreases_to!(whole => *args),
        decreases_to!(whole => *ret_layout),
    ensures
        match fn_pointer_parts(r) {
            Some((rt, params)) => {
                &&& lowers_to(*ret_layout, rt, env.ptr_bytes as nat)
                &&& match closure_type {
                    None => lowers_all(args@, params, env.ptr_bytes as nat),
                    Some(c) => {
                        &&& params.len() == args@.len() + 1
                        &&& lowers_all(args@, params.drop_last(), env.ptr_bytes as nat)
                        &&& params.last() == c
                    },
                }
            },
            None => false,
        },
    decreases whole, 0int,
{
    let ret_type = basic_type_from_layout(env, ret_layout);
    let mut arg_basic_types = basic_types_from_layouts(env, args);
    let ghost lowered_args = arg_basic_types@;
    match closure_type {
        Some(closure) => {
            arg_basic_types.push(closure);
            proof {
                assert(arg_basic_types@.drop_last() =~= lowered_args);
            }
        },
        None => {},
    }
    let fn_type = get_fn_type(ret_type, arg_basic_types);
    BasicType::Pointer { pointee: Box::new(AnyType::Function(fn_type)), address_space: AddressSpace::Generic }
}

/// An unpacked struct of the fields' types, in order.
fn basic_type_from_record(env: &Env, fields: &Vec<Layout>) -> (r: BasicType)
    requires
        valid_ptr_bytes(env.ptr_bytes),
        all_lowerable(fields@, env.ptr_bytes as nat),
    ensures
        r matches BasicType::Struct { fields: ts, packed } && !packed
            && lowers_all(fields@, ts@, env.ptr_bytes as nat),
    decreases fields, 2int,
{
    let field_types = basic_types_from_layouts(env, fields);
    BasicType::Struct { fields: field_types, packed: false }
}

/// The target type of a layout.
pub fn basic_type_from_layout(env: &Env, layout: &Layout) -> (r: BasicType)
    requires
        valid_ptr_bytes(env.ptr_bytes),
        lowerable(*layout, env.ptr_bytes as nat),
    ensures
        lowers_to(*layout, r, env.ptr_bytes as nat),
    decreases layout, 1int,
{
    let ghost p = env.ptr_bytes as nat;
    match layout {
        Layout::FunctionPointer(args, ret_layout) => {
            basic_type_from_function_layout(env, args, None, ret_layout, Ghost(*layout))
        },
        Layout::Closure(args, closure_layout, ret_layout) => {
            let closure_data = basic_type_from_layout(env, closure_layout);
            let function_pointer = basic_type_from_function_layout(
                env,
                args,
                Some(closure_data),
                ret_layout,
                Ghost(*layout),
            );
            // The closure data type stands in two places; lowering is deterministic,
            // so the second copy is lowered afresh.
            let closure_data_field = basic_type_from_layout(env, closure_layout);
            let mut fields: Vec<BasicType> = Vec::new();
            fields.push(function_pointer);
            fields.push(closure_data_field);
            BasicType::Struct { fields, packed: false }
        },
        Layout::Pointer(inner) => {
            let inner_type = basic_type_from_layout(env, inner);
            get_ptr_type(inner_type, AddressSpace::Generic)
        },
        Layout::PhantomEmptyStruct => BasicType::Struct { fields: Vec::new(), packed: false },
        Layout::Struct(sorted_fields) => basic_type_from_record(env, sorted_fields),
        Layout::Union(variant) => match variant {
            UnionLayout::Recursive(tags) => {
                let block = block_of_memory_slices(tags, env.ptr_bytes);
                get_ptr_type(block, AddressSpace::Generic)
            },
            UnionLayout::NullableWrapped { other_tags, .. } => {
                let block = block_of_memory_slices(other_tags, env.ptr_bytes);
                get_ptr_type(block, AddressSpace::Generic)
            },
            UnionLayout::NullableUnwrapped { other_fields, .. } => {
                let size = fields_stack_size(other_fields, 1, env.ptr_bytes);
                let block = block_of_memory_help(size);
                get_ptr_type(block, AddressSpace::Generic)
            },
            UnionLayout::NonNullableUnwrapped(fields) => {
                proof {
                    assert(fields@.subrange(0, fields@.len() as int) =~= fields@);
                }
                let size = fields_stack_size(fields, 0, env.ptr_bytes);
                let block = block_of_memory_help(size);
                get_ptr_type(block, AddressSpace::Generic)
            },
            UnionLayout::NonRecursive(_) => block_of_memory(layout, env.ptr_bytes),
        },
        Layout::RecursivePointer => get_ptr_type(BasicType::Int { bits: 64 }, AddressSpace::Generic),
        Layout::Builtin(builtin) => basic_type_from_builtin(env, builtin),
    }
}

/// Bytes taken by a value of type `t`, with the fields of a struct laid end to end.
pub open spec fn type_size(t: BasicType, p: nat) -> nat
    decreases t,
{
    match t {
        BasicType::Int { bits } => ((bits + 7) / 8) as nat,
        BasicType::Float { bits } => (bits / 8) as nat,
        BasicType::Pointer { .. } => p,
        BasicType::Struct { fields, .. } => types_size(fields@, p),
        BasicType::Array { elem, len } => (len * type_size(*elem, p)) as nat,
        BasicType::Vector { elem, len } => (len * type_size(*elem, p)) as nat,
        BasicType::Opaque { name } => match name {
            OpaqueStruct::RocDict => 3 * p,
            _ => 2 * p,
        },
    }
}

/// The sum of the sizes of the types.
pub open spec fn types_size(ts: Seq<BasicType>, p: nat) -> nat
    decreases ts,
{
    if ts.len() == 0 {
        0
    } else {
        types_size(ts.drop_last(), p) + type_size(ts.last(), p)
    }
}

proof fn lemma_block_size(size: nat, p: nat)
    requires
        size <= u32::MAX,
    ensures
        types_size(block_fields(size), p) == size,
{
    reveal_with_fuel(type_size, 3);
    reveal_with_fuel(types_size, 3);
    let fs = block_fields(size);
    let words = fs[0];
    assert(type_size(BasicType::Int { bits: 64 }, p) == 8);
    assert(type_size(BasicType::Int { bits: 8 }, p) == 1);
    assert(type_size(words, p) == (size / 8) * 8);
    if size % 8 == 0 {
        assert(fs.drop_last() =~= Seq::<BasicType>::empty());
    } else {
        let bytes = BasicType::Array { elem: Box::new(BasicType::Int { bits: 8 }), len: (size % 8) as u32 };
        assert(fs.last() == bytes);
        let n = (size % 8) as u32;
        assert(n == size % 8);
        assert(type_size(bytes, p) == (n * type_size(BasicType::Int { bits: 8 }, p)) as nat);
        assert(type_size(bytes, p) == size % 8);
        assert(fs.drop_last() =~= seq![words]);
        assert(seq![words].drop_last() =~= Seq::<BasicType>::empty());
        assert(types_size(seq![words], p) == type_size(words, p));
    }
}

/// A union stored inline lowers to a byte block whose size is exactly that of
/// its largest tag: the word and byte arrays add no padding.
pub proof fn lemma_inline_union_size(tags: Vec<Vec<Layout>>, t: BasicType, p: nat)
    requires
        lowerable(Layout::Union(UnionLayout::NonRecursive(tags)), p),
        lowers_to(Layout::Union(UnionLayout::NonRecursive(tags)), t, p),
    ensures
        type_size(t, p) == tags_size(tags@, p),
{
    lemma_block_size(tags_size(tags@, p), p);
}

/// Every recursive shape of union lowers to a pointer, as wide as the target's pointers.
pub proof fn lemma_recursive_union_is_pointer(u: UnionLayout, t: BasicType, p: nat)
    requires
        !(u is NonRecursive),
        lowers_to(Layout::Union(u), t, p),
    ensures
        t is Pointer,
        type_size(t, p) == p,
{
}

/// A closure lowers to a two-field struct: a pointer to a function whose last
/// parameter is the lowered closure data, then the closure data itself.
pub proof fn lemma_closure_shape(args: Vec<Layout>, data: Box<Layout>, ret: Box<Layout>, t: BasicType, p: nat)
    requires
        lowers_to(Layout::Closure(args, data, ret), t, p),
    ensures
        t matches BasicType::Struct { fields, packed } && !packed && fields@.len() == 2 && (
        fn_pointer_parts(fields@[0]) matches Some((_, params)) && params.len() == args@.len() + 1
            && lowers_to(*data, params.last(), p)) && lowers_to(*data, fields@[1], p),
{
}

/// Whether `basic_type_from_layout` accepts `layout` on a target with pointers
/// of `ptr_bytes` bytes.
pub fn is_lowerable(layout: &Layout, ptr_bytes: u32) -> (r: bool)
    ensures
        r == lowerable(*layout, ptr_bytes as nat),
    decreases layout, 1int,
{
    match layout {
        Layout::FunctionPointer(args, ret) => all_are_lowerable(args, ptr_bytes) && is_lowerable(ret, ptr_bytes),
        Layout::Closure(args, data, ret) => all_are_lowerable(args, ptr_bytes) && is_lowerable(data, ptr_bytes)
            && is_lowerable(ret, ptr_bytes),
        Layout::Pointer(inner) => is_lowerable(inner, ptr_bytes),
        Layout::Struct(fields) => all_are_lowerable(fields, ptr_bytes),
        Layout::Union(u) => match u {
            UnionLayout::NonRecursive(tags) => checked_tags_size(tags, ptr_bytes).is_some(),
            UnionLayout::Recursive(tags) => checked_tags_size(tags, ptr_bytes).is_some(),
            UnionLayout::NullableWrapped { other_tags, .. } => checked_tags_size(other_tags, ptr_bytes).is_some(),
            UnionLayout::NullableUnwrapped { other_fields, .. } => other_fields.len() >= 1
                && checked_fields_size(other_fields, 1, ptr_bytes).is_some(),
            UnionLayout::NonNullableUnwrapped(fields) => {
                proof {
                    assert(fields@.subrange(0, fields@.len() as int) =~= fields@);
                }
                checked_fields_size(fields, 0, ptr_bytes).is_some()
            },
        },
        _ => true,
    }
}

/// Whether every one of `layouts` is accepted by `basic_type_from_layout`.
pub fn all_are_lowerable(layouts: &Vec<Layout>, ptr_bytes: u32) -> (r: bool)
    ensures
        r == all_lowerable(layouts@, ptr_bytes as nat),
    decreases layouts, 2int,
{
    let ghost p = ptr_bytes as nat;
    let mut ok = true;
    let mut i: usize = 0;
    proof {
        assert(layouts@.subrange(0, 0) =~= Seq::<Layout>::empty());
    }
    while i < layouts.len()
        invariant
            0 <= i <= layouts@.len(),
            ok == all_lowerable(layouts@.subrange(0, i as int), p),
            p == ptr_bytes as nat,
        decreases layouts@.len() - i,
    {
        proof {
            let sub = layouts@.subrange(0, i + 1);
            assert(sub.drop_last() =~= layouts@.subrange(0, i as int));
            assert(sub.last() == layouts@[i as int]);
            assert(decreases_to!(layouts => layouts[i as int]));
        }
        ok = ok && is_lowerable(&layouts[i], ptr_bytes);
        i = i + 1;
    }
    proof {
        assert(layouts@.subrange(0, i as int) =~= layouts@);
    }
    ok
}

} // verus!
