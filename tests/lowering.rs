use roc_codegen::convert::{
    as_const_zero, basic_type_from_builtin, basic_type_from_layout, block_of_memory,
    block_of_memory_slices, get_array_type, is_lowerable, get_fn_type, get_ptr_type, ptr_int, zig_dict_type,
    zig_list_type, zig_str_type, AddressSpace, AnyType, BasicType, BasicValue, Env, OpaqueStruct,
};
use roc_codegen::layout::{checked_stack_size, Builtin, Layout, UnionLayout};

fn env8() -> Env {
    Env { ptr_bytes: 8 }
}

fn int_type(bits: u32) -> BasicType {
    BasicType::Int { bits }
}

fn block_sizes(t: &BasicType) -> Vec<(u32, u32)> {
    match t {
        BasicType::Struct { fields, packed } => {
            assert!(!packed);
            fields
                .iter()
                .map(|f| match f {
                    BasicType::Array { elem, len } => match **elem {
                        BasicType::Int { bits } => (bits, *len),
                        _ => panic!("not an integer array"),
                    },
                    _ => panic!("not an array"),
                })
                .collect()
        }
        _ => panic!("not a struct"),
    }
}

fn pointee(t: &BasicType) -> &BasicType {
    match t {
        BasicType::Pointer { pointee, address_space } => {
            assert_eq!(*address_space, AddressSpace::Generic);
            match &**pointee {
                AnyType::Basic(b) => b,
                AnyType::Function(_) => panic!("function pointer"),
            }
        }
        _ => panic!("not a pointer"),
    }
}

fn tag(fields: Vec<Layout>) -> Vec<Layout> {
    fields
}

#[test]
fn builtins_lower_to_scalars_and_containers() {
    let env = env8();
    assert!(matches!(basic_type_from_builtin(&env, &Builtin::Int1), BasicType::Int { bits: 1 }));
    assert!(matches!(basic_type_from_builtin(&env, &Builtin::Int128), BasicType::Int { bits: 128 }));
    assert!(matches!(basic_type_from_builtin(&env, &Builtin::Float32), BasicType::Float { bits: 32 }));
    assert!(matches!(basic_type_from_builtin(&env, &Builtin::Usize), BasicType::Int { bits: 64 }));
    let env4 = Env { ptr_bytes: 4 };
    assert!(matches!(basic_type_from_builtin(&env4, &Builtin::Usize), BasicType::Int { bits: 32 }));
    assert!(matches!(
        basic_type_from_builtin(&env, &Builtin::EmptySet),
        BasicType::Opaque { name: OpaqueStruct::RocDict }
    ));
    assert!(matches!(
        basic_type_from_builtin(&env, &Builtin::List(Box::new(Layout::Builtin(Builtin::Int8)))),
        BasicType::Opaque { name: OpaqueStruct::RocList }
    ));
    assert!(matches!(
        basic_type_from_builtin(&env, &Builtin::Str),
        BasicType::Opaque { name: OpaqueStruct::RocStr }
    ));
}

#[test]
fn container_names() {
    assert!(matches!(zig_dict_type(), BasicType::Opaque { name: OpaqueStruct::RocDict }));
    assert!(matches!(zig_list_type(), BasicType::Opaque { name: OpaqueStruct::RocList }));
    assert!(matches!(zig_str_type(), BasicType::Opaque { name: OpaqueStruct::RocStr }));
    assert_eq!(OpaqueStruct::RocStr.name(), "str.RocStr");
    assert_eq!(OpaqueStruct::RocList.name(), "list.RocList");
    assert_eq!(OpaqueStruct::RocDict.name(), "dict.RocDict");
}

#[test]
fn ptr_int_widths() {
    assert!(matches!(ptr_int(1), BasicType::Int { bits: 8 }));
    assert!(matches!(ptr_int(2), BasicType::Int { bits: 16 }));
    assert!(matches!(ptr_int(4), BasicType::Int { bits: 32 }));
    assert!(matches!(ptr_int(8), BasicType::Int { bits: 64 }));
}

#[test]
fn stack_sizes() {
    let s = Layout::Struct(vec![
        Layout::Builtin(Builtin::Int64),
        Layout::Builtin(Builtin::Int8),
        Layout::Builtin(Builtin::Str),
    ]);
    assert_eq!(s.stack_size(8), 8 + 1 + 16);
    assert_eq!(Layout::RecursivePointer.stack_size(4), 4);
    assert_eq!(Layout::PhantomEmptyStruct.stack_size(8), 0);
    assert_eq!(Builtin::EmptyDict.stack_size(8), 24);
}

#[test]
fn inline_union_is_exact_byte_block() {
    let u = Layout::Union(UnionLayout::NonRecursive(vec![
        tag(vec![Layout::Builtin(Builtin::Int64), Layout::Builtin(Builtin::Int8), Layout::Builtin(Builtin::Int16)]),
        tag(vec![Layout::Builtin(Builtin::Int32)]),
    ]));
    let t = basic_type_from_layout(&env8(), &u);
    assert_eq!(block_sizes(&t), vec![(64, 1), (8, 3)]);
    let total: u32 = block_sizes(&t).iter().map(|(bits, n)| bits / 8 * n).sum();
    assert_eq!(total, 11);
}

#[test]
fn block_of_memory_whole_words() {
    let tags = vec![
        tag(vec![Layout::Builtin(Builtin::Int128)]),
        tag(vec![Layout::Builtin(Builtin::Int64)]),
    ];
    assert_eq!(block_sizes(&block_of_memory_slices(&tags, 8)), vec![(64, 2)]);
    let empty: Vec<Vec<Layout>> = vec![];
    assert_eq!(block_sizes(&block_of_memory_slices(&empty, 8)), vec![(64, 0)]);
    let l = Layout::Union(UnionLayout::NonRecursive(vec![tag(vec![Layout::Builtin(Builtin::Int8)])]));
    assert_eq!(block_sizes(&block_of_memory(&l, 8)), vec![(64, 0), (8, 1)]);
}

#[test]
fn recursive_unions_lower_to_pointers() {
    let env = env8();
    let rec = Layout::Union(UnionLayout::Recursive(vec![
        tag(vec![Layout::Builtin(Builtin::Int64), Layout::RecursivePointer]),
        tag(vec![Layout::Builtin(Builtin::Int64)]),
    ]));
    let t = basic_type_from_layout(&env, &rec);
    assert_eq!(block_sizes(pointee(&t)), vec![(64, 2)]);

    let wrapped = Layout::Union(UnionLayout::NullableWrapped {
        nullable_id: 0,
        other_tags: vec![tag(vec![Layout::Builtin(Builtin::Int32)])],
    });
    let t = basic_type_from_layout(&env, &wrapped);
    assert_eq!(block_sizes(pointee(&t)), vec![(64, 0), (8, 4)]);

    let unwrapped = Layout::Union(UnionLayout::NullableUnwrapped {
        nullable_id: true,
        other_fields: vec![
            Layout::Builtin(Builtin::Int64),
            Layout::Builtin(Builtin::Int16),
            Layout::RecursivePointer,
        ],
    });
    let t = basic_type_from_layout(&env, &unwrapped);
    assert_eq!(block_sizes(pointee(&t)), vec![(64, 1), (8, 2)]);

    let single = Layout::Union(UnionLayout::NonNullableUnwrapped(vec![
        Layout::Builtin(Builtin::Int8),
        Layout::RecursivePointer,
    ]));
    let t = basic_type_from_layout(&env, &single);
    assert_eq!(block_sizes(pointee(&t)), vec![(64, 1), (8, 1)]);
}

#[test]
fn recursive_pointer_is_pointer_to_i64() {
    let t = basic_type_from_layout(&env8(), &Layout::RecursivePointer);
    assert!(matches!(pointee(&t), BasicType::Int { bits: 64 }));
}

#[test]
fn pointer_struct_and_phantom() {
    let env = env8();
    let p = Layout::Pointer(Box::new(Layout::Builtin(Builtin::Float64)));
    let t = basic_type_from_layout(&env, &p);
    assert!(matches!(pointee(&t), BasicType::Float { bits: 64 }));

    let t = basic_type_from_layout(&env, &Layout::PhantomEmptyStruct);
    assert!(matches!(t, BasicType::Struct { ref fields, packed: false } if fields.is_empty()));

    let s = Layout::Struct(vec![Layout::Builtin(Builtin::Int32), Layout::Builtin(Builtin::Str)]);
    match basic_type_from_layout(&env, &s) {
        BasicType::Struct { fields, packed } => {
            assert!(!packed);
            assert_eq!(fields.len(), 2);
            assert!(matches!(fields[0], BasicType::Int { bits: 32 }));
            assert!(matches!(fields[1], BasicType::Opaque { name: OpaqueStruct::RocStr }));
        }
        _ => panic!("not a struct"),
    }
}

#[test]
fn function_pointer_lowering() {
    let f = Layout::FunctionPointer(
        vec![Layout::Builtin(Builtin::Int64), Layout::Builtin(Builtin::Float32)],
        Box::new(Layout::Builtin(Builtin::Int1)),
    );
    match basic_type_from_layout(&env8(), &f) {
        BasicType::Pointer { pointee, address_space } => {
            assert_eq!(address_space, AddressSpace::Generic);
            match *pointee {
                AnyType::Function(ft) => {
                    assert!(!ft.variadic);
                    assert!(matches!(*ft.ret, BasicType::Int { bits: 1 }));
                    assert_eq!(ft.params.len(), 2);
                    assert!(matches!(ft.params[1], BasicType::Float { bits: 32 }));
                }
                _ => panic!("not a function"),
            }
        }
        _ => panic!("not a pointer"),
    }
}

#[test]
fn closure_is_function_pointer_and_data() {
    let data = Layout::Struct(vec![Layout::Builtin(Builtin::Int16)]);
    let c = Layout::Closure(
        vec![Layout::Builtin(Builtin::Int8)],
        Box::new(data),
        Box::new(Layout::Builtin(Builtin::Int64)),
    );
    match basic_type_from_layout(&env8(), &c) {
        BasicType::Struct { fields, packed } => {
            assert!(!packed);
            assert_eq!(fields.len(), 2);
            match &fields[0] {
                BasicType::Pointer { pointee, .. } => match &**pointee {
                    AnyType::Function(ft) => {
                        assert_eq!(ft.params.len(), 2);
                        assert!(matches!(ft.params[0], BasicType::Int { bits: 8 }));
                        match &ft.params[1] {
                            BasicType::Struct { fields, .. } => {
                                assert!(matches!(fields[..], [BasicType::Int { bits: 16 }]))
                            }
                            _ => panic!("closure data is not a struct"),
                        }
                    }
                    _ => panic!("not a function"),
                },
                _ => panic!("not a pointer"),
            }
            match &fields[1] {
                BasicType::Struct { fields, .. } => {
                    assert!(matches!(fields[..], [BasicType::Int { bits: 16 }]))
                }
                _ => panic!("closure data is not a struct"),
            }
        }
        _ => panic!("not a struct"),
    }
}

#[test]
fn type_constructors() {
    let p = get_ptr_type(int_type(8), AddressSpace::Global);
    assert!(matches!(p, BasicType::Pointer { address_space: AddressSpace::Global, .. }));
    let a = get_array_type(int_type(16), 5);
    assert!(matches!(a, BasicType::Array { len: 5, .. }));
    let f = get_fn_type(int_type(32), vec![int_type(8), int_type(8)]);
    assert_eq!(f.params.len(), 2);
    assert!(!f.variadic);
    let z = as_const_zero(int_type(64));
    assert!(matches!(z, BasicValue::Zero(BasicType::Int { bits: 64 })));
}

#[test]
fn lowerable_layouts() {
    let ok = Layout::Struct(vec![
        Layout::Builtin(Builtin::Int64),
        Layout::Union(UnionLayout::Recursive(vec![vec![Layout::Builtin(Builtin::Str)]])),
    ]);
    assert!(is_lowerable(&ok, 8));

    let no_slot = Layout::Union(UnionLayout::NullableUnwrapped {
        nullable_id: false,
        other_fields: vec![],
    });
    assert!(!is_lowerable(&no_slot, 8));

    let huge = Layout::Union(UnionLayout::NonRecursive(vec![vec![
        Layout::Builtin(Builtin::Usize),
        Layout::Builtin(Builtin::Usize),
    ]]));
    assert!(!is_lowerable(&huge, 0x8000_0000));
    assert!(is_lowerable(&huge, 0x7FFF_FFFF));
    let nested = Layout::Pointer(Box::new(huge));
    assert!(!is_lowerable(&nested, 0x8000_0000));
}

#[test]
fn checked_sizes() {
    assert_eq!(checked_stack_size(&Layout::Builtin(Builtin::Str), 8), Some(16));
    assert_eq!(checked_stack_size(&Layout::Builtin(Builtin::Str), u32::MAX), None);
    let closure = Layout::Closure(
        vec![],
        Box::new(Layout::Builtin(Builtin::Int32)),
        Box::new(Layout::Builtin(Builtin::Int8)),
    );
    assert_eq!(checked_stack_size(&closure, 8), Some(12));
    assert_eq!(closure.stack_size(8), 12);
}
