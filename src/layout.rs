use vstd::prelude::*;

verus! {

broadcast use vstd::std_specs::vec::group_vec_axioms;

/// Primitive and container layouts.
pub enum Builtin {
    Int128,
    Int64,
    Int32,
    Int16,
    Int8,
    Int1,
    Usize,
    Float128,
    Float64,
    Float32,
    Float16,
    Str,
    Dict(Box<Layout>, Box<Layout>),
    SetOf(Box<Layout>),
    List(Box<Layout>),
    EmptyStr,
    EmptyList,
    EmptyDict,
    EmptySet,
}

/// The in-memory shape of a value.
pub enum Layout {
    Builtin(Builtin),
    Struct(Vec<Layout>),
    Union(UnionLayout),
    /// A back-edge in a recursive type; always stored behind a pointer.
    RecursivePointer,
    FunctionPointer(Vec<Layout>, Box<Layout>),
    Closure(Vec<Layout>, Box<Layout>, Box<Layout>),
    Pointer(Box<Layout>),
    PhantomEmptyStruct,
}

/// The shapes of a tagged union. Each tag is the list of its fields' layouts.
#[allow(inconsistent_fields)]
pub enum UnionLayout {
    /// A union that does not refer to itself; stored inline.
    NonRecursive(Vec<Vec<Layout>>),
    /// A recursive union; stored behind a pointer.
    Recursive(Vec<Vec<Layout>>),
    /// A recursive union with a single tag.
    NonNullableUnwrapped(Vec<Layout>),
    /// A recursive union where one tag without payload is the null pointer.
    NullableWrapped { nullable_id: i64, other_tags: Vec<Vec<Layout>> },
    /// A recursive union of a null tag and one other tag.
    NullableUnwrapped { nullable_id: bool, other_fields: Vec<Layout> },
}

/// Bytes taken by a builtin for a target with pointers of `p` bytes.
pub open spec fn builtin_size(b: Builtin, p: nat) -> nat {
    match b {
        Builtin::Int128 => 16,
        Builtin::Int64 => 8,
        Builtin::Int32 => 4,
        Builtin::Int16 => 2,
        Builtin::Int8 => 1,
        Builtin::Int1 => 1,
        Builtin::Usize => p,
        Builtin::Float128 => 16,
        Builtin::Float64 => 8,
        Builtin::Float32 => 4,
        Builtin::Float16 => 2,
        Builtin::Str | Builtin::EmptyStr => 2 * p,
        Builtin::List(_) | Builtin::EmptyList => 2 * p,
        Builtin::Dict(_, _) | Builtin::EmptyDict => 3 * p,
        Builtin::SetOf(_) | Builtin::EmptySet => 3 * p,
    }
}

/// Bytes taken by a value of layout `l` on the stack.
pub open spec fn layout_size(l: Layout, p: nat) -> nat
    decreases l,
{
    match l {
        Layout::Builtin(b) => builtin_size(b, p),
        Layout::Struct(fields) => fields_size(fields@, p),
        Layout::Union(u) => match u {
            UnionLayout::NonRecursive(tags) => tags_size(tags@, p),
            _ => p,
        },
        Layout::Closure(_, data, _) => p + layout_size(*data, p),
        Layout::PhantomEmptyStruct => 0,
        _ => p,
    }
}

/// The sum of the sizes of the fields.
pub open spec fn fields_size(fields: Seq<Layout>, p: nat) -> nat
    decreases fields,
{
    if fields.len() == 0 {
        0
    } else {
        fields_size(fields.drop_last(), p) + layout_size(fields.last(), p)
    }
}

/// The largest of the tags' sizes, or 0 without tags.
pub open spec fn tags_size(tags: Seq<Vec<Layout>>, p: nat) -> nat
    decreases tags,
{
    if tags.len() == 0 {
        0
    } else {
        let rest = tags_size(tags.drop_last(), p);
        let last = fields_size(tags.last()@, p);
        if rest >= last {
            rest
        } else {
            last
        }
    }
}

proof fn lemma_fields_size_prefix(s: Seq<Layout>, i: int, p: nat)
    requires
        0 <= i <= s.len(),
    ensures
        fields_size(s.subrange(0, i), p) <= fields_size(s, p),
    decreases s.len() - i,
{
    if i < s.len() {
        lemma_fields_size_prefix(s, i + 1, p);
        assert(s.subrange(0, i + 1).drop_last() =~= s.subrange(0, i));
    } else {
        assert(s.subrange(0, i) =~= s);
    }
}

proof fn lemma_tags_size_prefix(s: Seq<Vec<Layout>>, i: int, p: nat)
    requires
        0 <= i <= s.len(),
    ensures
        tags_size(s.subrange(0, i), p) <= tags_size(s, p),
    decreases s.len() - i,
{
    if i < s.len() {
        lemma_tags_size_prefix(s, i + 1, p);
        assert(s.subrange(0, i + 1).drop_last() =~= s.subrange(0, i));
    } else {
        assert(s.subrange(0, i) =~= s);
    }
}

impl Builtin {
    /// Bytes taken by a value of this builtin.
    pub fn stack_size(&self, pointer_size: u32) -> (r: u32)
        requires
            builtin_size(*self, pointer_size as nat) <= u32::MAX,
        ensures
            r == builtin_size(*self, pointer_size as nat),
    {
        match self {
            Builtin::Int128 => 16,
            Builtin::Int64 => 8,
            Builtin::Int32 => 4,
            Builtin::Int16 => 2,
            Builtin::Int8 => 1,
            Builtin::Int1 => 1,
            Builtin::Usize => pointer_size,
            Builtin::Float128 => 16,
            Builtin::Float64 => 8,
            Builtin::Float32 => 4,
            Builtin::Float16 => 2,
            Builtin::Str | Builtin::EmptyStr => 2 * pointer_size,
            Builtin::List(_) | Builtin::EmptyList => 2 * pointer_size,
            Builtin::Dict(_, _) | Builtin::EmptyDict => 3 * pointer_size,
            Builtin::SetOf(_) | Builtin::EmptySet => 3 * pointer_size,
        }
    }
}

impl Layout {
    /// Bytes taken by a value of this layout on the stack.
    pub fn stack_size(&self, pointer_size: u32) -> (r: u32)
        requires
            layout_size(*self, pointer_size as nat) <= u32::MAX,
        ensures
            r == layout_size(*self, pointer_size as nat),
        decreases self,
    {
        match self {
            Layout::Builtin(b) => b.stack_size(pointer_size),
            Layout::Struct(fields) => {
                proof {
                    assert(fields@.subrange(0, fields@.len() as int) =~= fields@);
                }
                fields_stack_size(fields, 0, pointer_size)
            },
            Layout::Union(u) => match u {
                UnionLayout::NonRecursive(tags) => tags_stack_size(tags, pointer_size),
                _ => pointer_size,
            },
            Layout::Closure(_, data, _) => pointer_size + data.stack_size(pointer_size),
            Layout::PhantomEmptyStruct => 0,
            _ => pointer_size,
        }
    }
}

/// The sum of the sizes of the fields from index `from` on.
pub fn fields_stack_size(fields: &Vec<Layout>, from: usize, pointer_size: u32) -> (r: u32)
    requires
        from <= fields@.len(),
        fields_size(fields@.subrange(from as int, fields@.len() as int), pointer_size as nat) <= u32::MAX,
    ensures
        r == fields_size(fields@.subrange(from as int, fields@.len() as int), pointer_size as nat),
    decreases fields,
{
    let ghost p = pointer_size as nat;
    let ghost s = fields@.subrange(from as int, fields@.len() as int);
    let mut total: u32 = 0;
    let mut i: usize = from;
    proof {
        assert(s.subrange(0, 0) =~= Seq::<Layout>::empty());
    }
    while i < fields.len()
        invariant
            from <= i <= fields@.len(),
            s == fields@.subrange(from as int, fields@.len() as int),
            total == fields_size(s.subrange(0, i - from), p),
            fields_size(s, p) <= u32::MAX,
            p == pointer_size as nat,
        decreases fields@.len() - i,
    {
        proof {
            let k = i - from;
            lemma_fields_size_prefix(s, k + 1, p);
            let sub = s.subrange(0, k + 1);
            assert(sub.drop_last() =~= s.subrange(0, k));
            assert(sub.last() == fields@[i as int]);
            assert(fields_size(sub, p) == fields_size(s.subrange(0, k), p) + layout_size(fields@[i as int], p));
            assert(decreases_to!(fields => fields[i as int]));
        }
        let size = fields[i].stack_size(pointer_size);
        total = total + size;
        i = i + 1;
    }
    proof {
        assert(s.subrange(0, i - from) =~= s);
    }
    total
}

/// The largest of the tags' sizes, or 0 without tags.
pub fn tags_stack_size(tags: &Vec<Vec<Layout>>, pointer_size: u32) -> (r: u32)
    requires
        tags_size(tags@, pointer_size as nat) <= u32::MAX,
    ensures
        r == tags_size(tags@, pointer_size as nat),
    decreases tags,
{
    let ghost p = pointer_size as nat;
    let mut largest: u32 = 0;
    let mut i: usize = 0;
    while i < tags.len()
        invariant
            0 <= i <= tags@.len(),
            largest == tags_size(tags@.subrange(0, i as int), p),
            tags_size(tags@, p) <= u32::MAX,
            p == pointer_size as nat,
        decreases tags@.len() - i,
    {
        proof {
            lemma_tags_size_prefix(tags@, i + 1, p);
            let sub = tags@.subrange(0, i + 1);
            assert(sub.drop_last() =~= tags@.subrange(0, i as int));
            assert(sub.last() == tags@[i as int]);
            assert(fields_size(tags@[i as int]@, p) <= tags_size(sub, p));
            assert(decreases_to!(tags => tags[i as int]));
        }
        proof {
            assert(tags@[i as int]@.subrange(0, tags@[i as int]@.len() as int) =~= tags@[i as int]@);
        }
        let size = fields_stack_size(&tags[i], 0, pointer_size);
        if size > largest {
            largest = size;
        }
        i = i + 1;
    }
    proof {
        assert(tags@.subrange(0, i as int) =~= tags@);
    }
    largest
}

/// The size of a layout, or `None` when it does not fit in a `u32`.
pub fn checked_stack_size(layout: &Layout, pointer_size: u32) -> (r: Option<u32>)
    ensures
        match r {
            Some(n) => n == layout_size(*layout, pointer_size as nat),
            None => layout_size(*layout, pointer_size as nat) > u32::MAX,
        },
    decreases layout,
{
    match layout {
        Layout::Builtin(b) => {
            let wide: u64 = match b {
                Builtin::Str | Builtin::EmptyStr | Builtin::List(_) | Builtin::EmptyList => 2 * pointer_size as u64,
                Builtin::Dict(_, _) | Builtin::EmptyDict | Builtin::SetOf(_) | Builtin::EmptySet => 3 * pointer_size as u64,
                _ => 1,
            };
            if wide <= u32::MAX as u64 {
                Some(b.stack_size(pointer_size))
            } else {
                None
            }
        },
        Layout::Struct(fields) => {
            proof {
                assert(fields@.subrange(0, fields@.len() as int) =~= fields@);
            }
            checked_fields_size(fields, 0, pointer_size)
        },
        Layout::Union(UnionLayout::NonRecursive(tags)) => checked_tags_size(tags, pointer_size),
        Layout::Closure(_, data, _) => match checked_stack_size(data, pointer_size) {
            Some(n) => if n as u64 + pointer_size as u64 <= u32::MAX as u64 {
                Some(pointer_size + n)
            } else {
                None
            },
            None => None,
        },
        Layout::PhantomEmptyStruct => Some(0),
        _ => Some(pointer_size),
    }
}

/// The sum of the sizes of the fields from index `from` on, or `None` when it
/// does not fit in a `u32`.
pub fn checked_fields_size(fields: &Vec<Layout>, from: usize, pointer_size: u32) -> (r: Option<u32>)
    requires
        from <= fields@.len(),
    ensures
        match r {
            Some(n) => n == fields_size(fields@.subrange(from as int, fields@.len() as int), pointer_size as nat),
            None => fields_size(fields@.subrange(from as int, fields@.len() as int), pointer_size as nat) > u32::MAX,
        },
    decreases fields,
{
    let ghost p = pointer_size as nat;
    let ghost s = fields@.subrange(from as int, fields@.len() as int);
    let mut total: u32 = 0;
    let mut i: usize = from;
    proof {
        assert(s.subrange(0, 0) =~= Seq::<Layout>::empty());
    }
    while i < fields.len()
        invariant
            from <= i <= fields@.len(),
            s == fields@.subrange(from as int, fields@.len() as int),
            total == fields_size(s.subrange(0, i - from), p),
            p == pointer_size as nat,
        decreases fields@.len() - i,
    {
        let ghost k = i - from;
        proof {
            lemma_fields_size_prefix(s, k + 1, p);
            let sub = s.subrange(0, k + 1);
            assert(sub.drop_last() =~= s.subrange(0, k));
            assert(sub.last() == fields@[i as int]);
            assert(fields_size(sub, p) == fields_size(s.subrange(0, k), p) + layout_size(fields@[i as int], p));
            assert(decreases_to!(fields => fields[i as int]));
        }
        match checked_stack_size(&fields[i], pointer_size) {
            Some(size) => {
                if total as u64 + size as u64 > u32::MAX as u64 {
                    return None;
                }
                total = total + size;
            },
            None => {
                return None;
            },
        }
        i = i + 1;
    }
    proof {
        assert(s.subrange(0, i - from) =~= s);
    }
    Some(total)
}

/// The largest of the tags' sizes, or `None` when it does not fit in a `u32`.
pub fn checked_tags_size(tags: &Vec<Vec<Layout>>, pointer_size: u32) -> (r: Option<u32>)
    ensures
        match r {
            Some(n) => n == tags_size(tags@, pointer_size as nat),
            None => tags_size(tags@, pointer_size as nat) > u32::MAX,
        },
    decreases tags,
{
    let ghost p = pointer_size as nat;
    let mut largest: u32 = 0;
    let mut i: usize = 0;
    while i < tags.len()
        invariant
            0 <= i <= tags@.len(),
            largest == tags_size(tags@.subrange(0, i as int), p),
            p == pointer_size as nat,
        decreases tags@.len() - i,
    {
        proof {
            lemma_tags_size_prefix(tags@, i + 1, p);
            let sub = tags@.subrange(0, i + 1);
            assert(sub.drop_last() =~= tags@.subrange(0, i as int));
            assert(sub.last() == tags@[i as int]);
            assert(fields_size(tags@[i as int]@, p) <= tags_size(sub, p));
            assert(tags@[i as int]@.subrange(0, tags@[i as int]@.len() as int) =~= tags@[i as int]@);
            assert(decreases_to!(tags => tags[i as int]));
        }
        match checked_fields_size(&tags[i], 0, pointer_size) {
            Some(size) => {
                if size > largest {
                    largest = size;
                }
            },
            None => {
                return None;
            },
        }
        i = i + 1;
    }
    proof {
        assert(tags@.subrange(0, i as int) =~= tags@);
    }
    Some(largest)
}

} // verus!
