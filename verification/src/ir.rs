//! Intermediate-representation data model: modules, functions, blocks and
//! instructions, all held in index-stable containers and referenced by
//! integer handles.

use vstd::prelude::*;

use crate::types::TypeId;
use crate::types::Types;

verus! {

/// An attribute attached to a function attribute group.
#[derive(Clone, Copy, PartialEq, Eq, Structural, Debug)]
pub enum Attribute {
    NoInline,
    NoUnwind,
    OptNone,
    UwTable,
}

/// A value operand of an instruction: the result of an earlier instruction,
/// a function parameter, or a 32-bit immediate.
#[derive(Clone, Copy, PartialEq, Eq, Structural, Debug)]
pub enum Value {
    Inst(u32),
    Arg(u32),
    Int32(i32),
}

/// The opcode of an IR instruction.
#[derive(Clone, Copy, PartialEq, Eq, Structural, Debug)]
pub enum Opcode {
    Alloca,
    Store,
    Load,
    Add,
    Call,
    Br,
    Ret,
    Phi,
}

/// One IR instruction: its own id in the function's data store, an opcode,
/// a result type, value operands, block targets (for branches and merge
/// points) and, for calls, the index of the callee in the module.
#[derive(Clone, PartialEq, Eq, Debug)]
pub struct Instruction {
    pub id: u32,
    pub opcode: Opcode,
    pub ty: TypeId,
    pub args: Vec<Value>,
    pub targets: Vec<u32>,
    pub callee: Option<u32>,
}

/// The ordered instruction ids of one basic block.
#[derive(Clone, PartialEq, Eq, Debug)]
pub struct BlockLayout {
    pub insts: Vec<u32>,
}

/// One IR function: its name, parameter types, return type, the data store
/// mapping instruction ids to instruction records, and the block layout:
/// the ordered blocks, each an ordered sequence of instruction ids.
#[derive(Clone, PartialEq, Eq, Debug)]
pub struct Function {
    pub name: String,
    pub params: Vec<TypeId>,
    pub ret_ty: TypeId,
    pub data: Vec<Instruction>,
    pub layout: Vec<BlockLayout>,
}

/// Number of instruction ids in the layout from block `b` on.
pub open spec fn layout_count(layout: Seq<BlockLayout>, b: int) -> nat
    decreases layout.len() - b,
    when 0 <= b
{
    if b < 0 || b >= layout.len() {
        0
    } else {
        layout[b].insts@.len() + layout_count(layout, b + 1)
    }
}

impl Function {
    /// The validated shape lowering relies on: each instruction record
    /// knows its own id, every id in the layout indexes the data store,
    /// and the function is small enough that every stack-slot offset fits
    /// a 32-bit immediate.
    pub open spec fn wf(self) -> bool {
        &&& forall|k: int| 0 <= k < self.data@.len() ==> #[trigger] self.data@[k].id == k
        &&& forall|b: int, j: int|
            0 <= b < self.layout@.len() && 0 <= j < self.layout@[b].insts@.len()
                ==> #[trigger] self.layout@[b].insts@[j] < self.data@.len()
        &&& self.data@.len() <= 0x1000_0000
        &&& layout_count(self.layout@, 0) <= 0x1000_0000
    }
}

/// `id_arena::Arena`: the index-stable container holding a module's
/// functions, declared so that it can stand in a field.
#[verifier::external_type_specification]
#[verifier::external_body]
#[verifier::reject_recursive_types(T)]
#[verifier::reject_recursive_types(A)]
pub struct ExArena<T, A>(id_arena::Arena<T, A>);

/// `id_arena::DefaultArenaBehavior`: the arena's default id discipline,
/// declared because the arena type names it.
#[verifier::external_type_specification]
#[verifier::external_body]
#[verifier::reject_recursive_types(T)]
pub struct ExDefaultArenaBehavior<T>(id_arena::DefaultArenaBehavior<T>);

/// What a function arena holds, in allocation order.
pub uninterp spec fn arena_funcs(a: id_arena::Arena<Function>) -> Seq<Function>;

/// Relies on `id_arena::Arena::new`: a fresh arena holds nothing.
#[verifier::external_body]
pub fn arena_new() -> (a: id_arena::Arena<Function>)
    ensures
        arena_funcs(a) == Seq::<Function>::empty(),
{
    id_arena::Arena::new()
}

/// Relies on `id_arena::Arena::iter`: the arena's items in allocation
/// order, one reference each.
#[verifier::external_body]
pub fn arena_items<'a>(a: &'a id_arena::Arena<Function>) -> (r: Vec<&'a Function>)
    ensures
        r@.len() == arena_funcs(*a).len(),
        forall|i: int| 0 <= i < r@.len() ==> *r@[i] == arena_funcs(*a)[i],
{
    a.iter().map(|(_, f)| f).collect()
}

/// Relies on `id_arena::Arena::alloc`: the item is appended to the
/// arena's contents, and its id's index is its position. `alloc` panics
/// when the arena's length would overflow its index storage, so a full
/// arena is excluded.
#[verifier::external_body]
pub fn arena_alloc(a: &mut id_arena::Arena<Function>, f: Function) -> (r: usize)
    requires
        arena_funcs(*old(a)).len() < usize::MAX,
    ensures
        arena_funcs(*final(a)) == arena_funcs(*old(a)).push(f),
        r == arena_funcs(*old(a)).len(),
{
    a.alloc(f).index()
}

/// A module: its name, source file name, target descriptor, the arena of
/// its functions, its attribute groups and its type table.
pub struct Module {
    pub name: String,
    pub source_filename: String,
    pub target: Target,
    pub functions: id_arena::Arena<Function>,
    pub attributes: rustc_hash::FxHashMap<u32, Vec<Attribute>>,
    pub types: Types,
}

impl Module {
    /// Every function of the module has the validated shape.
    pub open spec fn wf(self) -> bool {
        forall|i: int|
            0 <= i < arena_funcs(self.functions).len()
                ==> (#[trigger] arena_funcs(self.functions)[i]).wf()
    }

    pub fn new() -> (r: Module)
        ensures
            r.name@ == Seq::<char>::empty(),
            r.source_filename@ == Seq::<char>::empty(),
            r.target.triple@ == Seq::<char>::empty(),
            r.target.datalayout@ == Seq::<char>::empty(),
            arena_funcs(r.functions) == Seq::<Function>::empty(),
            r.attributes@ == Map::<u32, Vec<Attribute>>::empty(),
            r.types == Types,
            r.wf(),
    {
        let r = Module {
            name: String::new(),
            source_filename: String::new(),
            target: Target::new(),
            functions: arena_new(),
            attributes: rustc_hash::FxHashMap::default(),
            types: Types::new(),
        };
        r
    }

    pub fn name(&self) -> (r: &String)
        ensures
            r@ == self.name@,
    {
        &self.name
    }

    pub fn functions(&self) -> (r: &id_arena::Arena<Function>)
        ensures
            arena_funcs(*r) == arena_funcs(self.functions),
    {
        &self.functions
    }

    /// Append a function to the module, returning its index.
    pub fn add_function(&mut self, f: Function) -> (r: usize)
        requires
            arena_funcs(old(self).functions).len() < usize::MAX,
        ensures
            arena_funcs(final(self).functions) == arena_funcs(old(self).functions).push(f),
            r == arena_funcs(old(self).functions).len(),
            final(self).name == old(self).name,
            final(self).source_filename == old(self).source_filename,
            final(self).target == old(self).target,
            final(self).attributes == old(self).attributes,
            final(self).types == old(self).types,
    {
        arena_alloc(&mut self.functions, f)
    }

    /// Record an attribute group under its id.
    pub fn add_attributes(&mut self, id: u32, attrs: Vec<Attribute>)
        ensures
            final(self).attributes@ == old(self).attributes@.insert(id, attrs),
            final(self).functions == old(self).functions,
            final(self).name == old(self).name,
            final(self).source_filename == old(self).source_filename,
            final(self).target == old(self).target,
            final(self).types == old(self).types,
    {
        crate::fxmap::attr_groups_insert(&mut self.attributes, id, attrs);
    }
}

/// Provenance of a module: the target triple and data layout strings as they
/// appeared in the source. Used only for provenance, never for behaviour.
pub struct Target {
    pub triple: String,
    pub datalayout: String,
}

impl Target {
    pub fn new() -> (r: Target)
        ensures
            r.triple@ == Seq::<char>::empty(),
            r.datalayout@ == Seq::<char>::empty(),
    {
        Target { triple: String::new(), datalayout: String::new() }
    }
}


/// The printed name of one attribute.
pub open spec fn attr_text(a: Attribute) -> Seq<char> {
    match a {
        Attribute::NoInline => "noinline"@,
        Attribute::NoUnwind => "nounwind"@,
        Attribute::OptNone => "optnone"@,
        Attribute::UwTable => "uwtable"@,
    }
}

/// The printed name of one attribute.
pub fn attr_name(a: Attribute) -> (r: &'static str)
    ensures
        r@ == attr_text(a),
{
    match a {
        Attribute::NoInline => "noinline",
        Attribute::NoUnwind => "nounwind",
        Attribute::OptNone => "optnone",
        Attribute::UwTable => "uwtable",
    }
}

/// The attributes of a group from position `j` on, each followed by a
/// space.
pub open spec fn group_attrs_text(attrs: Seq<Attribute>, j: int) -> Seq<char>
    decreases attrs.len() - j,
    when j >= 0
{
    if j >= attrs.len() {
        Seq::<char>::empty()
    } else {
        attr_text(attrs[j]) + " "@ + group_attrs_text(attrs, j + 1)
    }
}

/// The line of one attribute group.
pub open spec fn group_text(id: nat, attrs: Seq<Attribute>) -> Seq<char> {
    "attributes #"@ + crate::text::dec_of(id) + " = { "@ + group_attrs_text(attrs, 0) + "}\n"@
}

/// The lines of the attribute groups with ids below `n`, in ascending id
/// order.
pub open spec fn attrs_text(m: Map<u32, Vec<Attribute>>, n: int) -> Seq<char>
    decreases n,
    when n >= 0
{
    if n <= 0 {
        Seq::<char>::empty()
    } else {
        attrs_text(m, n - 1) + (if m.dom().contains((n - 1) as u32) {
            group_text((n - 1) as nat, m[(n - 1) as u32]@)
        } else {
            Seq::<char>::empty()
        })
    }
}

/// One more than the largest attribute-group id, or zero for no groups.
pub open spec fn attr_bound(m: Map<u32, Vec<Attribute>>) -> int {
    if m.dom() == Set::<u32>::empty() {
        0
    } else {
        (choose|k: u32| m.dom().contains(k) && forall|j: u32| m.dom().contains(j) ==> j <= k)
            as int + 1
    }
}

/// The header line for one function.
pub open spec fn func_lines(funcs: Seq<Function>, i: int) -> Seq<char>
    decreases funcs.len() - i,
    when i >= 0
{
    if i >= funcs.len() {
        Seq::<char>::empty()
    } else {
        "define @"@ + funcs[i].name@ + "\n"@ + func_lines(funcs, i + 1)
    }
}

/// The whole module's text: the provenance header, one line per function,
/// then the attribute groups in ascending id order.
pub open spec fn module_text_spec(m: Module) -> Seq<char> {
    "source_filename = \""@ + m.source_filename@ + "\"\n"@ + "target datalayout = \""@
        + m.target.datalayout@ + "\"\n"@ + "target triple = \""@ + m.target.triple@ + "\"\n"@
        + "\n"@ + func_lines(arena_funcs(m.functions), 0) + attrs_text(
        m.attributes@,
        attr_bound(m.attributes@),
    )
}

fn group_attrs_exec(attrs: &Vec<Attribute>, j: usize) -> (r: String)
    ensures
        r@ == group_attrs_text(attrs@, j as int),
    decreases attrs@.len() - j,
{
    if j >= attrs.len() {
        String::new()
    } else {
        let mut s = attr_name(attrs[j]).to_owned();
        s.append(" ");
        s.append(group_attrs_exec(attrs, j + 1).as_str());
        s
    }
}

fn func_lines_exec(items: &Vec<&Function>, i: usize) -> (r: String)
    ensures
        r@ == func_lines(crate::lower::items_funcs(items@), i as int),
    decreases items@.len() - i,
{
    if i >= items.len() {
        String::new()
    } else {
        let mut s = "define @".to_owned();
        s.append(items[i].name.as_str());
        s.append("\n");
        s.append(func_lines_exec(items, i + 1).as_str());
        s
    }
}

impl Module {
    /// The module's textual form: the provenance header, its functions,
    /// and its attribute groups in ascending id order.
    pub fn to_text(&self) -> (r: String)
        ensures
            r@ == module_text_spec(*self),
    {
        let mut s = "source_filename = \"".to_owned();
        s.append(self.source_filename.as_str());
        s.append("\"\n");
        s.append("target datalayout = \"");
        s.append(self.target.datalayout.as_str());
        s.append("\"\n");
        s.append("target triple = \"");
        s.append(self.target.triple.as_str());
        s.append("\"\n");
        s.append("\n");
        let items = crate::ir::arena_items(&self.functions);
        proof {
            assert(crate::lower::items_funcs(items@) =~= arena_funcs(self.functions));
        }
        s.append(func_lines_exec(&items, 0).as_str());
        let keys = crate::fxmap::attr_groups_keys(&self.attributes);
        let ghost dom = self.attributes@.dom();
        let mut bound: u64 = 0;
        if keys.len() > 0 {
            let mut mx: u32 = keys[0];
            let mut i: usize = 1;
            while i < keys.len()
                invariant
                    1 <= i <= keys@.len(),
                    keys@.contains(mx),
                    forall|idx: int| 0 <= idx < i ==> #[trigger] keys@[idx] <= mx,
                decreases keys@.len() - i,
            {
                if keys[i] > mx {
                    mx = keys[i];
                    proof {
                        assert(keys@[i as int] == mx);
                    }
                }
                i = i + 1;
            }
            bound = (mx as u64) + 1;
            proof {
                assert(dom.contains(mx));
                assert forall|j: u32| dom.contains(j) implies j <= mx by {
                    let idx = choose|idx: int| 0 <= idx < keys@.len() && keys@[idx] == j;
                    assert(keys@[idx] <= mx);
                }
                assert(dom =~= Set::<u32>::empty() ==> !dom.contains(mx));
                let kk = choose|k: u32| dom.contains(k) && forall|j: u32|
                    dom.contains(j) ==> j <= k;
                assert(dom.contains(kk) && forall|j: u32| dom.contains(j) ==> j <= kk);
                assert(kk <= mx && mx <= kk);
                assert(attr_bound(self.attributes@) == mx as int + 1);
            }
        } else {
            proof {
                if dom.contains(choose|k: u32| dom.contains(k)) {
                    let k = choose|k: u32| dom.contains(k);
                    assert(keys@.contains(k));
                    assert(false);
                }
                assert(dom =~= Set::<u32>::empty());
                assert(attr_bound(self.attributes@) == 0);
            }
        }
        let mut k: u64 = 0;
        while k < bound
            invariant
                0 <= k <= bound,
                bound == attr_bound(self.attributes@),
                bound <= 0x1_0000_0000u64,
                s@ == "source_filename = \""@ + self.source_filename@ + "\"\n"@
                    + "target datalayout = \""@ + self.target.datalayout@ + "\"\n"@
                    + "target triple = \""@ + self.target.triple@ + "\"\n"@ + "\n"@ + func_lines(
                    arena_funcs(self.functions),
                    0,
                ) + attrs_text(self.attributes@, k as int),
            decreases bound - k,
        {
            match crate::fxmap::attr_groups_get(&self.attributes, k as u32) {
                Some(attrs) => {
                    let mut g = "attributes #".to_owned();
                    g.append(crate::text::u32_to_string(k as u32).as_str());
                    g.append(" = { ");
                    g.append(group_attrs_exec(attrs, 0).as_str());
                    g.append("}\n");
                    proof {
                        assert(g@ =~= group_text(k as nat, self.attributes@[k as u32]@));
                    }
                    s.append(g.as_str());
                },
                None => {},
            }
            k = k + 1;
        }
        proof {
            assert(s@ =~= module_text_spec(*self));
        }
        s
    }
}

} // verus!
