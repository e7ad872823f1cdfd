//! The shader variable model: typed variable descriptors classified by the
//! buffer scope that feeds them, slot-size arithmetic, and the cached
//! attribute tables (`RectInstanceProps`, `NamedInstanceProps`) that area
//! reads and writes are resolved against.

use vstd::prelude::*;
use vstd::seq_lib::*;
use crate::strutil::str_eq;

verus! {

/// The buffer scope that feeds a shader variable.
#[derive(Clone, Copy, Debug, PartialEq, Eq, Structural)]
pub enum ShVarStore {
    Geometry,
    Instance,
    UniformCx,
    UniformDl,
    Uniform,
    Varying,
    Local,
    Texture,
}

/// One shader variable: its name, its type name in the DSL
/// (`float`, `vec2`, ..., `texture2d`, or a user-defined struct name),
/// and the scope that stores it.
#[derive(Debug)]
pub struct ShVar {
    pub name: String,
    pub ty: String,
    pub store: ShVarStore,
}

impl Clone for ShVar {
    fn clone(&self) -> (r: Self)
        ensures
            r == *self,
    {
        ShVar { name: self.name.clone(), ty: self.ty.clone(), store: self.store }
    }
}

/// One token of a shader function body: literal target-language text, a
/// reference to a shader variable by name, or a call with pre-rendered
/// argument expressions.
#[derive(Debug)]
pub enum ShTok {
    Text(String),
    Ident(String),
    Call(String, Vec<String>),
}

/// One function of the shader DSL. `params` holds the rendered extra
/// parameter list (empty for the `vertex` and `pixel` entry points);
/// `ret` is the DSL return type name.
#[derive(Debug)]
pub struct ShFn {
    pub name: String,
    pub params: String,
    pub ret: String,
    pub body: Vec<ShTok>,
}

/// A shader before compilation: unit-quad style geometry (vertex scalars
/// and 32-bit indices) plus the typed variable list and function bodies.
#[derive(Debug)]
pub struct Shader {
    pub geometry_vertices: Vec<u32>,
    pub geometry_indices: Vec<u32>,
    pub vars: Vec<ShVar>,
    pub fns: Vec<ShFn>,
}

/// The number of `f32` slots a value of DSL type `ty` occupies inside a
/// packed instance or uniform record. Textures (and unknown user types)
/// occupy none.
pub open spec fn spec_slot_size(ty: Seq<char>) -> nat {
    if ty == "float"@ {
        1
    } else if ty == "vec2"@ {
        2
    } else if ty == "vec3"@ {
        3
    } else if ty == "vec4"@ {
        4
    } else if ty == "mat2"@ {
        4
    } else if ty == "mat3"@ {
        9
    } else if ty == "mat4"@ {
        16
    } else {
        0
    }
}

/// The total number of slots occupied by `vars`, in declaration order.
pub open spec fn spec_slot_total(vars: Seq<ShVar>) -> nat
    decreases vars.len(),
{
    if vars.len() == 0 {
        0
    } else {
        spec_slot_total(vars.drop_last()) + spec_slot_size(vars.last().ty@)
    }
}

/// The slot offset of the first variable of `vars` named `name`, if any:
/// the slot total of the variables declared before it.
pub open spec fn spec_named_offset(vars: Seq<ShVar>, name: Seq<char>) -> Option<nat>
    decreases vars.len(),
{
    if vars.len() == 0 {
        None
    } else if vars[0].name@ == name {
        Some(0nat)
    } else {
        match spec_named_offset(vars.drop_first(), name) {
            Some(o) => Some((o + spec_slot_size(vars[0].ty@)) as nat),
            None => None,
        }
    }
}

/// Executable slot size, tied to `spec_slot_size`.
pub fn slot_size(ty: &str) -> (r: usize)
    ensures
        r == spec_slot_size(ty@),
{
    if str_eq(ty, "float") {
        1
    } else if str_eq(ty, "vec2") {
        2
    } else if str_eq(ty, "vec3") {
        3
    } else if str_eq(ty, "vec4") {
        4
    } else if str_eq(ty, "mat2") {
        4
    } else if str_eq(ty, "mat3") {
        9
    } else if str_eq(ty, "mat4") {
        16
    } else {
        0
    }
}

/// A slot total never exceeds sixteen slots per declared variable.
pub proof fn lemma_slot_total_bound(vars: Seq<ShVar>)
    ensures
        spec_slot_total(vars) <= 16 * vars.len(),
    decreases vars.len(),
{
    if vars.len() > 0 {
        lemma_slot_total_bound(vars.drop_last());
    }
}

/// Appending one variable adds its slot size to the total.
pub proof fn lemma_slot_total_push(vars: Seq<ShVar>, v: ShVar)
    ensures
        spec_slot_total(vars.push(v)) == spec_slot_total(vars) + spec_slot_size(v.ty@),
{
    assert(vars.push(v).drop_last() =~= vars);
}

/// The cached slot offsets, within one instance record, of the instance
/// variables named exactly `x`, `y`, `w` and `h`, where present.
#[derive(Clone, Copy, Debug, PartialEq, Eq, Structural)]
pub struct RectInstanceProps {
    pub x: Option<usize>,
    pub y: Option<usize>,
    pub w: Option<usize>,
    pub h: Option<usize>,
}

/// One entry of the named-attribute table: an instance variable's name and
/// its slot offset within an instance record.
#[derive(Debug)]
pub struct NamedInstanceProp {
    pub name: String,
    pub offset: usize,
}

impl Clone for NamedInstanceProp {
    fn clone(&self) -> (r: Self)
        ensures
            r == *self,
    {
        NamedInstanceProp { name: self.name.clone(), offset: self.offset }
    }
}

/// The named-attribute table: one entry per instance variable, in
/// declaration order.
#[derive(Debug)]
pub struct NamedInstanceProps {
    pub props: Vec<NamedInstanceProp>,
}

impl Clone for NamedInstanceProps {
    fn clone(&self) -> (r: Self)
        ensures
            r.props@ == self.props@,
    {
        NamedInstanceProps { props: self.props.clone() }
    }
}

/// An executable offset option, as the mathematical one it stands for.
pub open spec fn opt_offset(o: Option<usize>) -> Option<nat> {
    match o {
        Some(v) => Some(v as nat),
        None => None,
    }
}

/// What `spec_named_offset` looks like when the first `i` variables hold no
/// match: the remaining search, shifted by the slots already skipped.
pub open spec fn spec_named_offset_from(
    vars: Seq<ShVar>,
    name: Seq<char>,
    i: int,
    base: nat,
) -> Option<nat> {
    match spec_named_offset(vars.skip(i), name) {
        Some(o) => Some((base + o) as nat),
        None => None,
    }
}

proof fn lemma_named_offset_step(vars: Seq<ShVar>, name: Seq<char>, i: int, base: nat)
    requires
        0 <= i < vars.len(),
        vars[i].name@ != name,
    ensures
        spec_named_offset_from(vars, name, i, base) == spec_named_offset_from(
            vars,
            name,
            i + 1,
            base + spec_slot_size(vars[i].ty@),
        ),
{
    assert(vars.skip(i).drop_first() =~= vars.skip(i + 1));
    assert(vars.skip(i)[0] == vars[i]);
}

proof fn lemma_named_offset_found(vars: Seq<ShVar>, name: Seq<char>, i: int, base: nat)
    requires
        0 <= i < vars.len(),
        vars[i].name@ == name,
    ensures
        spec_named_offset_from(vars, name, i, base) == Some(base),
{
    assert(vars.skip(i)[0] == vars[i]);
    assert(spec_named_offset(vars.skip(i), name) == Some(0nat));
}

impl RectInstanceProps {
    /// Scan `instances` (the shader's instance variables, in declaration
    /// order) for variables named exactly `x`, `y`, `w`, `h`, recording the
    /// running slot offset of the first occurrence of each.
    #[verifier::rlimit(60)]
    pub fn construct(instances: &Vec<ShVar>) -> (r: RectInstanceProps)
        requires
            16 * instances@.len() <= usize::MAX,
        ensures
            opt_offset(r.x) == spec_named_offset(instances@, "x"@),
            opt_offset(r.y) == spec_named_offset(instances@, "y"@),
            opt_offset(r.w) == spec_named_offset(instances@, "w"@),
            opt_offset(r.h) == spec_named_offset(instances@, "h"@),
    {
        let mut x: Option<usize> = None;
        let mut y: Option<usize> = None;
        let mut w: Option<usize> = None;
        let mut h: Option<usize> = None;
        let mut off: usize = 0;
        let n = instances.len();
        let mut i: usize = 0;
        proof {
            assert(instances@.skip(0) =~= instances@);
            assert(instances@.subrange(0, 0) =~= Seq::<ShVar>::empty());
        }
        while i < n
            invariant
                n == instances@.len(),
                16 * n <= usize::MAX,
                i <= n,
                off == spec_slot_total(instances@.subrange(0, i as int)),
                spec_named_offset(instances@, "x"@) == match x {
                    Some(o) => Some(o as nat),
                    None => spec_named_offset_from(instances@, "x"@, i as int, off as nat),
                },
                spec_named_offset(instances@, "y"@) == match y {
                    Some(o) => Some(o as nat),
                    None => spec_named_offset_from(instances@, "y"@, i as int, off as nat),
                },
                spec_named_offset(instances@, "w"@) == match w {
                    Some(o) => Some(o as nat),
                    None => spec_named_offset_from(instances@, "w"@, i as int, off as nat),
                },
                spec_named_offset(instances@, "h"@) == match h {
                    Some(o) => Some(o as nat),
                    None => spec_named_offset_from(instances@, "h"@, i as int, off as nat),
                },
            decreases n - i,
        {
            let v = &instances[i];
            proof {
                reveal_strlit("x");
                reveal_strlit("y");
                reveal_strlit("w");
                reveal_strlit("h");
                assert("x"@[0] == 'x');
                assert("y"@[0] == 'y');
                assert("w"@[0] == 'w');
                assert("h"@[0] == 'h');
                let vs = instances@;
                let iv = i as int;
                let b = off as nat;
                if vs[iv].name@ == "x"@ {
                    lemma_named_offset_found(vs, "x"@, iv, b);
                } else {
                    lemma_named_offset_step(vs, "x"@, iv, b);
                }
                if vs[iv].name@ == "y"@ {
                    lemma_named_offset_found(vs, "y"@, iv, b);
                } else {
                    lemma_named_offset_step(vs, "y"@, iv, b);
                }
                if vs[iv].name@ == "w"@ {
                    lemma_named_offset_found(vs, "w"@, iv, b);
                } else {
                    lemma_named_offset_step(vs, "w"@, iv, b);
                }
                if vs[iv].name@ == "h"@ {
                    lemma_named_offset_found(vs, "h"@, iv, b);
                } else {
                    lemma_named_offset_step(vs, "h"@, iv, b);
                }
                lemma_slot_total_bound(vs.subrange(0, iv));
                lemma_slot_total_push(vs.subrange(0, iv), vs[iv]);
                assert(vs.subrange(0, iv).push(vs[iv]) =~= vs.subrange(0, iv + 1));
            }
            if x.is_none() && str_eq(v.name.as_str(), "x") {
                x = Some(off);
            } else if y.is_none() && str_eq(v.name.as_str(), "y") {
                y = Some(off);
            } else if w.is_none() && str_eq(v.name.as_str(), "w") {
                w = Some(off);
            } else if h.is_none() && str_eq(v.name.as_str(), "h") {
                h = Some(off);
            }
            let sz = slot_size(v.ty.as_str());
            off += sz;
            i += 1;
        }
        proof {
            assert(instances@.skip(n as int) =~= Seq::<ShVar>::empty());
        }
        RectInstanceProps { x, y, w, h }
    }
}

impl NamedInstanceProps {
    /// Record, for every instance variable in declaration order, its name
    /// and its running slot offset within an instance record.
    pub fn construct(instances: &Vec<ShVar>) -> (r: NamedInstanceProps)
        requires
            16 * instances@.len() <= usize::MAX,
        ensures
            r.props@.len() == instances@.len(),
            forall|i: int|
                0 <= i < instances@.len() ==> (#[trigger] r.props@[i]).name@ == instances@[i].name@
                    && r.props@[i].offset == spec_slot_total(instances@.subrange(0, i)),
    {
        let mut props: Vec<NamedInstanceProp> = Vec::new();
        let mut off: usize = 0;
        let n = instances.len();
        let mut i: usize = 0;
        while i < n
            invariant
                n == instances@.len(),
                16 * n <= usize::MAX,
                i <= n,
                off == spec_slot_total(instances@.subrange(0, i as int)),
                props@.len() == i,
                forall|j: int|
                    0 <= j < i ==> (#[trigger] props@[j]).name@ == instances@[j].name@
                        && props@[j].offset == spec_slot_total(instances@.subrange(0, j)),
            decreases n - i,
        {
            props.push(NamedInstanceProp { name: instances[i].name.clone(), offset: off });
            proof {
                lemma_slot_total_bound(instances@.subrange(0, i as int));
                lemma_slot_total_push(instances@.subrange(0, i as int), instances@[i as int]);
                assert(instances@.subrange(0, i as int).push(instances@[i as int])
                    =~= instances@.subrange(0, i + 1));
            }
            let sz = slot_size(instances[i].ty.as_str());
            off += sz;
            i += 1;
        }
        NamedInstanceProps { props }
    }
}

/// `spec_slot_total` can also be peeled from the front.
pub proof fn lemma_slot_total_drop_first(vars: Seq<ShVar>)
    requires
        vars.len() > 0,
    ensures
        spec_slot_total(vars) == spec_slot_size(vars[0].ty@) + spec_slot_total(vars.drop_first()),
    decreases vars.len(),
{
    if vars.len() == 1 {
        assert(vars.drop_first() =~= Seq::<ShVar>::empty());
        assert(vars.drop_last() =~= Seq::<ShVar>::empty());
    } else {
        lemma_slot_total_drop_first(vars.drop_last());
        assert(vars.drop_last()[0] == vars[0]);
        assert(vars.drop_last().drop_first() =~= vars.drop_first().drop_last());
        assert(vars.drop_first().last() == vars.last());
    }
}

/// A recorded attribute offset lies strictly inside the record, provided
/// every variable carrying the looked-up name occupies at least one slot.
pub proof fn lemma_named_offset_lt_total(vars: Seq<ShVar>, name: Seq<char>)
    requires
        spec_named_offset(vars, name) is Some,
        forall|i: int|
            0 <= i < vars.len() && (#[trigger] vars[i]).name@ == name ==> spec_slot_size(
                vars[i].ty@,
            ) >= 1,
    ensures
        spec_named_offset(vars, name)->Some_0 < spec_slot_total(vars),
    decreases vars.len(),
{
    lemma_slot_total_drop_first(vars);
    if vars[0].name@ == name {
    } else {
        assert(forall|i: int|
            0 <= i < vars.drop_first().len() && (#[trigger] vars.drop_first()[i]).name@ == name
                ==> spec_slot_size(vars.drop_first()[i].ty@) >= 1) by {
            assert(forall|i: int|
                0 <= i < vars.drop_first().len() ==> #[trigger] vars.drop_first()[i] == vars[i
                    + 1]);
        }
        lemma_named_offset_lt_total(vars.drop_first(), name);
    }
}

impl Shader {
    /// An empty shader: no geometry, no variables, no functions.
    pub fn new() -> (sh: Shader)
        ensures
            sh.geometry_vertices@ =~= Seq::<u32>::empty(),
            sh.geometry_indices@ =~= Seq::<u32>::empty(),
            sh.vars@ =~= Seq::<ShVar>::empty(),
            sh.fns@ =~= Seq::<ShFn>::empty(),
    {
        Shader {
            geometry_vertices: Vec::new(),
            geometry_indices: Vec::new(),
            vars: Vec::new(),
            fns: Vec::new(),
        }
    }

    /// The shader's variables stored in `store`, in declaration order.
    pub fn flat_vars(&self, store: ShVarStore) -> (r: Vec<ShVar>)
        ensures
            r@ =~= self.vars@.filter(|v: ShVar| v.store == store),
    {
        let mut r: Vec<ShVar> = Vec::new();
        let n = self.vars.len();
        let mut i: usize = 0;
        while i < n
            invariant
                n == self.vars@.len(),
                i <= n,
                r@ =~= self.vars@.subrange(0, i as int).filter(|v: ShVar| v.store == store),
            decreases n - i,
        {
            proof {
                reveal(Seq::filter);
                assert(self.vars@.subrange(0, i + 1).drop_last() =~= self.vars@.subrange(
                    0,
                    i as int,
                ));
            }
            if self.vars[i].store == store {
                r.push(self.vars[i].clone());
            }
            proof {
                assert(self.vars@.subrange(0, i + 1).last() == self.vars@[i as int]);
            }
            i += 1;
        }
        proof {
            assert(self.vars@.subrange(0, n as int) =~= self.vars@);
        }
        r
    }

    /// The total slot count of `vars`, in declaration order.
    pub fn compute_slot_total(&self, vars: &Vec<ShVar>) -> (total: usize)
        requires
            16 * vars@.len() <= usize::MAX,
        ensures
            total == spec_slot_total(vars@),
    {
        let mut total: usize = 0;
        let n = vars.len();
        let mut i: usize = 0;
        while i < n
            invariant
                n == vars@.len(),
                16 * n <= usize::MAX,
                i <= n,
                total == spec_slot_total(vars@.subrange(0, i as int)),
            decreases n - i,
        {
            proof {
                lemma_slot_total_bound(vars@.subrange(0, i as int));
                lemma_slot_total_push(vars@.subrange(0, i as int), vars@[i as int]);
                assert(vars@.subrange(0, i as int).push(vars@[i as int]) =~= vars@.subrange(
                    0,
                    i + 1,
                ));
            }
            let sz = slot_size(vars[i].ty.as_str());
            total += sz;
            i += 1;
        }
        proof {
            assert(vars@.subrange(0, n as int) =~= vars@);
    }
        total
    }
}

} // verus!
