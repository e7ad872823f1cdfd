//! The shader-DSL-to-Metal-SL transpiler: scope struct blocks, texture
//! slot blocks, variable-reference rewriting, dependency-ordered function
//! emission and the vertex/fragment entry points.

use vstd::prelude::*;
use vstd::string::StrSliceExecFns;
use vstd::string::StringExecFns;
use crate::shader::{ShFn, ShTok, ShVar, ShVarStore, Shader};
use crate::strutil::{dec_digits, str_eq, usize_to_string};

verus! {

/// A target shading-language compilation failure, carrying the
/// diagnostic.
#[derive(Debug)]
pub struct SlErr {
    pub msg: String,
}

/// Which entry point's dependency cone is being emitted.
#[derive(Clone, Copy, Debug, PartialEq, Eq, Structural)]
pub enum SlTarget {
    Vertex,
    Pixel,
}

/// The DSL type name rendered as the packed Metal type used inside
/// GPU-buffer structs.
pub open spec fn spec_packed_metal(ty: Seq<char>) -> Seq<char> {
    if ty == "float"@ {
        "float"@
    } else if ty == "vec2"@ {
        "packed_float2"@
    } else if ty == "vec3"@ {
        "packed_float3"@
    } else if ty == "vec4"@ {
        "packed_float4"@
    } else if ty == "mat2"@ {
        "packed_float2x2"@
    } else if ty == "mat3"@ {
        "packed_float3x3"@
    } else if ty == "mat4"@ {
        "float4x4"@
    } else {
        ty
    }
}

/// The DSL type name rendered as the aligned Metal type used in shader
/// code.
pub open spec fn spec_metal(ty: Seq<char>) -> Seq<char> {
    if ty == "float"@ {
        "float"@
    } else if ty == "vec2"@ {
        "float2"@
    } else if ty == "vec3"@ {
        "float3"@
    } else if ty == "vec4"@ {
        "float4"@
    } else if ty == "mat2"@ {
        "float2x2"@
    } else if ty == "mat3"@ {
        "float3x3"@
    } else if ty == "mat4"@ {
        "float4x4"@
    } else if ty == "texture2d"@ {
        "texture2d<float>"@
    } else {
        ty
    }
}

impl crate::cx::Cx {
    /// Render a DSL type as its packed Metal buffer type.
    pub fn type_to_packed_metal(ty: &str) -> (r: String)
        ensures
            r@ == spec_packed_metal(ty@),
    {
        if str_eq(ty, "float") {
            String::from_str("float")
        } else if str_eq(ty, "vec2") {
            String::from_str("packed_float2")
        } else if str_eq(ty, "vec3") {
            String::from_str("packed_float3")
        } else if str_eq(ty, "vec4") {
            String::from_str("packed_float4")
        } else if str_eq(ty, "mat2") {
            String::from_str("packed_float2x2")
        } else if str_eq(ty, "mat3") {
            String::from_str("packed_float3x3")
        } else if str_eq(ty, "mat4") {
            String::from_str("float4x4")
        } else {
            ty.to_owned()
        }
    }

    /// Render a DSL type as its aligned Metal shader type.
    pub fn type_to_metal(ty: &str) -> (r: String)
        ensures
            r@ == spec_metal(ty@),
    {
        if str_eq(ty, "float") {
            String::from_str("float")
        } else if str_eq(ty, "vec2") {
            String::from_str("float2")
        } else if str_eq(ty, "vec3") {
            String::from_str("float3")
        } else if str_eq(ty, "vec4") {
            String::from_str("float4")
        } else if str_eq(ty, "mat2") {
            String::from_str("float2x2")
        } else if str_eq(ty, "mat3") {
            String::from_str("float3x3")
        } else if str_eq(ty, "mat4") {
            String::from_str("float4x4")
        } else if str_eq(ty, "texture2d") {
            String::from_str("texture2d<float>")
        } else {
            ty.to_owned()
        }
    }

    /// Emit a struct block declaring `vars` as fields (packed or aligned
    /// Metal types), with `field` spliced in as a leading raw member.
    pub fn assemble_struct(name: &str, vars: &Vec<ShVar>, packed: bool, field: &str) -> (r: String)
        ensures
            r@ == spec_struct_block(name@, vars@, packed, field@),
    {
        let mut out = String::new();
        out.append("struct ");
        out.append(name);
        out.append("{\n");
        out.append(field);
        let n = vars.len();
        let mut i: usize = 0;
        while i < n
            invariant
                n == vars@.len(),
                i <= n,
                out@ == "struct "@ + name@ + "{\n"@ + field@ + spec_struct_fields(
                    vars@.subrange(0, i as int),
                    packed,
                ),
            decreases n - i,
        {
            proof {
                assert(vars@.subrange(0, i + 1).drop_last() =~= vars@.subrange(0, i as int));
                assert(vars@.subrange(0, i + 1).last() == vars@[i as int]);
            }
            out.append("  ");
            let mty = if packed {
                Self::type_to_packed_metal(vars[i].ty.as_str())
            } else {
                Self::type_to_metal(vars[i].ty.as_str())
            };
            out.append(mty.as_str());
            out.append(" ");
            out.append(vars[i].name.as_str());
            out.append(";\n");
            i += 1;
        }
        out.append("};\n\n");
        proof {
            assert(vars@.subrange(0, n as int) =~= vars@);
            assert(out@ =~= spec_struct_block(name@, vars@, packed, field@));
        }
        out
    }

    /// Emit the texture slot block, binding each texture variable to an
    /// increasing slot index.
    pub fn assemble_texture_slots(textures: &Vec<ShVar>) -> (r: String)
        ensures
            r@ == spec_texture_block(textures@),
    {
        let mut out = String::new();
        out.append("struct ");
        out.append("_Tex{\n");
        let n = textures.len();
        let mut i: usize = 0;
        while i < n
            invariant
                n == textures@.len(),
                i <= n,
                out@ == "struct "@ + "_Tex{\n"@ + spec_texture_fields(
                    textures@.subrange(0, i as int),
                ),
            decreases n - i,
        {
            proof {
                assert(textures@.subrange(0, i + 1).drop_last() =~= textures@.subrange(
                    0,
                    i as int,
                ));
                assert(textures@.subrange(0, i + 1).last() == textures@[i as int]);
            }
            out.append("texture2d<float> ");
            out.append(textures[i].name.as_str());
            out.append(" [[texture(");
            let idx = usize_to_string(i);
            out.append(idx.as_str());
            out.append(")]];\n");
            i += 1;
        }
        out.append("};\n\n");
        proof {
            assert(textures@.subrange(0, n as int) =~= textures@);
            assert(out@ =~= spec_texture_block(textures@));
        }
        out
    }
}

/// What the call-mapping hook decided: leave the call alone or replace it
/// with rewritten target text (and the result type it now has).
#[derive(Debug)]
pub enum MapCallResult {
    Keep,
    Rewrite(String, String),
}

/// The rewrite context threaded through emission: which entry point's
/// cone is walked, the fixed scope-threading parameter lists, the queue
/// and record of emitted functions, and the varyings synthesized from
/// pixel-side geometry/instance references.
#[derive(Debug)]
pub struct SlCx {
    pub depth: usize,
    pub target: SlTarget,
    pub defargs_fn: String,
    pub defargs_call: String,
    pub call_prefix: String,
    pub fn_deps: Vec<String>,
    pub fn_done: Vec<String>,
    pub auto_vary: Vec<ShVar>,
}

/// Whether a variable of this name was already lifted into a varying.
pub open spec fn spec_has_vary(auto: Seq<ShVar>, name: Seq<char>) -> bool {
    exists|i: int| 0 <= i < auto.len() && auto[i].name@ == name
}

/// The text a variable reference becomes, given the current target and
/// synthesized varyings.
pub open spec fn spec_map_var_text(target: SlTarget, auto: Seq<ShVar>, var: ShVar) -> Seq<char> {
    let mty = spec_metal(var.ty@);
    match var.store {
        ShVarStore::Uniform => mty + "(_uni_dr."@ + var.name@ + ")"@,
        ShVarStore::UniformDl => mty + "(_uni_dl."@ + var.name@ + ")"@,
        ShVarStore::UniformCx => mty + "(_uni_cx."@ + var.name@ + ")"@,
        ShVarStore::Instance => if target == SlTarget::Pixel {
            "_vary."@ + var.name@
        } else {
            mty + "(_inst."@ + var.name@ + ")"@
        },
        ShVarStore::Geometry => if target == SlTarget::Pixel {
            "_vary."@ + var.name@
        } else {
            mty + "(_geom."@ + var.name@ + ")"@
        },
        ShVarStore::Texture => "_tex."@ + var.name@,
        ShVarStore::Local => "_loc."@ + var.name@,
        ShVarStore::Varying => "_vary."@ + var.name@,
    }
}

/// The varyings after a variable reference: a pixel-side geometry or
/// instance reference is lifted once, everything else changes nothing.
pub open spec fn spec_map_var_auto(target: SlTarget, auto: Seq<ShVar>, var: ShVar) -> Seq<ShVar> {
    match var.store {
        ShVarStore::Instance | ShVarStore::Geometry => if target == SlTarget::Pixel
            && !spec_has_vary(auto, var.name@) {
            auto.push(var)
        } else {
            auto
        },
        _ => auto,
    }
}

/// The text `sample2d(tex, uv)` is rewritten to: a Metal sampler
/// invocation with linear min/mag filtering.
pub open spec fn spec_sample2d_text(base: Seq<char>, coord: Seq<char>) -> Seq<char> {
    base + ".sample(sampler(mag_filter::linear,min_filter::linear),"@ + coord + ")"@
}

impl SlCx {
    /// The call-mapping hook: `sample2d` becomes the target's texture
    /// sampling invocation; every other call is left alone.
    pub fn map_call(&self, name: &str, args: &Vec<String>) -> (r: MapCallResult)
        ensures
            ({
                if name@ == "sample2d"@ && args@.len() >= 2 {
                    match r {
                        MapCallResult::Rewrite(text, ty) => text@ == spec_sample2d_text(
                            args@[0]@,
                            args@[1]@,
                        ) && ty@ == "vec4"@,
                        _ => false,
                    }
                } else {
                    r is Keep
                }
            }),
    {
        if str_eq(name, "sample2d") && args.len() >= 2 {
            let mut text = args[0].clone();
            text.append(".sample(sampler(mag_filter::linear,min_filter::linear),");
            text.append(args[1].as_str());
            text.append(")");
            proof {
                assert(text@ =~= spec_sample2d_text(args@[0]@, args@[1]@));
            }
            MapCallResult::Rewrite(text, String::from_str("vec4"))
        } else {
            MapCallResult::Keep
        }
    }

    /// The type-mapping hook: DSL types become aligned Metal types.
    pub fn map_type(&self, ty: &str) -> (r: String)
        ensures
            r@ == spec_metal(ty@),
    {
        crate::cx::Cx::type_to_metal(ty)
    }

    /// The variable-mapping hook: render a reference to `var` for the
    /// current target, lifting pixel-side geometry/instance references
    /// into synthesized varyings.
    pub fn map_var(&mut self, var: &ShVar) -> (r: String)
        ensures
            r@ == spec_map_var_text(old(self).target, old(self).auto_vary@, *var),
            final(self).auto_vary@ == spec_map_var_auto(
                old(self).target,
                old(self).auto_vary@,
                *var,
            ),
            *final(self) == (SlCx { auto_vary: final(self).auto_vary, ..*old(self) }),
    {
        let mty = crate::cx::Cx::type_to_metal(var.ty.as_str());
        match var.store {
            ShVarStore::Uniform => {
                let mut out = mty;
                out.append("(_uni_dr.");
                out.append(var.name.as_str());
                out.append(")");
                out
            },
            ShVarStore::UniformDl => {
                let mut out = mty;
                out.append("(_uni_dl.");
                out.append(var.name.as_str());
                out.append(")");
                out
            },
            ShVarStore::UniformCx => {
                let mut out = mty;
                out.append("(_uni_cx.");
                out.append(var.name.as_str());
                out.append(")");
                out
            },
            ShVarStore::Instance => {
                match self.target {
                    SlTarget::Pixel => {
                        self.push_vary(var);
                        let mut out = String::from_str("_vary.");
                        out.append(var.name.as_str());
                        out
                    },
                    SlTarget::Vertex => {
                        let mut out = mty;
                        out.append("(_inst.");
                        out.append(var.name.as_str());
                        out.append(")");
                        out
                    },
                }
            },
            ShVarStore::Geometry => {
                match self.target {
                    SlTarget::Pixel => {
                        self.push_vary(var);
                        let mut out = String::from_str("_vary.");
                        out.append(var.name.as_str());
                        out
                    },
                    SlTarget::Vertex => {
                        let mut out = mty;
                        out.append("(_geom.");
                        out.append(var.name.as_str());
                        out.append(")");
                        out
                    },
                }
            },
            ShVarStore::Texture => {
                let mut out = String::from_str("_tex.");
                out.append(var.name.as_str());
                out
            },
            ShVarStore::Local => {
                let mut out = String::from_str("_loc.");
                out.append(var.name.as_str());
                out
            },
            ShVarStore::Varying => {
                let mut out = String::from_str("_vary.");
                out.append(var.name.as_str());
                out
            },
        }
    }

    /// Record `var` as a synthesized varying, once.
    fn push_vary(&mut self, var: &ShVar)
        ensures
            final(self).auto_vary@ == if spec_has_vary(old(self).auto_vary@, var.name@) {
                old(self).auto_vary@
            } else {
                old(self).auto_vary@.push(*var)
            },
            *final(self) == (SlCx { auto_vary: final(self).auto_vary, ..*old(self) }),
    {
        let n = self.auto_vary.len();
        let mut i: usize = 0;
        while i < n
            invariant
                n == self.auto_vary@.len(),
                i <= n,
                forall|j: int| 0 <= j < i ==> self.auto_vary@[j].name@ != var.name@,
                *self == *old(self),
            decreases n - i,
        {
            if str_eq(self.auto_vary[i].name.as_str(), var.name.as_str()) {
                return ;
            }
            i += 1;
        }
        proof {
            assert(!spec_has_vary(self.auto_vary@, var.name@));
        }
        self.auto_vary.push(var.clone());
    }
}

/// Whether `name` was already emitted.
pub open spec fn spec_name_done(done: Seq<Seq<char>>, name: Seq<char>) -> bool {
    exists|i: int| 0 <= i < done.len() && done[i] == name
}

/// The first function of `fns` (from index `i` on) called `name`, if any.
pub open spec fn spec_find_fn_from(fns: Seq<ShFn>, name: Seq<char>, i: int) -> Option<int>
    decreases fns.len() - i,
{
    if i < 0 || i >= fns.len() {
        None
    } else if fns[i].name@ == name {
        Some(i)
    } else {
        spec_find_fn_from(fns, name, i + 1)
    }
}

/// The first function of `fns` called `name`, if any.
pub open spec fn spec_find_fn(fns: Seq<ShFn>, name: Seq<char>) -> Option<int> {
    spec_find_fn_from(fns, name, 0)
}

/// The first variable of `vars` (from index `i` on) called `name`, if any.
pub open spec fn spec_find_var_from(vars: Seq<ShVar>, name: Seq<char>, i: int) -> Option<int>
    decreases vars.len() - i,
{
    if i < 0 || i >= vars.len() {
        None
    } else if vars[i].name@ == name {
        Some(i)
    } else {
        spec_find_var_from(vars, name, i + 1)
    }
}

/// The first variable of `vars` called `name`, if any.
pub open spec fn spec_find_var(vars: Seq<ShVar>, name: Seq<char>) -> Option<int> {
    spec_find_var_from(vars, name, 0)
}

proof fn lemma_find_fn_from_hit(fns: Seq<ShFn>, name: Seq<char>, i: int, f: int)
    requires
        spec_find_fn_from(fns, name, i) == Some(f),
    ensures
        i <= f < fns.len(),
        fns[f].name@ == name,
    decreases fns.len() - i,
{
    if !(i < 0 || i >= fns.len()) {
        if fns[i].name@ == name {
        } else {
            lemma_find_fn_from_hit(fns, name, i + 1, f);
        }
    }
}

/// A hit of the function search lies in the table and carries the name.
pub proof fn lemma_find_fn_hit(fns: Seq<ShFn>, name: Seq<char>, f: int)
    requires
        spec_find_fn(fns, name) == Some(f),
    ensures
        0 <= f < fns.len(),
        fns[f].name@ == name,
{
    lemma_find_fn_from_hit(fns, name, 0, f);
}

proof fn lemma_find_var_from_hit(vars: Seq<ShVar>, name: Seq<char>, i: int, f: int)
    requires
        spec_find_var_from(vars, name, i) == Some(f),
    ensures
        i <= f < vars.len(),
        vars[f].name@ == name,
    decreases vars.len() - i,
{
    if !(i < 0 || i >= vars.len()) {
        if vars[i].name@ == name {
        } else {
            lemma_find_var_from_hit(vars, name, i + 1, f);
        }
    }
}

/// A hit of the variable search lies in the table and carries the name.
pub proof fn lemma_find_var_hit(vars: Seq<ShVar>, name: Seq<char>, f: int)
    requires
        spec_find_var(vars, name) == Some(f),
    ensures
        0 <= f < vars.len(),
        vars[f].name@ == name,
{
    lemma_find_var_from_hit(vars, name, 0, f);
}

/// The rendered extra arguments of a user-function call: each prefixed
/// with a comma.
pub open spec fn spec_args_text(args: Seq<String>) -> Seq<char>
    decreases args.len(),
{
    if args.len() == 0 {
        Seq::<char>::empty()
    } else {
        spec_args_text(args.drop_last()) + ", "@ + args.last()@
    }
}

/// The immutable parts of the rewrite context during one emission pass.
pub struct SlEnv {
    pub fns: Seq<ShFn>,
    pub vars: Seq<ShVar>,
    pub target: SlTarget,
    pub call_prefix: Seq<char>,
    pub defargs_fn: Seq<char>,
    pub defargs_call: Seq<char>,
}

impl SlCx {
    /// This context's immutable emission environment over a shader.
    pub open spec fn spec_env(self, sh: Shader) -> SlEnv {
        SlEnv {
            fns: sh.fns@,
            vars: sh.vars@,
            target: self.target,
            call_prefix: self.call_prefix@,
            defargs_fn: self.defargs_fn@,
            defargs_call: self.defargs_call@,
        }
    }
}

/// Emit one DSL function and, before it, every not-yet-emitted function
/// its body calls, recursively: `None` when a called function is missing
/// or the call chain exceeds `depth`. Returns the emitted text and the
/// updated emitted-set and varying list.
pub open spec fn spec_emit_fn(
    env: SlEnv,
    done: Seq<Seq<char>>,
    auto: Seq<ShVar>,
    name: Seq<char>,
    depth: nat,
) -> Option<(Seq<char>, Seq<Seq<char>>, Seq<ShVar>)>
    decreases depth, 0nat, 0nat,
{
    if spec_name_done(done, name) {
        Some((Seq::<char>::empty(), done, auto))
    } else if depth == 0 {
        None
    } else {
        match spec_find_fn(env.fns, name) {
            None => None,
            Some(fi) => {
                let f = env.fns[fi];
                match spec_emit_toks(env, done.push(name), auto, f.body@, 0, (depth - 1) as nat) {
                    None => None,
                    Some((body, deps, done2, auto2)) => Some(
                        (
                            deps + spec_metal(f.ret@) + " "@ + env.call_prefix + name + "("@
                                + env.defargs_fn + f.params@ + "){\n"@ + body + "\n}\n\n"@,
                            done2,
                            auto2,
                        ),
                    ),
                }
            },
        }
    }
}

/// Emit the body tokens `toks[i..]`: the rendered body text, the texts of
/// newly emitted called functions (in call order), and the updated
/// emitted-set and varying list.
pub open spec fn spec_emit_toks(
    env: SlEnv,
    done: Seq<Seq<char>>,
    auto: Seq<ShVar>,
    toks: Seq<ShTok>,
    i: int,
    depth: nat,
) -> Option<(Seq<char>, Seq<char>, Seq<Seq<char>>, Seq<ShVar>)>
    decreases depth, 1nat, (if toks.len() - i >= 0 { toks.len() - i } else { 0 }) as nat,
{
    if i < 0 || i >= toks.len() {
        Some((Seq::<char>::empty(), Seq::<char>::empty(), done, auto))
    } else {
        let step: Option<(Seq<char>, Seq<char>, Seq<Seq<char>>, Seq<ShVar>)> = match toks[i] {
            ShTok::Text(s) => Some((s@, Seq::<char>::empty(), done, auto)),
            ShTok::Ident(id) => match spec_find_var(env.vars, id@) {
                Some(vi) => Some(
                    (
                        spec_map_var_text(env.target, auto, env.vars[vi]),
                        Seq::<char>::empty(),
                        done,
                        spec_map_var_auto(env.target, auto, env.vars[vi]),
                    ),
                ),
                None => Some((id@, Seq::<char>::empty(), done, auto)),
            },
            ShTok::Call(cname, args) => {
                if cname@ == "sample2d"@ && args@.len() >= 2 {
                    Some((spec_sample2d_text(args@[0]@, args@[1]@), Seq::<char>::empty(), done, auto))
                } else {
                    match spec_emit_fn(env, done, auto, cname@, depth) {
                        None => None,
                        Some((deptext, done2, auto2)) => Some(
                            (
                                env.call_prefix + cname@ + "("@ + env.defargs_call + spec_args_text(
                                    args@,
                                ) + ")"@,
                                deptext,
                                done2,
                                auto2,
                            ),
                        ),
                    }
                }
            },
        };
        match step {
            None => None,
            Some((text0, deps0, done1, auto1)) => {
                match spec_emit_toks(env, done1, auto1, toks, i + 1, depth) {
                    None => None,
                    Some((textr, depsr, done2, auto2)) => Some(
                        (text0 + textr, deps0 + depsr, done2, auto2),
                    ),
                }
            },
        }
    }
}

/// Emit the functions of the queue `queue[i..]` in order, with their
/// dependencies.
pub open spec fn spec_emit_list(
    env: SlEnv,
    done: Seq<Seq<char>>,
    auto: Seq<ShVar>,
    queue: Seq<Seq<char>>,
    i: int,
    depth: nat,
) -> Option<(Seq<char>, Seq<Seq<char>>, Seq<ShVar>)>
    decreases depth, 2nat, (if queue.len() - i >= 0 { queue.len() - i } else { 0 }) as nat,
{
    if i < 0 || i >= queue.len() {
        Some((Seq::<char>::empty(), done, auto))
    } else {
        match spec_emit_fn(env, done, auto, queue[i], depth) {
            None => None,
            Some((text0, done1, auto1)) => {
                match spec_emit_list(env, done1, auto1, queue, i + 1, depth) {
                    None => None,
                    Some((textr, done2, auto2)) => Some((text0 + textr, done2, auto2)),
                }
            },
        }
    }
}

/// Whether `name` is among the emitted names.
fn name_done(done: &Vec<String>, name: &str) -> (r: bool)
    ensures
        r == spec_name_done(done.deep_view(), name@),
{
    let n = done.len();
    let mut i: usize = 0;
    while i < n
        invariant
            n == done@.len(),
            i <= n,
            forall|j: int| 0 <= j < i ==> done@[j]@ != name@,
        decreases n - i,
    {
        if str_eq(done[i].as_str(), name) {
            proof {
                assert(done.deep_view()[i as int] == done@[i as int]@);
            }
            return true;
        }
        i += 1;
    }
    proof {
        assert forall|j: int| 0 <= j < done.deep_view().len() implies done.deep_view()[j]
            != name@ by {
            assert(done.deep_view()[j] == done@[j]@);
        }
    }
    false
}

/// Scan the shader's functions for `name`; the first match wins.
fn find_fn(fns: &Vec<ShFn>, name: &str) -> (r: Option<usize>)
    ensures
        ({
            match r {
                Some(i) => spec_find_fn(fns@, name@) == Some(i as int),
                None => spec_find_fn(fns@, name@) is None,
            }
        }),
{
    let n = fns.len();
    let mut i: usize = 0;
    while i < n
        invariant
            n == fns@.len(),
            i <= n,
            spec_find_fn(fns@, name@) == spec_find_fn_from(fns@, name@, i as int),
        decreases n - i,
    {
        if str_eq(fns[i].name.as_str(), name) {
            return Some(i);
        }
        i += 1;
    }
    None
}

/// Scan the shader's variables for `name`; the first match wins.
fn find_var(vars: &Vec<ShVar>, name: &str) -> (r: Option<usize>)
    ensures
        ({
            match r {
                Some(i) => spec_find_var(vars@, name@) == Some(i as int),
                None => spec_find_var(vars@, name@) is None,
            }
        }),
{
    let n = vars.len();
    let mut i: usize = 0;
    while i < n
        invariant
            n == vars@.len(),
            i <= n,
            spec_find_var(vars@, name@) == spec_find_var_from(vars@, name@, i as int),
        decreases n - i,
    {
        if str_eq(vars[i].name.as_str(), name) {
            return Some(i);
        }
        i += 1;
    }
    None
}

/// Emit one DSL function, preceded by its not-yet-emitted dependencies.
fn emit_fn_rec(sh: &Shader, cx: &mut SlCx, name: &str, depth: usize) -> (r: Result<String, SlErr>)
    ensures
        *final(cx) == (SlCx {
            fn_done: final(cx).fn_done,
            auto_vary: final(cx).auto_vary,
            ..*old(cx)
        }),
        ({
            match spec_emit_fn(
                old(cx).spec_env(*sh),
                old(cx).fn_done.deep_view(),
                old(cx).auto_vary@,
                name@,
                depth as nat,
            ) {
                Some((text, done2, auto2)) => {
                    &&& r is Ok
                    &&& r->Ok_0@ == text
                    &&& final(cx).fn_done.deep_view() == done2
                    &&& final(cx).auto_vary@ == auto2
                },
                None => r is Err,
            }
        }),
    decreases depth, 0nat, 0nat,
{
    if name_done(&cx.fn_done, name) {
        return Ok(String::new());
    }
    if depth == 0 {
        return Err(SlErr { msg: String::from_str("shader function call nesting too deep") });
    }
    match find_fn(&sh.fns, name) {
        None => {
            let mut msg = String::from_str("shader function not found: ");
            msg.append(name);
            Err(SlErr { msg })
        },
        Some(fi) => {
            proof {
                lemma_find_fn_hit(sh.fns@, name@, fi as int);
            }
            cx.fn_done.push(name.to_owned());
            proof {
                assert(cx.fn_done.deep_view() =~= old(cx).fn_done.deep_view().push(name@));
            }
            match emit_toks_rec(sh, cx, fi, 0, depth - 1) {
                Err(e) => Err(e),
                Ok((body, deps)) => {
                    let f = &sh.fns[fi];
                    let mut out = deps;
                    let mty = crate::cx::Cx::type_to_metal(f.ret.as_str());
                    out.append(mty.as_str());
                    out.append(" ");
                    out.append(cx.call_prefix.as_str());
                    out.append(name);
                    out.append("(");
                    out.append(cx.defargs_fn.as_str());
                    out.append(f.params.as_str());
                    out.append("){\n");
                    out.append(body.as_str());
                    out.append("\n}\n\n");
                    proof {
                        let spec = spec_emit_fn(
                            old(cx).spec_env(*sh),
                            old(cx).fn_done.deep_view(),
                            old(cx).auto_vary@,
                            name@,
                            depth as nat,
                        );
                        assert(out@ =~= spec->Some_0.0);
                    }
                    Ok(out)
                },
            }
        },
    }
}

/// Emit the body tokens `i..` of the shader function at `fi`: the body
/// text and, separately, the newly emitted called functions.
fn emit_toks_rec(sh: &Shader, cx: &mut SlCx, fi: usize, i: usize, depth: usize) -> (r: Result<
    (String, String),
    SlErr,
>)
    requires
        (fi as int) < sh.fns@.len(),
    ensures
        *final(cx) == (SlCx {
            fn_done: final(cx).fn_done,
            auto_vary: final(cx).auto_vary,
            ..*old(cx)
        }),
        ({
            match spec_emit_toks(
                old(cx).spec_env(*sh),
                old(cx).fn_done.deep_view(),
                old(cx).auto_vary@,
                sh.fns@[fi as int].body@,
                i as int,
                depth as nat,
            ) {
                Some((body, deps, done2, auto2)) => {
                    &&& r is Ok
                    &&& r->Ok_0.0@ == body
                    &&& r->Ok_0.1@ == deps
                    &&& final(cx).fn_done.deep_view() == done2
                    &&& final(cx).auto_vary@ == auto2
                },
                None => r is Err,
            }
        }),
    decreases depth, 1nat, (if sh.fns@[fi as int].body@.len() - i >= 0 {
        sh.fns@[fi as int].body@.len() - i
    } else {
        0
    }) as nat,
{
    let nt = sh.fns[fi].body.len();
    if i >= nt {
        return Ok((String::new(), String::new()));
    }
    let mut text0: String;
    let mut deps0: String = String::new();
    match &sh.fns[fi].body[i] {
        ShTok::Text(s) => {
            text0 = s.clone();
        },
        ShTok::Ident(id) => {
            match find_var(&sh.vars, id.as_str()) {
                Some(vi) => {
                    proof {
                        lemma_find_var_hit(sh.vars@, id@, vi as int);
                    }
                    let v = sh.vars[vi].clone();
                    text0 = cx.map_var(&v);
                },
                None => {
                    text0 = id.clone();
                },
            }
        },
        ShTok::Call(cname, args) => {
            let mapped = cx.map_call(cname.as_str(), args);
            match mapped {
                MapCallResult::Rewrite(t, _ty) => {
                    text0 = t;
                },
                MapCallResult::Keep => {
                    match emit_fn_rec(sh, cx, cname.as_str(), depth) {
                        Err(e) => {
                            return Err(e);
                        },
                        Ok(dep) => {
                            deps0 = dep;
                        },
                    }
                    let mut t = cx.call_prefix.clone();
                    t.append(cname.as_str());
                    t.append("(");
                    t.append(cx.defargs_call.as_str());
                    let na = args.len();
                    let mut k: usize = 0;
                    while k < na
                        invariant
                            na == args@.len(),
                            k <= na,
                            t@ == cx.call_prefix@ + cname@ + "("@ + cx.defargs_call@
                                + spec_args_text(args@.subrange(0, k as int)),
                        decreases na - k,
                    {
                        proof {
                            assert(args@.subrange(0, k + 1).drop_last() =~= args@.subrange(
                                0,
                                k as int,
                            ));
                            assert(args@.subrange(0, k + 1).last() == args@[k as int]);
                        }
                        t.append(", ");
                        t.append(args[k].as_str());
                        k += 1;
                    }
                    t.append(")");
                    proof {
                        assert(args@.subrange(0, na as int) =~= args@);
                    }
                    text0 = t;
                },
            }
        },
    }
    match emit_toks_rec(sh, cx, fi, i + 1, depth) {
        Err(e) => Err(e),
        Ok((body_rest, deps_rest)) => {
            let mut body = text0;
            body.append(body_rest.as_str());
            let mut deps = deps0;
            deps.append(deps_rest.as_str());
            Ok((body, deps))
        },
    }
}

/// Emit the functions queued in `cx.fn_deps`, each preceded by its
/// not-yet-emitted dependencies, walking calls transitively. `Err` names
/// the first missing shader function.
pub fn assemble_fn_and_deps(sh: &Shader, cx: &mut SlCx) -> (r: Result<String, SlErr>)
    requires
        sh.fns@.len() < usize::MAX,
    ensures
        *final(cx) == (SlCx {
            fn_done: final(cx).fn_done,
            auto_vary: final(cx).auto_vary,
            ..*old(cx)
        }),
        ({
            match spec_emit_list(
                old(cx).spec_env(*sh),
                old(cx).fn_done.deep_view(),
                old(cx).auto_vary@,
                old(cx).fn_deps.deep_view(),
                0,
                (sh.fns@.len() + 1) as nat,
            ) {
                Some((text, done2, auto2)) => {
                    &&& r is Ok
                    &&& r->Ok_0@ == text
                    &&& final(cx).fn_done.deep_view() == done2
                    &&& final(cx).auto_vary@ == auto2
                },
                None => r is Err,
            }
        }),
{
    let depth = sh.fns.len() + 1;
    emit_list_rec(sh, cx, 0, depth)
}

fn emit_list_rec(sh: &Shader, cx: &mut SlCx, i: usize, depth: usize) -> (r: Result<String, SlErr>)
    ensures
        *final(cx) == (SlCx {
            fn_done: final(cx).fn_done,
            auto_vary: final(cx).auto_vary,
            ..*old(cx)
        }),
        ({
            match spec_emit_list(
                old(cx).spec_env(*sh),
                old(cx).fn_done.deep_view(),
                old(cx).auto_vary@,
                old(cx).fn_deps.deep_view(),
                i as int,
                depth as nat,
            ) {
                Some((text, done2, auto2)) => {
                    &&& r is Ok
                    &&& r->Ok_0@ == text
                    &&& final(cx).fn_done.deep_view() == done2
                    &&& final(cx).auto_vary@ == auto2
                },
                None => r is Err,
            }
        }),
    decreases old(cx).fn_deps@.len() - i,
{
    if i >= cx.fn_deps.len() {
        return Ok(String::new());
    }
    let name = cx.fn_deps[i].clone();
    proof {
        assert(cx.fn_deps.deep_view()[i as int] == name@);
    }
    match emit_fn_rec(sh, cx, name.as_str(), depth) {
        Err(e) => Err(e),
        Ok(text0) => {
            match emit_list_rec(sh, cx, i + 1, depth) {
                Err(e) => Err(e),
                Ok(textr) => {
                    let mut out = text0;
                    out.append(textr.as_str());
                    Ok(out)
                },
            }
        },
    }
}

/// The field lines of a scope struct block, in declaration order.
pub open spec fn spec_struct_fields(vars: Seq<ShVar>, packed: bool) -> Seq<char>
    decreases vars.len(),
{
    if vars.len() == 0 {
        Seq::<char>::empty()
    } else {
        spec_struct_fields(vars.drop_last(), packed) + "  "@ + (if packed {
            spec_packed_metal(vars.last().ty@)
        } else {
            spec_metal(vars.last().ty@)
        }) + " "@ + vars.last().name@ + ";\n"@
    }
}

/// A whole scope struct block.
pub open spec fn spec_struct_block(
    name: Seq<char>,
    vars: Seq<ShVar>,
    packed: bool,
    field: Seq<char>,
) -> Seq<char> {
    "struct "@ + name + "{\n"@ + field + spec_struct_fields(vars, packed) + "};\n\n"@
}

/// The binding lines of the texture slot block, slot indices increasing
/// in declaration order.
pub open spec fn spec_texture_fields(textures: Seq<ShVar>) -> Seq<char>
    decreases textures.len(),
{
    if textures.len() == 0 {
        Seq::<char>::empty()
    } else {
        spec_texture_fields(textures.drop_last()) + "texture2d<float> "@ + textures.last().name@
            + " [[texture("@ + dec_digits((textures.len() - 1) as nat) + ")]];\n"@
    }
}

/// The whole texture slot block.
pub open spec fn spec_texture_block(textures: Seq<ShVar>) -> Seq<char> {
    "struct "@ + "_Tex{\n"@ + spec_texture_fields(textures) + "};\n\n"@
}

/// The emitted Metal source plus the layout metadata cached for the
/// runtime.
#[derive(Debug)]
pub struct AssembledMtlShader {
    pub instance_slots: usize,
    pub uniforms_dr: Vec<ShVar>,
    pub uniforms_dl: Vec<ShVar>,
    pub uniforms_cx: Vec<ShVar>,
    pub texture_slots: Vec<ShVar>,
    pub rect_instance_props: crate::shader::RectInstanceProps,
    pub named_instance_props: crate::shader::NamedInstanceProps,
    pub mtlsl: String,
}

/// The vertex-entry lines copying each synthesized varying from its
/// geometry or instance source.
pub open spec fn spec_vary_copies(auto: Seq<ShVar>) -> Seq<char>
    decreases auto.len(),
{
    if auto.len() == 0 {
        Seq::<char>::empty()
    } else {
        spec_vary_copies(auto.drop_last()) + (match auto.last().store {
            ShVarStore::Geometry => "       _vary."@ + auto.last().name@ + " = _geom."@
                + auto.last().name@ + ";\n"@,
            ShVarStore::Instance => "       _vary."@ + auto.last().name@ + " = _inst."@
                + auto.last().name@ + ";\n"@,
            _ => Seq::<char>::empty(),
        })
    }
}

/// The vertex-cone emission environment over `sh`.
pub open spec fn spec_vtx_env(sh: Shader) -> SlEnv {
    SlEnv {
        fns: sh.fns@,
        vars: sh.vars@,
        target: SlTarget::Vertex,
        call_prefix: "_"@,
        defargs_fn: "_Tex _tex, thread _Loc &_loc, thread _Vary &_vary, thread _Geom &_geom, thread _Inst &_inst, device _UniCx &_uni_cx, device _UniDl &_uni_dl, device _UniDr &_uni_dr"@,
        defargs_call: "_tex, _loc, _vary, _geom, _inst, _uni_cx, _uni_dl, _uni_dr"@,
    }
}

/// The pixel-cone emission environment over `sh`.
pub open spec fn spec_pix_env(sh: Shader) -> SlEnv {
    SlEnv {
        fns: sh.fns@,
        vars: sh.vars@,
        target: SlTarget::Pixel,
        call_prefix: "_"@,
        defargs_fn: "_Tex _tex, thread _Loc &_loc, thread _Vary &_vary, device _UniCx &_uni_cx, device _UniDl &_uni_dl, device _UniDr &_uni_dr"@,
        defargs_call: "_tex, _loc, _vary, _uni_cx, _uni_dl, _uni_dr"@,
    }
}

/// The shader's variables stored in `store`.
pub open spec fn spec_store_vars(sh: Shader, store: ShVarStore) -> Seq<ShVar> {
    sh.vars@.filter(|v: ShVar| v.store == store)
}

/// The pixel cone's emission, run after the vertex cone (sharing its
/// emitted-function record).
pub open spec fn spec_shader_emits(sh: Shader) -> Option<
    (Seq<char>, Seq<char>, Seq<ShVar>),
> {
    let depth = (sh.fns@.len() + 1) as nat;
    match spec_emit_list(
        spec_vtx_env(sh),
        Seq::<Seq<char>>::empty(),
        Seq::<ShVar>::empty(),
        seq!["vertex"@],
        0,
        depth,
    ) {
        None => None,
        Some((vtx_text, done1, _autov)) => {
            match spec_emit_list(
                spec_pix_env(sh),
                done1,
                Seq::<ShVar>::empty(),
                seq!["pixel"@],
                0,
                depth,
            ) {
                None => None,
                Some((pix_text, _done2, auto)) => Some((vtx_text, pix_text, auto)),
            }
        },
    }
}

/// The entire emitted Metal source of a shader, or `None` when a
/// referenced function is missing.
pub open spec fn spec_assembled_source(sh: Shader) -> Option<Seq<char>> {
    match spec_shader_emits(sh) {
        None => None,
        Some((vtx_text, pix_text, auto)) => Some(
            "#include <metal_stdlib>\nusing namespace metal;\n"@ + spec_struct_block(
                "_Geom"@,
                spec_store_vars(sh, ShVarStore::Geometry),
                true,
                ""@,
            ) + spec_struct_block("_Inst"@, spec_store_vars(sh, ShVarStore::Instance), true, ""@)
                + spec_struct_block(
                "_UniCx"@,
                spec_store_vars(sh, ShVarStore::UniformCx),
                true,
                ""@,
            ) + spec_struct_block("_UniDl"@, spec_store_vars(sh, ShVarStore::UniformDl), true, ""@)
                + spec_struct_block("_UniDr"@, spec_store_vars(sh, ShVarStore::Uniform), true, ""@)
                + spec_struct_block("_Loc"@, spec_store_vars(sh, ShVarStore::Local), false, ""@)
                + spec_texture_block(spec_store_vars(sh, ShVarStore::Texture)) + spec_struct_block(
                "_Vary"@,
                spec_store_vars(sh, ShVarStore::Varying) + auto,
                false,
                "  float4 mtl_position [[position]];\n"@,
            ) + "//Vertex shader\n"@ + vtx_text + "//Pixel shader\n"@ + pix_text
                + "vertex _Vary _vertex_shader(_Tex _tex, device _Geom *in_geometries [[buffer(0)]], device _Inst *in_instances [[buffer(1)]],\n"@
                + "  device _UniCx &_uni_cx [[buffer(2)]], device _UniDl &_uni_dl [[buffer(3)]], device _UniDr &_uni_dr [[buffer(4)]],\n"@
                + "  uint vtx_id [[vertex_id]], uint inst_id [[instance_id]]){\n"@
                + "  _Loc _loc;\n"@ + "  _Vary _vary;\n"@
                + "  _Geom _geom = in_geometries[vtx_id];\n"@
                + "  _Inst _inst = in_instances[inst_id];\n"@ + "  _vary.mtl_position = _vertex("@
                + "_tex, _loc, _vary, _geom, _inst, _uni_cx, _uni_dl, _uni_dr"@ + ");\n\n"@
                + spec_vary_copies(auto) + "       return _vary;\n"@ + "};\n"@
                + "fragment float4 _fragment_shader(_Vary _vary[[stage_in]],_Tex _tex,\n"@
                + "  device _UniCx &_uni_cx [[buffer(0)]], device _UniDl &_uni_dl [[buffer(1)]], device _UniDr &_uni_dr [[buffer(2)]]){\n"@
                + "  _Loc _loc;\n"@ + "  return _pixel("@
                + "_tex, _loc, _vary, _uni_cx, _uni_dl, _uni_dr"@ + ");\n};\n"@,
        ),
    }
}

/// What one compiled-shader record looks like after shader `sid` was
/// compiled: on success the emitted source, the slot count and the cached
/// attribute tables, with geometry uploaded and no pipeline bound yet;
/// on failure a defaulted record, so that shader ids stay stable.
pub open spec fn spec_compiled_record(sh: Shader, cs: crate::cx::CompiledShader, sid: int) -> bool {
    match spec_assembled_source(sh) {
        Some(txt) => {
            let instances = spec_store_vars(sh, ShVarStore::Instance);
            &&& cs.shader_id == sid
            &&& cs.pipeline_state is None
            &&& cs.mtlsl@ == txt
            &&& cs.instance_slots == crate::shader::spec_slot_total(instances)
            &&& crate::shader::opt_offset(cs.rect_instance_props.x)
                == crate::shader::spec_named_offset(instances, "x"@)
            &&& crate::shader::opt_offset(cs.rect_instance_props.y)
                == crate::shader::spec_named_offset(instances, "y"@)
            &&& crate::shader::opt_offset(cs.rect_instance_props.w)
                == crate::shader::spec_named_offset(instances, "w"@)
            &&& crate::shader::opt_offset(cs.rect_instance_props.h)
                == crate::shader::spec_named_offset(instances, "h"@)
            &&& cs.named_instance_props.props@.len() == instances.len()
            &&& (forall|i: int|
                0 <= i < instances.len() ==> (#[trigger] cs.named_instance_props.props@[i]).name@
                    == instances[i].name@ && cs.named_instance_props.props@[i].offset
                    == crate::shader::spec_slot_total(instances.subrange(0, i)))
            &&& cs.geom_vbuf.allocated && cs.geom_vbuf.data@ == sh.geometry_vertices@
                && cs.geom_vbuf.used == sh.geometry_vertices@.len()
            &&& cs.geom_ibuf.allocated && cs.geom_ibuf.data@ == sh.geometry_indices@
                && cs.geom_ibuf.used == sh.geometry_indices@.len()
        },
        None => {
            &&& cs.pipeline_state is None
            &&& cs.instance_slots == 0
            &&& cs.rect_instance_props.x is None
            &&& cs.rect_instance_props.y is None
            &&& cs.rect_instance_props.w is None
            &&& cs.rect_instance_props.h is None
            &&& cs.named_instance_props.props@.len() == 0
            &&& cs.mtlsl@.len() == 0
        },
    }
}

/// A body token the emitter always renders without walking a function
/// dependency: anything but a call, or a `sample2d` call (which is
/// rewritten in place).
pub open spec fn spec_tok_inline(tok: ShTok) -> bool {
    match tok {
        ShTok::Call(name, args) => name@ == "sample2d"@ && args@.len() >= 2,
        _ => true,
    }
}

/// A shader function whose body needs no dependency walk.
pub open spec fn spec_fn_inline(f: ShFn) -> bool {
    forall|i: int| 0 <= i < f.body@.len() ==> spec_tok_inline(#[trigger] f.body@[i])
}

proof fn lemma_inline_toks_emit(
    env: SlEnv,
    done: Seq<Seq<char>>,
    auto: Seq<ShVar>,
    toks: Seq<ShTok>,
    i: int,
    depth: nat,
)
    requires
        forall|k: int| 0 <= k < toks.len() ==> spec_tok_inline(#[trigger] toks[k]),
    ensures
        spec_emit_toks(env, done, auto, toks, i, depth) is Some,
    decreases (if toks.len() - i >= 0 { toks.len() - i } else { 0 }) as nat,
{
    if i < 0 || i >= toks.len() {
    } else {
        match toks[i] {
            ShTok::Text(s) => {
                lemma_inline_toks_emit(env, done, auto, toks, i + 1, depth);
            },
            ShTok::Ident(id) => {
                match spec_find_var(env.vars, id@) {
                    Some(vi) => {
                        lemma_inline_toks_emit(
                            env,
                            done,
                            spec_map_var_auto(env.target, auto, env.vars[vi]),
                            toks,
                            i + 1,
                            depth,
                        );
                    },
                    None => {
                        lemma_inline_toks_emit(env, done, auto, toks, i + 1, depth);
                    },
                }
            },
            ShTok::Call(cname, args) => {
                lemma_inline_toks_emit(env, done, auto, toks, i + 1, depth);
            },
        }
    }
}

/// An entry function that exists, has an inline-only body and at least
/// one unit of depth always emits.
proof fn lemma_inline_fn_emits(
    env: SlEnv,
    done: Seq<Seq<char>>,
    auto: Seq<ShVar>,
    name: Seq<char>,
    depth: nat,
)
    requires
        depth >= 1,
        spec_find_fn(env.fns, name) is Some,
        spec_fn_inline(env.fns[spec_find_fn(env.fns, name)->Some_0]),
    ensures
        spec_emit_fn(env, done, auto, name, depth) is Some,
{
    if spec_name_done(done, name) {
    } else {
        let fi = spec_find_fn(env.fns, name)->Some_0;
        lemma_inline_toks_emit(
            env,
            done.push(name),
            auto,
            env.fns[fi].body@,
            0,
            (depth - 1) as nat,
        );
    }
}

/// A shader whose `vertex` and `pixel` functions exist with inline-only
/// bodies (no calls, or only `sample2d` calls) always transpiles: the
/// emitted source exists, so `assemble_shader` returns `Ok`.
pub proof fn lemma_inline_shader_assembles(sh: Shader)
    requires
        spec_find_fn(sh.fns@, "vertex"@) is Some,
        spec_fn_inline(sh.fns@[spec_find_fn(sh.fns@, "vertex"@)->Some_0]),
        spec_find_fn(sh.fns@, "pixel"@) is Some,
        spec_fn_inline(sh.fns@[spec_find_fn(sh.fns@, "pixel"@)->Some_0]),
    ensures
        spec_assembled_source(sh) is Some,
{
    let depth = (sh.fns@.len() + 1) as nat;
    lemma_find_fn_hit(sh.fns@, "vertex"@, spec_find_fn(sh.fns@, "vertex"@)->Some_0);
    let vq = seq!["vertex"@];
    let pq = seq!["pixel"@];
    lemma_inline_fn_emits(
        spec_vtx_env(sh),
        Seq::<Seq<char>>::empty(),
        Seq::<ShVar>::empty(),
        "vertex"@,
        depth,
    );
    let vres = spec_emit_fn(
        spec_vtx_env(sh),
        Seq::<Seq<char>>::empty(),
        Seq::<ShVar>::empty(),
        "vertex"@,
        depth,
    );
    assert(vq[0] == "vertex"@);
    let (vt, vd, va) = vres->Some_0;
    assert(spec_emit_list(spec_vtx_env(sh), vd, va, vq, 1, depth) is Some);
    assert(spec_emit_list(
        spec_vtx_env(sh),
        Seq::<Seq<char>>::empty(),
        Seq::<ShVar>::empty(),
        vq,
        0,
        depth,
    ) is Some);
    let done1 = spec_emit_list(
        spec_vtx_env(sh),
        Seq::<Seq<char>>::empty(),
        Seq::<ShVar>::empty(),
        vq,
        0,
        depth,
    )->Some_0.1;
    lemma_inline_fn_emits(spec_pix_env(sh), done1, Seq::<ShVar>::empty(), "pixel"@, depth);
    assert(pq[0] == "pixel"@);
    let pres = spec_emit_fn(spec_pix_env(sh), done1, Seq::<ShVar>::empty(), "pixel"@, depth);
    let (pt, pd, pa) = pres->Some_0;
    assert(spec_emit_list(spec_pix_env(sh), pd, pa, pq, 1, depth) is Some);
    assert(spec_emit_list(spec_pix_env(sh), done1, Seq::<ShVar>::empty(), pq, 0, depth) is Some);
}

impl crate::cx::Cx {
    /// Compile one shader: transpile it and build its record with the
    /// geometry buffers uploaded. The backend compiles the emitted source
    /// and binds the resulting pipeline through `set_pipeline_state`.
    pub fn compile_mtl_shader(sh: &Shader) -> (r: Result<crate::cx::CompiledShader, SlErr>)
        requires
            16 * sh.vars@.len() <= usize::MAX,
            sh.fns@.len() < usize::MAX,
        ensures
            r is Ok <==> spec_assembled_source(*sh) is Some,
            r is Ok ==> spec_compiled_record(*sh, r->Ok_0, 0),
    {
        let ash = match Self::assemble_shader(sh) {
            Ok(a) => a,
            Err(e) => {
                return Err(e);
            },
        };
        let mut geom_vbuf = crate::buffer::MetalBuffer::default();
        geom_vbuf.update_with_f32_data(&sh.geometry_vertices);
        let mut geom_ibuf = crate::buffer::MetalBuffer::default();
        geom_ibuf.update_with_u32_data(&sh.geometry_indices);
        Ok(
            crate::cx::CompiledShader {
                shader_id: 0,
                pipeline_state: None,
                geom_vbuf,
                geom_ibuf,
                instance_slots: ash.instance_slots,
                rect_instance_props: ash.rect_instance_props,
                named_instance_props: ash.named_instance_props,
                mtlsl: ash.mtlsl,
            },
        )
    }

    /// Compile every registered shader, in order. A shader whose
    /// transpilation fails gets a defaulted record so that shader ids
    /// stay stable; its draw-calls are later skipped for want of a
    /// pipeline.
    pub fn compile_all_mtl_shaders(&mut self)
        requires
            old(self).wf(),
            old(self).compiled_shaders@.len() == 0,
            forall|i: int|
                0 <= i < old(self).shaders@.len() ==> 16 * (#[trigger] old(self).shaders@[i]).vars@.len() <= usize::MAX && old(self).shaders@[i].fns@.len()
                    < usize::MAX,
        ensures
            final(self).wf(),
            *final(self) == (crate::cx::Cx {
                compiled_shaders: final(self).compiled_shaders,
                ..*old(self)
            }),
            final(self).compiled_shaders@.len() == old(self).shaders@.len(),
            forall|i: int|
                0 <= i < old(self).shaders@.len() ==> spec_compiled_record(
                    old(self).shaders@[i],
                    #[trigger] final(self).compiled_shaders@[i],
                    i,
                ),
    {
        let n = self.shaders.len();
        let mut i: usize = 0;
        while i < n
            invariant
                n == self.shaders@.len(),
                i <= n,
                *self == (crate::cx::Cx {
                    compiled_shaders: self.compiled_shaders,
                    ..*old(self)
                }),
                self.compiled_shaders@.len() == i,
                forall|k: int|
                    0 <= k < i ==> spec_compiled_record(
                        old(self).shaders@[k],
                        #[trigger] self.compiled_shaders@[k],
                        k,
                    ),
                forall|k: int|
                    0 <= k < n ==> 16 * (#[trigger] old(self).shaders@[k]).vars@.len()
                        <= usize::MAX && old(self).shaders@[k].fns@.len() < usize::MAX,
            decreases n - i,
        {
            let id = self.compiled_shaders.len();
            match Self::compile_mtl_shader(&self.shaders[i]) {
                Ok(mut mtlsh) => {
                    mtlsh.shader_id = id;
                    self.compiled_shaders.push(mtlsh);
                },
                Err(_err) => {
                    self.compiled_shaders.push(
                        crate::cx::CompiledShader {
                            shader_id: id,
                            pipeline_state: None,
                            geom_vbuf: crate::buffer::MetalBuffer::default(),
                            geom_ibuf: crate::buffer::MetalBuffer::default(),
                            instance_slots: 0,
                            rect_instance_props: crate::shader::RectInstanceProps {
                                x: None,
                                y: None,
                                w: None,
                                h: None,
                            },
                            named_instance_props: crate::shader::NamedInstanceProps {
                                props: Vec::new(),
                            },
                            mtlsl: String::new(),
                        },
                    );
                },
            }
            i += 1;
        }
        proof {
            assert forall|dl: int, dc: int|
                0 <= dl < self.draw_lists@.len() && 0 <= dc
                    < self.draw_lists@[dl].draw_calls@.len() implies #[trigger] self.spec_call_wf(
                dl,
                dc,
            ) by {
                assert(old(self).spec_call_wf(dl, dc));
            }
        }
    }

    /// Record the backend's pipeline handle for a compiled shader.
    pub fn set_pipeline_state(&mut self, shader_id: usize, pipeline: usize)
        requires
            (shader_id as int) < old(self).compiled_shaders@.len(),
        ensures
            *final(self) == (crate::cx::Cx {
                compiled_shaders: final(self).compiled_shaders,
                ..*old(self)
            }),
            final(self).compiled_shaders@.len() == old(self).compiled_shaders@.len(),
            forall|i: int|
                0 <= i < old(self).compiled_shaders@.len() && i != shader_id as int ==> final(self).compiled_shaders@[i] == old(self).compiled_shaders@[i],
            final(self).compiled_shaders@[shader_id as int] == (crate::cx::CompiledShader {
                pipeline_state: Some(pipeline),
                ..old(self).compiled_shaders@[shader_id as int]
            }),
            old(self).wf() ==> final(self).wf(),
    {
        let cs = &mut self.compiled_shaders[shader_id];
        cs.pipeline_state = Some(pipeline);
        proof {
            if old(self).wf() {
                assert forall|dl: int, dc: int|
                    0 <= dl < self.draw_lists@.len() && 0 <= dc
                        < self.draw_lists@[dl].draw_calls@.len() implies #[trigger] self.spec_call_wf(
                    dl,
                    dc,
                ) by {
                    assert(old(self).spec_call_wf(dl, dc));
                    assert(self.spec_call_slots(dl, dc) == old(self).spec_call_slots(dl, dc));
                }
            }
        }
    }

    /// Transpile a shader to Metal source with its layout metadata:
    /// scope struct blocks, the texture slot block, the vertex and pixel
    /// dependency cones (pixel-side geometry/instance references lifted
    /// into synthesized varyings), the `_Vary` struct and the two entry
    /// points. `Err` exactly when a referenced DSL function is missing.
    pub fn assemble_shader(sh: &Shader) -> (r: Result<AssembledMtlShader, SlErr>)
        requires
            16 * sh.vars@.len() <= usize::MAX,
            sh.fns@.len() < usize::MAX,
        ensures
            r is Ok <==> spec_assembled_source(*sh) is Some,
            r is Ok ==> ({
                let ash = r->Ok_0;
                let instances = spec_store_vars(*sh, ShVarStore::Instance);
                &&& ash.mtlsl@ == spec_assembled_source(*sh)->Some_0
                &&& ash.instance_slots == crate::shader::spec_slot_total(instances)
                &&& crate::shader::opt_offset(ash.rect_instance_props.x)
                    == crate::shader::spec_named_offset(instances, "x"@)
                &&& crate::shader::opt_offset(ash.rect_instance_props.y)
                    == crate::shader::spec_named_offset(instances, "y"@)
                &&& crate::shader::opt_offset(ash.rect_instance_props.w)
                    == crate::shader::spec_named_offset(instances, "w"@)
                &&& crate::shader::opt_offset(ash.rect_instance_props.h)
                    == crate::shader::spec_named_offset(instances, "h"@)
                &&& ash.named_instance_props.props@.len() == instances.len()
                &&& (forall|i: int|
                    0 <= i < instances.len() ==> (
                    #[trigger] ash.named_instance_props.props@[i]).name@ == instances[i].name@
                        && ash.named_instance_props.props@[i].offset
                        == crate::shader::spec_slot_total(instances.subrange(0, i)))
                &&& ash.uniforms_dr@ == spec_store_vars(*sh, ShVarStore::Uniform)
                &&& ash.uniforms_dl@ == spec_store_vars(*sh, ShVarStore::UniformDl)
                &&& ash.uniforms_cx@ == spec_store_vars(*sh, ShVarStore::UniformCx)
                &&& ash.texture_slots@ == spec_store_vars(*sh, ShVarStore::Texture)
            }),
    {
        let mut mtl_out = String::from_str("#include <metal_stdlib>\nusing namespace metal;\n");

        let texture_slots = sh.flat_vars(ShVarStore::Texture);
        let geometries = sh.flat_vars(ShVarStore::Geometry);
        let instances = sh.flat_vars(ShVarStore::Instance);
        let mut varyings = sh.flat_vars(ShVarStore::Varying);
        let locals = sh.flat_vars(ShVarStore::Local);
        let uniforms_cx = sh.flat_vars(ShVarStore::UniformCx);
        let uniforms_dl = sh.flat_vars(ShVarStore::UniformDl);
        let uniforms_dr = sh.flat_vars(ShVarStore::Uniform);

        proof {
            sh.vars@.lemma_filter_len(|v: ShVar| v.store == ShVarStore::Instance);
        }
        let instance_slots = sh.compute_slot_total(&instances);

        let block = Self::assemble_struct("_Geom", &geometries, true, "");
        mtl_out.append(block.as_str());
        let block = Self::assemble_struct("_Inst", &instances, true, "");
        mtl_out.append(block.as_str());
        let block = Self::assemble_struct("_UniCx", &uniforms_cx, true, "");
        mtl_out.append(block.as_str());
        let block = Self::assemble_struct("_UniDl", &uniforms_dl, true, "");
        mtl_out.append(block.as_str());
        let block = Self::assemble_struct("_UniDr", &uniforms_dr, true, "");
        mtl_out.append(block.as_str());
        let block = Self::assemble_struct("_Loc", &locals, false, "");
        mtl_out.append(block.as_str());

        let block = Self::assemble_texture_slots(&texture_slots);
        mtl_out.append(block.as_str());

        let mut vtx_deps: Vec<String> = Vec::new();
        vtx_deps.push(String::from_str("vertex"));
        proof {
            assert(vtx_deps.deep_view() =~= seq!["vertex"@]);
        }
        let mut vtx_cx = SlCx {
            depth: 0,
            target: SlTarget::Vertex,
            defargs_fn: String::from_str(
                "_Tex _tex, thread _Loc &_loc, thread _Vary &_vary, thread _Geom &_geom, thread _Inst &_inst, device _UniCx &_uni_cx, device _UniDl &_uni_dl, device _UniDr &_uni_dr",
            ),
            defargs_call: String::from_str(
                "_tex, _loc, _vary, _geom, _inst, _uni_cx, _uni_dl, _uni_dr",
            ),
            call_prefix: String::from_str("_"),
            fn_deps: vtx_deps,
            fn_done: Vec::new(),
            auto_vary: Vec::new(),
        };
        proof {
            assert(vtx_cx.spec_env(*sh) == spec_vtx_env(*sh));
            assert(vtx_cx.fn_done.deep_view() =~= Seq::<Seq<char>>::empty());
        }
        let vtx_fns = match assemble_fn_and_deps(sh, &mut vtx_cx) {
            Ok(t) => t,
            Err(e) => {
                return Err(e);
            },
        };

        let mut pix_deps: Vec<String> = Vec::new();
        pix_deps.push(String::from_str("pixel"));
        proof {
            assert(pix_deps.deep_view() =~= seq!["pixel"@]);
        }
        let mut pix_cx = SlCx {
            depth: 0,
            target: SlTarget::Pixel,
            defargs_fn: String::from_str(
                "_Tex _tex, thread _Loc &_loc, thread _Vary &_vary, device _UniCx &_uni_cx, device _UniDl &_uni_dl, device _UniDr &_uni_dr",
            ),
            defargs_call: String::from_str("_tex, _loc, _vary, _uni_cx, _uni_dl, _uni_dr"),
            call_prefix: String::from_str("_"),
            fn_deps: pix_deps,
            fn_done: vtx_cx.fn_done,
            auto_vary: Vec::new(),
        };
        proof {
            assert(pix_cx.spec_env(*sh) == spec_pix_env(*sh));
        }
        let pix_fns = match assemble_fn_and_deps(sh, &mut pix_cx) {
            Ok(t) => t,
            Err(e) => {
                return Err(e);
            },
        };

        let na = pix_cx.auto_vary.len();
        let mut i: usize = 0;
        while i < na
            invariant
                na == pix_cx.auto_vary@.len(),
                i <= na,
                varyings@ == spec_store_vars(*sh, ShVarStore::Varying) + pix_cx.auto_vary@.subrange(
                    0,
                    i as int,
                ),
            decreases na - i,
        {
            proof {
                assert(pix_cx.auto_vary@.subrange(0, i + 1) =~= pix_cx.auto_vary@.subrange(
                    0,
                    i as int,
                ).push(pix_cx.auto_vary@[i as int]));
            }
            varyings.push(pix_cx.auto_vary[i].clone());
            i += 1;
        }
        proof {
            assert(pix_cx.auto_vary@.subrange(0, na as int) =~= pix_cx.auto_vary@);
        }

        let block = Self::assemble_struct(
            "_Vary",
            &varyings,
            false,
            "  float4 mtl_position [[position]];\n",
        );
        mtl_out.append(block.as_str());

        mtl_out.append("//Vertex shader\n");
        mtl_out.append(vtx_fns.as_str());
        mtl_out.append("//Pixel shader\n");
        mtl_out.append(pix_fns.as_str());

        mtl_out.append(
            "vertex _Vary _vertex_shader(_Tex _tex, device _Geom *in_geometries [[buffer(0)]], device _Inst *in_instances [[buffer(1)]],\n",
        );
        mtl_out.append(
            "  device _UniCx &_uni_cx [[buffer(2)]], device _UniDl &_uni_dl [[buffer(3)]], device _UniDr &_uni_dr [[buffer(4)]],\n",
        );
        mtl_out.append("  uint vtx_id [[vertex_id]], uint inst_id [[instance_id]]){\n");
        mtl_out.append("  _Loc _loc;\n");
        mtl_out.append("  _Vary _vary;\n");
        mtl_out.append("  _Geom _geom = in_geometries[vtx_id];\n");
        mtl_out.append("  _Inst _inst = in_instances[inst_id];\n");
        mtl_out.append("  _vary.mtl_position = _vertex(");
        mtl_out.append("_tex, _loc, _vary, _geom, _inst, _uni_cx, _uni_dl, _uni_dr");
        mtl_out.append(");\n\n");

        let ghost copied_prefix = mtl_out@;
        let mut j: usize = 0;
        while j < na
            invariant
                na == pix_cx.auto_vary@.len(),
                j <= na,
                mtl_out@ == copied_prefix + spec_vary_copies(pix_cx.auto_vary@.subrange(0, j as int)),
            decreases na - j,
        {
            proof {
                assert(pix_cx.auto_vary@.subrange(0, j + 1).drop_last() =~= pix_cx.auto_vary@.subrange(
                    0,
                    j as int,
                ));
                assert(pix_cx.auto_vary@.subrange(0, j + 1).last() == pix_cx.auto_vary@[j as int]);
            }
            let auto = &pix_cx.auto_vary[j];
            match auto.store {
                ShVarStore::Geometry => {
                    mtl_out.append("       _vary.");
                    mtl_out.append(auto.name.as_str());
                    mtl_out.append(" = _geom.");
                    mtl_out.append(auto.name.as_str());
                    mtl_out.append(";\n");
                },
                ShVarStore::Instance => {
                    mtl_out.append("       _vary.");
                    mtl_out.append(auto.name.as_str());
                    mtl_out.append(" = _inst.");
                    mtl_out.append(auto.name.as_str());
                    mtl_out.append(";\n");
                },
                _ => (),
            }
            j += 1;
        }
        proof {
            assert(pix_cx.auto_vary@.subrange(0, na as int) =~= pix_cx.auto_vary@);
        }

        mtl_out.append("       return _vary;\n");
        mtl_out.append("};\n");
        mtl_out.append("fragment float4 _fragment_shader(_Vary _vary[[stage_in]],_Tex _tex,\n");
        mtl_out.append(
            "  device _UniCx &_uni_cx [[buffer(0)]], device _UniDl &_uni_dl [[buffer(1)]], device _UniDr &_uni_dr [[buffer(2)]]){\n",
        );
        mtl_out.append("  _Loc _loc;\n");
        mtl_out.append("  return _pixel(");
        mtl_out.append("_tex, _loc, _vary, _uni_cx, _uni_dl, _uni_dr");
        mtl_out.append(");\n};\n");

        let rect_instance_props = crate::shader::RectInstanceProps::construct(&instances);
        let named_instance_props = crate::shader::NamedInstanceProps::construct(&instances);
        proof {
            assert(mtl_out@ =~= spec_assembled_source(*sh)->Some_0);
        }
        Ok(
            AssembledMtlShader {
                instance_slots,
                uniforms_dr,
                uniforms_dl,
                uniforms_cx,
                texture_slots,
                rect_instance_props,
                named_instance_props,
                mtlsl: mtl_out,
            },
        )
    }
}

} // verus!
