//! Shader program state.
//!
//! Compiling and linking happen in the native API; what a linked program
//! leaves behind for the rest of a renderer is its handle and the table of
//! active uniforms discovered at link time. This module carries that table
//! and the bookkeeping around it: uniform names are cleaned of the trailing
//! NUL padding and `[0]` suffixes the native enumeration reports, uniform
//! arrays are resolved one element name at a time up to a fixed cap, and
//! lookups by name and element index answer with the recorded native
//! location or a typed error.
//!
//! Uniform names are byte strings, exactly as the native API reports them.

use vstd::prelude::*;

use crate::buffer::GlOp;
use crate::uniform;
use crate::uniform::UniformSet;

verus! {

/// Native enumerant of the vertex shader stage.
pub const VERTEX_SHADER: u32 = 0x8B31;

/// Native enumerant of the fragment shader stage.
pub const FRAGMENT_SHADER: u32 = 0x8B30;

/// Largest number of elements of one uniform array that is resolved at
/// discovery time.
pub const UNIFORM_ARRAY_CAP: usize = 9;

/// Errors of shader construction.
#[derive(Clone, PartialEq, Eq, Debug)]
pub enum Error {
    /// A shader source could not be loaded; carries the resource name and
    /// the loader's message.
    ResourceLoadError { name: String, message: String },
    /// The file extension names no shader stage.
    UnknownShaderType { name: String },
    /// The native compiler rejected a shader source; carries the shader
    /// name and the native diagnostic log.
    CompileError { name: String, message: String },
    /// The native linker rejected the program; carries the program name and
    /// the native diagnostic log.
    LinkError { name: String, message: String },
    /// A name was not valid text.
    EncodingError,
}

/// Wraps one compiled shader stage object.
#[derive(Debug)]
pub struct Shader {
    pub id: u32,
}

impl Shader {
    /// Wrap the handle of a compiled shader stage.
    pub fn new(id: u32) -> (r: Shader)
        ensures
            r.id == id,
    {
        Shader { id }
    }

    /// Decide the outcome of a native compile: the wrapped stage when the
    /// compiler reported success, else a compile error carrying the
    /// shader's name and the native diagnostic log.
    pub fn from_compile_status(id: u32, success: bool, name: String, log: String) -> (r: Result<
        Shader,
        Error,
    >)
        ensures
            success ==> (r matches Ok(s) && s.id == id),
            !success ==> (r matches Err(e) && e == (Error::CompileError { name, message: log })),
    {
        if success {
            Ok(Shader::new(id))
        } else {
            Err(Error::CompileError { name, message: log })
        }
    }
}

/// The shader stage a source file's extension names: `vert` compiles as a
/// vertex shader and `frag` as a fragment shader.
pub fn shader_type_for_extension(ext: &Vec<u8>) -> (r: Option<u32>)
    ensures
        ext@ == seq![118u8, 101u8, 114u8, 116u8] ==> r == Some(VERTEX_SHADER),
        ext@ == seq![102u8, 114u8, 97u8, 103u8] ==> r == Some(FRAGMENT_SHADER),
        ext@ != seq![118u8, 101u8, 114u8, 116u8] && ext@ != seq![102u8, 114u8, 97u8, 103u8]
            ==> r is None,
{
    if ext.len() == 4 && ext[0] == 118 && ext[1] == 101 && ext[2] == 114 && ext[3] == 116 {
        proof {
            assert(ext@ =~= seq![118u8, 101u8, 114u8, 116u8]);
        }
        Some(VERTEX_SHADER)
    } else if ext.len() == 4 && ext[0] == 102 && ext[1] == 114 && ext[2] == 97 && ext[3] == 103 {
        proof {
            assert(ext@ =~= seq![102u8, 114u8, 97u8, 103u8]);
        }
        Some(FRAGMENT_SHADER)
    } else {
        None
    }
}

/// `s` with every trailing NUL byte removed.
pub open spec fn strip_trailing_nuls(s: Seq<u8>) -> Seq<u8>
    decreases s.len(),
{
    if s.len() > 0 && s.last() == 0 {
        strip_trailing_nuls(s.drop_last())
    } else {
        s
    }
}

/// `s` with every occurrence of the three bytes `[0]` removed, scanning
/// left to right over non-overlapping occurrences.
pub open spec fn remove_zero_brackets(s: Seq<u8>) -> Seq<u8>
    decreases s.len(),
{
    if s.len() < 3 {
        s
    } else if s[0] == 91 && s[1] == 48 && s[2] == 93 {
        remove_zero_brackets(s.skip(3))
    } else {
        seq![s[0]] + remove_zero_brackets(s.skip(1))
    }
}

/// A discovered uniform name as the table stores it: trailing NUL padding
/// stripped, `[0]` array suffixes removed.
pub open spec fn clean_name(s: Seq<u8>) -> Seq<u8> {
    remove_zero_brackets(strip_trailing_nuls(s))
}

/// Where neither a `[0]` occurrence nor the end of the bytes is at hand,
/// removal keeps the first byte and continues.
proof fn lemma_remove_step(s: Seq<u8>)
    requires
        s.len() > 0,
        !(s.len() >= 3 && s[0] == 91 && s[1] == 48 && s[2] == 93),
    ensures
        remove_zero_brackets(s) == seq![s[0]] + remove_zero_brackets(s.skip(1)),
{
    if s.len() < 3 {
        assert(s.skip(1).len() < 3);
        assert(remove_zero_brackets(s.skip(1)) == s.skip(1));
        assert(s =~= seq![s[0]] + s.skip(1));
    }
}

/// Copy a byte string.
fn copy_bytes(src: &Vec<u8>) -> (r: Vec<u8>)
    ensures
        r@ == src@,
{
    let mut r: Vec<u8> = Vec::new();
    let mut i: usize = 0;
    while i < src.len()
        invariant
            i <= src@.len(),
            r@.len() == i,
            forall|k: int| 0 <= k < i ==> r@[k] == src@[k],
        decreases src@.len() - i,
    {
        r.push(src[i]);
        i = i + 1;
    }
    proof {
        assert(r@ =~= src@);
    }
    r
}

/// Byte-string equality.
fn bytes_eq(a: &Vec<u8>, b: &Vec<u8>) -> (r: bool)
    ensures
        r <==> a@ == b@,
{
    if a.len() != b.len() {
        return false;
    }
    let mut i: usize = 0;
    while i < a.len()
        invariant
            i <= a@.len(),
            a@.len() == b@.len(),
            forall|k: int| 0 <= k < i ==> a@[k] == b@[k],
        decreases a@.len() - i,
    {
        if a[i] != b[i] {
            return false;
        }
        i = i + 1;
    }
    proof {
        assert(a@ =~= b@);
    }
    true
}

/// Clean a uniform name as reported by the native enumeration: strip the
/// trailing NUL padding of the fixed-size name buffer, then remove the
/// `[0]` suffix a uniform array's base name carries.
pub fn clean_uniform_name(name: &Vec<u8>) -> (r: Vec<u8>)
    ensures
        r@ == clean_name(name@),
{
    let mut out = copy_bytes(name);
    while out.len() > 0 && out[out.len() - 1] == 0
        invariant
            strip_trailing_nuls(out@) == strip_trailing_nuls(name@),
        decreases out@.len(),
    {
        out.pop();
    }
    proof {
        assert(strip_trailing_nuls(out@) == out@);
    }

    let mut r: Vec<u8> = Vec::new();
    let mut i: usize = 0;
    proof {
        assert(out@.skip(0) =~= out@);
        assert(r@ + remove_zero_brackets(out@) =~= remove_zero_brackets(out@));
    }
    while i < out.len()
        invariant
            i <= out@.len(),
            remove_zero_brackets(out@) == r@ + remove_zero_brackets(out@.skip(i as int)),
        decreases out@.len() - i,
    {
        let ghost prefix = r@;
        let ghost rest = out@.skip(i as int);
        if out.len() - i >= 3 && out[i] == 91 && out[i + 1] == 48 && out[i + 2] == 93 {
            proof {
                assert(rest.len() >= 3);
                assert(rest[0] == 91 && rest[1] == 48 && rest[2] == 93);
                assert(rest.skip(3) =~= out@.skip(i as int + 3));
            }
            i = i + 3;
        } else {
            r.push(out[i]);
            proof {
                assert(rest[0] == out@[i as int]);
                lemma_remove_step(rest);
                assert(rest.skip(1) =~= out@.skip(i as int + 1));
                assert(r@ =~= prefix + seq![out@[i as int]]);
                assert(prefix + (seq![out@[i as int]] + remove_zero_brackets(
                    out@.skip(i as int + 1),
                )) =~= r@ + remove_zero_brackets(out@.skip(i as int + 1)));
            }
            i = i + 1;
        }
    }
    proof {
        assert(out@.skip(out@.len() as int) =~= Seq::<u8>::empty());
        assert(r@ + Seq::<u8>::empty() =~= r@);
    }
    r
}

/// The element names that resolve a discovered uniform of the given array
/// size: the reported base name itself (which carries the `[0]` suffix for
/// an array), then one name per further element up to the cap, formed by
/// replacing the digit before the closing bracket.
pub fn uniform_element_names(name: &Vec<u8>, size: usize) -> (r: Vec<Vec<u8>>)
    requires
        size <= 1 || name@.len() >= 2,
    ensures
        r@.len() == (if size == 0 {
            1int
        } else if size > UNIFORM_ARRAY_CAP {
            UNIFORM_ARRAY_CAP as int
        } else {
            size as int
        }),
        r@[0]@ == name@,
        forall|i: int|
            1 <= i < r@.len() ==> (#[trigger] r@[i])@ == name@.update(
                name@.len() - 2,
                (48 + i) as u8,
            ),
{
    let mut r: Vec<Vec<u8>> = Vec::new();
    r.push(copy_bytes(name));
    let cap: usize = if size > UNIFORM_ARRAY_CAP {
        UNIFORM_ARRAY_CAP
    } else {
        size
    };
    let mut i: usize = 1;
    while i < cap
        invariant
            1 <= i,
            cap <= UNIFORM_ARRAY_CAP,
            i <= cap || i == 1,
            cap > 1 ==> name@.len() >= 2,
            r@.len() == i,
            r@[0]@ == name@,
            forall|k: int|
                1 <= k < i ==> (#[trigger] r@[k])@ == name@.update(name@.len() - 2, (48 + k) as u8),
        decreases cap - i,
    {
        let mut e = copy_bytes(name);
        let idx = e.len() - 2;
        e.set(idx, 48 + (i as u8));
        r.push(e);
        i = i + 1;
    }
    r
}

/// One discovered uniform: its cleaned name and the native locations of its
/// elements, the base location first.
#[derive(Debug)]
pub struct UniformEntry {
    pub name: Vec<u8>,
    pub locations: Vec<i32>,
}

/// The locations recorded for `name`, with the most recently added entry
/// winning, as a map insert would.
pub open spec fn lookup_uniform(entries: Seq<UniformEntry>, name: Seq<u8>) -> Option<Seq<i32>>
    decreases entries.len(),
{
    if entries.len() == 0 {
        None
    } else if entries.last().name@ == name {
        Some(entries.last().locations@)
    } else {
        lookup_uniform(entries.drop_last(), name)
    }
}

/// Every recorded uniform carries at least its base location, so whatever
/// a lookup finds is nonempty.
proof fn lemma_lookup_nonempty(entries: Seq<UniformEntry>, name: Seq<u8>)
    requires
        forall|i: int| 0 <= i < entries.len() ==> (#[trigger] entries[i]).locations@.len() >= 1,
        lookup_uniform(entries, name) is Some,
    ensures
        lookup_uniform(entries, name) matches Some(l) ==> l.len() >= 1,
    decreases entries.len(),
{
    if entries.len() == 0 {
    } else if entries.last().name@ == name {
        assert(entries[entries.len() - 1].locations@.len() >= 1);
    } else {
        assert(forall|i: int|
            0 <= i < entries.drop_last().len() ==> (#[trigger] entries.drop_last()[i])
                == entries[i]);
        lemma_lookup_nonempty(entries.drop_last(), name);
    }
}

/// Wraps a linked shader program object: its native handle and the uniform
/// table discovered at link time.
#[derive(Debug)]
pub struct Program {
    pub id: u32,
    pub uniforms: Vec<UniformEntry>,
}

impl Program {
    /// Every recorded uniform carries at least its base location. Holds
    /// from construction on, since entries are only added through
    /// [`Program::add_uniform`].
    pub open spec fn wf(self) -> bool {
        forall|i: int|
            0 <= i < self.uniforms@.len() ==> (#[trigger] self.uniforms@[i]).locations@.len() >= 1
    }

    /// Wrap the handle of a linked program, with no uniforms recorded yet.
    pub fn new(id: u32) -> (r: Program)
        ensures
            r.id == id,
            r.uniforms@.len() == 0,
            r.wf(),
    {
        Program { id, uniforms: Vec::new() }
    }

    /// Decide the outcome of a native link: a program wrapper around the
    /// handle, with no uniforms discovered yet, when the linker reported
    /// success, else a link error carrying the program's name and the
    /// native diagnostic log.
    pub fn from_link_status(id: u32, success: bool, name: String, log: String) -> (r: Result<
        Program,
        Error,
    >)
        ensures
            success ==> (r matches Ok(p) && p.id == id && p.uniforms@.len() == 0 && p.wf()),
            !success ==> (r matches Err(e) && e == (Error::LinkError { name, message: log })),
    {
        if success {
            Ok(Program::new(id))
        } else {
            Err(Error::LinkError { name, message: log })
        }
    }

    /// Record one discovered uniform: the name is cleaned, the locations
    /// are stored as given, base location first.
    pub fn add_uniform(&mut self, name: &Vec<u8>, locations: Vec<i32>)
        requires
            locations@.len() >= 1,
        ensures
            final(self).id == old(self).id,
            final(self).uniforms@.len() == old(self).uniforms@.len() + 1,
            final(self).uniforms@.drop_last() == old(self).uniforms@,
            final(self).uniforms@.last().name@ == clean_name(name@),
            final(self).uniforms@.last().locations@ == locations@,
            old(self).wf() ==> final(self).wf(),
    {
        let clean = clean_uniform_name(name);
        let ghost before = self.uniforms@;
        self.uniforms.push(UniformEntry { name: clean, locations });
        proof {
            assert(self.uniforms@.drop_last() =~= before);
        }
    }

    /// The native location of element `index` of the uniform `name`, or
    /// the error naming what failed: an unknown name, or an element index
    /// at or past the recorded arity.
    pub fn uniform_location(&self, name: &Vec<u8>, index: usize) -> (r: Result<
        i32,
        uniform::Error,
    >)
        ensures
            r matches Ok(loc) ==> (lookup_uniform(self.uniforms@, name@) matches Some(locs)
                && index < locs.len() && loc == locs[index as int]),
            r matches Err(e) ==> match e {
                uniform::Error::NotFoundError { name: n } => lookup_uniform(
                    self.uniforms@,
                    name@,
                ) is None && n@ == name@,
                uniform::Error::IndexError { index: ix } => (lookup_uniform(
                    self.uniforms@,
                    name@,
                ) matches Some(locs)
                    && index >= locs.len()) && ix == index,
            },
    {
        let mut j: usize = self.uniforms.len();
        proof {
            assert(self.uniforms@.take(self.uniforms@.len() as int) =~= self.uniforms@);
        }
        while j > 0
            invariant
                j <= self.uniforms@.len(),
                lookup_uniform(self.uniforms@, name@) == lookup_uniform(
                    self.uniforms@.take(j as int),
                    name@,
                ),
            decreases j,
        {
            if bytes_eq(&self.uniforms[j - 1].name, name) {
                proof {
                    assert(self.uniforms@.take(j as int).last() == self.uniforms@[j - 1]);
                }
                let locs = &self.uniforms[j - 1].locations;
                if index < locs.len() {
                    return Ok(locs[index]);
                } else {
                    return Err(uniform::Error::IndexError { index });
                }
            }
            proof {
                assert(self.uniforms@.take(j as int).last() == self.uniforms@[j - 1]);
                assert(self.uniforms@.take(j as int).drop_last() =~= self.uniforms@.take(
                    j as int - 1,
                ));
            }
            j = j - 1;
        }
        proof {
            assert(self.uniforms@.take(0) =~= Seq::<UniformEntry>::empty());
        }
        Err(uniform::Error::NotFoundError { name: copy_bytes(name) })
    }

    /// Set element `index` of the uniform array `name` to `data`. The
    /// program must currently be the active one. Succeeds exactly when the
    /// name was discovered and the index is within its recorded arity.
    pub fn set_uniform_by_index<T: UniformSet>(
        &self,
        name: &Vec<u8>,
        data: &T,
        index: usize,
    ) -> (r: Result<(), uniform::Error>)
        ensures
            r matches Ok(u) ==> (lookup_uniform(self.uniforms@, name@) matches Some(locs)
                && index < locs.len()),
            r matches Err(e) ==> match e {
                uniform::Error::NotFoundError { name: n } => lookup_uniform(
                    self.uniforms@,
                    name@,
                ) is None && n@ == name@,
                uniform::Error::IndexError { index: ix } => (lookup_uniform(
                    self.uniforms@,
                    name@,
                ) matches Some(locs)
                    && index >= locs.len()) && ix == index,
            },
    {
        match self.uniform_location(name, index) {
            Ok(loc) => {
                data.set_uniform_gl(loc);
                Ok(())
            },
            Err(e) => Err(e),
        }
    }

    /// Set the scalar (or first-element) uniform `name` to `data`: element
    /// index 0, which in a well-formed program is in range for every
    /// discovered name.
    pub fn set_uniform<T: UniformSet>(&self, name: &Vec<u8>, data: &T) -> (r: Result<
        (),
        uniform::Error,
    >)
        ensures
            r matches Ok(u) ==> (lookup_uniform(self.uniforms@, name@) matches Some(locs)
                && locs.len() >= 1),
            r matches Err(e) ==> match e {
                uniform::Error::NotFoundError { name: n } => lookup_uniform(
                    self.uniforms@,
                    name@,
                ) is None && n@ == name@,
                uniform::Error::IndexError { index: ix } => (lookup_uniform(
                    self.uniforms@,
                    name@,
                ) matches Some(locs)
                    && locs.len() == 0) && ix == 0,
            },
            self.wf() && lookup_uniform(self.uniforms@, name@) is Some ==> r is Ok,
    {
        proof {
            if self.wf() && lookup_uniform(self.uniforms@, name@) is Some {
                lemma_lookup_nonempty(self.uniforms@, name@);
            }
        }
        self.set_uniform_by_index(name, data, 0)
    }

    /// The native call that makes this program the active one.
    pub fn bind(&self) -> (r: GlOp)
        ensures
            r == GlOp::UseProgram(self.id),
    {
        GlOp::UseProgram(self.id)
    }

    /// The native call that deactivates this program.
    pub fn unbind(&self) -> (r: GlOp)
        ensures
            r == GlOp::UseProgram(0),
    {
        GlOp::UseProgram(0)
    }

    /// The native call that deactivates whatever program is active.
    pub fn bind_default() -> (r: GlOp)
        ensures
            r == GlOp::UseProgram(0),
    {
        GlOp::UseProgram(0)
    }
}

/// Law: in a well-formed program, whatever a name lookup finds has at least
/// its base location, so an element lookup at index 0 succeeds for exactly
/// the names the name-only lookup finds, and both answer with the base
/// location at the front of the same location list.
pub proof fn lemma_uniform_index_zero(p: Program, name: Seq<u8>)
    requires
        p.wf(),
    ensures
        lookup_uniform(p.uniforms@, name) matches Some(locs) ==> locs.len() >= 1,
{
    if lookup_uniform(p.uniforms@, name) is Some {
        lemma_lookup_nonempty(p.uniforms@, name);
    }
}

} // verus!
