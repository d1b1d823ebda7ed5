//! Uniform setting.
//!
//! A shader program owns a table from uniform names to native locations
//! (see [`crate::shader::Program`]); setting a value goes through the
//! [`UniformSet`] capability, which the embedder implements for each value
//! type it can hand to the native API.

use vstd::prelude::*;

verus! {

/// Errors of uniform lookup and assignment.
#[derive(Clone, PartialEq, Eq, Debug)]
pub enum Error {
    /// The program discovered no uniform of this name at link time. The
    /// name is carried as the raw bytes that were looked up.
    NotFoundError { name: Vec<u8> },
    /// The name names a uniform array, but this element index is at or past
    /// its discovered arity.
    IndexError { index: usize },
}

/// Capability of setting a uniform of a corresponding native type.
///
/// An implementation receives the resolved native location of the uniform
/// and performs the native assignment; nothing further is assumed of it.
pub trait UniformSet {
    /// Assign this value to the uniform at `location`. The owning program
    /// must currently be the active one.
    fn set_uniform_gl(&self, location: i32);
}

/// The bytes of the camera view-matrix uniform's name, `view`.
pub open spec fn view_name() -> Seq<u8> {
    seq![118u8, 105u8, 101u8, 119u8]
}

pub fn view_name_bytes() -> (r: Vec<u8>)
    ensures
        r@ == view_name(),
{
    let mut r: Vec<u8> = Vec::new();
    r.push(118);
    r.push(105);
    r.push(101);
    r.push(119);
    proof {
        assert(r@ =~= view_name());
    }
    r
}

/// The bytes of the camera projection-matrix uniform's name, `perspective`.
pub open spec fn perspective_name() -> Seq<u8> {
    seq![112u8, 101u8, 114u8, 115u8, 112u8, 101u8, 99u8, 116u8, 105u8, 118u8, 101u8]
}

pub fn perspective_name_bytes() -> (r: Vec<u8>)
    ensures
        r@ == perspective_name(),
{
    let mut r: Vec<u8> = Vec::new();
    r.push(112);
    r.push(101);
    r.push(114);
    r.push(115);
    r.push(112);
    r.push(101);
    r.push(99);
    r.push(116);
    r.push(105);
    r.push(118);
    r.push(101);
    proof {
        assert(r@ =~= perspective_name());
    }
    r
}

/// The bytes of the model-matrix uniform's name, `model`.
pub open spec fn model_name() -> Seq<u8> {
    seq![109u8, 111u8, 100u8, 101u8, 108u8]
}

pub fn model_name_bytes() -> (r: Vec<u8>)
    ensures
        r@ == model_name(),
{
    let mut r: Vec<u8> = Vec::new();
    r.push(109);
    r.push(111);
    r.push(100);
    r.push(101);
    r.push(108);
    proof {
        assert(r@ =~= model_name());
    }
    r
}

} // verus!
