//! Reflection data of a compiled program.
//!
//! Reflection objects belong to the program layout they were read from. The
//! host never owns one; it holds references, which it may copy at will, and a
//! lookup that finds nothing answers with no reference at all rather than
//! with a null one.
use crate::handle::Handle;
use vstd::prelude::*;

pub mod shader;

verus! {

/// A reference to a reflection object. It is never null.
#[derive(Clone, Copy, Debug)]
pub struct NodeRef {
    handle: Handle,
}

impl NodeRef {
    #[verifier::type_invariant]
    spec fn refers(&self) -> bool {
        !self.handle.is_null()
    }

    pub closed spec fn spec_as_raw(&self) -> usize {
        self.handle.addr
    }

    /// The reference that a lookup returned: none for a null address.
    pub fn from_raw(addr: usize) -> (found: Option<NodeRef>)
        ensures
            addr == 0 <==> found is None,
            found matches Some(node) ==> node.spec_as_raw() == addr,
    {
        if addr == 0 {
            None
        } else {
            Some(NodeRef { handle: Handle::from_raw(addr) })
        }
    }

    /// The address of the object referred to, which is never null.
    #[verifier::when_used_as_spec(spec_as_raw)]
    pub fn as_raw(&self) -> (addr: usize)
        ensures
            addr == self.spec_as_raw(),
            addr != 0,
    {
        proof {
            use_type_invariant(self);
        }
        self.handle.as_raw()
    }
}

/// A declaration of the program: a module, a function, a type, a variable.
#[derive(Clone, Copy, Debug)]
pub struct Decl(pub NodeRef);

/// A type as the program declares it.
#[derive(Clone, Copy, Debug)]
pub struct Type(pub NodeRef);

/// A type together with the offsets and sizes it has under some layout rules.
#[derive(Clone, Copy, Debug)]
pub struct TypeLayout(pub NodeRef);

/// A generic type parameter of the program.
#[derive(Clone, Copy, Debug)]
pub struct TypeParameter(pub NodeRef);

/// A variable as the program declares it.
#[derive(Clone, Copy, Debug)]
pub struct Variable(pub NodeRef);

/// A shader parameter together with where it was bound.
#[derive(Clone, Copy, Debug)]
pub struct VariableLayout(pub NodeRef);

/// A function of the program.
#[derive(Clone, Copy, Debug)]
pub struct Function(pub NodeRef);

/// An entry point as the layout of a linked program describes it.
#[derive(Clone, Copy, Debug)]
pub struct EntryPoint(pub NodeRef);

} // verus!
