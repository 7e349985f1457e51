//! Units of code that can be composed, linked and compiled.
use crate::blob::Blob;
use crate::handle::Handle;
use crate::reflection::shader::ProgramLayout;
use crate::utils::{
    object_or_diagnostics, object_or_status, result_from_blob, result_from_ffi, succeeded, Error,
    E_FAIL,
};
use vstd::prelude::*;

verus! {

/// What the compiler found out about one target or one entry point of a
/// compiled program.
#[derive(Debug)]
pub struct Metadata {
    pub handle: Handle,
}

/// A unit of code that can be linked: a module, an entry point, a type
/// conformance, or what composing or linking such units gave.
#[derive(Debug)]
pub struct ComponentType {
    pub handle: Handle,
}

/// An entry point of a module. It is a component, and more: whatever can be
/// asked of a component can be asked of it.
#[derive(Debug)]
pub struct EntryPoint {
    pub base: ComponentType,
}

/// The fact that a type conforms to an interface. It is a component, and
/// whatever can be asked of a component can be asked of it.
#[derive(Debug)]
pub struct TypeConformance {
    pub base: ComponentType,
}

/// A module that a session loaded. It is a component, and more: whatever can
/// be asked of a component can be asked of it.
#[derive(Debug)]
pub struct Module {
    pub base: ComponentType,
}

impl Metadata {
    /// The address of the object, for a call that takes it as an argument.
    pub fn as_raw(&self) -> (addr: usize)
        ensures
            addr == self.handle.addr,
    {
        self.handle.as_raw()
    }

    /// Reads the answer to whether a parameter location is used. `status` is
    /// what the call returned and `used` what it stored; where the call
    /// failed there is no answer.
    pub fn is_parameter_location_used(status: i32, used: bool) -> (answer: Option<bool>)
        ensures
            status < 0 ==> answer is None,
            status >= 0 ==> answer == Some(used),
    {
        if succeeded(status) {
            Some(used)
        } else {
            None
        }
    }
}

/// What asking for a layout yields: the layout, or a failure where the
/// compiler gave none. The call has no status of its own, so the failure
/// holds the status of a failure of no particular kind, and with it the
/// diagnostics.
pub open spec fn layout_or_diagnostics(layout: Option<ProgramLayout>, diagnostics: Blob) -> Result<
    ProgramLayout,
    Error,
> {
    match layout {
        Some(layout) => Ok(layout),
        None => Err(Error::Blob(E_FAIL, diagnostics)),
    }
}

impl ComponentType {
    /// The address of the object, for a call that takes it as an argument.
    pub fn as_raw(&self) -> (addr: usize)
        ensures
            addr == self.handle.addr,
    {
        self.handle.as_raw()
    }

    /// Reads the outcome of asking for the layout of the program on one
    /// target. `layout` is what was read from the layout that the call
    /// returned, or `None` where it returned null; `diagnostics` is what it
    /// stored to explain itself. The call has no status: it failed exactly
    /// when it returned null, and the failure then holds the status
    /// [`E_FAIL`] and the diagnostics, which may themselves be null.
    pub fn layout(layout: Option<ProgramLayout>, diagnostics: Blob) -> (outcome: Result<
        ProgramLayout,
        Error,
    >)
        ensures
            outcome == layout_or_diagnostics(layout, diagnostics),
    {
        match layout {
            Some(layout) => Ok(layout),
            None => Err(Error::Blob(E_FAIL, diagnostics)),
        }
    }

    /// Reads the outcome of linking. `status` is what the call returned,
    /// `linked` the component and `diagnostics` the text it stored.
    pub fn link(status: i32, linked: Handle, diagnostics: Blob) -> (outcome: Result<
        ComponentType,
        Error,
    >)
        ensures
            outcome == object_or_diagnostics(status, ComponentType { handle: linked }, diagnostics),
    {
        match result_from_blob(status, diagnostics) {
            Ok(()) => Ok(ComponentType { handle: linked }),
            Err(error) => Err(error),
        }
    }

    /// Reads the outcome of asking for the code of all entry points on one
    /// target. `status` is what the call returned, `code` and `diagnostics`
    /// are what it stored.
    pub fn target_code(status: i32, code: Blob, diagnostics: Blob) -> (outcome: Result<Blob, Error>)
        ensures
            outcome == object_or_diagnostics(status, code, diagnostics),
    {
        match result_from_blob(status, diagnostics) {
            Ok(()) => Ok(code),
            Err(error) => Err(error),
        }
    }

    /// Reads the outcome of asking for the code of one entry point on one
    /// target. `status` is what the call returned, `code` and `diagnostics`
    /// are what it stored.
    pub fn entry_point_code(status: i32, code: Blob, diagnostics: Blob) -> (outcome: Result<
        Blob,
        Error,
    >)
        ensures
            outcome == object_or_diagnostics(status, code, diagnostics),
    {
        match result_from_blob(status, diagnostics) {
            Ok(()) => Ok(code),
            Err(error) => Err(error),
        }
    }

    /// Reads the outcome of asking for the metadata of one target. `status`
    /// is what the call returned, `metadata` and `diagnostics` are what it stored.
    pub fn target_metadata(status: i32, metadata: Handle, diagnostics: Blob) -> (outcome: Result<
        Metadata,
        Error,
    >)
        ensures
            outcome == object_or_diagnostics(status, Metadata { handle: metadata }, diagnostics),
    {
        match result_from_blob(status, diagnostics) {
            Ok(()) => Ok(Metadata { handle: metadata }),
            Err(error) => Err(error),
        }
    }

    /// Reads the outcome of asking for the metadata of one entry point on
    /// one target. `status` is what the call returned, `metadata` and
    /// `diagnostics` are what it stored.
    pub fn entry_point_metadata(status: i32, metadata: Handle, diagnostics: Blob) -> (outcome:
        Result<Metadata, Error>)
        ensures
            outcome == object_or_diagnostics(status, Metadata { handle: metadata }, diagnostics),
    {
        match result_from_blob(status, diagnostics) {
            Ok(()) => Ok(Metadata { handle: metadata }),
            Err(error) => Err(error),
        }
    }
}

impl core::ops::Deref for EntryPoint {
    type Target = ComponentType;

    /// The entry point as the component it is: the same object, asked less of.
    fn deref(&self) -> (base: &ComponentType)
        ensures
            *base == self.base,
    {
        &self.base
    }
}

impl core::ops::Deref for TypeConformance {
    type Target = ComponentType;

    /// The conformance as the component it is: the same object, asked less of.
    fn deref(&self) -> (base: &ComponentType)
        ensures
            *base == self.base,
    {
        &self.base
    }
}

impl core::ops::Deref for Module {
    type Target = ComponentType;

    /// The module as the component it is: the same object, asked less of.
    fn deref(&self) -> (base: &ComponentType)
        ensures
            *base == self.base,
    {
        &self.base
    }
}

/// The entry point at `handle`.
pub open spec fn entry_point_at(handle: Handle) -> EntryPoint {
    EntryPoint { base: ComponentType { handle } }
}

/// The module at `handle`.
pub open spec fn module_at(handle: Handle) -> Module {
    Module { base: ComponentType { handle } }
}

impl EntryPoint {
    /// The address of the object, which is that of the component it is.
    pub fn as_raw(&self) -> (addr: usize)
        ensures
            addr == self.base.handle.addr,
    {
        self.base.handle.as_raw()
    }
}

impl TypeConformance {
    /// The address of the object, which is that of the component it is.
    pub fn as_raw(&self) -> (addr: usize)
        ensures
            addr == self.base.handle.addr,
    {
        self.base.handle.as_raw()
    }
}

impl Module {
    /// The address of the object, which is that of the component it is.
    pub fn as_raw(&self) -> (addr: usize)
        ensures
            addr == self.base.handle.addr,
    {
        self.base.handle.as_raw()
    }

    /// Reads the outcome of looking an entry point up by its name. `status`
    /// is what the call returned and `entry_point` what it stored.
    pub fn find_entry_point_by_name(status: i32, entry_point: Handle) -> (outcome: Result<
        EntryPoint,
        Error,
    >)
        ensures
            outcome == object_or_status(status, entry_point_at(entry_point)),
    {
        match result_from_ffi(status) {
            Ok(()) => Ok(EntryPoint { base: ComponentType { handle: entry_point } }),
            Err(error) => Err(error),
        }
    }

    /// The number of entry points that the module defines, from the signed
    /// count that the compiler reports: the same 32 bits, read as unsigned.
    pub fn entry_point_count(count: i32) -> (unsigned: u32)
        ensures
            unsigned == count as u32,
            count >= 0 ==> unsigned == count,
    {
        #[verifier::truncate]
        (count as u32)
    }

    /// Reads the outcome of asking for the entry point at an index.
    /// `status` is what the call returned and `entry_point` what it stored.
    pub fn entry_point_by_index(status: i32, entry_point: Handle) -> (outcome: Result<
        EntryPoint,
        Error,
    >)
        ensures
            outcome == object_or_status(status, entry_point_at(entry_point)),
    {
        match result_from_ffi(status) {
            Ok(()) => Ok(EntryPoint { base: ComponentType { handle: entry_point } }),
            Err(error) => Err(error),
        }
    }
}

} // verus!
