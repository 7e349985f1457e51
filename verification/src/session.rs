//! Sessions: where modules are loaded and programs put together.
use crate::blob::Blob;
use crate::component::{module_at, ComponentType, Module};
use crate::handle::Handle;
use crate::utils::{
    object_or_diagnostics, object_or_status, result_from_blob, result_from_ffi, Error, E_FAIL,
};
use vstd::prelude::*;

verus! {

/// The root of everything: one instance of the compiler. It is made once and
/// kept for as long as any session made from it is in use.
#[derive(Debug)]
pub struct GlobalSession {
    pub handle: Handle,
}

/// A scope for loading modules, with its targets, search paths and options fixed.
#[derive(Debug)]
pub struct Session {
    pub handle: Handle,
}

/// What loading a module yields: the module, or a failure where the
/// compiler gave none. The call has no status of its own, so the failure
/// holds the status of a failure of no particular kind, and with it the
/// diagnostics.
pub open spec fn module_or_diagnostics(module: Handle, diagnostics: Blob) -> Result<Module, Error> {
    if module.is_null() {
        Err(Error::Blob(E_FAIL, diagnostics))
    } else {
        Ok(module_at(module))
    }
}

impl GlobalSession {
    /// The address of the object, for a call that takes it as an argument.
    pub fn as_raw(&self) -> (addr: usize)
        ensures
            addr == self.handle.addr,
    {
        self.handle.as_raw()
    }

    /// Reads the outcome of making a global session. `status` is what the
    /// call returned and `session` what it stored. A failure has no text to
    /// it, only the status.
    pub fn new(status: i32, session: Handle) -> (outcome: Result<GlobalSession, Error>)
        ensures
            outcome == object_or_status(status, GlobalSession { handle: session }),
    {
        match result_from_ffi(status) {
            Ok(()) => Ok(GlobalSession { handle: session }),
            Err(error) => Err(error),
        }
    }

    /// Reads the outcome of making a global session that starts without the
    /// core module. `status` is what the call returned and `session` what it stored.
    pub fn new_without_core_module(status: i32, session: Handle) -> (outcome: Result<
        GlobalSession,
        Error,
    >)
        ensures
            outcome == object_or_status(status, GlobalSession { handle: session }),
    {
        match result_from_ffi(status) {
            Ok(()) => Ok(GlobalSession { handle: session }),
            Err(error) => Err(error),
        }
    }

    /// Reads the outcome of making a session from a description. `status` is
    /// what the call returned and `session` what it stored. A failure has no
    /// text to it, only the status.
    pub fn create_session(status: i32, session: Handle) -> (outcome: Result<Session, Error>)
        ensures
            outcome == object_or_status(status, Session { handle: session }),
    {
        match result_from_ffi(status) {
            Ok(()) => Ok(Session { handle: session }),
            Err(error) => Err(error),
        }
    }
}

impl Session {
    /// The address of the object, for a call that takes it as an argument.
    pub fn as_raw(&self) -> (addr: usize)
        ensures
            addr == self.handle.addr,
    {
        self.handle.as_raw()
    }

    /// Reads the outcome of loading a module. `module` is what the call
    /// returned and `diagnostics` what it stored. The call has no status: it
    /// failed exactly when it returned null, and the failure then holds the
    /// status [`E_FAIL`] and the diagnostics, which may themselves be null.
    pub fn load_module(module: Handle, diagnostics: Blob) -> (outcome: Result<Module, Error>)
        ensures
            outcome == module_or_diagnostics(module, diagnostics),
    {
        if module.is_null() {
            Err(Error::Blob(E_FAIL, diagnostics))
        } else {
            Ok(Module { base: ComponentType { handle: module } })
        }
    }

    /// Reads the outcome of composing components into one. `status` is what
    /// the call returned, `composite` the component and `diagnostics` the
    /// text it stored.
    pub fn create_composite_component_type(
        status: i32,
        composite: Handle,
        diagnostics: Blob,
    ) -> (outcome: Result<ComponentType, Error>)
        ensures
            outcome == object_or_diagnostics(
                status,
                ComponentType { handle: composite },
                diagnostics,
            ),
    {
        match result_from_blob(status, diagnostics) {
            Ok(()) => Ok(ComponentType { handle: composite }),
            Err(error) => Err(error),
        }
    }
}

} // verus!
