//! The layout of a linked program.
use super::{
    EntryPoint, Function, NodeRef, Type, TypeLayout, TypeParameter, Variable, VariableLayout,
};
use crate::handle::Handle;
use crate::options::text_of;
use crate::utils::str_from_utf8;
use vstd::prelude::*;
use vstd::string::StringSliceAdditionalSpecFns;
use vstd::utf8::{decode_utf8, valid_utf8};

verus! {

/// What reflection says of a linked program for one target: its parameters,
/// type parameters and entry points, each in declaration order, the strings it
/// hashes, and the layout of its global scope.
///
/// Reflection data never changes once the program is linked, so a layout holds
/// what was read from it and answers from that. Every enumeration is finite and
/// can be walked as often as wanted, and looking an element up by its index
/// agrees with the enumeration.
#[derive(Debug)]
pub struct ProgramLayout {
    handle: Handle,
    parameters: Vec<VariableLayout>,
    type_parameters: Vec<TypeParameter>,
    entry_points: Vec<EntryPoint>,
    global_constant_buffer_binding: u64,
    global_constant_buffer_size: usize,
    hashed_strings: Vec<Option<String>>,
    global_params_type_layout: TypeLayout,
    global_params_var_layout: VariableLayout,
}

/// The tables of a [`ProgramLayout`], as they were read.
pub struct ProgramLayoutTables {
    pub parameters: Vec<VariableLayout>,
    pub type_parameters: Vec<TypeParameter>,
    pub entry_points: Vec<EntryPoint>,
    /// The hashed strings by index; `None` where the compiler had no string to show.
    pub hashed_strings: Vec<Option<String>>,
}

impl ProgramLayoutTables {
    /// Whether the parameters, the type parameters and the entry points can
    /// each be counted in 32 bits, as the compiler counts them.
    pub open spec fn countable(&self) -> bool {
        &&& self.parameters@.len() <= u32::MAX
        &&& self.type_parameters@.len() <= u32::MAX
        &&& self.entry_points@.len() <= u32::MAX
    }
}

impl ProgramLayout {
    #[verifier::type_invariant]
    spec fn countable(&self) -> bool {
        &&& self.parameters@.len() <= u32::MAX
        &&& self.type_parameters@.len() <= u32::MAX
        &&& self.entry_points@.len() <= u32::MAX
    }

    /// The native object that the layout was read from.
    pub closed spec fn spec_handle(&self) -> Handle {
        self.handle
    }

    /// The shader parameters of the global scope, in declaration order.
    pub closed spec fn spec_parameters(&self) -> Seq<VariableLayout> {
        self.parameters@
    }

    /// The generic type parameters of the program, in declaration order.
    pub closed spec fn spec_type_parameters(&self) -> Seq<TypeParameter> {
        self.type_parameters@
    }

    /// The entry points of the program, in the order in which they were composed.
    pub closed spec fn spec_entry_points(&self) -> Seq<EntryPoint> {
        self.entry_points@
    }

    /// The strings that the program hashes at compile time.
    pub closed spec fn spec_hashed_strings(&self) -> Seq<Option<Seq<char>>> {
        self.hashed_strings@.map_values(|s: Option<String>| text_of(s))
    }

    pub closed spec fn spec_global_constant_buffer_binding(&self) -> u64 {
        self.global_constant_buffer_binding
    }

    pub closed spec fn spec_global_constant_buffer_size(&self) -> usize {
        self.global_constant_buffer_size
    }

    pub closed spec fn spec_global_params_type_layout(&self) -> TypeLayout {
        self.global_params_type_layout
    }

    pub closed spec fn spec_global_params_var_layout(&self) -> VariableLayout {
        self.global_params_var_layout
    }

    /// Puts together what was read from the layout at `handle`. A table longer
    /// than the compiler can count is refused.
    pub fn new(
        handle: Handle,
        tables: ProgramLayoutTables,
        global_constant_buffer_binding: u64,
        global_constant_buffer_size: usize,
        global_params_type_layout: TypeLayout,
        global_params_var_layout: VariableLayout,
    ) -> (layout: Option<ProgramLayout>)
        ensures
            layout is Some <==> tables.countable(),
            layout matches Some(l) ==> {
                &&& l.spec_handle() == handle
                &&& l.spec_parameters() == tables.parameters@
                &&& l.spec_type_parameters() == tables.type_parameters@
                &&& l.spec_entry_points() == tables.entry_points@
                &&& l.spec_hashed_strings() == tables.hashed_strings@.map_values(
                    |s: Option<String>| text_of(s),
                )
                &&& l.spec_global_constant_buffer_binding() == global_constant_buffer_binding
                &&& l.spec_global_constant_buffer_size() == global_constant_buffer_size
                &&& l.spec_global_params_type_layout() == global_params_type_layout
                &&& l.spec_global_params_var_layout() == global_params_var_layout
            },
    {
        let limit: usize = u32::MAX as usize;
        if tables.parameters.len() > limit || tables.type_parameters.len() > limit
            || tables.entry_points.len() > limit {
            return None;
        }
        Some(
            ProgramLayout {
                handle,
                parameters: tables.parameters,
                type_parameters: tables.type_parameters,
                entry_points: tables.entry_points,
                global_constant_buffer_binding,
                global_constant_buffer_size,
                hashed_strings: tables.hashed_strings,
                global_params_type_layout,
                global_params_var_layout,
            },
        )
    }

    /// The native object that the layout was read from, for a lookup that only
    /// the compiler can answer.
    #[verifier::when_used_as_spec(spec_handle)]
    pub fn handle(&self) -> (handle: Handle)
        ensures
            handle == self.spec_handle(),
    {
        self.handle
    }

    pub fn parameter_count(&self) -> (count: u32)
        ensures
            count == self.spec_parameters().len(),
    {
        proof {
            use_type_invariant(self);
        }
        self.parameters.len() as u32
    }

    pub fn parameter_by_index(&self, index: u32) -> (parameter: Option<&VariableLayout>)
        ensures
            index < self.spec_parameters().len() ==> parameter == Some(
                &self.spec_parameters()[index as int],
            ),
            index >= self.spec_parameters().len() ==> parameter is None,
    {
        if (index as usize) < self.parameters.len() {
            Some(&self.parameters[index as usize])
        } else {
            None
        }
    }

    pub fn parameters(&self) -> (all: &[VariableLayout])
        ensures
            all@ == self.spec_parameters(),
    {
        self.parameters.as_slice()
    }

    pub fn type_parameter_count(&self) -> (count: u32)
        ensures
            count == self.spec_type_parameters().len(),
    {
        proof {
            use_type_invariant(self);
        }
        self.type_parameters.len() as u32
    }

    pub fn type_parameter_by_index(&self, index: u32) -> (parameter: Option<&TypeParameter>)
        ensures
            index < self.spec_type_parameters().len() ==> parameter == Some(
                &self.spec_type_parameters()[index as int],
            ),
            index >= self.spec_type_parameters().len() ==> parameter is None,
    {
        if (index as usize) < self.type_parameters.len() {
            Some(&self.type_parameters[index as usize])
        } else {
            None
        }
    }

    pub fn type_parameters(&self) -> (all: &[TypeParameter])
        ensures
            all@ == self.spec_type_parameters(),
    {
        self.type_parameters.as_slice()
    }

    pub fn entry_point_count(&self) -> (count: u32)
        ensures
            count == self.spec_entry_points().len(),
    {
        proof {
            use_type_invariant(self);
        }
        self.entry_points.len() as u32
    }

    pub fn entry_point_by_index(&self, index: u32) -> (entry_point: Option<&EntryPoint>)
        ensures
            index < self.spec_entry_points().len() ==> entry_point == Some(
                &self.spec_entry_points()[index as int],
            ),
            index >= self.spec_entry_points().len() ==> entry_point is None,
    {
        if (index as usize) < self.entry_points.len() {
            Some(&self.entry_points[index as usize])
        } else {
            None
        }
    }

    pub fn entry_points(&self) -> (all: &[EntryPoint])
        ensures
            all@ == self.spec_entry_points(),
    {
        self.entry_points.as_slice()
    }

    #[verifier::when_used_as_spec(spec_global_constant_buffer_binding)]
    pub fn global_constant_buffer_binding(&self) -> (binding: u64)
        ensures
            binding == self.spec_global_constant_buffer_binding(),
    {
        self.global_constant_buffer_binding
    }

    #[verifier::when_used_as_spec(spec_global_constant_buffer_size)]
    pub fn global_constant_buffer_size(&self) -> (size: usize)
        ensures
            size == self.spec_global_constant_buffer_size(),
    {
        self.global_constant_buffer_size
    }

    /// Reads one hashed string as the compiler shows it: `found` holds its
    /// bytes, or nothing where the compiler returned null, which is no
    /// failure. The compiler hashes text, so the bytes are well-formed UTF-8.
    pub fn hashed_text<'a>(found: Option<&'a [u8]>) -> (text: Option<&'a str>)
        requires
            found matches Some(bytes) ==> valid_utf8(bytes@),
        ensures
            found is None <==> text is None,
            text matches Some(s) ==> s.spec_bytes() == found->0@ && s@ == decode_utf8(found->0@),
    {
        match found {
            Some(bytes) => match str_from_utf8(bytes) {
                Ok(s) => {
                    proof {
                        vstd::utf8::encode_utf8_decode_utf8(s@);
                    }
                    Some(s)
                },
                Err(_) => None,
            },
            None => None,
        }
    }

    pub fn hashed_string_count(&self) -> (count: u64)
        ensures
            count == self.spec_hashed_strings().len(),
    {
        self.hashed_strings.len() as u64
    }

    pub fn hashed_string(&self, index: u64) -> (string: Option<&str>)
        ensures
            index < self.spec_hashed_strings().len() ==> match string {
                Some(text) => self.spec_hashed_strings()[index as int] == Some(text@),
                None => self.spec_hashed_strings()[index as int] is None,
            },
            index >= self.spec_hashed_strings().len() ==> string is None,
    {
        if index < self.hashed_strings.len() as u64 {
            match &self.hashed_strings[index as usize] {
                Some(text) => Some(text.as_str()),
                None => None,
            }
        } else {
            None
        }
    }

    /// Reads the answer to looking a type parameter up by its name.
    /// `found` is the address that the compiler returned: null where it has
    /// nothing to show, which is no failure.
    pub fn find_type_parameter_by_name(found: usize) -> (answer: Option<TypeParameter>)
        ensures
            found == 0 <==> answer is None,
            answer matches Some(node) ==> node.0.as_raw() == found,
    {
        match NodeRef::from_raw(found) {
            Some(node) => Some(TypeParameter(node)),
            None => None,
        }
    }

    /// Reads the answer to looking an entry point up by its name.
    /// `found` is the address that the compiler returned: null where it has
    /// nothing to show, which is no failure.
    pub fn find_entry_point_by_name(found: usize) -> (answer: Option<EntryPoint>)
        ensures
            found == 0 <==> answer is None,
            answer matches Some(node) ==> node.0.as_raw() == found,
    {
        match NodeRef::from_raw(found) {
            Some(node) => Some(EntryPoint(node)),
            None => None,
        }
    }

    /// Reads the answer to looking a type up by its name.
    /// `found` is the address that the compiler returned: null where it has
    /// nothing to show, which is no failure.
    pub fn find_type_by_name(found: usize) -> (answer: Option<Type>)
        ensures
            found == 0 <==> answer is None,
            answer matches Some(node) ==> node.0.as_raw() == found,
    {
        match NodeRef::from_raw(found) {
            Some(node) => Some(Type(node)),
            None => None,
        }
    }

    /// Reads the answer to looking a function up by its name.
    /// `found` is the address that the compiler returned: null where it has
    /// nothing to show, which is no failure.
    pub fn find_function_by_name(found: usize) -> (answer: Option<Function>)
        ensures
            found == 0 <==> answer is None,
            answer matches Some(node) ==> node.0.as_raw() == found,
    {
        match NodeRef::from_raw(found) {
            Some(node) => Some(Function(node)),
            None => None,
        }
    }

    /// Reads the answer to looking a function up by its name among the members of a type.
    /// `found` is the address that the compiler returned: null where it has
    /// nothing to show, which is no failure.
    pub fn find_function_by_name_in_type(found: usize) -> (answer: Option<Function>)
        ensures
            found == 0 <==> answer is None,
            answer matches Some(node) ==> node.0.as_raw() == found,
    {
        match NodeRef::from_raw(found) {
            Some(node) => Some(Function(node)),
            None => None,
        }
    }

    /// Reads the answer to looking a variable up by its name among the members of a type.
    /// `found` is the address that the compiler returned: null where it has
    /// nothing to show, which is no failure.
    pub fn find_var_by_name_in_type(found: usize) -> (answer: Option<Variable>)
        ensures
            found == 0 <==> answer is None,
            answer matches Some(node) ==> node.0.as_raw() == found,
    {
        match NodeRef::from_raw(found) {
            Some(node) => Some(Variable(node)),
            None => None,
        }
    }

    /// Reads the answer to asking how a type is laid out under some layout rules.
    /// `found` is the address that the compiler returned: null where it has
    /// nothing to show, which is no failure.
    pub fn type_layout(found: usize) -> (answer: Option<TypeLayout>)
        ensures
            found == 0 <==> answer is None,
            answer matches Some(node) ==> node.0.as_raw() == found,
    {
        match NodeRef::from_raw(found) {
            Some(node) => Some(TypeLayout(node)),
            None => None,
        }
    }
    pub fn global_params_type_layout(&self) -> (layout: &TypeLayout)
        ensures
            *layout == self.spec_global_params_type_layout(),
    {
        &self.global_params_type_layout
    }

    pub fn global_params_var_layout(&self) -> (layout: &VariableLayout)
        ensures
            *layout == self.spec_global_params_var_layout(),
    {
        &self.global_params_var_layout
    }
}

impl Clone for ProgramLayout {
    /// A duplicate of the layout, which answers as this one does.
    fn clone(&self) -> (copy: Self)
        ensures
            copy.spec_handle() == self.spec_handle(),
            copy.spec_parameters() == self.spec_parameters(),
            copy.spec_type_parameters() == self.spec_type_parameters(),
            copy.spec_entry_points() == self.spec_entry_points(),
            copy.spec_hashed_strings() == self.spec_hashed_strings(),
            copy.spec_global_constant_buffer_binding()
                == self.spec_global_constant_buffer_binding(),
            copy.spec_global_constant_buffer_size() == self.spec_global_constant_buffer_size(),
            copy.spec_global_params_type_layout() == self.spec_global_params_type_layout(),
            copy.spec_global_params_var_layout() == self.spec_global_params_var_layout(),
    {
        proof {
            use_type_invariant(self);
        }
        let parameters = self.parameters.clone();
        let type_parameters = self.type_parameters.clone();
        let entry_points = self.entry_points.clone();
        let hashed_strings = self.hashed_strings.clone();
        assert(parameters@ =~= self.parameters@);
        assert(type_parameters@ =~= self.type_parameters@);
        assert(entry_points@ =~= self.entry_points@);
        assert(hashed_strings@.map_values(|s: Option<String>| text_of(s))
            =~= self.hashed_strings@.map_values(|s: Option<String>| text_of(s)));
        ProgramLayout {
            handle: self.handle,
            parameters,
            type_parameters,
            entry_points,
            global_constant_buffer_binding: self.global_constant_buffer_binding,
            global_constant_buffer_size: self.global_constant_buffer_size,
            hashed_strings,
            global_params_type_layout: self.global_params_type_layout,
            global_params_var_layout: self.global_params_var_layout,
        }
    }
}

} // verus!
