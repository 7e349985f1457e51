//! Compiler options, assembled one entry at a time.
use crate::codes::{
    CapabilityID, CompileTarget, DebugInfoLevel, FloatingPointMode, LineDirectiveMode,
    OptimizationLevel, ProfileID, SourceLanguage, Stage,
};
use crate::utils::is_c_text;
use vstd::prelude::*;

verus! {

/// The options that the builder knows how to set.
#[derive(Clone, Copy, Debug, PartialEq, Eq, Structural)]
pub enum CompilerOptionName {
    MacroDefine,
    Include,
    Language,
    MatrixLayoutColumn,
    MatrixLayoutRow,
    Profile,
    Stage,
    Target,
    WarningsAsErrors,
    DisableWarnings,
    EnableWarning,
    DisableWarning,
    ReportDownstreamTime,
    ReportPerfBenchmark,
    SkipSPIRVValidation,
    Capability,
    DefaultImageFormatUnknown,
    DisableDynamicDispatch,
    DisableSpecialization,
    FloatingPointMode,
    DebugInformation,
    LineDirectiveMode,
    Optimization,
    Obfuscate,
    VulkanUseEntryPointName,
    GLSLForceScalarLayout,
    EmitSpirvDirectly,
    NoCodeGen,
    NoMangle,
    ValidateUniformity,
}

/// Which half of an option's payload is in use.
#[derive(Clone, Copy, Debug, PartialEq, Eq, Structural)]
pub enum CompilerOptionValueKind {
    Int,
    String,
}

/// One option as the compiler reads it: a name, a tag, and a payload of two
/// integers and two strings of which the tag selects one pair.
///
/// An absent string is passed as a null pointer. A string that is present is
/// passed as a C string, so it holds no zero byte.
#[derive(Debug)]
pub struct CompilerOptionEntry {
    pub name: CompilerOptionName,
    pub kind: CompilerOptionValueKind,
    pub int_value0: i32,
    pub int_value1: i32,
    pub string_value0: Option<String>,
    pub string_value1: Option<String>,
}

/// A [`CompilerOptionEntry`] with its strings read as text.
pub ghost struct CompilerOptionEntryView {
    pub name: CompilerOptionName,
    pub kind: CompilerOptionValueKind,
    pub int_value0: i32,
    pub int_value1: i32,
    pub string_value0: Option<Seq<char>>,
    pub string_value1: Option<Seq<char>>,
}

pub open spec fn text_of(string: Option<String>) -> Option<Seq<char>> {
    match string {
        Some(s) => Some(s@),
        None => None,
    }
}

/// The entry of an option that takes integers.
pub open spec fn int_entry(name: CompilerOptionName, i0: i32, i1: i32) -> CompilerOptionEntryView {
    CompilerOptionEntryView {
        name,
        kind: CompilerOptionValueKind::Int,
        int_value0: i0,
        int_value1: i1,
        string_value0: None,
        string_value1: None,
    }
}

/// The entry of an option that takes strings.
pub open spec fn string_entry(
    name: CompilerOptionName,
    s0: Option<Seq<char>>,
    s1: Option<Seq<char>>,
) -> CompilerOptionEntryView {
    CompilerOptionEntryView {
        name,
        kind: CompilerOptionValueKind::String,
        int_value0: 0,
        int_value1: 0,
        string_value0: s0,
        string_value1: s1,
    }
}

/// The integer that stands for a switch: one when it is on, zero when it is off.
pub open spec fn switch_value(enable: bool) -> i32 {
    if enable {
        1
    } else {
        0
    }
}

impl CompilerOptionEntryView {
    /// Whether the payload agrees with the tag: an integer entry carries no
    /// string, and a string entry leaves both integers at zero and holds
    /// only strings that can be passed as C strings.
    pub open spec fn consistent(self) -> bool {
        match self.kind {
            CompilerOptionValueKind::Int => self.string_value0 is None && self.string_value1
                is None,
            CompilerOptionValueKind::String => {
                &&& self.int_value0 == 0
                &&& self.int_value1 == 0
                &&& (self.string_value0 matches Some(s) ==> is_c_text(s))
                &&& (self.string_value1 matches Some(s) ==> is_c_text(s))
            },
        }
    }
}

/// An entry made for an option has the name of that option and the payload
/// that its tag announces: one made for integers holds no string, and one
/// made for strings that can be passed as C strings holds them and leaves
/// both integers at zero. Appending it to a list adds that one entry and
/// leaves the entries before it as they were.
pub proof fn lemma_one_tagged_entry(
    before: Seq<CompilerOptionEntryView>,
    name: CompilerOptionName,
    i0: i32,
    i1: i32,
    s0: Option<Seq<char>>,
    s1: Option<Seq<char>>,
)
    requires
        s0 matches Some(s) ==> is_c_text(s),
        s1 matches Some(s) ==> is_c_text(s),
    ensures
        int_entry(name, i0, i1).consistent(),
        int_entry(name, i0, i1).name == name,
        int_entry(name, i0, i1).kind == CompilerOptionValueKind::Int,
        int_entry(name, i0, i1).string_value0 is None && int_entry(name, i0, i1).string_value1
            is None,
        string_entry(name, s0, s1).consistent(),
        string_entry(name, s0, s1).name == name,
        string_entry(name, s0, s1).kind == CompilerOptionValueKind::String,
        string_entry(name, s0, s1).int_value0 == 0 && string_entry(name, s0, s1).int_value1 == 0,
        before.push(int_entry(name, i0, i1)).len() == before.len() + 1,
        before.push(string_entry(name, s0, s1)).len() == before.len() + 1,
        before.push(int_entry(name, i0, i1)).last() == int_entry(name, i0, i1),
        before.push(string_entry(name, s0, s1)).last() == string_entry(name, s0, s1),
        before.push(int_entry(name, i0, i1)).drop_last() == before,
        before.push(string_entry(name, s0, s1)).drop_last() == before,
{
    assert(before.push(int_entry(name, i0, i1)).drop_last() =~= before);
    assert(before.push(string_entry(name, s0, s1)).drop_last() =~= before);
}

impl View for CompilerOptionEntry {
    type V = CompilerOptionEntryView;

    open spec fn view(&self) -> CompilerOptionEntryView {
        CompilerOptionEntryView {
            name: self.name,
            kind: self.kind,
            int_value0: self.int_value0,
            int_value1: self.int_value1,
            string_value0: text_of(self.string_value0),
            string_value1: text_of(self.string_value1),
        }
    }
}

/// A list of compiler options in the order in which they were set.
///
/// Setting an option appends exactly one entry. Nothing is ever removed or
/// replaced: where an option is set twice, the compiler sees both entries.
#[derive(Debug)]
pub struct CompilerOptions {
    options: Vec<CompilerOptionEntry>,
}

impl View for CompilerOptions {
    type V = Seq<CompilerOptionEntryView>;

    closed spec fn view(&self) -> Seq<CompilerOptionEntryView> {
        self.options@.map_values(|entry: CompilerOptionEntry| entry@)
    }
}

impl Default for CompilerOptions {
    fn default() -> (options: Self)
        ensures
            options@ == Seq::<CompilerOptionEntryView>::empty(),
    {
        let options = CompilerOptions { options: Vec::new() };
        assert(options@ =~= Seq::<CompilerOptionEntryView>::empty());
        options
    }
}

impl CompilerOptions {
    #[verifier::type_invariant]
    spec fn tagged(&self) -> bool {
        forall|i: int| 0 <= i < self.options@.len() ==> (#[trigger] self.options@[i])@.consistent()
    }

    /// The entries in the order in which they were set. Each has the payload
    /// that its tag announces.
    pub fn entries(&self) -> (entries: &[CompilerOptionEntry])
        ensures
            entries@.map_values(|entry: CompilerOptionEntry| entry@) == self@,
            forall|i: int| 0 <= i < self@.len() ==> (#[trigger] self@[i]).consistent(),
    {
        proof {
            use_type_invariant(self);
        }
        self.options.as_slice()
    }

    pub(crate) fn push_ints(self, name: CompilerOptionName, i0: i32, i1: i32) -> (options: Self)
        ensures
            options@ == self@.push(int_entry(name, i0, i1)),
    {
        proof {
            use_type_invariant(&self);
        }
        let mut entries = self.options;
        let entry = CompilerOptionEntry {
            name,
            kind: CompilerOptionValueKind::Int,
            int_value0: i0,
            int_value1: i1,
            string_value0: None,
            string_value1: None,
        };
        entries.push(entry);
        let options = CompilerOptions { options: entries };
        assert(options@ =~= self@.push(int_entry(name, i0, i1)));
        options
    }

    pub(crate) fn push_strings(self, name: CompilerOptionName, s0: Option<String>, s1: Option<String>) -> (options:
        Self)
        requires
            s0 matches Some(s) ==> is_c_text(s@),
            s1 matches Some(s) ==> is_c_text(s@),
        ensures
            options@ == self@.push(string_entry(name, text_of(s0), text_of(s1))),
    {
        proof {
            use_type_invariant(&self);
        }
        let mut entries = self.options;
        let entry = CompilerOptionEntry {
            name,
            kind: CompilerOptionValueKind::String,
            int_value0: 0,
            int_value1: 0,
            string_value0: s0,
            string_value1: s1,
        };
        entries.push(entry);
        let options = CompilerOptions { options: entries };
        assert(options@ =~= self@.push(string_entry(name, text_of(s0), text_of(s1))));
        options
    }

    pub(crate) fn push_str1(self, name: CompilerOptionName, s0: &str) -> (options: Self)
        requires
            is_c_text(s0@),
        ensures
            options@ == self@.push(string_entry(name, Some(s0@), None)),
    {
        self.push_strings(name, Some(s0.to_owned()), None)
    }

    pub(crate) fn push_str2(self, name: CompilerOptionName, s0: &str, s1: &str) -> (options: Self)
        requires
            is_c_text(s0@),
            is_c_text(s1@),
        ensures
            options@ == self@.push(string_entry(name, Some(s0@), Some(s1@))),
    {
        self.push_strings(name, Some(s0.to_owned()), Some(s1.to_owned()))
    }

    pub(crate) fn push_switch(self, name: CompilerOptionName, enable: bool) -> (options: Self)
        ensures
            options@ == self@.push(int_entry(name, switch_value(enable), 0)),
    {
        let value: i32 = if enable {
            1
        } else {
            0
        };
        self.push_ints(name, value, 0)
    }
}

impl CompilerOptions {
    /// Defines a preprocessor macro named `key` with the replacement text `value`.
    pub fn macro_define(self, key: &str, value: &str) -> (options: Self)
        requires
            is_c_text(key@),
            is_c_text(value@),
        ensures
            options@ == self@.push(
                string_entry(CompilerOptionName::MacroDefine, Some(key@), Some(value@)),
            ),
    {
        self.push_str2(CompilerOptionName::MacroDefine, key, value)
    }

    /// Adds `path` to the directories searched for included files.
    pub fn include_path(self, path: &str) -> (options: Self)
        requires
            is_c_text(path@),
        ensures
            options@ == self@.push(string_entry(CompilerOptionName::Include, Some(path@), None)),
    {
        self.push_str1(CompilerOptionName::Include, path)
    }

    /// Sets the language of the sources.
    pub fn language(self, language: SourceLanguage) -> (options: Self)
        ensures
            options@ == self@.push(int_entry(CompilerOptionName::Language, language.0, 0)),
    {
        self.push_ints(CompilerOptionName::Language, language.0, 0)
    }

    /// Lays matrices out by columns.
    pub fn matrix_layout_column(self, enable: bool) -> (options: Self)
        ensures
            options@ == self@.push(int_entry(CompilerOptionName::MatrixLayoutColumn, switch_value(enable), 0)),
    {
        self.push_switch(CompilerOptionName::MatrixLayoutColumn, enable)
    }

    /// Lays matrices out by rows.
    pub fn matrix_layout_row(self, enable: bool) -> (options: Self)
        ensures
            options@ == self@.push(int_entry(CompilerOptionName::MatrixLayoutRow, switch_value(enable), 0)),
    {
        self.push_switch(CompilerOptionName::MatrixLayoutRow, enable)
    }

    /// Sets the profile to compile for. The compiler reads the number of the profile as a signed integer of the same 32 bits.
    pub fn profile(self, profile: ProfileID) -> (options: Self)
        ensures
            options@ == self@.push(int_entry(CompilerOptionName::Profile, profile.0 as i32, 0)),
    {
        self.push_ints(CompilerOptionName::Profile, #[verifier::truncate] (profile.0 as i32), 0)
    }

    /// Sets the pipeline stage to compile for.
    pub fn stage(self, stage: Stage) -> (options: Self)
        ensures
            options@ == self@.push(int_entry(CompilerOptionName::Stage, stage.0, 0)),
    {
        self.push_ints(CompilerOptionName::Stage, stage.0, 0)
    }

    /// Sets the format of the code to generate.
    pub fn target(self, target: CompileTarget) -> (options: Self)
        ensures
            options@ == self@.push(int_entry(CompilerOptionName::Target, target.0, 0)),
    {
        self.push_ints(CompilerOptionName::Target, target.0, 0)
    }

    /// Turns the warnings listed in `warning_codes` into errors.
    pub fn warnings_as_errors(self, warning_codes: &str) -> (options: Self)
        requires
            is_c_text(warning_codes@),
        ensures
            options@ == self@.push(string_entry(CompilerOptionName::WarningsAsErrors, Some(warning_codes@), None)),
    {
        self.push_str1(CompilerOptionName::WarningsAsErrors, warning_codes)
    }

    /// Silences the warnings listed in `warning_codes`.
    pub fn disable_warnings(self, warning_codes: &str) -> (options: Self)
        requires
            is_c_text(warning_codes@),
        ensures
            options@ == self@.push(string_entry(CompilerOptionName::DisableWarnings, Some(warning_codes@), None)),
    {
        self.push_str1(CompilerOptionName::DisableWarnings, warning_codes)
    }

    /// Turns the warning `warning_code` on.
    pub fn enable_warning(self, warning_code: &str) -> (options: Self)
        requires
            is_c_text(warning_code@),
        ensures
            options@ == self@.push(string_entry(CompilerOptionName::EnableWarning, Some(warning_code@), None)),
    {
        self.push_str1(CompilerOptionName::EnableWarning, warning_code)
    }

    /// Turns the warning `warning_code` off.
    pub fn disable_warning(self, warning_code: &str) -> (options: Self)
        requires
            is_c_text(warning_code@),
        ensures
            options@ == self@.push(string_entry(CompilerOptionName::DisableWarning, Some(warning_code@), None)),
    {
        self.push_str1(CompilerOptionName::DisableWarning, warning_code)
    }

    /// Reports the time spent in downstream compilers.
    pub fn report_downstream_time(self, enable: bool) -> (options: Self)
        ensures
            options@ == self@.push(int_entry(CompilerOptionName::ReportDownstreamTime, switch_value(enable), 0)),
    {
        self.push_switch(CompilerOptionName::ReportDownstreamTime, enable)
    }

    /// Reports how long each phase of the compilation took.
    pub fn report_perf_benchmark(self, enable: bool) -> (options: Self)
        ensures
            options@ == self@.push(int_entry(CompilerOptionName::ReportPerfBenchmark, switch_value(enable), 0)),
    {
        self.push_switch(CompilerOptionName::ReportPerfBenchmark, enable)
    }

    /// Skips the validation of generated SPIR-V.
    pub fn skip_spirv_validation(self, enable: bool) -> (options: Self)
        ensures
            options@ == self@.push(int_entry(CompilerOptionName::SkipSPIRVValidation, switch_value(enable), 0)),
    {
        self.push_switch(CompilerOptionName::SkipSPIRVValidation, enable)
    }

    /// Asks for a capability of the target.
    pub fn capability(self, capability: CapabilityID) -> (options: Self)
        ensures
            options@ == self@.push(int_entry(CompilerOptionName::Capability, capability.0, 0)),
    {
        self.push_ints(CompilerOptionName::Capability, capability.0, 0)
    }

    /// Gives images without a declared format the unknown format.
    pub fn default_image_format_unknown(self, enable: bool) -> (options: Self)
        ensures
            options@ == self@.push(int_entry(CompilerOptionName::DefaultImageFormatUnknown, switch_value(enable), 0)),
    {
        self.push_switch(CompilerOptionName::DefaultImageFormatUnknown, enable)
    }

    /// Turns dynamic dispatch off.
    pub fn disable_dynamic_dispatch(self, enable: bool) -> (options: Self)
        ensures
            options@ == self@.push(int_entry(CompilerOptionName::DisableDynamicDispatch, switch_value(enable), 0)),
    {
        self.push_switch(CompilerOptionName::DisableDynamicDispatch, enable)
    }

    /// Turns the specialization of generic code off.
    pub fn disable_specialization(self, enable: bool) -> (options: Self)
        ensures
            options@ == self@.push(int_entry(CompilerOptionName::DisableSpecialization, switch_value(enable), 0)),
    {
        self.push_switch(CompilerOptionName::DisableSpecialization, enable)
    }

    /// Sets how strictly floating-point arithmetic is compiled.
    pub fn floating_point_mode(self, mode: FloatingPointMode) -> (options: Self)
        ensures
            options@ == self@.push(int_entry(CompilerOptionName::FloatingPointMode, mode.0, 0)),
    {
        self.push_ints(CompilerOptionName::FloatingPointMode, mode.0, 0)
    }

    /// Sets how much debug information is generated.
    pub fn debug_information(self, level: DebugInfoLevel) -> (options: Self)
        ensures
            options@ == self@.push(int_entry(CompilerOptionName::DebugInformation, level.0, 0)),
    {
        self.push_ints(CompilerOptionName::DebugInformation, level.0, 0)
    }

    /// Sets how line directives are emitted.
    pub fn line_directive_mode(self, mode: LineDirectiveMode) -> (options: Self)
        ensures
            options@ == self@.push(int_entry(CompilerOptionName::LineDirectiveMode, mode.0, 0)),
    {
        self.push_ints(CompilerOptionName::LineDirectiveMode, mode.0, 0)
    }

    /// Sets the optimization level.
    pub fn optimization(self, level: OptimizationLevel) -> (options: Self)
        ensures
            options@ == self@.push(int_entry(CompilerOptionName::Optimization, level.0, 0)),
    {
        self.push_ints(CompilerOptionName::Optimization, level.0, 0)
    }

    /// Obfuscates the names in the generated code.
    pub fn obfuscate(self, enable: bool) -> (options: Self)
        ensures
            options@ == self@.push(int_entry(CompilerOptionName::Obfuscate, switch_value(enable), 0)),
    {
        self.push_switch(CompilerOptionName::Obfuscate, enable)
    }

    /// Keeps the names of entry points in code generated for Vulkan.
    pub fn vulkan_use_entry_point_name(self, enable: bool) -> (options: Self)
        ensures
            options@ == self@.push(int_entry(CompilerOptionName::VulkanUseEntryPointName, switch_value(enable), 0)),
    {
        self.push_switch(CompilerOptionName::VulkanUseEntryPointName, enable)
    }

    /// Forces the scalar layout on buffers in generated GLSL.
    pub fn glsl_force_scalar_layout(self, enable: bool) -> (options: Self)
        ensures
            options@ == self@.push(int_entry(CompilerOptionName::GLSLForceScalarLayout, switch_value(enable), 0)),
    {
        self.push_switch(CompilerOptionName::GLSLForceScalarLayout, enable)
    }

    /// Generates SPIR-V directly rather than by way of GLSL.
    pub fn emit_spirv_directly(self, enable: bool) -> (options: Self)
        ensures
            options@ == self@.push(int_entry(CompilerOptionName::EmitSpirvDirectly, switch_value(enable), 0)),
    {
        self.push_switch(CompilerOptionName::EmitSpirvDirectly, enable)
    }

    /// Stops before code generation.
    pub fn no_code_gen(self, enable: bool) -> (options: Self)
        ensures
            options@ == self@.push(int_entry(CompilerOptionName::NoCodeGen, switch_value(enable), 0)),
    {
        self.push_switch(CompilerOptionName::NoCodeGen, enable)
    }

    /// Leaves names unmangled.
    pub fn no_mangle(self, enable: bool) -> (options: Self)
        ensures
            options@ == self@.push(int_entry(CompilerOptionName::NoMangle, switch_value(enable), 0)),
    {
        self.push_switch(CompilerOptionName::NoMangle, enable)
    }

    /// Runs the uniformity analysis.
    pub fn validate_uniformity(self, enable: bool) -> (options: Self)
        ensures
            options@ == self@.push(int_entry(CompilerOptionName::ValidateUniformity, switch_value(enable), 0)),
    {
        self.push_switch(CompilerOptionName::ValidateUniformity, enable)
    }
}

} // verus!
