use slang::{
    CapabilityID, CompileTarget, CompilerOptionEntry, CompilerOptionName, CompilerOptionValueKind,
    CompilerOptions, DebugInfoLevel, FloatingPointMode, LineDirectiveMode, OptimizationLevel,
    ProfileID, SourceLanguage, Stage,
};

fn only_entry(options: &CompilerOptions) -> &CompilerOptionEntry {
    assert_eq!(options.entries().len(), 1);
    &options.entries()[0]
}

fn assert_ints(options: CompilerOptions, name: CompilerOptionName, i0: i32, i1: i32) {
    let entry = only_entry(&options);
    assert_eq!(entry.name, name);
    assert_eq!(entry.kind, CompilerOptionValueKind::Int);
    assert_eq!(entry.int_value0, i0);
    assert_eq!(entry.int_value1, i1);
    assert_eq!(entry.string_value0, None);
    assert_eq!(entry.string_value1, None);
}

fn assert_strings(
    options: CompilerOptions,
    name: CompilerOptionName,
    s0: Option<&str>,
    s1: Option<&str>,
) {
    let entry = only_entry(&options);
    assert_eq!(entry.name, name);
    assert_eq!(entry.kind, CompilerOptionValueKind::String);
    assert_eq!(entry.int_value0, 0);
    assert_eq!(entry.int_value1, 0);
    assert_eq!(entry.string_value0.as_deref(), s0);
    assert_eq!(entry.string_value1.as_deref(), s1);
}

#[test]
fn default_options_are_empty() {
    assert_eq!(CompilerOptions::default().entries().len(), 0);
}

#[test]
fn string_setters_make_one_string_entry() {
    let new = CompilerOptions::default;
    assert_strings(
        new().macro_define("DEBUG", "1"),
        CompilerOptionName::MacroDefine,
        Some("DEBUG"),
        Some("1"),
    );
    assert_strings(
        new().include_path("shaders/common"),
        CompilerOptionName::Include,
        Some("shaders/common"),
        None,
    );
    assert_strings(
        new().warnings_as_errors("30081,30082"),
        CompilerOptionName::WarningsAsErrors,
        Some("30081,30082"),
        None,
    );
    assert_strings(
        new().disable_warnings("all"),
        CompilerOptionName::DisableWarnings,
        Some("all"),
        None,
    );
    assert_strings(
        new().enable_warning("30081"),
        CompilerOptionName::EnableWarning,
        Some("30081"),
        None,
    );
    assert_strings(
        new().disable_warning("30082"),
        CompilerOptionName::DisableWarning,
        Some("30082"),
        None,
    );
    assert_strings(new().macro_define("", ""), CompilerOptionName::MacroDefine, Some(""), Some(""));
}

#[test]
fn switch_setters_make_one_integer_entry() {
    let setters: [(fn(CompilerOptions, bool) -> CompilerOptions, CompilerOptionName); 17] = [
        (CompilerOptions::matrix_layout_column, CompilerOptionName::MatrixLayoutColumn),
        (CompilerOptions::matrix_layout_row, CompilerOptionName::MatrixLayoutRow),
        (CompilerOptions::report_downstream_time, CompilerOptionName::ReportDownstreamTime),
        (CompilerOptions::report_perf_benchmark, CompilerOptionName::ReportPerfBenchmark),
        (CompilerOptions::skip_spirv_validation, CompilerOptionName::SkipSPIRVValidation),
        (
            CompilerOptions::default_image_format_unknown,
            CompilerOptionName::DefaultImageFormatUnknown,
        ),
        (CompilerOptions::disable_dynamic_dispatch, CompilerOptionName::DisableDynamicDispatch),
        (CompilerOptions::disable_specialization, CompilerOptionName::DisableSpecialization),
        (CompilerOptions::obfuscate, CompilerOptionName::Obfuscate),
        (
            CompilerOptions::vulkan_use_entry_point_name,
            CompilerOptionName::VulkanUseEntryPointName,
        ),
        (CompilerOptions::glsl_force_scalar_layout, CompilerOptionName::GLSLForceScalarLayout),
        (CompilerOptions::emit_spirv_directly, CompilerOptionName::EmitSpirvDirectly),
        (CompilerOptions::no_code_gen, CompilerOptionName::NoCodeGen),
        (CompilerOptions::no_mangle, CompilerOptionName::NoMangle),
        (CompilerOptions::validate_uniformity, CompilerOptionName::ValidateUniformity),
        (CompilerOptions::matrix_layout_row, CompilerOptionName::MatrixLayoutRow),
        (CompilerOptions::obfuscate, CompilerOptionName::Obfuscate),
    ];
    for (setter, name) in setters {
        assert_ints(setter(CompilerOptions::default(), true), name, 1, 0);
        assert_ints(setter(CompilerOptions::default(), false), name, 0, 0);
    }
}

#[test]
fn code_setters_make_one_integer_entry() {
    let new = CompilerOptions::default;
    assert_ints(new().language(SourceLanguage(3)), CompilerOptionName::Language, 3, 0);
    assert_ints(new().stage(Stage(6)), CompilerOptionName::Stage, 6, 0);
    assert_ints(new().target(CompileTarget(10)), CompilerOptionName::Target, 10, 0);
    assert_ints(
        new().floating_point_mode(FloatingPointMode(2)),
        CompilerOptionName::FloatingPointMode,
        2,
        0,
    );
    assert_ints(
        new().debug_information(DebugInfoLevel(1)),
        CompilerOptionName::DebugInformation,
        1,
        0,
    );
    assert_ints(
        new().line_directive_mode(LineDirectiveMode(4)),
        CompilerOptionName::LineDirectiveMode,
        4,
        0,
    );
    assert_ints(
        new().optimization(OptimizationLevel(3)),
        CompilerOptionName::Optimization,
        3,
        0,
    );
    assert_ints(new().capability(CapabilityID(77)), CompilerOptionName::Capability, 77, 0);
    assert_ints(new().capability(CapabilityID(-1)), CompilerOptionName::Capability, -1, 0);
    assert_ints(new().stage(Stage(i32::MIN)), CompilerOptionName::Stage, i32::MIN, 0);
}

#[test]
fn profile_is_passed_bit_for_bit() {
    let new = CompilerOptions::default;
    assert_ints(new().profile(ProfileID(0)), CompilerOptionName::Profile, 0, 0);
    assert_ints(new().profile(ProfileID(0x0006_0005)), CompilerOptionName::Profile, 0x0006_0005, 0);
    assert_ints(new().profile(ProfileID(u32::MAX)), CompilerOptionName::Profile, -1, 0);
    assert_ints(new().profile(ProfileID(0x8000_0000)), CompilerOptionName::Profile, i32::MIN, 0);
}

#[test]
fn unknown_profile_and_capability_are_zero() {
    assert_eq!(ProfileID::unknown(), ProfileID(0));
    assert_eq!(CapabilityID::unknown(), CapabilityID(0));
}

#[test]
fn options_keep_the_order_in_which_they_were_set() {
    let options = CompilerOptions::default()
        .optimization(OptimizationLevel(2))
        .matrix_layout_row(true)
        .macro_define("A", "1")
        .matrix_layout_row(false)
        .macro_define("A", "2");
    let entries = options.entries();
    assert_eq!(entries.len(), 5);
    assert_eq!(entries[0].name, CompilerOptionName::Optimization);
    assert_eq!(entries[0].int_value0, 2);
    assert_eq!(entries[1].name, CompilerOptionName::MatrixLayoutRow);
    assert_eq!(entries[1].int_value0, 1);
    assert_eq!(entries[2].name, CompilerOptionName::MacroDefine);
    assert_eq!(entries[2].string_value1.as_deref(), Some("1"));
    assert_eq!(entries[3].name, CompilerOptionName::MatrixLayoutRow);
    assert_eq!(entries[3].int_value0, 0);
    assert_eq!(entries[4].name, CompilerOptionName::MacroDefine);
    assert_eq!(entries[4].string_value1.as_deref(), Some("2"));
}

#[test]
fn every_entry_has_the_payload_of_its_tag() {
    let options = CompilerOptions::default()
        .language(SourceLanguage(1))
        .include_path("a")
        .profile(ProfileID(9))
        .warnings_as_errors("1")
        .no_mangle(true)
        .macro_define("K", "V")
        .target(CompileTarget(6));
    assert_eq!(options.entries().len(), 7);
    for entry in options.entries() {
        match entry.kind {
            CompilerOptionValueKind::Int => {
                assert!(entry.string_value0.is_none());
                assert!(entry.string_value1.is_none());
            }
            CompilerOptionValueKind::String => {
                assert_eq!(entry.int_value0, 0);
                assert_eq!(entry.int_value1, 0);
                assert!(entry.string_value0.is_some());
            }
        }
    }
}
