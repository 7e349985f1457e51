use slang::{
    Blob, CompileTarget, CompilerOptionName, CompilerOptions, Error, FileSystem,
    OptimizationLevel, ProfileID, SessionDesc, TargetDesc, S_OK,
};

#[test]
fn default_target_is_all_zero() {
    let desc = TargetDesc::default();
    assert_eq!(desc.format, CompileTarget(0));
    assert_eq!(desc.profile, ProfileID(0));
    assert!(desc.options.is_none());
}

#[test]
fn target_builder_sets_one_field_at_a_time() {
    let desc = TargetDesc::default().format(CompileTarget(10));
    assert_eq!(desc.format, CompileTarget(10));
    assert_eq!(desc.profile, ProfileID(0));
    assert!(desc.options.is_none());

    let desc = desc.profile(ProfileID(0x0006_0005));
    assert_eq!(desc.format, CompileTarget(10));
    assert_eq!(desc.profile, ProfileID(0x0006_0005));
    assert!(desc.options.is_none());

    let options = CompilerOptions::default().optimization(OptimizationLevel(3));
    let desc = desc.options(&options);
    assert_eq!(desc.format, CompileTarget(10));
    assert_eq!(desc.profile, ProfileID(0x0006_0005));
    let held = desc.options.unwrap().entries();
    assert_eq!(held.len(), 1);
    assert_eq!(held[0].name, CompilerOptionName::Optimization);

    let desc = desc.format(CompileTarget(6));
    assert_eq!(desc.format, CompileTarget(6));
    assert_eq!(desc.profile, ProfileID(0x0006_0005));
    assert!(desc.options.is_some());
}

#[test]
fn default_session_is_empty() {
    let desc = SessionDesc::default();
    assert_eq!(desc.targets.len(), 0);
    assert_eq!(desc.search_paths.len(), 0);
    assert!(desc.options.is_none());
    assert!(desc.file_system.is_none());
}

struct TestFileSystem;

impl FileSystem for TestFileSystem {
    fn load_file(&self, path: &str) -> Result<Blob, Error> {
        match path {
            "virtual.slang" => {
                let code = b"[shader(\"compute\")]\n[numthreads(1,1,1)]\nvoid main() {}";
                Ok(Blob::from(code.as_slice()))
            }
            _ => Err(Error::Result(-1)),
        }
    }
}

#[test]
fn session_builder_sets_one_field_at_a_time() {
    let options = CompilerOptions::default()
        .optimization(OptimizationLevel(3))
        .matrix_layout_row(true);
    let targets =
        [TargetDesc::default().format(CompileTarget(10)).profile(ProfileID(0x0006_0005))];
    let search_paths = ["shaders"];

    let desc = SessionDesc::default().targets(&targets);
    assert_eq!(desc.targets.len(), 1);
    assert_eq!(desc.targets[0].format, CompileTarget(10));
    assert_eq!(desc.search_paths.len(), 0);
    assert!(desc.options.is_none());
    assert!(desc.file_system.is_none());

    let desc = desc.search_paths(&search_paths);
    assert_eq!(desc.targets.len(), 1);
    assert_eq!(desc.search_paths, &["shaders"]);
    assert!(desc.options.is_none());
    assert!(desc.file_system.is_none());

    let desc = desc.options(&options);
    assert_eq!(desc.targets.len(), 1);
    assert_eq!(desc.search_paths, &["shaders"]);
    assert_eq!(desc.options.unwrap().entries().len(), 2);
    assert!(desc.file_system.is_none());

    let desc = desc.file_system(TestFileSystem);
    assert_eq!(desc.targets.len(), 1);
    assert_eq!(desc.targets[0].profile, ProfileID(0x0006_0005));
    assert_eq!(desc.search_paths, &["shaders"]);
    assert_eq!(desc.options.unwrap().entries().len(), 2);

    let bridge = desc.file_system.unwrap();
    let reply = bridge.load_file("virtual.slang");
    assert_eq!(reply.status, S_OK);
    assert_eq!(
        reply.blob.map(|blob| blob.as_slice().to_vec()),
        Some(b"[shader(\"compute\")]\n[numthreads(1,1,1)]\nvoid main() {}".to_vec())
    );
    let reply = bridge.load_file("other.slang");
    assert_eq!(reply.status, -1);
    assert!(reply.blob.is_none());
}

struct Named(&'static str);

impl FileSystem for Named {
    fn load_file(&self, _path: &str) -> Result<Blob, Error> {
        Ok(Blob::from(self.0))
    }
}

#[test]
fn session_reads_through_the_file_system_it_was_given_last() {
    let desc = SessionDesc::default().file_system(Named("first")).file_system(Named("second"));
    let bridge = desc.file_system.unwrap();
    let reply = bridge.load_file("any.slang");
    assert_eq!(reply.status, S_OK);
    assert_eq!(reply.blob.unwrap().as_slice(), b"second");
}
