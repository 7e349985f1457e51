use slang::reflection::{EntryPoint, NodeRef, TypeLayout, VariableLayout};
use slang::{
    Blob, CompileTarget, CompilerOptions, ComponentType, Error, FileSystem, GlobalSession, Handle,
    Module, OptimizationLevel, ProfileID, ProgramLayout, ProgramLayoutTables, Session,
    SessionDesc, TargetDesc, S_OK,
};

fn node(addr: usize) -> NodeRef {
    NodeRef::from_raw(addr).unwrap()
}

// A whole compilation, with the replies of the compiler written down in place
// of the calls: one target, one search path, one module with the compute
// entry point "main", composed, linked, reflected and compiled.
#[test]
fn compile_with_recorded_replies() {
    let global_session = GlobalSession::new(0, Handle::from_raw(0x1000)).unwrap();
    assert_eq!(global_session.as_raw(), 0x1000);

    let session_options = CompilerOptions::default()
        .optimization(OptimizationLevel(3))
        .matrix_layout_row(true);
    let target_desc =
        TargetDesc::default().format(CompileTarget(10)).profile(ProfileID(0x0006_0005));
    let targets = [target_desc];
    let search_paths = ["shaders"];
    let session_desc = SessionDesc::default()
        .targets(&targets)
        .search_paths(&search_paths)
        .options(&session_options);
    assert_eq!(session_desc.targets.len(), 1);
    assert_eq!(session_desc.search_paths, &["shaders"]);
    assert_eq!(session_desc.options.unwrap().entries().len(), 2);

    let session = GlobalSession::create_session(0, Handle::from_raw(0x2000)).unwrap();
    let module = Session::load_module(Handle::from_raw(0x3000), Blob::null()).unwrap();
    assert_eq!(Module::entry_point_count(1), 1);
    let entry_point = Module::find_entry_point_by_name(0, Handle::from_raw(0x3100)).unwrap();

    let module_component: &ComponentType = &module;
    let entry_point_component: &ComponentType = &entry_point;
    let parts = [module_component.as_raw(), entry_point_component.as_raw()];
    assert_eq!(parts, [0x3000, 0x3100]);
    let program =
        Session::create_composite_component_type(0, Handle::from_raw(0x4000), Blob::null())
            .unwrap();
    let linked_program = ComponentType::link(0, Handle::from_raw(0x5000), Blob::null()).unwrap();
    assert_ne!(linked_program.as_raw(), program.as_raw());
    assert_ne!(session.as_raw(), global_session.as_raw());

    let tables = ProgramLayoutTables {
        parameters: vec![
            VariableLayout(node(0x6100)),
            VariableLayout(node(0x6108)),
            VariableLayout(node(0x6110)),
        ],
        type_parameters: Vec::new(),
        entry_points: vec![EntryPoint(node(0x6200))],
        hashed_strings: Vec::new(),
    };
    let read = ProgramLayout::new(
        Handle::from_raw(0x6000),
        tables,
        0,
        0,
        TypeLayout(node(0x6300)),
        VariableLayout(node(0x6400)),
    );
    let reflection = ComponentType::layout(read, Blob::null()).unwrap();
    assert_eq!(reflection.entry_point_count(), 1);
    assert_eq!(reflection.parameter_count(), 3);

    let bytecode = Blob::from_native(vec![0x44, 0x58, 0x42, 0x43]);
    let shader_bytecode = ComponentType::entry_point_code(0, bytecode, Blob::null()).unwrap();
    assert_ne!(shader_bytecode.as_slice().len(), 0);
}

struct MemoryFiles {
    files: Vec<(String, Vec<u8>)>,
}

impl FileSystem for MemoryFiles {
    fn load_file(&self, path: &str) -> Result<Blob, Error> {
        match self.files.iter().find(|(name, _)| name == path) {
            Some((_, data)) => Ok(Blob::from(data.clone())),
            None => Err(Error::Result(-1)),
        }
    }
}

// The host's half of loading modules through a file system of its own: what
// the compiler is handed for a file that is there and for one that is not,
// and what is made of its answer.
#[test]
fn virtual_files_with_recorded_replies() {
    let files = MemoryFiles {
        files: vec![
            ("test1.slang".to_string(), b"[shader(\"compute\")] void main() {}".to_vec()),
            ("test2.slang".to_string(), b"struct Test { float value; };".to_vec()),
        ],
    };
    let desc = SessionDesc::default().file_system(files);
    let bridge = desc.file_system.unwrap();

    let reply = bridge.load_file_raw(b"test1.slang");
    assert_eq!(reply.status, S_OK);
    assert_eq!(
        reply.blob.unwrap().as_str(),
        Ok("[shader(\"compute\")] void main() {}")
    );
    let module1 = Session::load_module(Handle::from_raw(0x100), Blob::null()).unwrap();
    assert_eq!(module1.as_raw(), 0x100);

    let reply = bridge.load_file_raw(b"test2.slang");
    assert_eq!(reply.status, S_OK);
    assert_eq!(reply.blob.unwrap().as_slice(), b"struct Test { float value; };");

    let reply = bridge.load_file_raw(b"nonexistent.slang");
    assert!(reply.status < 0);
    assert!(reply.blob.is_none());
    let err_module = Session::load_module(Handle::null(), Blob::null());
    assert!(err_module.is_err());
}
