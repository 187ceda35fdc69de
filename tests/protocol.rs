use vst2::{
    read_text, text_before_nul, Category, Descriptor, HostRegistry, HostRequest, Info, Message,
    OpCode, PluginInstance, PluginLoadError, PluginLoader, CAN_DOUBLE_REPLACING, HOST_VERSION,
    NO_SOUND_IN_STOP, PLUGIN_GET_CATEGORY, PLUGIN_GET_PRODUCT_NAME, PLUGIN_GET_VENDOR_NAME,
    PLUGIN_INITIALIZE, PLUGIN_SHUTDOWN, PROGRAM_CHUNKS,
};

type Loader = PluginLoader<&'static str, u32, &'static str>;

fn descriptor(inputs: i32, outputs: i32, unique_id: i32, flags: i32) -> Descriptor {
    Descriptor {
        num_programs: 3,
        num_params: 7,
        num_inputs: inputs,
        num_outputs: outputs,
        flags,
        initial_delay: 64,
        unique_id,
        version: 1100,
    }
}

fn name_buffer(text: &[u8], size: usize) -> Vec<u8> {
    let mut buf = vec![0u8; size];
    buf[..text.len()].copy_from_slice(text);
    buf
}

fn instantiate(
    loader: &Loader,
    registry: &mut HostRegistry<&'static str>,
    effect: Option<u8>,
) -> Result<PluginInstance<u8>, PluginLoadError> {
    registry.begin_bootstrap(*loader.host());
    loader.instance(registry, effect)
}

#[test]
fn missing_library_is_invalid_path() {
    let r = Loader::load(None, Some(1), "host");
    assert_eq!(r.err(), Some(PluginLoadError::InvalidPath));
    let r = Loader::load(None, None, "host");
    assert_eq!(r.err(), Some(PluginLoadError::InvalidPath));
}

#[test]
fn missing_entry_is_not_a_plugin() {
    let r = Loader::load(Some("lib"), None, "host");
    assert_eq!(r.err(), Some(PluginLoadError::NotAPlugin));
}

#[test]
fn load_keeps_library_entry_and_host() {
    let loader = Loader::load(Some("lib"), Some(42), "host").ok().unwrap();
    assert_eq!(*loader.lib(), "lib");
    assert_eq!(*loader.main(), 42);
    assert_eq!(*loader.host(), "host");
}

#[test]
fn null_descriptor_is_instance_failed() {
    let loader = Loader::load(Some("lib"), Some(1), "host").ok().unwrap();
    let mut registry = HostRegistry::new();
    let r = instantiate(&loader, &mut registry, None);
    assert_eq!(r.err(), Some(PluginLoadError::InstanceFailed));
    assert!(!registry.is_bootstrapping());
    assert_eq!(registry.resolve(Some(1)), None);
}

#[test]
fn stub_scenario_snapshot_init_and_teardown() {
    let loader = Loader::load(Some("lib"), Some(1), "host").ok().unwrap();
    let mut registry = HostRegistry::new();
    let mut inst = instantiate(&loader, &mut registry, Some(7)).ok().unwrap();
    assert_eq!(*inst.effect(), 7);
    assert_eq!(inst.id(), 1);
    assert!(!inst.has_info());

    let m = inst.opcode(PLUGIN_GET_PRODUCT_NAME);
    assert_eq!(m, Message { opcode: PLUGIN_GET_PRODUCT_NAME, index: 0, value: 0 });
    inst.opcode(PLUGIN_GET_VENDOR_NAME);
    inst.opcode(PLUGIN_GET_CATEGORY);
    let d = descriptor(2, 2, 1234, 0);
    inst.read_info(&d, &name_buffer(b"Stub", 64), &name_buffer(b"Acme", 64), 1);
    let info = inst.get_info();
    assert_eq!(info.inputs, 2);
    assert_eq!(info.outputs, 2);
    assert_eq!(info.unique_id, 1234);
    assert_eq!(info.name, "Stub");
    assert_eq!(info.vendor, "Acme");
    assert_eq!(info.category, Category::Effect);

    assert_eq!(inst.init(), Message { opcode: PLUGIN_INITIALIZE, index: 0, value: 0 });
    assert_eq!(inst.shutdown(), Some(Message { opcode: PLUGIN_SHUTDOWN, index: 0, value: 0 }));
    assert!(inst.is_closed());
    assert_eq!(inst.shutdown(), None);
    assert_eq!(inst.get_info().unique_id, 1234);
}

#[test]
fn shutdown_without_init_or_snapshot_is_sent_once() {
    let loader = Loader::load(Some("lib"), Some(1), "host").ok().unwrap();
    let mut registry = HostRegistry::new();
    let mut inst = instantiate(&loader, &mut registry, Some(3)).ok().unwrap();
    assert_eq!(inst.shutdown(), Some(Message { opcode: PLUGIN_SHUTDOWN, index: 0, value: 0 }));
    assert_eq!(inst.shutdown(), None);
    assert_eq!(inst.shutdown(), None);
}

#[test]
fn dispatch_passes_arguments_in_order() {
    let loader = Loader::load(Some("lib"), Some(1), "host").ok().unwrap();
    let mut registry = HostRegistry::new();
    let mut inst = instantiate(&loader, &mut registry, Some(3)).ok().unwrap();
    let a = inst.dispatch(12, 4, -9);
    let b = inst.dispatch(13, 5, 10);
    assert_eq!(a, Message { opcode: 12, index: 4, value: -9 });
    assert_eq!(b, Message { opcode: 13, index: 5, value: 10 });
}

#[test]
fn snapshot_is_a_copy_of_the_descriptor() {
    let mut d = descriptor(2, 2, 1234, PROGRAM_CHUNKS | CAN_DOUBLE_REPLACING);
    let info = Info::from_descriptor(&d, &vec![0u8; 64], &vec![0u8; 64], 2);
    d.num_inputs = 8;
    d.unique_id = 1;
    assert_eq!(info.presets, 3);
    assert_eq!(info.parameters, 7);
    assert_eq!(info.inputs, 2);
    assert_eq!(info.outputs, 2);
    assert_eq!(info.unique_id, 1234);
    assert_eq!(info.version, 1100);
    assert_eq!(info.initial_delay, 64);
    assert!(info.preset_chunks);
    assert!(info.f64_precision);
    assert!(!info.silent_when_stopped);
    assert_eq!(info.category, Category::Synth);
    assert_eq!(info.name, "");
}

#[test]
fn flags_outside_the_known_bits_set_no_capability() {
    let info = Info::from_descriptor(&descriptor(0, 0, 0, 1 | 16 | 256), &vec![], &vec![], 0);
    assert!(!info.preset_chunks);
    assert!(!info.f64_precision);
    assert!(!info.silent_when_stopped);
    assert_eq!(info.category, Category::Unknown);
    let info = Info::from_descriptor(&descriptor(0, 0, 0, NO_SOUND_IN_STOP), &vec![], &vec![], 11);
    assert!(info.silent_when_stopped);
    assert_eq!(info.category, Category::Generator);
}

#[test]
fn category_codes() {
    assert_eq!(Category::from_code(0), Category::Unknown);
    assert_eq!(Category::from_code(2), Category::Synth);
    assert_eq!(Category::from_code(10), Category::Shell);
    assert_eq!(Category::from_code(12), Category::Unknown);
    assert_eq!(Category::from_code(-1), Category::Unknown);
}

#[test]
fn text_stops_at_first_nul() {
    assert_eq!(text_before_nul("ab\0cd\0"), "ab");
    assert_eq!(text_before_nul("plain"), "plain");
    assert_eq!(text_before_nul(""), "");
    assert_eq!(text_before_nul("\0x"), "");
    assert_eq!(text_before_nul("ünï\0"), "ünï");
}

#[test]
fn names_are_decoded_lossily() {
    assert_eq!(read_text(&name_buffer(b"Synth One", 64)), "Synth One");
    assert_eq!(read_text(&vec![0xff, b'a', 0, b'b']), "\u{FFFD}a");
    assert_eq!(read_text(&vec![0xc3, 0xa9, b'x']), "\u{e9}x");
    assert_eq!(read_text(&vec![]), "");
}

#[test]
fn opcode_codes_round_trip() {
    let all = [
        OpCode::Automate,
        OpCode::Version,
        OpCode::CurrentId,
        OpCode::Idle,
        OpCode::PinConnected,
        OpCode::WantMidi,
        OpCode::GetTime,
        OpCode::SetTime,
        OpCode::TempoAt,
        OpCode::GetNumAutomatableParameters,
        OpCode::GetParameterQuantization,
        OpCode::IOChanged,
        OpCode::NeedIdle,
    ];
    for op in all.iter() {
        assert_eq!(OpCode::from_code(op.code()), Some(*op));
    }
    assert_eq!(OpCode::WantMidi.code(), 6);
    assert_eq!(OpCode::NeedIdle.code(), 13);
    assert_eq!(OpCode::from_code(5), None);
    assert_eq!(OpCode::from_code(14), None);
    assert_eq!(OpCode::from_code(-1), None);
}

#[test]
fn host_requests_and_replies() {
    assert_eq!(HostRequest::decode(0, 3), HostRequest::Automate { index: 3 });
    assert_eq!(HostRequest::decode(0, 3).reply(99), 0);
    assert_eq!(HostRequest::decode(2, 0), HostRequest::CurrentId);
    assert!(HostRequest::decode(2, 0).needs_plugin_id());
    assert_eq!(HostRequest::decode(2, 0).reply(1234), 1234);
    assert_eq!(HostRequest::decode(3, 0), HostRequest::Idle);
    assert_eq!(HostRequest::decode(4, 0), HostRequest::Ignored);
    assert_eq!(HostRequest::decode(11, 0).reply(5), 0);
    assert_eq!(HostRequest::decode(12, 0), HostRequest::Ignored);
    assert_eq!(HostRequest::decode(5, 0), HostRequest::Ignored);
    assert_eq!(HostRequest::decode(1000, 0).reply(5), 0);
}

#[test]
fn version_reply_is_the_same_every_time() {
    let first = HostRequest::decode(1, 0).reply(0);
    let second = HostRequest::decode(1, 17).reply(99);
    assert_eq!(first, 2400);
    assert_eq!(first, HOST_VERSION);
    assert_eq!(first.to_string(), second.to_string());
    assert_eq!(first.to_string().parse::<isize>().unwrap(), 2400);
}

#[test]
fn callbacks_resolve_staging_then_reserved_slot() {
    let mut registry: HostRegistry<&'static str> = HostRegistry::new();
    assert_eq!(registry.resolve(None), None);
    registry.begin_bootstrap("first");
    assert_eq!(registry.resolve(None), Some(&"first"));
    assert_eq!(registry.resolve(Some(0)), Some(&"first"));
    assert_eq!(registry.finish_bootstrap(true), Some(1));
    assert_eq!(registry.resolve(Some(1)), Some(&"first"));

    registry.begin_bootstrap("second");
    assert_eq!(registry.resolve(Some(0)), Some(&"second"));
    assert_eq!(registry.resolve(Some(1)), Some(&"first"));
    assert_eq!(registry.finish_bootstrap(true), Some(2));
    assert_eq!(registry.resolve(Some(2)), Some(&"second"));
    assert_eq!(registry.resolve(Some(1)), Some(&"first"));
    assert_eq!(registry.resolve(None), None);

    assert_eq!(registry.release(1), Some("first"));
    assert_eq!(registry.resolve(Some(1)), None);
    assert_eq!(registry.release(1), None);
    assert_eq!(registry.resolve(Some(2)), Some(&"second"));
}

#[test]
fn failed_bootstrap_attaches_nothing() {
    let mut registry: HostRegistry<u8> = HostRegistry::new();
    registry.begin_bootstrap(4);
    assert!(registry.is_bootstrapping());
    assert!(registry.has_room());
    assert_eq!(registry.finish_bootstrap(false), None);
    assert!(!registry.is_bootstrapping());
    assert_eq!(registry.resolve(Some(1)), None);
    registry.begin_bootstrap(5);
    assert_eq!(registry.finish_bootstrap(true), Some(1));
}

#[test]
fn error_descriptions() {
    assert_eq!(PluginLoadError::InvalidPath.description(), "Could not open the requested path");
    assert_eq!(
        PluginLoadError::NotAPlugin.description(),
        "The given path does not contain a VST2.4 compatible library"
    );
    assert_eq!(
        PluginLoadError::InstanceFailed.description(),
        "Failed to create a plugin instance"
    );
}
