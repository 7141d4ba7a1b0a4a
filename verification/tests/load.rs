//! Loading configurations end to end: artifact text to modules to the full
//! argument vector.

use vmman::conf::ConfError;
use vmman::modules::Module;
use vmman::vm::VmConf;

fn fresh() -> VmConf {
    VmConf::new("testvm", "/tmp/testvm.toml")
}

#[test]
fn load_counts_and_orders_sections() {
    let text = "
[base]
[base.vm]
machine = \"q35\"
smp = \"2\"
mem = \"1G\"

[storage]
[storage.root]
driver = \"virtio-blk\"
file = \"/images/a.img\"

[storage.extra]
driver = \"virtio-blk\"
file = \"/images/b.img\"
";
    let mut conf = fresh();
    conf.load(text, 1000, 100).unwrap();
    assert_eq!(conf.modules.len(), 3);
    assert!(matches!(conf.modules[0], Module::Base(_)));
    assert!(matches!(conf.modules[1], Module::Storage(_)));
    assert!(matches!(conf.modules[2], Module::Storage(_)));
    assert_eq!(conf.uid, 1000);
    assert_eq!(conf.gid, 100);
    if let Module::Storage(s) = &conf.modules[1] {
        assert_eq!(s.filename, "/images/b.img");
    }
    if let Module::Storage(s) = &conf.modules[2] {
        assert_eq!(s.filename, "/images/a.img");
    }
}

#[test]
fn end_to_end_argument_vector() {
    let text = "
[base]
[base.vm]
machine = \"q35\"
smp = \"2\"
mem = \"1G\"

[storage]
[storage.disk]
driver = \"virtio-blk\"
file = \"/images/disk.img\"
";
    let mut conf = fresh();
    conf.load(text, 0, 0).unwrap();
    let fds: Vec<Option<u64>> = vec![None, None];
    let args = conf.build_args(&fds);
    assert_eq!(
        args,
        vec![
            "-enable-kvm",
            "-machine",
            "q35",
            "-smp",
            "2",
            "-m",
            "1G",
            "-mem-path",
            "/dev/hugepages",
            "-vga",
            "none",
            "-display",
            "none",
            "-drive",
            "if=virtio-blk,format=raw,aio=native,cache.direct=on,file=/images/disk.img",
        ]
    );
}

#[test]
fn macvtap_argument_vector_embeds_the_descriptor() {
    let text = "
[macvtap]
[macvtap.lan]
interface = \"vtap0\"
mac = \"52:54:00:12:34:56\"
driver = \"virtio-net-pci\"
host-interface = \"eth0\"
";
    let mut conf = fresh();
    conf.load(text, 0, 0).unwrap();
    let fds: Vec<Option<u64>> = vec![Some(7)];
    let args = conf.build_args(&fds);
    assert_eq!(
        args,
        vec![
            "-enable-kvm",
            "-netdev",
            "tap,id=vtap0,fd=7,vhost=on",
            "-device",
            "virtio-net-pci,netdev=vtap0,mac=52:54:00:12:34:56",
        ]
    );
}

#[test]
fn unknown_module_kind_names_the_string() {
    let text = "
[gpu-magic]
[gpu-magic.x]
level = \"11\"
";
    let mut conf = fresh();
    let err = conf.load(text, 0, 0).unwrap_err();
    assert!(matches!(&err, ConfError::UnknownKind { kind } if kind == "gpu-magic"));
    assert_eq!(err.message(), "unknown module gpu-magic");
    assert_eq!(conf.modules.len(), 0);
}

#[test]
fn deprecated_kind_directs_to_replacements() {
    let text = "
[bridge]
[bridge.net]
interface = \"tap0\"
";
    let mut conf = fresh();
    let err = conf.load(text, 0, 0).unwrap_err();
    assert!(matches!(&err, ConfError::DeprecatedKind { kind } if kind == "bridge"));
    assert_eq!(
        err.message(),
        "'bridge' deprecated, consider using 'macvtap'/'tapbridge' module"
    );
    assert!(!matches!(err, ConfError::UnknownKind { .. }));
}

#[test]
fn missing_required_key_is_named() {
    let text = "
[base]
[base.vm]
smp = \"2\"
mem = \"1G\"
";
    let mut conf = fresh();
    let err = conf.load(text, 0, 0).unwrap_err();
    assert!(matches!(&err, ConfError::MissingKey { key } if key == "machine"));
    assert_eq!(err.message(), "Expecting machine as a string");
}

#[test]
fn non_string_value_is_treated_as_missing() {
    let text = "
[base]
[base.vm]
machine = 35
smp = \"2\"
mem = \"1G\"
";
    let mut conf = fresh();
    let err = conf.load(text, 0, 0).unwrap_err();
    assert!(matches!(&err, ConfError::MissingKey { key } if key == "machine"));
}

#[test]
fn malformed_artifact_fails_parse() {
    let mut conf = fresh();
    let err = conf.load("this is = = not a configuration", 0, 0).unwrap_err();
    assert!(matches!(err, ConfError::Parse));
    assert_eq!(err.message(), "Cannot parse configuration");
}

#[test]
fn macvtap_section_builds_the_module() {
    let text = "
[macvtap]
[macvtap.lan]
interface = \"vtap0\"
mac = \"52:54:00:12:34:56\"
driver = \"virtio-net-pci\"
host-interface = \"eth0\"
";
    let mut conf = fresh();
    conf.load(text, 0, 0).unwrap();
    assert_eq!(conf.modules.len(), 1);
    match &conf.modules[0] {
        Module::MacVTap(m) => {
            assert_eq!(m.base.ifname, "vtap0");
            assert_eq!(m.base.macaddress, "52:54:00:12:34:56");
            assert_eq!(m.base.driver, "virtio-net-pci");
            assert_eq!(m.ifhost, "eth0");
        },
        other => panic!("expected a macvtap module, got {:?}", module_kind(other)),
    }
}

#[test]
fn tapbridge_and_passthrough_sections_build_their_modules() {
    let text = "
[tapbridge]
[tapbridge.lan]
interface = \"tap3\"
mac = \"52:54:00:00:00:03\"
driver = \"e1000\"
bridge = \"br0\"

[pcie-passthrough]
[pcie-passthrough.gpu]
dev = \"0000:01:00.0\"
romfile = \"/roms/gpu.bin\"
";
    let mut conf = fresh();
    conf.load(text, 0, 0).unwrap();
    assert_eq!(conf.modules.len(), 2);
    match &conf.modules[0] {
        Module::Vfio(v) => {
            assert_eq!(v.name, "0000:01:00.0");
            assert_eq!(v.romfile.as_deref(), Some("/roms/gpu.bin"));
        },
        _ => panic!("expected the passthrough module first (section order)"),
    }
    match &conf.modules[1] {
        Module::BridgeTap(b) => {
            assert_eq!(b.base.ifname, "tap3");
            assert_eq!(b.ifbr, "br0");
        },
        _ => panic!("expected the bridge tap module second"),
    }
}

fn module_kind(m: &Module) -> &'static str {
    match m {
        Module::MacVTap(_) => "macvtap",
        Module::BridgeTap(_) => "tapbridge",
        Module::Vfio(_) => "pcie-passthrough",
        Module::Base(_) => "base",
        Module::AppleSMC(_) => "apple-smc",
        Module::Storage(_) => "storage",
    }
}
