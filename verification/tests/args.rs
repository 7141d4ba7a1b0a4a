//! Launch-argument synthesis on concrete modules.

use vmman::modules::{AppleSMCModule, BaseModule, BaseTapModule, BridgeTapModule, MacVTapModule,
                     StorageModule, VfioModule};

fn base_tap() -> BaseTapModule {
    BaseTapModule {
        ifname: String::from("vtap0"),
        macaddress: String::from("52:54:00:12:34:56"),
        driver: String::from("virtio-net-pci"),
    }
}

#[test]
fn base_module_mandatory_fields_only() {
    let m = BaseModule {
        machine: String::from("q35"),
        cpu: None,
        smp: String::from("4"),
        mem: String::from("2G"),
        mempath: None,
        smbios: None,
        vga: None,
        display: None,
        serial: None,
    };
    let args = m.startup_args();
    assert_eq!(
        args,
        vec![
            "-machine", "q35", "-smp", "4", "-m", "2G", "-mem-path", "/dev/hugepages", "-vga",
            "none", "-display", "none",
        ]
    );
}

#[test]
fn base_module_all_fields() {
    let m = BaseModule {
        machine: String::from("pc"),
        cpu: Some(String::from("host")),
        smp: String::from("8"),
        mem: String::from("4G"),
        mempath: Some(String::from("/mnt/huge")),
        smbios: Some(String::from("type=2")),
        vga: Some(String::from("std")),
        display: Some(String::from("gtk")),
        serial: Some(String::from("stdio")),
    };
    let args = m.startup_args();
    assert_eq!(
        args,
        vec![
            "-machine", "pc", "-smp", "8", "-m", "4G", "-mem-path", "/dev/hugepages",
            "-mem-path", "/mnt/huge", "-cpu", "host", "-smbios", "type=2", "-serial", "stdio",
            "-vga", "std", "-display", "gtk",
        ]
    );
}

#[test]
fn tap_device_pair() {
    let args = base_tap().startup_args_base();
    assert_eq!(
        args,
        vec!["-device", "virtio-net-pci,netdev=vtap0,mac=52:54:00:12:34:56"]
    );
}

#[test]
fn macvtap_args_reference_descriptor() {
    let m = MacVTapModule { base: base_tap(), ifhost: String::from("eth0") };
    let args = m.startup_args(42);
    assert_eq!(
        args,
        vec![
            "-netdev",
            "tap,id=vtap0,fd=42,vhost=on",
            "-device",
            "virtio-net-pci,netdev=vtap0,mac=52:54:00:12:34:56",
        ]
    );
}

#[test]
fn bridge_tap_args_reference_interface() {
    let m = BridgeTapModule { base: base_tap(), ifbr: String::from("br0") };
    let args = m.startup_args();
    assert_eq!(
        args,
        vec![
            "-netdev",
            "tap,id=vtap0,ifname=vtap0,script=no,downscript=no",
            "-device",
            "virtio-net-pci,netdev=vtap0,mac=52:54:00:12:34:56",
        ]
    );
}

#[test]
fn vfio_args_without_rom() {
    let m = VfioModule { name: String::from("0000:01:00.0"), romfile: None };
    assert_eq!(m.startup_args(), vec!["-device", "vfio-pci,host=0000:01:00.0"]);
}

#[test]
fn vfio_args_with_rom() {
    let m = VfioModule {
        name: String::from("0000:01:00.0"),
        romfile: Some(String::from("/roms/gpu.bin")),
    };
    assert_eq!(
        m.startup_args(),
        vec![
            "-device",
            "vfio-pci,host=0000:01:00.0,romfile=/roms/gpu.bin,multifunction=on",
        ]
    );
}

#[test]
fn apple_smc_args() {
    let m = AppleSMCModule { osk: String::from("sample-osk-value") };
    assert_eq!(m.startup_args(), vec!["-device", "isa-applesmc,osk=sample-osk-value"]);
}

#[test]
fn storage_args_without_media() {
    let m = StorageModule {
        driver: String::from("virtio-blk"),
        filename: String::from("/images/disk.img"),
        media: None,
    };
    assert_eq!(
        m.startup_args(),
        vec![
            "-drive",
            "if=virtio-blk,format=raw,aio=native,cache.direct=on,file=/images/disk.img",
        ]
    );
}

#[test]
fn storage_args_with_media() {
    let m = StorageModule {
        driver: String::from("ide"),
        filename: String::from("/images/install.iso"),
        media: Some(String::from("cdrom")),
    };
    assert_eq!(
        m.startup_args(),
        vec![
            "-drive",
            "if=ide,format=raw,aio=native,cache.direct=on,file=/images/install.iso,media=cdrom",
        ]
    );
}
