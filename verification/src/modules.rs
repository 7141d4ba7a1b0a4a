//! The device modules and their launch arguments.
//!
//! A module is a self-contained unit of device preparation and
//! launch-argument contribution for one hardware resource. The set of kinds
//! is closed, so the modules form a tagged union rather than a trait-object
//! collection. Argument synthesis is a pure function of the module's
//! configured state; the privileged preparation phase is planned in
//! [`crate::plans`] and executed outside the library.

use vstd::prelude::*;
use vstd::string::StringExecFns;

use crate::conf::ConfError;
use crate::conf::ConfErrorView;
use crate::conf::Section;
use crate::conf::SectionView;
use crate::conf::EntryView;
use crate::conf::spec_get_string;
use crate::strutil::str_eq;
use crate::strutil::spec_u64_dec;
use crate::strutil::u64_to_dec;

verus! {

/// The network state shared by both tap variants: the interface to create,
/// the MAC address to give it and the hypervisor-side device model.
pub struct BaseTapModule {
    pub ifname: String,
    pub macaddress: String,
    pub driver: String,
}

pub ghost struct BaseTapModuleView {
    pub ifname: Seq<char>,
    pub macaddress: Seq<char>,
    pub driver: Seq<char>,
}

impl DeepView for BaseTapModule {
    type V = BaseTapModuleView;

    open spec fn deep_view(&self) -> BaseTapModuleView {
        BaseTapModuleView {
            ifname: self.ifname@,
            macaddress: self.macaddress@,
            driver: self.driver@,
        }
    }
}

/// A macvtap sub-interface of a named host interface.
pub struct MacVTapModule {
    pub base: BaseTapModule,
    pub ifhost: String,
}

pub ghost struct MacVTapModuleView {
    pub base: BaseTapModuleView,
    pub ifhost: Seq<char>,
}

impl DeepView for MacVTapModule {
    type V = MacVTapModuleView;

    open spec fn deep_view(&self) -> MacVTapModuleView {
        MacVTapModuleView { base: self.base.deep_view(), ifhost: self.ifhost@ }
    }
}

/// A plain tap device attached to a named bridge as its master.
pub struct BridgeTapModule {
    pub base: BaseTapModule,
    pub ifbr: String,
}

pub ghost struct BridgeTapModuleView {
    pub base: BaseTapModuleView,
    pub ifbr: Seq<char>,
}

impl DeepView for BridgeTapModule {
    type V = BridgeTapModuleView;

    open spec fn deep_view(&self) -> BridgeTapModuleView {
        BridgeTapModuleView { base: self.base.deep_view(), ifbr: self.ifbr@ }
    }
}

/// A PCI device rebound to the passthrough driver and handed to the guest.
pub struct VfioModule {
    pub name: String,
    pub romfile: Option<String>,
}

pub ghost struct VfioModuleView {
    pub name: Seq<char>,
    pub romfile: Option<Seq<char>>,
}

impl DeepView for VfioModule {
    type V = VfioModuleView;

    open spec fn deep_view(&self) -> VfioModuleView {
        VfioModuleView { name: self.name@, romfile: self.romfile.deep_view() }
    }
}

/// Machine type, CPU model, SMP topology, memory and display selection.
pub struct BaseModule {
    pub machine: String,
    pub cpu: Option<String>,
    pub smp: String,
    pub mem: String,
    pub mempath: Option<String>,
    pub smbios: Option<String>,
    pub vga: Option<String>,
    pub display: Option<String>,
    pub serial: Option<String>,
}

pub ghost struct BaseModuleView {
    pub machine: Seq<char>,
    pub cpu: Option<Seq<char>>,
    pub smp: Seq<char>,
    pub mem: Seq<char>,
    pub mempath: Option<Seq<char>>,
    pub smbios: Option<Seq<char>>,
    pub vga: Option<Seq<char>>,
    pub display: Option<Seq<char>>,
    pub serial: Option<Seq<char>>,
}

impl DeepView for BaseModule {
    type V = BaseModuleView;

    open spec fn deep_view(&self) -> BaseModuleView {
        BaseModuleView {
            machine: self.machine@,
            cpu: self.cpu.deep_view(),
            smp: self.smp@,
            mem: self.mem@,
            mempath: self.mempath.deep_view(),
            smbios: self.smbios.deep_view(),
            vga: self.vga.deep_view(),
            display: self.display.deep_view(),
            serial: self.serial.deep_view(),
        }
    }
}

/// SMC emulation for guests that require the vendor key.
pub struct AppleSMCModule {
    pub osk: String,
}

pub ghost struct AppleSMCModuleView {
    pub osk: Seq<char>,
}

impl DeepView for AppleSMCModule {
    type V = AppleSMCModuleView;

    open spec fn deep_view(&self) -> AppleSMCModuleView {
        AppleSMCModuleView { osk: self.osk@ }
    }
}

/// A raw-format disk backend.
pub struct StorageModule {
    pub driver: String,
    pub filename: String,
    pub media: Option<String>,
}

pub ghost struct StorageModuleView {
    pub driver: Seq<char>,
    pub filename: Seq<char>,
    pub media: Option<Seq<char>>,
}

impl DeepView for StorageModule {
    type V = StorageModuleView;

    open spec fn deep_view(&self) -> StorageModuleView {
        StorageModuleView {
            driver: self.driver@,
            filename: self.filename@,
            media: self.media.deep_view(),
        }
    }
}

/// The closed union of device-module kinds.
pub enum Module {
    MacVTap(MacVTapModule),
    BridgeTap(BridgeTapModule),
    Vfio(VfioModule),
    Base(BaseModule),
    AppleSMC(AppleSMCModule),
    Storage(StorageModule),
}

pub ghost enum ModuleView {
    MacVTap(MacVTapModuleView),
    BridgeTap(BridgeTapModuleView),
    Vfio(VfioModuleView),
    Base(BaseModuleView),
    AppleSMC(AppleSMCModuleView),
    Storage(StorageModuleView),
}

impl DeepView for Module {
    type V = ModuleView;

    open spec fn deep_view(&self) -> ModuleView {
        match self {
            Module::MacVTap(m) => ModuleView::MacVTap(m.deep_view()),
            Module::BridgeTap(m) => ModuleView::BridgeTap(m.deep_view()),
            Module::Vfio(m) => ModuleView::Vfio(m.deep_view()),
            Module::Base(m) => ModuleView::Base(m.deep_view()),
            Module::AppleSMC(m) => ModuleView::AppleSMC(m.deep_view()),
            Module::Storage(m) => ModuleView::Storage(m.deep_view()),
        }
    }
}

// ---------------------------------------------------------------------------
// Construction from configuration sections
// ---------------------------------------------------------------------------

/// The required string under `key`, or the missing-key error.
pub open spec fn spec_required(entries: Seq<EntryView>, key: Seq<char>) -> Result<
    Seq<char>,
    ConfErrorView,
> {
    match spec_get_string(entries, key) {
        Some(v) => Ok(v),
        None => Err(ConfErrorView::MissingKey { key }),
    }
}

/// The tap state shared by both variants, from a section body; keys are
/// checked in the order `interface`, `mac`, `driver`.
pub open spec fn spec_base_tap_of(entries: Seq<EntryView>) -> Result<
    BaseTapModuleView,
    ConfErrorView,
> {
    match spec_required(entries, "interface"@) {
        Err(e) => Err(e),
        Ok(ifname) => match spec_required(entries, "mac"@) {
            Err(e) => Err(e),
            Ok(macaddress) => match spec_required(entries, "driver"@) {
                Err(e) => Err(e),
                Ok(driver) => Ok(BaseTapModuleView { ifname, macaddress, driver }),
            },
        },
    }
}

pub open spec fn spec_macvtap_of(entries: Seq<EntryView>) -> Result<
    MacVTapModuleView,
    ConfErrorView,
> {
    match spec_base_tap_of(entries) {
        Err(e) => Err(e),
        Ok(base) => match spec_required(entries, "host-interface"@) {
            Err(e) => Err(e),
            Ok(ifhost) => Ok(MacVTapModuleView { base, ifhost }),
        },
    }
}

pub open spec fn spec_bridge_tap_of(entries: Seq<EntryView>) -> Result<
    BridgeTapModuleView,
    ConfErrorView,
> {
    match spec_base_tap_of(entries) {
        Err(e) => Err(e),
        Ok(base) => match spec_required(entries, "bridge"@) {
            Err(e) => Err(e),
            Ok(ifbr) => Ok(BridgeTapModuleView { base, ifbr }),
        },
    }
}

pub open spec fn spec_vfio_of(entries: Seq<EntryView>) -> Result<VfioModuleView, ConfErrorView> {
    match spec_required(entries, "dev"@) {
        Err(e) => Err(e),
        Ok(name) => Ok(
            VfioModuleView { name, romfile: spec_get_string(entries, "romfile"@) },
        ),
    }
}

pub open spec fn spec_base_of(entries: Seq<EntryView>) -> Result<BaseModuleView, ConfErrorView> {
    match spec_required(entries, "machine"@) {
        Err(e) => Err(e),
        Ok(machine) => match spec_required(entries, "smp"@) {
            Err(e) => Err(e),
            Ok(smp) => match spec_required(entries, "mem"@) {
                Err(e) => Err(e),
                Ok(mem) => Ok(
                    BaseModuleView {
                        machine,
                        cpu: spec_get_string(entries, "cpu"@),
                        smp,
                        mem,
                        mempath: spec_get_string(entries, "mepmath"@),
                        smbios: spec_get_string(entries, "smbios"@),
                        vga: spec_get_string(entries, "vga"@),
                        display: spec_get_string(entries, "display"@),
                        serial: spec_get_string(entries, "serial"@),
                    },
                ),
            },
        },
    }
}

pub open spec fn spec_apple_smc_of(entries: Seq<EntryView>) -> Result<
    AppleSMCModuleView,
    ConfErrorView,
> {
    match spec_required(entries, "osk"@) {
        Err(e) => Err(e),
        Ok(osk) => Ok(AppleSMCModuleView { osk }),
    }
}

pub open spec fn spec_storage_of(entries: Seq<EntryView>) -> Result<
    StorageModuleView,
    ConfErrorView,
> {
    match spec_required(entries, "driver"@) {
        Err(e) => Err(e),
        Ok(driver) => match spec_required(entries, "file"@) {
            Err(e) => Err(e),
            Ok(filename) => Ok(
                StorageModuleView { driver, filename, media: spec_get_string(entries, "media"@) },
            ),
        },
    }
}

/// The module that a section of the given kind yields, or the configuration
/// error: an unknown kind names the offending string, and the retired
/// `bridge` kind gets its own error directing the operator to the tap kinds.
pub open spec fn spec_create_module(heading: Seq<char>, entries: Seq<EntryView>) -> Result<
    ModuleView,
    ConfErrorView,
> {
    if heading == "macvtap"@ {
        match spec_macvtap_of(entries) {
            Ok(m) => Ok(ModuleView::MacVTap(m)),
            Err(e) => Err(e),
        }
    } else if heading == "tapbridge"@ {
        match spec_bridge_tap_of(entries) {
            Ok(m) => Ok(ModuleView::BridgeTap(m)),
            Err(e) => Err(e),
        }
    } else if heading == "pcie-passthrough"@ {
        match spec_vfio_of(entries) {
            Ok(m) => Ok(ModuleView::Vfio(m)),
            Err(e) => Err(e),
        }
    } else if heading == "base"@ {
        match spec_base_of(entries) {
            Ok(m) => Ok(ModuleView::Base(m)),
            Err(e) => Err(e),
        }
    } else if heading == "apple-smc"@ {
        match spec_apple_smc_of(entries) {
            Ok(m) => Ok(ModuleView::AppleSMC(m)),
            Err(e) => Err(e),
        }
    } else if heading == "storage"@ {
        match spec_storage_of(entries) {
            Ok(m) => Ok(ModuleView::Storage(m)),
            Err(e) => Err(e),
        }
    } else if heading == "bridge"@ {
        Err(ConfErrorView::DeprecatedKind { kind: heading })
    } else {
        Err(ConfErrorView::UnknownKind { kind: heading })
    }
}

/// The section kinds, checked in dispatch order.
pub open spec fn spec_module_of_section(sec: SectionView) -> Result<ModuleView, ConfErrorView> {
    spec_create_module(sec.kind, sec.entries)
}

impl BaseTapModule {
    pub fn new(conf: &Section) -> (r: Result<BaseTapModule, ConfError>)
        ensures
            match r {
                Ok(m) => spec_base_tap_of(conf.entries.deep_view()) == Ok::<
                    BaseTapModuleView,
                    ConfErrorView,
                >(m.deep_view()),
                Err(e) => spec_base_tap_of(conf.entries.deep_view()) == Err::<
                    BaseTapModuleView,
                    ConfErrorView,
                >(e.deep_view()),
            },
    {
        let ifname = match conf.get_string("interface") {
            Ok(v) => v,
            Err(e) => return Err(e),
        };
        let macaddress = match conf.get_string("mac") {
            Ok(v) => v,
            Err(e) => return Err(e),
        };
        let driver = match conf.get_string("driver") {
            Ok(v) => v,
            Err(e) => return Err(e),
        };
        Ok(BaseTapModule { ifname, macaddress, driver })
    }
}

impl MacVTapModule {
    pub fn new(conf: &Section) -> (r: Result<MacVTapModule, ConfError>)
        ensures
            match r {
                Ok(m) => spec_macvtap_of(conf.entries.deep_view()) == Ok::<
                    MacVTapModuleView,
                    ConfErrorView,
                >(m.deep_view()),
                Err(e) => spec_macvtap_of(conf.entries.deep_view()) == Err::<
                    MacVTapModuleView,
                    ConfErrorView,
                >(e.deep_view()),
            },
    {
        let base = match BaseTapModule::new(conf) {
            Ok(b) => b,
            Err(e) => return Err(e),
        };
        let ifhost = match conf.get_string("host-interface") {
            Ok(v) => v,
            Err(e) => return Err(e),
        };
        Ok(MacVTapModule { base, ifhost })
    }
}

impl BridgeTapModule {
    pub fn new(conf: &Section) -> (r: Result<BridgeTapModule, ConfError>)
        ensures
            match r {
                Ok(m) => spec_bridge_tap_of(conf.entries.deep_view()) == Ok::<
                    BridgeTapModuleView,
                    ConfErrorView,
                >(m.deep_view()),
                Err(e) => spec_bridge_tap_of(conf.entries.deep_view()) == Err::<
                    BridgeTapModuleView,
                    ConfErrorView,
                >(e.deep_view()),
            },
    {
        let base = match BaseTapModule::new(conf) {
            Ok(b) => b,
            Err(e) => return Err(e),
        };
        let ifbr = match conf.get_string("bridge") {
            Ok(v) => v,
            Err(e) => return Err(e),
        };
        Ok(BridgeTapModule { base, ifbr })
    }
}

impl VfioModule {
    pub fn new(conf: &Section) -> (r: Result<VfioModule, ConfError>)
        ensures
            match r {
                Ok(m) => spec_vfio_of(conf.entries.deep_view()) == Ok::<
                    VfioModuleView,
                    ConfErrorView,
                >(m.deep_view()),
                Err(e) => spec_vfio_of(conf.entries.deep_view()) == Err::<
                    VfioModuleView,
                    ConfErrorView,
                >(e.deep_view()),
            },
    {
        let name = match conf.get_string("dev") {
            Ok(v) => v,
            Err(e) => return Err(e),
        };
        Ok(VfioModule { name, romfile: conf.get_option_string("romfile") })
    }
}

impl BaseModule {
    pub fn new(conf: &Section) -> (r: Result<BaseModule, ConfError>)
        ensures
            match r {
                Ok(m) => spec_base_of(conf.entries.deep_view()) == Ok::<
                    BaseModuleView,
                    ConfErrorView,
                >(m.deep_view()),
                Err(e) => spec_base_of(conf.entries.deep_view()) == Err::<
                    BaseModuleView,
                    ConfErrorView,
                >(e.deep_view()),
            },
    {
        let machine = match conf.get_string("machine") {
            Ok(v) => v,
            Err(e) => return Err(e),
        };
        let smp = match conf.get_string("smp") {
            Ok(v) => v,
            Err(e) => return Err(e),
        };
        let mem = match conf.get_string("mem") {
            Ok(v) => v,
            Err(e) => return Err(e),
        };
        Ok(
            BaseModule {
                machine,
                cpu: conf.get_option_string("cpu"),
                smp,
                mem,
                mempath: conf.get_option_string("mepmath"),
                smbios: conf.get_option_string("smbios"),
                vga: conf.get_option_string("vga"),
                display: conf.get_option_string("display"),
                serial: conf.get_option_string("serial"),
            },
        )
    }
}

impl AppleSMCModule {
    pub fn new(conf: &Section) -> (r: Result<AppleSMCModule, ConfError>)
        ensures
            match r {
                Ok(m) => spec_apple_smc_of(conf.entries.deep_view()) == Ok::<
                    AppleSMCModuleView,
                    ConfErrorView,
                >(m.deep_view()),
                Err(e) => spec_apple_smc_of(conf.entries.deep_view()) == Err::<
                    AppleSMCModuleView,
                    ConfErrorView,
                >(e.deep_view()),
            },
    {
        let osk = match conf.get_string("osk") {
            Ok(v) => v,
            Err(e) => return Err(e),
        };
        Ok(AppleSMCModule { osk })
    }
}

impl StorageModule {
    pub fn new(conf: &Section) -> (r: Result<StorageModule, ConfError>)
        ensures
            match r {
                Ok(m) => spec_storage_of(conf.entries.deep_view()) == Ok::<
                    StorageModuleView,
                    ConfErrorView,
                >(m.deep_view()),
                Err(e) => spec_storage_of(conf.entries.deep_view()) == Err::<
                    StorageModuleView,
                    ConfErrorView,
                >(e.deep_view()),
            },
    {
        let driver = match conf.get_string("driver") {
            Ok(v) => v,
            Err(e) => return Err(e),
        };
        let filename = match conf.get_string("file") {
            Ok(v) => v,
            Err(e) => return Err(e),
        };
        Ok(StorageModule { driver, filename, media: conf.get_option_string("media") })
    }
}

/// One module instance from a section of kind `heading`, or the
/// configuration error that aborts the load.
pub fn create_module(heading: &str, section: &Section) -> (r: Result<Module, ConfError>)
    ensures
        match r {
            Ok(m) => spec_create_module(heading@, section.entries.deep_view()) == Ok::<
                ModuleView,
                ConfErrorView,
            >(m.deep_view()),
            Err(e) => spec_create_module(heading@, section.entries.deep_view()) == Err::<
                ModuleView,
                ConfErrorView,
            >(e.deep_view()),
        },
{
    if str_eq(heading, "macvtap") {
        match MacVTapModule::new(section) {
            Ok(m) => Ok(Module::MacVTap(m)),
            Err(e) => Err(e),
        }
    } else if str_eq(heading, "tapbridge") {
        match BridgeTapModule::new(section) {
            Ok(m) => Ok(Module::BridgeTap(m)),
            Err(e) => Err(e),
        }
    } else if str_eq(heading, "pcie-passthrough") {
        match VfioModule::new(section) {
            Ok(m) => Ok(Module::Vfio(m)),
            Err(e) => Err(e),
        }
    } else if str_eq(heading, "base") {
        match BaseModule::new(section) {
            Ok(m) => Ok(Module::Base(m)),
            Err(e) => Err(e),
        }
    } else if str_eq(heading, "apple-smc") {
        match AppleSMCModule::new(section) {
            Ok(m) => Ok(Module::AppleSMC(m)),
            Err(e) => Err(e),
        }
    } else if str_eq(heading, "storage") {
        match StorageModule::new(section) {
            Ok(m) => Ok(Module::Storage(m)),
            Err(e) => Err(e),
        }
    } else if str_eq(heading, "bridge") {
        Err(ConfError::DeprecatedKind { kind: heading.to_owned() })
    } else {
        Err(ConfError::UnknownKind { kind: heading.to_owned() })
    }
}

// ---------------------------------------------------------------------------
// Launch arguments
// ---------------------------------------------------------------------------

/// A flag/value pair when the value is configured, nothing otherwise.
pub open spec fn spec_opt_pair(flag: Seq<char>, v: Option<Seq<char>>) -> Seq<Seq<char>> {
    match v {
        Some(s) => seq![flag, s],
        None => seq![],
    }
}

/// The configured value, or the `none` selection when unset.
pub open spec fn spec_or_none(v: Option<Seq<char>>) -> Seq<char> {
    match v {
        Some(s) => s,
        None => "none"@,
    }
}

/// The device argument pair shared by both tap variants.
pub open spec fn spec_tap_device_args(t: BaseTapModuleView) -> Seq<Seq<char>> {
    seq!["-device"@, t.driver + ",netdev="@ + t.ifname + ",mac="@ + t.macaddress]
}

/// The macvtap arguments: a netdev referencing the inherited descriptor
/// number, then the device pair.
pub open spec fn spec_macvtap_args(m: MacVTapModuleView, fd: int) -> Seq<Seq<char>> {
    seq![
        "-netdev"@,
        "tap,id="@ + m.base.ifname + ",fd="@ + spec_u64_dec(fd) + ",vhost=on"@,
    ] + spec_tap_device_args(m.base)
}

/// The bridge-tap arguments: a netdev referencing the interface by name,
/// then the device pair.
pub open spec fn spec_bridge_tap_args(m: BridgeTapModuleView) -> Seq<Seq<char>> {
    seq![
        "-netdev"@,
        "tap,id="@ + m.base.ifname + ",ifname="@ + m.base.ifname + ",script=no,downscript=no"@,
    ] + spec_tap_device_args(m.base)
}

/// The passthrough device argument, with the option ROM and multifunction
/// flag when a ROM is configured.
pub open spec fn spec_vfio_args(m: VfioModuleView) -> Seq<Seq<char>> {
    seq![
        "-device"@,
        "vfio-pci,host="@ + m.name + (match m.romfile {
            Some(r) => ",romfile="@ + r + ",multifunction=on"@,
            None => Seq::<char>::empty(),
        }),
    ]
}

/// The base machine arguments: machine type, SMP topology, memory (always
/// backed by the hugepage mount, then any configured backing path), the
/// optional CPU model, SMBIOS blob and serial selection, and the VGA/display
/// selections defaulting to `none`.
pub open spec fn spec_base_args(m: BaseModuleView) -> Seq<Seq<char>> {
    seq!["-machine"@, m.machine, "-smp"@, m.smp, "-m"@, m.mem, "-mem-path"@, "/dev/hugepages"@]
        + spec_opt_pair("-mem-path"@, m.mempath) + spec_opt_pair("-cpu"@, m.cpu) + spec_opt_pair(
        "-smbios"@,
        m.smbios,
    ) + spec_opt_pair("-serial"@, m.serial) + seq![
        "-vga"@,
        spec_or_none(m.vga),
        "-display"@,
        spec_or_none(m.display),
    ]
}

pub open spec fn spec_apple_smc_args(m: AppleSMCModuleView) -> Seq<Seq<char>> {
    seq!["-device"@, "isa-applesmc,osk="@ + m.osk]
}

pub open spec fn spec_storage_args(m: StorageModuleView) -> Seq<Seq<char>> {
    seq![
        "-drive"@,
        "if="@ + m.driver + ",format=raw,aio=native,cache.direct=on,file="@ + m.filename
            + (match m.media {
            Some(s) => ",media="@ + s,
            None => Seq::<char>::empty(),
        }),
    ]
}

/// The launch arguments of a module. The tap descriptor number is consumed
/// only by the macvtap variant, which must be handed one.
pub open spec fn spec_module_args(m: ModuleView, tap_fd: Option<u64>) -> Seq<Seq<char>> {
    match m {
        ModuleView::MacVTap(t) => match tap_fd {
            Some(fd) => spec_macvtap_args(t, fd as int),
            None => seq![],
        },
        ModuleView::BridgeTap(t) => spec_bridge_tap_args(t),
        ModuleView::Vfio(v) => spec_vfio_args(v),
        ModuleView::Base(b) => spec_base_args(b),
        ModuleView::AppleSMC(a) => spec_apple_smc_args(a),
        ModuleView::Storage(s) => spec_storage_args(s),
    }
}

/// A two-element argument vector.
fn pair(a: String, b: String) -> (r: Vec<String>)
    ensures
        r.deep_view() =~= seq![a@, b@],
{
    let mut v: Vec<String> = Vec::new();
    v.push(a);
    v.push(b);
    v
}

impl BaseTapModule {
    /// The device argument pair binding the descriptor or interface to the
    /// chosen MAC and device model.
    pub fn startup_args_base(&self) -> (r: Vec<String>)
        ensures
            r.deep_view() == spec_tap_device_args(self.deep_view()),
    {
        let mut d = self.driver.clone();
        d.append(",netdev=");
        d.append(self.ifname.as_str());
        d.append(",mac=");
        d.append(self.macaddress.as_str());
        let r = pair("-device".to_owned(), d);
        proof {
            assert(r.deep_view() =~= spec_tap_device_args(self.deep_view()));
        }
        r
    }
}

impl MacVTapModule {
    /// The launch arguments, given the raw descriptor number of the opened
    /// tap device node that the child process will inherit.
    pub fn startup_args(&self, fd: u64) -> (r: Vec<String>)
        ensures
            r.deep_view() == spec_macvtap_args(self.deep_view(), fd as int),
    {
        let mut n = "tap,id=".to_owned();
        n.append(self.base.ifname.as_str());
        n.append(",fd=");
        let fd_dec = u64_to_dec(fd);
        n.append(fd_dec.as_str());
        n.append(",vhost=on");
        let mut r = pair("-netdev".to_owned(), n);
        let mut dev = self.base.startup_args_base();
        r.append(&mut dev);
        proof {
            assert(r.deep_view() =~= spec_macvtap_args(self.deep_view(), fd as int));
        }
        r
    }
}

impl BridgeTapModule {
    pub fn startup_args(&self) -> (r: Vec<String>)
        ensures
            r.deep_view() == spec_bridge_tap_args(self.deep_view()),
    {
        let mut n = "tap,id=".to_owned();
        n.append(self.base.ifname.as_str());
        n.append(",ifname=");
        n.append(self.base.ifname.as_str());
        n.append(",script=no,downscript=no");
        let mut r = pair("-netdev".to_owned(), n);
        let mut dev = self.base.startup_args_base();
        r.append(&mut dev);
        proof {
            assert(r.deep_view() =~= spec_bridge_tap_args(self.deep_view()));
        }
        r
    }
}

impl VfioModule {
    pub fn startup_args(&self) -> (r: Vec<String>)
        ensures
            r.deep_view() == spec_vfio_args(self.deep_view()),
    {
        let mut detail = "vfio-pci,host=".to_owned();
        detail.append(self.name.as_str());
        match &self.romfile {
            Some(rom) => {
                detail.append(",romfile=");
                detail.append(rom.as_str());
                detail.append(",multifunction=on");
                proof {
                    assert(detail@ =~= "vfio-pci,host="@ + self.name@ + (",romfile="@ + rom@
                        + ",multifunction=on"@));
                }
            },
            None => {},
        }
        let r = pair("-device".to_owned(), detail);
        proof {
            if self.romfile is None {
                assert(("vfio-pci,host="@ + self.name@) + Seq::<char>::empty() =~= "vfio-pci,host="@
                    + self.name@);
            }
            assert(r.deep_view() =~= spec_vfio_args(self.deep_view()));
        }
        r
    }
}

impl BaseModule {
    pub fn startup_args(&self) -> (r: Vec<String>)
        ensures
            r.deep_view() == spec_base_args(self.deep_view()),
    {
        let mut r: Vec<String> = Vec::new();
        r.push("-machine".to_owned());
        r.push(self.machine.clone());
        r.push("-smp".to_owned());
        r.push(self.smp.clone());
        r.push("-m".to_owned());
        r.push(self.mem.clone());
        r.push("-mem-path".to_owned());
        r.push("/dev/hugepages".to_owned());
        match &self.mempath {
            Some(p) => {
                r.push("-mem-path".to_owned());
                r.push(p.clone());
            },
            None => {},
        }
        match &self.cpu {
            Some(c) => {
                r.push("-cpu".to_owned());
                r.push(c.clone());
            },
            None => {},
        }
        match &self.smbios {
            Some(s) => {
                r.push("-smbios".to_owned());
                r.push(s.clone());
            },
            None => {},
        }
        match &self.serial {
            Some(s) => {
                r.push("-serial".to_owned());
                r.push(s.clone());
            },
            None => {},
        }
        r.push("-vga".to_owned());
        r.push(
            match &self.vga {
                Some(v) => v.clone(),
                None => "none".to_owned(),
            },
        );
        r.push("-display".to_owned());
        r.push(
            match &self.display {
                Some(d) => d.clone(),
                None => "none".to_owned(),
            },
        );
        proof {
            assert(r.deep_view() =~= spec_base_args(self.deep_view()));
        }
        r
    }
}

impl AppleSMCModule {
    pub fn startup_args(&self) -> (r: Vec<String>)
        ensures
            r.deep_view() == spec_apple_smc_args(self.deep_view()),
    {
        let mut d = "isa-applesmc,osk=".to_owned();
        d.append(self.osk.as_str());
        let r = pair("-device".to_owned(), d);
        proof {
            assert(r.deep_view() =~= spec_apple_smc_args(self.deep_view()));
        }
        r
    }
}

impl StorageModule {
    pub fn startup_args(&self) -> (r: Vec<String>)
        ensures
            r.deep_view() == spec_storage_args(self.deep_view()),
    {
        let mut d = "if=".to_owned();
        d.append(self.driver.as_str());
        d.append(",format=raw,aio=native,cache.direct=on,file=");
        d.append(self.filename.as_str());
        match &self.media {
            Some(m) => {
                d.append(",media=");
                d.append(m.as_str());
                proof {
                    assert(d@ =~= "if="@ + self.driver@
                        + ",format=raw,aio=native,cache.direct=on,file="@ + self.filename@ + (
                    ",media="@ + m@));
                }
            },
            None => {},
        }
        let r = pair("-drive".to_owned(), d);
        proof {
            if self.media is None {
                assert(("if="@ + self.driver@ + ",format=raw,aio=native,cache.direct=on,file="@
                    + self.filename@) + Seq::<char>::empty() =~= "if="@ + self.driver@
                    + ",format=raw,aio=native,cache.direct=on,file="@ + self.filename@);
            }
            assert(r.deep_view() =~= spec_storage_args(self.deep_view()));
        }
        r
    }
}

impl Module {
    /// The launch arguments of this module. A macvtap module must be handed
    /// the raw descriptor number of its opened tap device node; every other
    /// kind takes none.
    pub fn startup_args(&self, tap_fd: Option<u64>) -> (r: Vec<String>)
        requires
            self is MacVTap ==> tap_fd is Some,
        ensures
            r.deep_view() == spec_module_args(self.deep_view(), tap_fd),
    {
        match self {
            Module::MacVTap(m) => match tap_fd {
                Some(fd) => m.startup_args(fd),
                None => Vec::new(),
            },
            Module::BridgeTap(m) => m.startup_args(),
            Module::Vfio(m) => m.startup_args(),
            Module::Base(m) => m.startup_args(),
            Module::AppleSMC(m) => m.startup_args(),
            Module::Storage(m) => m.startup_args(),
        }
    }
}

} // verus!
